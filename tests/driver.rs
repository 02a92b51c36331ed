use perseus_state::errors::ServerError;
use perseus_state::keyed::Keyed;
use perseus_state::path::{PathMaybeWithLocale, PathWithoutLocale};
use perseus_state::driver::{
    end_build_pass, incremental_action, BuildPassAction, page_verdict, IncrementalAction, PageVerdict, PassLimit, PassVerdict, RequestPassAction,
    RequestResolver,
};
use perseus_state::render::{BuildContext, RenderStatus, RequestContext, WidgetStep};
use perseus_state::state::template_state::TemplateState;
use perseus_state::template::entity::Template;
use perseus_state::template::widget_component::Capsule;
use std::collections::HashMap;

fn pwl(s: &str) -> PathWithoutLocale {
    PathWithoutLocale(s.to_string())
}

#[test]
fn verdicts_follow_the_status() {
    let strict = Template::build("docs");
    let flexible = Template::build("docs").allow_rescheduling();
    assert!(matches!(page_verdict(RenderStatus::Good, &strict), PageVerdict::Render));
    assert!(matches!(page_verdict(RenderStatus::Cancelled, &flexible), PageVerdict::Reschedule));
    match page_verdict(RenderStatus::Cancelled, &strict) {
        PageVerdict::Fail(ServerError::CannotReschedule { template_name }) => assert_eq!(template_name, "docs"),
        other => panic!("expected a failure, got {:?}", other),
    }
    let failed = RenderStatus::Failed(ServerError::PassLimitReached { passes: 3 });
    assert!(matches!(page_verdict(failed, &flexible), PageVerdict::Fail(ServerError::PassLimitReached { passes: 3 })));
}

#[test]
fn incremental_actions() {
    let page = Template::build("docs");
    let gen = Capsule::build("g").inner.incremental_generation().declare_build_state();
    let not_inc = Capsule::build("n").inner.declare_build_state();
    assert!(matches!(incremental_action(&page, Some(&gen), &pwl("__capsule/g/1")), IncrementalAction::Generate));
    match incremental_action(&page, Some(&not_inc), &pwl("__capsule/n/1")) {
        IncrementalAction::Fail(ServerError::UnresolvedWidget { path }) => assert_eq!(path, "__capsule/n/1"),
        other => panic!("expected a failure, got {:?}", other),
    }
    assert!(matches!(
        incremental_action(&page, None, &pwl("__capsule/none")),
        IncrementalAction::Fail(ServerError::UnresolvedWidget { .. })
    ));
}

#[test]
fn docs_page_defers_and_reschedules_request_state_comments() {
    let toc = Capsule::build("toc").inner.declare_build_state();
    let comments = Capsule::build("comments").inner.declare_request_state().incremental_generation();
    let mut render_cfg = Keyed::new();
    render_cfg.insert("__capsule/toc".to_string(), "toc".to_string());
    let mut ctx = BuildContext::new(render_cfg);
    // Pass 1: `toc` resolves from the store, `comments` is deferred.
    let key = match ctx.resolve_widget(&toc, &pwl("__capsule/toc"), "en-US") {
        WidgetStep::ReadStore { key, .. } => key,
        other => panic!("expected a store read, got {:?}", other),
    };
    assert_eq!(key, "static/en-US-__capsule%2Ftoc.json");
    let toc_step = ctx.finish_widget(&pwl("__capsule/toc"), "en-US", "toc".to_string(), Ok("{\"entries\":[]}".to_string()));
    assert!(matches!(toc_step, WidgetStep::Render { .. }));
    assert!(matches!(ctx.resolve_widget(&comments, &pwl("__capsule/comments"), "en-US"), WidgetStep::Empty));
    assert_eq!(ctx.possibly_incremental_paths.len(), 1);
    assert!(matches!(ctx.render_status, RenderStatus::Good));
    // Pass 2: the incremental attempt on `comments` needs request state.
    let flexible = Template::build("docs").allow_rescheduling();
    let strict = Template::build("docs");
    let deferred = &ctx.possibly_incremental_paths[0];
    assert!(matches!(incremental_action(&flexible, Some(&comments), deferred), IncrementalAction::Reschedule));
    assert!(matches!(
        incremental_action(&strict, Some(&comments), deferred),
        IncrementalAction::Fail(ServerError::CannotReschedule { .. })
    ));
    assert!(ctx.widget_states.get("en-US/__capsule/comments").is_none());
}

#[test]
fn pass_limit_counts_passes() {
    let mut limit = PassLimit::new(3);
    assert_eq!(limit.record_pass(true), PassVerdict::Again);
    assert_eq!(limit.record_pass(false), PassVerdict::Done);
    assert_eq!(limit.passes, 2);
}

#[test]
fn self_referential_widget_stops_at_the_limit() {
    // A widget that contains itself finds something new on every pass.
    let mut limit = PassLimit::new(5);
    let mut verdicts = Vec::new();
    loop {
        let v = limit.record_pass(true);
        verdicts.push(v);
        if v != PassVerdict::Again {
            break;
        }
    }
    assert_eq!(verdicts.len(), 5);
    assert_eq!(verdicts[4], PassVerdict::LimitReached);
    assert!(matches!(limit.limit_error(), ServerError::PassLimitReached { passes: 5 }));
}

fn render(ctx: &mut RequestContext, tree: &HashMap<&str, Vec<&str>>, widgets: &[&str]) {
    for w in widgets {
        if let WidgetStep::Render { .. } = ctx.resolve_widget(&pwl(w), "en-US") {
            render(ctx, tree, tree.get(w).map(|v| v.as_slice()).unwrap_or(&[]));
        }
    }
}

#[test]
fn tree_of_depth_three_resolves_in_three_fetching_passes() {
    let mut tree: HashMap<&str, Vec<&str>> = HashMap::new();
    tree.insert("a", vec!["b", "c"]);
    tree.insert("b", vec!["d"]);
    tree.insert("c", vec!["d"]);
    let roots = ["a"];
    let mut ctx = RequestContext::new();
    let mut limit = PassLimit::new(10);
    let mut fetching_passes = 0;
    loop {
        render(&mut ctx, &tree, &roots);
        let batch = ctx.take_unresolved("en-US");
        let verdict = limit.record_pass(!batch.is_empty());
        if verdict != PassVerdict::Again {
            assert_eq!(verdict, PassVerdict::Done);
            break;
        }
        fetching_passes += 1;
        for p in batch {
            let st = TemplateState::from_str("1").unwrap();
            ctx.record_fetched(PathMaybeWithLocale(p.0.clone()), Ok(st));
        }
    }
    assert_eq!(fetching_passes, 3);
    assert_eq!(ctx.widget_states.len(), 4);
}

#[test]
fn request_resolver_fetches_level_by_level() {
    let mut tree: HashMap<&str, Vec<&str>> = HashMap::new();
    tree.insert("a", vec!["b"]);
    tree.insert("b", vec!["c"]);
    let mut resolver = RequestResolver::new(8);
    let mut batches: Vec<Vec<String>> = Vec::new();
    loop {
        render(&mut resolver.ctx, &tree, &["a", "a"]);
        match resolver.end_pass("en-US") {
            RequestPassAction::Fetch(batch) => {
                batches.push(batch.iter().map(|p| p.0.clone()).collect());
                for p in batch {
                    resolver.ctx.record_fetched(p, Ok(TemplateState::from_str("0").unwrap()));
                }
            }
            RequestPassAction::Done => break,
            RequestPassAction::Exceeded(e) => panic!("unexpected {:?}", e),
        }
    }
    assert_eq!(batches, vec![vec!["en-US/a".to_string()], vec!["en-US/b".to_string()], vec!["en-US/c".to_string()]]);
    assert_eq!(resolver.limit.passes, 4);
}

#[test]
fn request_resolver_gives_up_at_the_limit() {
    let mut resolver = RequestResolver::new(2);
    let mut n = 0;
    let outcome = loop {
        // Every pass meets a widget never seen before.
        n += 1;
        let name = format!("w{}", n);
        resolver.ctx.resolve_widget(&pwl(&name), "en-US");
        match resolver.end_pass("en-US") {
            RequestPassAction::Fetch(batch) => {
                for p in batch {
                    resolver.ctx.record_fetched(p, Ok(TemplateState::empty()));
                }
            }
            other => break other,
        }
    };
    assert!(matches!(outcome, RequestPassAction::Exceeded(ServerError::PassLimitReached { passes: 2 })));
}

#[test]
fn build_pass_outcomes() {
    let page = Template::build("docs").allow_rescheduling();
    let mut limit = PassLimit::new(2);
    match end_build_pass(RenderStatus::Good, vec![pwl("__capsule/c")], &page, &mut limit) {
        BuildPassAction::Incremental(paths) => assert_eq!(paths[0].0, "__capsule/c"),
        other => panic!("expected incremental work, got {:?}", other),
    }
    assert!(matches!(
        end_build_pass(RenderStatus::Good, vec![pwl("__capsule/c")], &page, &mut limit),
        BuildPassAction::Finished(PageVerdict::Fail(ServerError::PassLimitReached { passes: 2 }))
    ));
    let mut fresh = PassLimit::new(2);
    assert!(matches!(
        end_build_pass(RenderStatus::Good, Vec::new(), &page, &mut fresh),
        BuildPassAction::Finished(PageVerdict::Render)
    ));
    let mut other = PassLimit::new(2);
    assert!(matches!(
        end_build_pass(RenderStatus::Cancelled, vec![pwl("x")], &page, &mut other),
        BuildPassAction::Finished(PageVerdict::Reschedule)
    ));
}
