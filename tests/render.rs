use perseus_state::error_views::ServerErrorData;
use perseus_state::errors::{ClientError, ServerError, StoreError};
use perseus_state::keyed::Keyed;
use perseus_state::path::PathWithoutLocale;
use perseus_state::render::{BuildContext, RenderMode, RenderStatus, RequestContext, WidgetStep};
use perseus_state::state::template_state::TemplateState;
use perseus_state::template::entity::Template;
use perseus_state::template::widget_component::Capsule;

fn pwl(s: &str) -> PathWithoutLocale {
    PathWithoutLocale(s.to_string())
}

fn cfg(entries: &[(&str, &str)]) -> Keyed<String> {
    let mut k = Keyed::new();
    for (p, c) in entries {
        k.insert(p.to_string(), c.to_string());
    }
    k
}

#[test]
fn build_reads_configured_widgets_from_the_store() {
    let toc = Capsule::build("toc").inner.declare_build_state();
    let mut ctx = BuildContext::new(cfg(&[("__capsule/toc", "toc")]));
    let step = ctx.resolve_widget(&toc, &pwl("__capsule/toc"), "en-US");
    match step {
        WidgetStep::ReadStore { key, capsule_name } => {
            assert_eq!(key, "static/en-US-__capsule%2Ftoc.json");
            assert_eq!(capsule_name, "toc");
        }
        other => panic!("expected a store read, got {:?}", other),
    }
    let done = ctx.finish_widget(&pwl("__capsule/toc"), "en-US", "toc".to_string(), Ok("[ 1 ]".to_string()));
    match done {
        WidgetStep::Render { path, state } => {
            assert_eq!(path.0, "en-US/__capsule/toc");
            assert_eq!(state.as_json(), "[1]");
        }
        other => panic!("expected a render, got {:?}", other),
    }
    let (name, st) = ctx.widget_states.get("en-US/__capsule/toc").unwrap();
    assert_eq!(name, "toc");
    assert_eq!(st.as_json(), "[1]");
    assert!(matches!(ctx.render_status, RenderStatus::Good));
}

#[test]
fn missing_build_artifact_is_empty_state() {
    let mut ctx = BuildContext::new(cfg(&[("__capsule/toc", "toc")]));
    let read = Err(StoreError::NotFound { name: "static/x.json".to_string() });
    let done = ctx.finish_widget(&pwl("__capsule/toc"), "xx-XX", "toc".to_string(), read);
    match done {
        WidgetStep::Render { path, state } => {
            assert_eq!(path.0, "__capsule/toc");
            assert!(state.is_empty());
        }
        other => panic!("expected a render, got {:?}", other),
    }
    assert!(matches!(ctx.render_status, RenderStatus::Good));
}

#[test]
fn unreadable_build_artifact_fails_the_page() {
    let mut ctx = BuildContext::new(cfg(&[("__capsule/toc", "toc")]));
    let read = Err(StoreError::ReadFailed { name: "k".to_string(), source: "denied".to_string() });
    let done = ctx.finish_widget(&pwl("__capsule/toc"), "en-US", "toc".to_string(), read);
    assert!(matches!(done, WidgetStep::Empty));
    assert!(matches!(ctx.render_status, RenderStatus::Failed(ServerError::StoreError(StoreError::ReadFailed { .. }))));
    assert_eq!(ctx.widget_states.len(), 0);
}

#[test]
fn malformed_build_artifact_fails_the_page() {
    let mut ctx = BuildContext::new(cfg(&[]));
    let done = ctx.finish_widget(&pwl("w"), "en-US", "w".to_string(), Ok("{oops".to_string()));
    assert!(matches!(done, WidgetStep::Empty));
    assert!(matches!(ctx.render_status, RenderStatus::Failed(ServerError::InvalidPageState { .. })));
}

#[test]
fn failed_page_skips_remaining_widgets() {
    let toc = Capsule::build("toc").inner;
    let mut ctx = BuildContext::new(cfg(&[("__capsule/toc", "toc")]));
    ctx.record_failure(ClientError::Panic("bad".to_string()));
    let step = ctx.resolve_widget(&toc, &pwl("__capsule/toc"), "en-US");
    assert!(matches!(step, WidgetStep::Empty));
    let other = ctx.resolve_widget(&toc, &pwl("__capsule/unknown"), "en-US");
    assert!(matches!(other, WidgetStep::Empty));
    assert!(ctx.possibly_incremental_paths.is_empty());
    assert!(matches!(ctx.render_status, RenderStatus::Failed(ServerError::ClientError(ClientError::Panic(_)))));
}

#[test]
fn request_state_widget_cancels_the_build() {
    let live = Capsule::build("live").inner.declare_request_state();
    let reval = Capsule::build("reval").inner.declare_build_state().revalidate_after(60);
    let mut ctx = BuildContext::new(cfg(&[("__capsule/live", "live"), ("__capsule/reval", "reval")]));
    assert!(matches!(ctx.resolve_widget(&live, &pwl("__capsule/live"), "en-US"), WidgetStep::Empty));
    assert!(matches!(ctx.render_status, RenderStatus::Cancelled));
    let mut ctx2 = BuildContext::new(cfg(&[("__capsule/reval", "reval")]));
    assert!(matches!(ctx2.resolve_widget(&reval, &pwl("__capsule/reval"), "en-US"), WidgetStep::Empty));
    assert!(matches!(ctx2.render_status, RenderStatus::Cancelled));
}

#[test]
fn unconfigured_widgets_are_put_aside() {
    let c = Capsule::build("comments").inner;
    let mut ctx = BuildContext::new(cfg(&[]));
    assert!(matches!(ctx.resolve_widget(&c, &pwl("__capsule/comments"), "en-US"), WidgetStep::Empty));
    assert!(matches!(ctx.resolve_widget(&c, &pwl("__capsule/comments/2"), "en-US"), WidgetStep::Empty));
    let paths: Vec<&str> = ctx.possibly_incremental_paths.iter().map(|p| p.0.as_str()).collect();
    assert_eq!(paths, vec!["__capsule/comments", "__capsule/comments/2"]);
    assert!(matches!(ctx.render_status, RenderStatus::Good));
}

#[test]
fn request_pass_renders_known_and_collects_unknown() {
    let mut ctx = RequestContext::new();
    ctx.record_fetched(
        perseus_state::path::PathMaybeWithLocale("en-US/__capsule/a".to_string()),
        Ok(TemplateState::from_str("{\"x\":1}").unwrap()),
    );
    ctx.record_fetched(
        perseus_state::path::PathMaybeWithLocale("en-US/__capsule/b".to_string()),
        Err(ServerErrorData::new(500, "broken".to_string())),
    );
    match ctx.resolve_widget(&pwl("__capsule/a"), "en-US") {
        WidgetStep::Render { path, state } => {
            assert_eq!(path.0, "en-US/__capsule/a");
            assert_eq!(state.as_json(), "{\"x\":1}");
        }
        other => panic!("expected a render, got {:?}", other),
    }
    match ctx.resolve_widget(&pwl("__capsule/b"), "en-US") {
        WidgetStep::Error(ClientError::ServerError { status, message }) => {
            assert_eq!(status, 500);
            assert_eq!(message, "broken");
        }
        other => panic!("expected an error view, got {:?}", other),
    }
    assert!(matches!(ctx.resolve_widget(&pwl("__capsule/c"), "en-US"), WidgetStep::Empty));
    assert!(matches!(ctx.resolve_widget(&pwl("__capsule/c"), "en-US"), WidgetStep::Empty));
    assert!(matches!(ctx.resolve_widget(&pwl("__capsule/d"), "en-US"), WidgetStep::Empty));
    assert_eq!(ctx.unresolved_widget_accumulator.len(), 3);
    let batch = ctx.take_unresolved("en-US");
    let names: Vec<&str> = batch.iter().map(|p| p.0.as_str()).collect();
    assert_eq!(names, vec!["en-US/__capsule/c", "en-US/__capsule/d"]);
    assert!(ctx.unresolved_widget_accumulator.is_empty());
}

#[test]
fn render_mode_dispatches_to_its_context() {
    let toc = Capsule::build("toc").inner;
    let mut mode = RenderMode::Request(RequestContext::new());
    assert!(matches!(mode.engine_widget(&toc, &pwl("__capsule/toc"), "en-US"), WidgetStep::Empty));
    match &mode {
        RenderMode::Request(ctx) => assert_eq!(ctx.unresolved_widget_accumulator.len(), 1),
        _ => panic!("mode changed"),
    }
    let mut build = RenderMode::Build(BuildContext::new(cfg(&[])));
    assert!(matches!(build.engine_widget(&toc, &pwl("__capsule/toc"), "en-US"), WidgetStep::Empty));
    match &build {
        RenderMode::Build(ctx) => assert_eq!(ctx.possibly_incremental_paths.len(), 1),
        _ => panic!("mode changed"),
    }
}

#[test]
fn template_builders_set_flags() {
    let t = Template::build("docs").declare_build_state().incremental_generation().allow_rescheduling();
    assert_eq!(t.get_path(), "docs");
    assert!(t.uses_build_state());
    assert!(t.uses_incremental());
    assert!(t.can_be_rescheduled());
    assert!(!t.uses_request_state());
    assert!(!t.revalidates());
    let built = t.build();
    assert_eq!(built.inner().get_path(), "docs");
}
