use perseus_state::error_views::{
    browser_error_context, contains_text, default_error_view, default_takes_full_page, engine_error_context,
    require_state, DefaultErrorView, ErrorContext, ErrorPosition, ServerErrorData,
};
use perseus_state::errors::{ClientError, ClientInvariantError};
use perseus_state::path::PathWithoutLocale;
use perseus_state::state::template_state::TemplateState;
use perseus_state::template::entity::{RevalidationCheck, Template};
use perseus_state::template::widget_component::{Capsule, RouteMatch};

#[test]
fn revalidation_waits_for_the_duration() {
    let t = Template::build("news").declare_build_state().revalidate_after(60);
    assert_eq!(t.revalidation_check(1000, 1060), RevalidationCheck::Fresh);
    assert_eq!(t.revalidation_check(1000, 1061), RevalidationCheck::Revalidate);
    assert_eq!(t.revalidation_check(1000, 900), RevalidationCheck::Fresh);
    let both = Template::build("news").revalidate_after(60).declare_should_revalidate();
    assert_eq!(both.revalidation_check(1000, 1030), RevalidationCheck::Fresh);
    assert_eq!(both.revalidation_check(1000, 2000), RevalidationCheck::AskPredicate);
}

#[test]
fn predicate_alone_is_asked_every_time() {
    let t = Template::build("news").declare_should_revalidate();
    assert!(t.revalidates());
    assert_eq!(t.revalidation_check(5, 5), RevalidationCheck::AskPredicate);
    let none = Template::build("static");
    assert_eq!(none.revalidation_check(0, u64::MAX), RevalidationCheck::Fresh);
}

#[test]
fn widget_route_must_name_the_capsule() {
    let c = Capsule::build("toc");
    let path = PathWithoutLocale("__capsule/toc".to_string());
    let good = RouteMatch { entity_path: "__capsule/toc".to_string(), locale: "en-US".to_string(), was_incremental_match: false };
    assert_eq!(c.check_widget_route(&path, Some(good)).unwrap().locale, "en-US");
    let bad = RouteMatch { entity_path: "docs".to_string(), locale: "en-US".to_string(), was_incremental_match: false };
    assert!(matches!(
        c.check_widget_route(&path, Some(bad)),
        Err(ClientError::InvariantError(ClientInvariantError::BadWidgetRouteMatch { .. }))
    ));
    match c.check_widget_route(&path, None) {
        Err(ClientError::InvariantError(ClientInvariantError::BadWidgetRouteMatch { path })) => {
            assert_eq!(path, "__capsule/toc")
        }
        other => panic!("expected a bad route, got {:?}", other),
    }
}

#[test]
fn error_contexts() {
    assert_eq!(browser_error_context(false, true), ErrorContext::Static);
    assert_eq!(browser_error_context(true, false), ErrorContext::WithReactor);
    assert_eq!(browser_error_context(true, true), ErrorContext::Full);
    assert_eq!(engine_error_context(true), ErrorContext::FullNoGlobal);
    assert_eq!(engine_error_context(false), ErrorContext::WithReactor);
    assert_ne!(ErrorPosition::Page, ErrorPosition::Widget);
}

#[test]
fn default_error_views() {
    let nf = ClientError::ServerError { status: 404, message: "x".to_string() };
    assert_eq!(default_error_view(&nf), DefaultErrorView::NotFound);
    let other = ClientError::ServerError { status: 500, message: "x".to_string() };
    assert_eq!(default_error_view(&other), DefaultErrorView::General);
    assert!(default_takes_full_page(&other));
    let p = ClientError::Panic("thread 'main': cannot modify the panic hook from a panicking thread".to_string());
    assert_eq!(default_error_view(&p), DefaultErrorView::Panic { hook_overridden: true });
    assert!(!default_takes_full_page(&p));
    let q = ClientError::Panic("index out of bounds".to_string());
    assert_eq!(default_error_view(&q), DefaultErrorView::Panic { hook_overridden: false });
}

#[test]
fn text_search() {
    assert!(contains_text("abcabd", "abd"));
    assert!(!contains_text("abcab", "abd"));
    assert!(contains_text("abc", ""));
    assert!(!contains_text("", "a"));
}

#[test]
fn server_error_data_becomes_a_client_error() {
    let d = ServerErrorData::new(418, "teapot".to_string());
    assert_eq!(d.status(), 418);
    assert_eq!(d.msg(), "teapot");
    match d.to_client_error() {
        ClientError::ServerError { status, message } => {
            assert_eq!(status, 418);
            assert_eq!(message, "teapot");
        }
        other => panic!("unexpected {:?}", other),
    }
}

#[test]
fn head_functions_need_state() {
    assert!(matches!(
        require_state(TemplateState::empty()),
        Err(ClientError::InvariantError(ClientInvariantError::NoState))
    ));
    assert_eq!(require_state(TemplateState::from_str("2").unwrap()).unwrap().as_json(), "2");
}
