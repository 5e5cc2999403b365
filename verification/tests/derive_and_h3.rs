use poem::handler::{
    extract_state_inner_type, handler_plan, state_bounds, FnInputModel, GenericArgModel, HandlerSig,
    PathArgsModel, PathSegmentModel, TypeModel,
};
use poem::http3::{
    is_graceful_close_text, on_accept, str_contains, AcceptOutcome, ConnectionAction, ConnectionTracker,
    ServerAction, ServerEvent,
};

fn seg(ident: &str, args: PathArgsModel) -> PathSegmentModel {
    PathSegmentModel { ident: ident.to_string(), args }
}

fn simple(ident: &str) -> TypeModel {
    TypeModel::Path(vec![seg(ident, PathArgsModel::Bare)])
}

fn state_of(inner: TypeModel) -> TypeModel {
    TypeModel::Path(vec![
        seg("web", PathArgsModel::Bare),
        seg("State", PathArgsModel::AngleBracketed(vec![GenericArgModel::Type(inner)])),
    ])
}

fn ident_of(ty: &TypeModel) -> String {
    match ty {
        TypeModel::Path(segs) => segs.last().unwrap().ident.clone(),
        TypeModel::Other(_) => String::new(),
    }
}

#[test]
fn extracts_state_inner_type() {
    let t = extract_state_inner_type(state_of(simple("AppState"))).unwrap();
    assert_eq!(ident_of(&t), "AppState");
    assert!(extract_state_inner_type(simple("String")).is_none());
    assert!(extract_state_inner_type(TypeModel::Other("[u8]".to_string())).is_none());
    let no_args = TypeModel::Path(vec![seg("State", PathArgsModel::AngleBracketed(vec![]))]);
    assert!(extract_state_inner_type(no_args).is_none());
    let lifetime = TypeModel::Path(vec![seg("State", PathArgsModel::AngleBracketed(vec![GenericArgModel::Other("'a".to_string())]))]);
    assert!(extract_state_inner_type(lifetime).is_none());
    let paren = TypeModel::Path(vec![seg("State", PathArgsModel::Parenthesized("(u8)".to_string()))]);
    assert!(extract_state_inner_type(paren).is_none());
}

#[test]
fn state_bounds_in_argument_order() {
    let bounds = state_bounds(vec![
        state_of(simple("A")),
        simple("Request"),
        state_of(simple("B")),
    ]);
    assert_eq!(bounds.len(), 2);
    assert_eq!(ident_of(&bounds[0]), "A");
    assert_eq!(ident_of(&bounds[1]), "B");
    assert!(state_bounds(vec![]).is_empty());
}

#[test]
fn substring_search() {
    assert!(str_contains("ApplicationClose: 0x0", "Close"));
    assert!(str_contains("abc", ""));
    assert!(!str_contains("ab", "abc"));
    assert!(!str_contains("abd", "abc"));
    assert!(str_contains("xxabc", "abc"));
}

#[test]
fn graceful_close_texts() {
    assert!(is_graceful_close_text("Remote(NO_ERROR)", &vec![]));
    assert!(is_graceful_close_text("ApplicationClose: 0x0", &vec![]));
    assert!(is_graceful_close_text("ApplicationClose(0x0)", &vec![]));
    assert!(is_graceful_close_text("ConnectionClosed", &vec![]));
    assert!(!is_graceful_close_text("ApplicationClose(0x101)", &vec![]));
    assert!(is_graceful_close_text("Timeout", &vec!["ApplicationClose(0x101)".to_string()]));
    assert!(is_graceful_close_text("Timeout", &vec!["x".to_string(), "NO_ERROR".to_string()]));
    assert!(!is_graceful_close_text("Timeout", &vec!["Reset".to_string()]));
}

#[test]
fn accept_outcomes() {
    assert_eq!(on_accept(AcceptOutcome::Request), ConnectionAction::Serve);
    assert_eq!(on_accept(AcceptOutcome::Closed), ConnectionAction::Close);
    assert_eq!(on_accept(AcceptOutcome::Failed { graceful: true }), ConnectionAction::Close);
    assert_eq!(on_accept(AcceptOutcome::Failed { graceful: false }), ConnectionAction::CloseWithError);
}

#[test]
fn tracker_reports_drain_after_shutdown() {
    let mut t = ConnectionTracker::new();
    assert!(!t.must_wait());
    t.open();
    t.open();
    assert!(!t.close());
    t.open();
    t.begin_shutdown();
    assert!(t.must_wait());
    assert!(!t.close());
    assert!(t.close());
    assert!(!t.must_wait());
    assert!(!t.close());
}

#[test]
fn server_stops_accepting_at_shutdown_and_reports_drain() {
    let mut t = ConnectionTracker::new();
    assert_eq!(t.on_event(ServerEvent::Incoming), ServerAction::Serve);
    assert_eq!(t.on_event(ServerEvent::Incoming), ServerAction::Serve);
    assert_eq!(t.on_event(ServerEvent::ConnectionClosed), ServerAction::Continue);
    assert_eq!(t.on_event(ServerEvent::ShutdownSignal), ServerAction::StopAccepting);
    assert_eq!(t.on_event(ServerEvent::Incoming), ServerAction::Refuse);
    assert!(t.must_wait());
    assert_eq!(t.on_event(ServerEvent::ConnectionClosed), ServerAction::Drained);
    assert!(!t.must_wait());
}

#[test]
fn closed_endpoint_stops_accepting_without_shutdown() {
    let mut t = ConnectionTracker::new();
    assert_eq!(t.on_event(ServerEvent::Incoming), ServerAction::Serve);
    assert_eq!(t.on_event(ServerEvent::EndpointClosed), ServerAction::StopAccepting);
    assert_eq!(t.on_event(ServerEvent::Incoming), ServerAction::Refuse);
    assert_eq!(t.on_event(ServerEvent::ConnectionClosed), ServerAction::Continue);
    assert!(!t.must_wait());
}

#[test]
fn handler_plan_for_async_generic_handler() {
    let sig = HandlerSig {
        name: "index".to_string(),
        generic_count: 2,
        type_params: vec!["T".to_string()],
        inputs: vec![
            FnInputModel::Typed(state_of(simple("A"))),
            FnInputModel::Typed(simple("Request")),
            FnInputModel::Typed(state_of(simple("B"))),
        ],
        is_async: true,
    };
    let plan = handler_plan(sig);
    assert_eq!(plan.struct_name, "index");
    assert!(!plan.unit_struct);
    assert_eq!(plan.marker_params, vec!["T".to_string()]);
    assert_eq!(plan.extractor_args, vec![0, 1, 2]);
    assert_eq!(plan.state_bounds.len(), 2);
    assert_eq!(ident_of(&plan.state_bounds[0]), "A");
    assert_eq!(ident_of(&plan.state_bounds[1]), "B");
    assert!(plan.await_call);
}

#[test]
fn handler_plan_skips_receiver_and_does_not_await_sync_fn() {
    let sig = HandlerSig {
        name: "plain".to_string(),
        generic_count: 0,
        type_params: vec![],
        inputs: vec![FnInputModel::Receiver, FnInputModel::Typed(simple("String"))],
        is_async: false,
    };
    let plan = handler_plan(sig);
    assert!(plan.unit_struct);
    assert!(plan.marker_params.is_empty());
    assert_eq!(plan.extractor_args, vec![1]);
    assert!(plan.state_bounds.is_empty());
    assert!(!plan.await_call);
}

#[test]
fn handler_plan_with_only_a_lifetime_parameter_is_not_a_unit_struct() {
    let sig = HandlerSig {
        name: "borrowed".to_string(),
        generic_count: 1,
        type_params: vec![],
        inputs: vec![],
        is_async: true,
    };
    let plan = handler_plan(sig);
    assert!(!plan.unit_struct);
    assert!(plan.marker_params.is_empty());
    assert!(plan.extractor_args.is_empty());
}
