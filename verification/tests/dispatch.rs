use led_control::actuator::ActuatorState;
use led_control::routing::{
    parse_u8_segment, ContentType, Method, Response, RouteTable, STATUS_BAD_REQUEST,
    STATUS_NOT_FOUND, STATUS_OK,
};

fn table() -> RouteTable {
    RouteTable::standard(
        b"<html>hello</html>".to_vec(),
        b"body { color: red; }".to_vec(),
        b"console.log(1);".to_vec(),
    )
}

fn get(t: &RouteTable, path: &[u8], state: &mut ActuatorState) -> Response {
    t.dispatch(Method::Get, path, state)
}

#[test]
fn static_routes_are_idempotent() {
    let t = table();
    let mut state = ActuatorState::new(true);
    let first_root = get(&t, b"/", &mut state);
    let first_css = get(&t, b"/index.css", &mut state);
    let first_js = get(&t, b"/index.js", &mut state);
    for _ in 0..5 {
        // a toggle in between must not change what the static routes serve
        let _ = get(&t, b"/toggle_led/1", &mut state);
        let again_root = get(&t, b"/", &mut state);
        let again_css = get(&t, b"/index.css", &mut state);
        let again_js = get(&t, b"/index.js", &mut state);
        assert_eq!(again_root.status, first_root.status);
        assert_eq!(again_root.content_type, first_root.content_type);
        assert_eq!(again_root.body, first_root.body);
        assert_eq!(again_css.body, first_css.body);
        assert_eq!(again_css.content_type, ContentType::Css);
        assert_eq!(again_js.body, first_js.body);
        assert_eq!(again_js.content_type, ContentType::Javascript);
    }
    assert_eq!(first_root.status, STATUS_OK);
    assert_eq!(first_root.content_type, ContentType::Html);
    assert_eq!(first_root.body, b"<html>hello</html>".to_vec());
}

#[test]
fn toggle_returns_opposite_then_initial() {
    let t = table();
    // known initial state: on
    let mut state = ActuatorState::new(true);
    let first = get(&t, b"/toggle_led/1", &mut state);
    assert_eq!(first.status, STATUS_OK);
    assert_eq!(first.body, b"OFF".to_vec());
    assert!(!state.get());
    let second = get(&t, b"/toggle_led/1", &mut state);
    assert_eq!(second.status, STATUS_OK);
    assert_eq!(second.body, b"ON".to_vec());
    assert!(state.get());
}

#[test]
fn toggles_apply_exactly_k_flips() {
    let t = table();
    let initial = false;
    let mut state = ActuatorState::new(initial);
    let k = 7;
    let mut expected = initial;
    for _ in 0..k {
        let r = get(&t, b"/toggle_led/2", &mut state);
        expected = !expected;
        // every call observes the value produced by its own flip
        let want: &[u8] = if expected { b"ON" } else { b"OFF" };
        assert_eq!(r.body, want.to_vec());
    }
    // final state = initial XOR (k mod 2)
    assert_eq!(state.get(), initial ^ (k % 2 == 1));
}

#[test]
fn non_numeric_segment_is_client_error_without_mutation() {
    let t = table();
    let mut state = ActuatorState::new(true);
    let r = get(&t, b"/toggle_led/abc", &mut state);
    assert_eq!(r.status, STATUS_BAD_REQUEST);
    assert_eq!(r.body, b"Bad Request".to_vec());
    assert!(state.get());
}

#[test]
fn boundary_segment_255_succeeds() {
    let t = table();
    let mut state = ActuatorState::new(true);
    let r = get(&t, b"/toggle_led/255", &mut state);
    assert_eq!(r.status, STATUS_OK);
    assert_eq!(r.body, b"OFF".to_vec());
    assert!(!state.get());
}

#[test]
fn out_of_range_segment_256_is_client_error() {
    // this service answers an out-of-range numeric segment with the
    // client-error response, not with not-found
    let t = table();
    let mut state = ActuatorState::new(false);
    let r = get(&t, b"/toggle_led/256", &mut state);
    assert_eq!(r.status, STATUS_BAD_REQUEST);
    assert!(!state.get());
}

#[test]
fn empty_or_nested_segment_falls_through_to_not_found() {
    let t = table();
    let mut state = ActuatorState::new(false);
    let r = get(&t, b"/toggle_led/", &mut state);
    assert_eq!(r.status, STATUS_NOT_FOUND);
    let r = get(&t, b"/toggle_led/1/2", &mut state);
    assert_eq!(r.status, STATUS_NOT_FOUND);
    assert!(!state.get());
}

#[test]
fn unknown_route_is_not_found_without_mutation() {
    let t = table();
    let mut state = ActuatorState::new(true);
    let r = get(&t, b"/nonexistent", &mut state);
    assert_eq!(r.status, STATUS_NOT_FOUND);
    assert_eq!(r.content_type, ContentType::Plain);
    assert_eq!(r.body, b"Not Found".to_vec());
    assert!(state.get());
}

#[test]
fn non_get_method_matches_no_route() {
    let t = table();
    let mut state = ActuatorState::new(true);
    let r = t.dispatch(Method::Other, b"/", &mut state);
    assert_eq!(r.status, STATUS_NOT_FOUND);
    let r = t.dispatch(Method::Other, b"/toggle_led/1", &mut state);
    assert_eq!(r.status, STATUS_NOT_FOUND);
    assert!(state.get());
}

#[test]
fn u8_segment_parsing() {
    assert_eq!(parse_u8_segment(b"0"), Some(0));
    assert_eq!(parse_u8_segment(b"7"), Some(7));
    assert_eq!(parse_u8_segment(b"42"), Some(42));
    assert_eq!(parse_u8_segment(b"255"), Some(255));
    assert_eq!(parse_u8_segment(b"007"), Some(7));
    assert_eq!(parse_u8_segment(b"256"), None);
    assert_eq!(parse_u8_segment(b"999"), None);
    assert_eq!(parse_u8_segment(b"1000"), None);
    assert_eq!(parse_u8_segment(b""), None);
    assert_eq!(parse_u8_segment(b"x"), None);
    assert_eq!(parse_u8_segment(b"1a"), None);
    assert_eq!(parse_u8_segment(b"-1"), None);
    assert_eq!(parse_u8_segment(b"+1"), None);
}

#[test]
fn empty_table_answers_not_found() {
    let t = RouteTable::new();
    let mut state = ActuatorState::new(false);
    let r = t.dispatch(Method::Get, b"/", &mut state);
    assert_eq!(r.status, STATUS_NOT_FOUND);
    assert!(!state.get());
}

#[test]
fn double_toggle_is_identity_on_state() {
    let mut s = ActuatorState::new(false);
    assert_eq!(s.toggle(), true);
    assert_eq!(s.toggle(), false);
    assert_eq!(s.get(), false);
}
