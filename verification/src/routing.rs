//! The route table and the dispatch of one request.
//!
//! The table is an ordered list of routes, built once before the
//! listener starts accepting and immutable thereafter. A route pairs a
//! method with a path pattern: either an exact path, or a fixed prefix
//! followed by one path segment that must parse as an unsigned 8-bit
//! integer. Dispatch takes the first route whose method and pattern
//! match; a matching toggle route whose segment does not parse as a
//! `u8` — non-numeric, empty, or numeric but out of range, such as
//! `256` — yields a client-error response without touching the
//! actuator, and a request no route matches yields a not-found
//! response.

use vstd::prelude::*;

use crate::actuator::{lemma_toggle_count_parity, toggled, ActuatorState};

verus! {

/// The request methods the router distinguishes. Every route of this
/// service answers `GET`; any other method simply matches no route.
#[derive(Clone, Copy, PartialEq, Eq, Structural, Debug)]
pub enum Method {
    /// The `GET` method.
    Get,
    /// Any other method.
    Other,
}

/// The fixed content-type tag attached to a response at
/// route-registration time.
#[derive(Clone, Copy, PartialEq, Eq, Structural, Debug)]
pub enum ContentType {
    /// `text/html`
    Html,
    /// `text/css`
    Css,
    /// `application/javascript`
    Javascript,
    /// `text/plain`
    Plain,
}

/// Status code of a successful response.
pub const STATUS_OK: u16 = 200;

/// Status code of a client-error response (malformed path segment).
pub const STATUS_BAD_REQUEST: u16 = 400;

/// Status code of a not-found response.
pub const STATUS_NOT_FOUND: u16 = 404;

/// The mathematical model of a response: status, content-type tag and
/// body bytes.
#[verifier::ext_equal]
pub struct ResponseSpec {
    /// The status code.
    pub status: int,
    /// The content-type tag.
    pub content_type: ContentType,
    /// The body bytes.
    pub body: Seq<u8>,
}

/// One HTTP-level response: a status code, a content-type tag and a
/// body of plain bytes.
pub struct Response {
    /// The status code.
    pub status: u16,
    /// The content-type tag.
    pub content_type: ContentType,
    /// The body bytes.
    pub body: Vec<u8>,
}

impl View for Response {
    type V = ResponseSpec;

    open spec fn view(&self) -> ResponseSpec {
        ResponseSpec {
            status: self.status as int,
            content_type: self.content_type,
            body: self.body@,
        }
    }
}

// ---------------------------------------------------------------------
// Decimal path segments
// ---------------------------------------------------------------------

/// Whether `b` is an ASCII decimal digit.
pub open spec fn is_digit(b: u8) -> bool {
    48 <= b <= 57
}

/// The numeric value of an ASCII decimal digit.
pub open spec fn digit_val(b: u8) -> int {
    b - 48
}

/// Whether every byte of `s` is an ASCII decimal digit.
pub open spec fn all_digits(s: Seq<u8>) -> bool {
    forall|i: int| 0 <= i < s.len() ==> is_digit(s[i])
}

/// The numeric value of a sequence of ASCII decimal digits, most
/// significant digit first.
pub open spec fn dec_value(s: Seq<u8>) -> int
    decreases s.len(),
{
    if s.len() == 0 {
        0
    } else {
        dec_value(s.drop_last()) * 10 + digit_val(s.last())
    }
}

/// Whether `s` is a path segment that parses as a `u8`: one to three
/// ASCII decimal digits whose value is at most 255. Leading zeros
/// within three digits (`007`) are accepted; longer digit runs and
/// out-of-range values (`256`) are not.
pub open spec fn is_u8_segment(s: Seq<u8>) -> bool {
    1 <= s.len() <= 3 && all_digits(s) && dec_value(s) <= 255
}

/// Parse a path segment as an unsigned 8-bit integer.
///
/// Returns the value exactly when [`is_u8_segment`] holds of the bytes.
pub fn parse_u8_segment(seg: &[u8]) -> (r: Option<u8>)
    ensures
        (r is Some) == is_u8_segment(seg@),
        r is Some ==> r->Some_0 == dec_value(seg@),
{
    let n = seg.len();
    if n < 1 || n > 3 {
        return None;
    }
    let mut acc: u16 = 0;
    let mut i: usize = 0;
    while i < n
        invariant
            n == seg@.len(),
            1 <= n <= 3,
            i <= n,
            all_digits(seg@.subrange(0, i as int)),
            acc == dec_value(seg@.subrange(0, i as int)),
            acc <= 999,
            i <= 2 ==> acc <= 99,
            i <= 1 ==> acc <= 9,
        decreases n - i,
    {
        let b = seg[i];
        if b < 48 || b > 57 {
            proof {
                assert(!is_digit(seg@[i as int]));
            }
            return None;
        }
        let d: u16 = (b - 48) as u16;
        proof {
            assert(seg@.subrange(0, i + 1 as int).drop_last() =~= seg@.subrange(0, i as int));
            assert(seg@.subrange(0, i + 1 as int).last() == seg@[i as int]);
            assert(forall|j: int|
                0 <= j < i + 1 ==> is_digit(
                    #[trigger] seg@.subrange(0, i + 1 as int)[j],
                ));
        }
        acc = acc * 10 + d;
        i = i + 1;
    }
    proof {
        assert(seg@.subrange(0, n as int) =~= seg@);
    }
    if acc <= 255 {
        Some(acc as u8)
    } else {
        None
    }
}

// ---------------------------------------------------------------------
// Patterns and matching
// ---------------------------------------------------------------------

/// The model of a path pattern.
pub enum PatternSpec {
    /// The whole path, byte for byte.
    Exact(Seq<u8>),
    /// A fixed prefix, then `/`, then one segment that must parse as a
    /// `u8` before the handler runs.
    PrefixThenU8(Seq<u8>),
}

/// A path pattern: an exact path, or a fixed prefix followed by one
/// `u8`-typed path segment.
pub enum Pattern {
    /// The whole path, byte for byte.
    Exact(Vec<u8>),
    /// A fixed prefix, then `/`, then one segment that must parse as a
    /// `u8` before the handler runs.
    PrefixThenU8(Vec<u8>),
}

impl View for Pattern {
    type V = PatternSpec;

    open spec fn view(&self) -> PatternSpec {
        match self {
            Pattern::Exact(p) => PatternSpec::Exact(p@),
            Pattern::PrefixThenU8(p) => PatternSpec::PrefixThenU8(p@),
        }
    }
}

/// Whether `path` has the shape `pre` `/` `segment`, where the segment
/// is non-empty and contains no further `/`. The shape says nothing
/// about whether the segment parses as a `u8`.
pub open spec fn prefix_seg_matches(pre: Seq<u8>, path: Seq<u8>) -> bool {
    &&& path.len() >= pre.len() + 2
    &&& path.subrange(0, pre.len() as int) == pre
    &&& path[pre.len() as int] == 47u8
    &&& forall|k: int| pre.len() + 1 <= k < path.len() ==> path[k] != 47u8
}

/// The segment of `path` that follows the prefix `pre` and its `/`.
pub open spec fn seg_of(pre: Seq<u8>, path: Seq<u8>) -> Seq<u8> {
    path.subrange(pre.len() as int + 1, path.len() as int)
}

/// Whether a pattern matches a concrete path.
pub open spec fn pattern_matches(p: PatternSpec, path: Seq<u8>) -> bool {
    match p {
        PatternSpec::Exact(lit) => path == lit,
        PatternSpec::PrefixThenU8(pre) => prefix_seg_matches(pre, path),
    }
}

/// Byte-for-byte equality of two byte strings.
pub fn bytes_eq(a: &[u8], b: &[u8]) -> (r: bool)
    ensures
        r == (a@ == b@),
{
    if a.len() != b.len() {
        return false;
    }
    let n = a.len();
    let mut i: usize = 0;
    while i < n
        invariant
            n == a@.len(),
            n == b@.len(),
            i <= n,
            forall|j: int| 0 <= j < i ==> a@[j] == b@[j],
        decreases n - i,
    {
        if a[i] != b[i] {
            return false;
        }
        i = i + 1;
    }
    proof {
        assert(a@ =~= b@);
    }
    true
}

/// Whether `path` has the prefix-then-segment shape described by
/// [`prefix_seg_matches`].
pub fn match_prefix_seg(pre: &[u8], path: &[u8]) -> (r: bool)
    ensures
        r == prefix_seg_matches(pre@, path@),
{
    if path.len() < pre.len() || path.len() - pre.len() < 2 {
        return false;
    }
    let mut k: usize = 0;
    while k < pre.len()
        invariant
            pre@.len() + 2 <= path@.len(),
            k <= pre@.len(),
            forall|j: int| 0 <= j < k ==> path@[j] == pre@[j],
        decreases pre@.len() - k,
    {
        if path[k] != pre[k] {
            proof {
                assert(path@.subrange(0, pre@.len() as int)[k as int] == path@[k as int]);
            }
            return false;
        }
        k = k + 1;
    }
    proof {
        assert(path@.subrange(0, pre@.len() as int) =~= pre@);
    }
    if path[pre.len()] != 47u8 {
        return false;
    }
    let mut t: usize = pre.len() + 1;
    while t < path.len()
        invariant
            pre@.len() + 2 <= path@.len(),
            pre@.len() + 1 <= t <= path@.len(),
            path@.subrange(0, pre@.len() as int) == pre@,
            path@[pre@.len() as int] == 47u8,
            forall|j: int| pre@.len() + 1 <= j < t ==> path@[j] != 47u8,
        decreases path@.len() - t,
    {
        if path[t] == 47u8 {
            return false;
        }
        t = t + 1;
    }
    true
}

// ---------------------------------------------------------------------
// Routes, actions, the table
// ---------------------------------------------------------------------

/// The model of a handler action.
pub enum ActionSpec {
    /// Return a fixed payload with a fixed content-type tag; no state is
    /// read or written.
    Fixed(ContentType, Seq<u8>),
    /// Toggle the shared actuator and report the resulting value.
    ToggleLed,
}

/// What a route does once it matches.
pub enum Action {
    /// Return a fixed payload with a fixed content-type tag; no state is
    /// read or written.
    Fixed(ContentType, Vec<u8>),
    /// Toggle the shared actuator and report the resulting value.
    ToggleLed,
}

impl View for Action {
    type V = ActionSpec;

    open spec fn view(&self) -> ActionSpec {
        match self {
            Action::Fixed(ct, body) => ActionSpec::Fixed(*ct, body@),
            Action::ToggleLed => ActionSpec::ToggleLed,
        }
    }
}

/// The model of one route.
pub struct RouteSpec {
    /// The method the route answers.
    pub method: Method,
    /// The paths the route matches.
    pub pattern: PatternSpec,
    /// What the route does once it matches.
    pub action: ActionSpec,
}

/// One entry of the route table.
pub struct Route {
    /// The method the route answers.
    pub method: Method,
    /// The paths the route matches.
    pub pattern: Pattern,
    /// What the route does once it matches.
    pub action: Action,
}

impl View for Route {
    type V = RouteSpec;

    open spec fn view(&self) -> RouteSpec {
        RouteSpec { method: self.method, pattern: self.pattern@, action: self.action@ }
    }
}

/// A route is well formed when a toggle action sits behind a
/// prefix-then-segment pattern, so that dispatch has a segment to
/// validate before the handler runs.
pub open spec fn route_wf(r: RouteSpec) -> bool {
    r.action is ToggleLed ==> r.pattern is PrefixThenU8
}

/// Whether a route matches a request.
pub open spec fn route_matches(r: RouteSpec, m: Method, path: Seq<u8>) -> bool {
    r.method == m && pattern_matches(r.pattern, path)
}

/// The body reporting the actuator value that resulted from a toggle.
pub open spec fn state_body(on: bool) -> Seq<u8> {
    if on {
        seq![79u8, 78u8]
    } else {
        seq![79u8, 70u8, 70u8]
    }
}

/// The body of a not-found response.
pub open spec fn not_found_body() -> Seq<u8> {
    seq![78u8, 111u8, 116u8, 32u8, 70u8, 111u8, 117u8, 110u8, 100u8]
}

/// The body of a client-error response.
pub open spec fn bad_request_body() -> Seq<u8> {
    seq![66u8, 97u8, 100u8, 32u8, 82u8, 101u8, 113u8, 117u8, 101u8, 115u8, 116u8]
}

/// The not-found response: returned when no route matches.
pub open spec fn not_found_spec() -> ResponseSpec {
    ResponseSpec { status: 404, content_type: ContentType::Plain, body: not_found_body() }
}

/// The client-error response: returned when a matched route's typed
/// path segment fails to parse.
pub open spec fn bad_request_spec() -> ResponseSpec {
    ResponseSpec { status: 400, content_type: ContentType::Plain, body: bad_request_body() }
}

/// The response of a completed toggle, reporting the value `new_on`
/// that resulted from the flip.
pub open spec fn toggle_response_spec(new_on: bool) -> ResponseSpec {
    ResponseSpec { status: 200, content_type: ContentType::Plain, body: state_body(new_on) }
}

/// What one matched route does with the request: the response it
/// produces and the actuator value it leaves behind.
pub open spec fn spec_apply(r: RouteSpec, path: Seq<u8>, on: bool) -> (ResponseSpec, bool) {
    match r.action {
        ActionSpec::Fixed(ct, body) => (
            ResponseSpec { status: 200, content_type: ct, body },
            on,
        ),
        ActionSpec::ToggleLed => {
            if is_u8_segment(seg_of(r.pattern->PrefixThenU8_0, path)) {
                (toggle_response_spec(!on), !on)
            } else {
                (bad_request_spec(), on)
            }
        },
    }
}

/// The meaning of dispatch: the first matching route, in table order,
/// decides the response and the next actuator value; with no match the
/// result is the not-found response and an unchanged actuator.
pub open spec fn spec_dispatch(
    routes: Seq<RouteSpec>,
    m: Method,
    path: Seq<u8>,
    on: bool,
) -> (ResponseSpec, bool)
    decreases routes.len(),
{
    if routes.len() == 0 {
        (not_found_spec(), on)
    } else if route_matches(routes[0], m, path) {
        spec_apply(routes[0], path, on)
    } else {
        spec_dispatch(routes.drop_first(), m, path, on)
    }
}

/// Copy a byte string.
fn clone_bytes(v: &Vec<u8>) -> (r: Vec<u8>)
    ensures
        r@ == v@,
{
    let mut r: Vec<u8> = Vec::new();
    let n = v.len();
    let mut i: usize = 0;
    while i < n
        invariant
            n == v@.len(),
            i <= n,
            r@ == v@.subrange(0, i as int),
        decreases n - i,
    {
        r.push(v[i]);
        proof {
            assert(r@ =~= v@.subrange(0, i + 1 as int));
        }
        i = i + 1;
    }
    proof {
        assert(r@ =~= v@);
    }
    r
}

/// The not-found response.
pub fn not_found_response() -> (r: Response)
    ensures
        r@ == not_found_spec(),
{
    let mut body: Vec<u8> = Vec::new();
    body.push(78);
    body.push(111);
    body.push(116);
    body.push(32);
    body.push(70);
    body.push(111);
    body.push(117);
    body.push(110);
    body.push(100);
    proof {
        assert(body@ =~= not_found_body());
    }
    Response { status: STATUS_NOT_FOUND, content_type: ContentType::Plain, body }
}

/// The client-error response for a path segment that fails to parse.
pub fn bad_request_response() -> (r: Response)
    ensures
        r@ == bad_request_spec(),
{
    let mut body: Vec<u8> = Vec::new();
    body.push(66);
    body.push(97);
    body.push(100);
    body.push(32);
    body.push(82);
    body.push(101);
    body.push(113);
    body.push(117);
    body.push(101);
    body.push(115);
    body.push(116);
    proof {
        assert(body@ =~= bad_request_body());
    }
    Response { status: STATUS_BAD_REQUEST, content_type: ContentType::Plain, body }
}

/// The body reporting the actuator value `on`.
pub fn state_body_vec(on: bool) -> (v: Vec<u8>)
    ensures
        v@ == state_body(on),
{
    let mut v: Vec<u8> = Vec::new();
    if on {
        v.push(79);
        v.push(78);
    } else {
        v.push(79);
        v.push(70);
        v.push(70);
    }
    proof {
        assert(v@ =~= state_body(on));
    }
    v
}

/// The route table: an ordered list of routes, immutable once the
/// listener starts. The first matching route wins at dispatch time.
pub struct RouteTable {
    routes: Vec<Route>,
}

impl View for RouteTable {
    type V = Seq<RouteSpec>;

    closed spec fn view(&self) -> Seq<RouteSpec> {
        self.routes@.map_values(|r: Route| r@)
    }
}

impl RouteTable {
    /// Every route of the table is well formed.
    pub open spec fn wf(&self) -> bool {
        forall|i: int| 0 <= i < self@.len() ==> route_wf(#[trigger] self@[i])
    }

    /// An empty table: every request is not-found until routes are
    /// registered.
    pub fn new() -> (t: RouteTable)
        ensures
            t@ == Seq::<RouteSpec>::empty(),
            t.wf(),
    {
        let t = RouteTable { routes: Vec::new() };
        proof {
            assert(t@ =~= Seq::<RouteSpec>::empty());
        }
        t
    }

    /// Append one route to the table. Registration happens only during
    /// startup, before dispatch begins.
    pub fn register(&mut self, route: Route)
        requires
            old(self).wf(),
            route_wf(route@),
        ensures
            final(self)@ == old(self)@.push(route@),
            final(self).wf(),
    {
        self.routes.push(route);
        proof {
            assert(self@ =~= old(self)@.push(route@));
        }
    }

    /// Dispatch one request against the table.
    ///
    /// The first route whose method and pattern match decides the
    /// outcome; a matched toggle route validates its path segment
    /// before the handler runs, and rejects the request with a
    /// client-error response, mutating nothing, when the segment does
    /// not parse as a `u8`. When no route matches, the result is the
    /// not-found response and the actuator is untouched. The one
    /// mutation a dispatch can make is the single toggle of a matched,
    /// validated toggle route.
    pub fn dispatch(&self, method: Method, path: &[u8], state: &mut ActuatorState) -> (r:
        Response)
        requires
            self.wf(),
        ensures
            ({
                let o = spec_dispatch(self@, method, path@, old(state).on);
                r@ == o.0 && final(state).on == o.1
            }),
    {
        let ghost routes = self@;
        proof {
            assert(routes.skip(0) =~= routes);
        }
        let n = self.routes.len();
        let mut i: usize = 0;
        while i < n
            invariant
                self.wf(),
                routes == self@,
                n == self.routes@.len(),
                n == routes.len(),
                i <= n,
                state.on == old(state).on,
                spec_dispatch(routes, method, path@, old(state).on) == spec_dispatch(
                    routes.skip(i as int),
                    method,
                    path@,
                    old(state).on,
                ),
            decreases n - i,
        {
            let route = &self.routes[i];
            proof {
                assert(route@ == routes[i as int]);
                assert(routes.skip(i as int)[0] == routes[i as int]);
                assert(routes.skip(i as int).drop_first() =~= routes.skip(i as int + 1));
            }
            if route.method == method {
                match &route.pattern {
                    Pattern::Exact(lit) => {
                        if bytes_eq(lit.as_slice(), path) {
                            match &route.action {
                                Action::Fixed(ct, body) => {
                                    return Response {
                                        status: STATUS_OK,
                                        content_type: *ct,
                                        body: clone_bytes(body),
                                    };
                                },
                                Action::ToggleLed => {
                                    proof {
                                        assert(route_wf(routes[i as int]));
                                        assert(false);
                                    }
                                    return not_found_response();
                                },
                            }
                        }
                    },
                    Pattern::PrefixThenU8(pre) => {
                        if match_prefix_seg(pre.as_slice(), path) {
                            match &route.action {
                                Action::Fixed(ct, body) => {
                                    return Response {
                                        status: STATUS_OK,
                                        content_type: *ct,
                                        body: clone_bytes(body),
                                    };
                                },
                                Action::ToggleLed => {
                                    let plen = path.len();
                                    proof {
                                        assert(prefix_seg_matches(pre@, path@));
                                        assert(pre@.len() + 2 <= plen);
                                    }
                                    let seg = &path[pre.len() + 1..plen];
                                    proof {
                                        assert(seg@ == seg_of(pre@, path@));
                                    }
                                    match parse_u8_segment(seg) {
                                        Some(_id) => {
                                            let now_on = state.toggle();
                                            let body = state_body_vec(now_on);
                                            return Response {
                                                status: STATUS_OK,
                                                content_type: ContentType::Plain,
                                                body,
                                            };
                                        },
                                        None => {
                                            return bad_request_response();
                                        },
                                    }
                                },
                            }
                        }
                    },
                }
            }
            proof {
                assert(!route_matches(routes[i as int], method, path@));
            }
            i = i + 1;
        }
        proof {
            assert(routes.skip(n as int).len() == 0);
        }
        not_found_response()
    }
}

// ---------------------------------------------------------------------
// The standard table of this service
// ---------------------------------------------------------------------

/// The path `/`.
pub open spec fn root_path() -> Seq<u8> {
    seq![47u8]
}

/// The path `/index.css`.
pub open spec fn css_path() -> Seq<u8> {
    seq![47u8, 105u8, 110u8, 100u8, 101u8, 120u8, 46u8, 99u8, 115u8, 115u8]
}

/// The path `/index.js`.
pub open spec fn js_path() -> Seq<u8> {
    seq![47u8, 105u8, 110u8, 100u8, 101u8, 120u8, 46u8, 106u8, 115u8]
}

/// The prefix `/toggle_led` of the toggle route.
pub open spec fn toggle_prefix() -> Seq<u8> {
    seq![47u8, 116u8, 111u8, 103u8, 103u8, 108u8, 101u8, 95u8, 108u8, 101u8, 100u8]
}

/// The path `/`.
pub fn root_path_vec() -> (v: Vec<u8>)
    ensures
        v@ == root_path(),
{
    let mut v: Vec<u8> = Vec::new();
    v.push(47);
    proof {
        assert(v@ =~= root_path());
    }
    v
}

/// The path `/index.css`.
pub fn css_path_vec() -> (v: Vec<u8>)
    ensures
        v@ == css_path(),
{
    let mut v: Vec<u8> = Vec::new();
    v.push(47);
    v.push(105);
    v.push(110);
    v.push(100);
    v.push(101);
    v.push(120);
    v.push(46);
    v.push(99);
    v.push(115);
    v.push(115);
    proof {
        assert(v@ =~= css_path());
    }
    v
}

/// The path `/index.js`.
pub fn js_path_vec() -> (v: Vec<u8>)
    ensures
        v@ == js_path(),
{
    let mut v: Vec<u8> = Vec::new();
    v.push(47);
    v.push(105);
    v.push(110);
    v.push(100);
    v.push(101);
    v.push(120);
    v.push(46);
    v.push(106);
    v.push(115);
    proof {
        assert(v@ =~= js_path());
    }
    v
}

/// The prefix `/toggle_led` of the toggle route.
pub fn toggle_prefix_vec() -> (v: Vec<u8>)
    ensures
        v@ == toggle_prefix(),
{
    let mut v: Vec<u8> = Vec::new();
    v.push(47);
    v.push(116);
    v.push(111);
    v.push(103);
    v.push(103);
    v.push(108);
    v.push(101);
    v.push(95);
    v.push(108);
    v.push(101);
    v.push(100);
    proof {
        assert(v@ =~= toggle_prefix());
    }
    v
}

/// The four routes of this service: the three fixed assets, then the
/// toggle endpoint.
pub open spec fn standard_routes(html: Seq<u8>, css: Seq<u8>, js: Seq<u8>) -> Seq<RouteSpec> {
    seq![
        RouteSpec {
            method: Method::Get,
            pattern: PatternSpec::Exact(root_path()),
            action: ActionSpec::Fixed(ContentType::Html, html),
        },
        RouteSpec {
            method: Method::Get,
            pattern: PatternSpec::Exact(css_path()),
            action: ActionSpec::Fixed(ContentType::Css, css),
        },
        RouteSpec {
            method: Method::Get,
            pattern: PatternSpec::Exact(js_path()),
            action: ActionSpec::Fixed(ContentType::Javascript, js),
        },
        RouteSpec {
            method: Method::Get,
            pattern: PatternSpec::PrefixThenU8(toggle_prefix()),
            action: ActionSpec::ToggleLed,
        },
    ]
}

impl RouteTable {
    /// Build the table of this service from the three fixed payloads:
    /// `GET /`, `GET /index.css`, `GET /index.js`, and
    /// `GET /toggle_led/{id}` with a `u8`-typed segment.
    pub fn standard(html: Vec<u8>, css: Vec<u8>, js: Vec<u8>) -> (t: RouteTable)
        ensures
            t@ == standard_routes(html@, css@, js@),
            t.wf(),
    {
        let mut t = RouteTable::new();
        t.register(
            Route {
                method: Method::Get,
                pattern: Pattern::Exact(root_path_vec()),
                action: Action::Fixed(ContentType::Html, html),
            },
        );
        t.register(
            Route {
                method: Method::Get,
                pattern: Pattern::Exact(css_path_vec()),
                action: Action::Fixed(ContentType::Css, css),
            },
        );
        t.register(
            Route {
                method: Method::Get,
                pattern: Pattern::Exact(js_path_vec()),
                action: Action::Fixed(ContentType::Javascript, js),
            },
        );
        t.register(
            Route {
                method: Method::Get,
                pattern: Pattern::PrefixThenU8(toggle_prefix_vec()),
                action: Action::ToggleLed,
            },
        );
        proof {
            assert(t@ =~= standard_routes(html@, css@, js@));
        }
        t
    }
}

// ---------------------------------------------------------------------
// Laws of dispatch
// ---------------------------------------------------------------------

/// When no route matches a request, dispatch yields the not-found
/// response and leaves the actuator untouched: an unknown route invokes
/// neither a state mutation nor a fixed-payload handler.
pub proof fn lemma_no_match_not_found(routes: Seq<RouteSpec>, m: Method, path: Seq<u8>, on: bool)
    requires
        forall|i: int| 0 <= i < routes.len() ==> !route_matches(#[trigger] routes[i], m, path),
    ensures
        spec_dispatch(routes, m, path, on) == (not_found_spec(), on),
    decreases routes.len(),
{
    if routes.len() > 0 {
        assert forall|i: int|
            0 <= i < routes.drop_first().len() implies !route_matches(
            #[trigger] routes.drop_first()[i],
            m,
            path,
        ) by {
            assert(routes.drop_first()[i] == routes[i + 1]);
        }
        lemma_no_match_not_found(routes.drop_first(), m, path, on);
    }
}

/// The fixed-asset routes of the standard table are read-only and
/// state-independent: a `GET` of `/`, `/index.css` or `/index.js`
/// returns the registered payload with its registered tag whatever the
/// actuator value is, and leaves that value unchanged. Consecutive such
/// requests therefore return identical responses, however many toggles
/// come before or between them.
pub proof fn lemma_static_routes_fixed(html: Seq<u8>, css: Seq<u8>, js: Seq<u8>, on: bool)
    ensures
        spec_dispatch(standard_routes(html, css, js), Method::Get, root_path(), on) == (
            ResponseSpec { status: 200, content_type: ContentType::Html, body: html },
            on,
        ),
        spec_dispatch(standard_routes(html, css, js), Method::Get, css_path(), on) == (
            ResponseSpec { status: 200, content_type: ContentType::Css, body: css },
            on,
        ),
        spec_dispatch(standard_routes(html, css, js), Method::Get, js_path(), on) == (
            ResponseSpec { status: 200, content_type: ContentType::Javascript, body: js },
            on,
        ),
{
    let routes = standard_routes(html, css, js);
    let r1 = routes.drop_first();
    let r2 = r1.drop_first();
    assert(r1[0] == routes[1] && r1[1] == routes[2] && r1[2] == routes[3]);
    assert(r2[0] == routes[2] && r2[1] == routes[3]);

    assert(route_matches(routes[0], Method::Get, root_path()));
    assert(spec_dispatch(routes, Method::Get, root_path(), on) == spec_apply(
        routes[0],
        root_path(),
        on,
    ));

    assert(root_path().len() == 1 && css_path().len() == 10 && js_path().len() == 9);
    assert(css_path() != root_path());
    assert(spec_dispatch(routes, Method::Get, css_path(), on) == spec_dispatch(
        r1,
        Method::Get,
        css_path(),
        on,
    ));
    assert(route_matches(r1[0], Method::Get, css_path()));
    assert(spec_dispatch(r1, Method::Get, css_path(), on) == spec_apply(routes[1], css_path(), on));

    assert(js_path() != root_path() && js_path() != css_path());
    assert(spec_dispatch(routes, Method::Get, js_path(), on) == spec_dispatch(
        r1,
        Method::Get,
        js_path(),
        on,
    ));
    assert(spec_dispatch(r1, Method::Get, js_path(), on) == spec_dispatch(
        r2,
        Method::Get,
        js_path(),
        on,
    ));
    assert(route_matches(r2[0], Method::Get, js_path()));
    assert(spec_dispatch(r2, Method::Get, js_path(), on) == spec_apply(routes[2], js_path(), on));
}

/// On the standard table, a `GET` whose path has the toggle shape is
/// decided by its segment alone: a segment that parses as a `u8` flips
/// the actuator exactly once and the response reports the value that
/// resulted from the flip; any other segment — non-numeric, or numeric
/// but out of the 8-bit range — yields the client-error response and
/// no state mutation.
pub proof fn lemma_toggle_dispatch(html: Seq<u8>, css: Seq<u8>, js: Seq<u8>, path: Seq<u8>, on: bool)
    requires
        prefix_seg_matches(toggle_prefix(), path),
    ensures
        spec_dispatch(standard_routes(html, css, js), Method::Get, path, on) == if is_u8_segment(
            seg_of(toggle_prefix(), path),
        ) {
            (toggle_response_spec(!on), !on)
        } else {
            (bad_request_spec(), on)
        },
{
    let routes = standard_routes(html, css, js);
    let r1 = routes.drop_first();
    let r2 = r1.drop_first();
    let r3 = r2.drop_first();
    assert(r1[0] == routes[1] && r1[1] == routes[2] && r1[2] == routes[3]);
    assert(r2[0] == routes[2] && r2[1] == routes[3]);
    assert(r3[0] == routes[3]);
    assert(root_path().len() == 1 && css_path().len() == 10 && js_path().len() == 9
        && toggle_prefix().len() == 11);
    assert(path.len() >= toggle_prefix().len() + 2);
    assert(path != root_path() && path != css_path() && path != js_path());
    assert(spec_dispatch(routes, Method::Get, path, on) == spec_dispatch(r1, Method::Get, path, on));
    assert(spec_dispatch(r1, Method::Get, path, on) == spec_dispatch(r2, Method::Get, path, on));
    assert(spec_dispatch(r2, Method::Get, path, on) == spec_dispatch(r3, Method::Get, path, on));
    assert(route_matches(r3[0], Method::Get, path));
    assert(spec_dispatch(r3, Method::Get, path, on) == spec_apply(routes[3], path, on));
}

/// Toggling through the service is an involution: a toggle request
/// with a valid segment reports the opposite of the starting value, and
/// a second identical request flips the actuator back and reports the
/// starting value again.
pub proof fn lemma_toggle_roundtrip(
    html: Seq<u8>,
    css: Seq<u8>,
    js: Seq<u8>,
    path: Seq<u8>,
    on: bool,
)
    requires
        prefix_seg_matches(toggle_prefix(), path),
        is_u8_segment(seg_of(toggle_prefix(), path)),
    ensures
        ({
            let t = standard_routes(html, css, js);
            let o1 = spec_dispatch(t, Method::Get, path, on);
            let o2 = spec_dispatch(t, Method::Get, path, o1.1);
            &&& o1.0 == toggle_response_spec(!on)
            &&& o1.1 == !on
            &&& o2.0 == toggle_response_spec(on)
            &&& o2.1 == on
        }),
{
    lemma_toggle_dispatch(html, css, js, path, on);
    lemma_toggle_dispatch(html, css, js, path, !on);
}

/// A toggle request whose segment does not parse as a `u8` is rejected
/// with the client-error response and produces zero state mutations.
/// A syntactically numeric but out-of-range segment such as `256` is
/// rejected the same way: this service answers it with the client-error
/// response, not with not-found.
pub proof fn lemma_invalid_segment_rejected(
    html: Seq<u8>,
    css: Seq<u8>,
    js: Seq<u8>,
    path: Seq<u8>,
    on: bool,
)
    requires
        prefix_seg_matches(toggle_prefix(), path),
        !is_u8_segment(seg_of(toggle_prefix(), path)),
    ensures
        spec_dispatch(standard_routes(html, css, js), Method::Get, path, on) == (
            bad_request_spec(),
            on,
        ),
{
    lemma_toggle_dispatch(html, css, js, path, on);
}

/// The actuator value left behind by `k` dispatches of the same request
/// in a row, each starting from the value the one before left.
pub open spec fn dispatch_n(
    routes: Seq<RouteSpec>,
    m: Method,
    path: Seq<u8>,
    on: bool,
    k: nat,
) -> bool
    decreases k,
{
    if k == 0 {
        on
    } else {
        dispatch_n(routes, m, path, spec_dispatch(routes, m, path, on).1, (k - 1) as nat)
    }
}

/// A run of `k` valid toggle requests applies exactly `k` flips: the
/// actuator ends at the initial value exactly when `k` is even, and no
/// flip is lost. Each dispatch holds exclusive access to the actuator
/// for its one flip, so any interleaving of `k` concurrent toggle calls
/// is some serial run of this shape.
pub proof fn lemma_toggle_run_parity(
    html: Seq<u8>,
    css: Seq<u8>,
    js: Seq<u8>,
    path: Seq<u8>,
    on: bool,
    k: nat,
)
    requires
        prefix_seg_matches(toggle_prefix(), path),
        is_u8_segment(seg_of(toggle_prefix(), path)),
    ensures
        dispatch_n(standard_routes(html, css, js), Method::Get, path, on, k) == toggled(on, k),
        dispatch_n(standard_routes(html, css, js), Method::Get, path, on, k) == if k % 2 == 0 {
            on
        } else {
            !on
        },
    decreases k,
{
    lemma_toggle_count_parity(on, k);
    if k > 0 {
        lemma_toggle_dispatch(html, css, js, path, on);
        lemma_toggle_run_parity(html, css, js, path, !on, (k - 1) as nat);
        lemma_toggle_count_parity(!on, (k - 1) as nat);
    }
}

/// On the standard table, a request that names none of the three fixed
/// assets and has no toggle shape — or that uses a method other than
/// `GET` — matches no route: it yields the not-found response and no
/// state mutation.
pub proof fn lemma_unknown_route_not_found(
    html: Seq<u8>,
    css: Seq<u8>,
    js: Seq<u8>,
    m: Method,
    path: Seq<u8>,
    on: bool,
)
    requires
        m == Method::Get ==> {
            &&& path != root_path()
            &&& path != css_path()
            &&& path != js_path()
            &&& !prefix_seg_matches(toggle_prefix(), path)
        },
    ensures
        spec_dispatch(standard_routes(html, css, js), m, path, on) == (not_found_spec(), on),
{
    let routes = standard_routes(html, css, js);
    assert forall|i: int| 0 <= i < routes.len() implies !route_matches(
        #[trigger] routes[i],
        m,
        path,
    ) by {
        assert(routes[0].pattern == PatternSpec::Exact(root_path()));
        assert(routes[1].pattern == PatternSpec::Exact(css_path()));
        assert(routes[2].pattern == PatternSpec::Exact(js_path()));
        assert(routes[3].pattern == PatternSpec::PrefixThenU8(toggle_prefix()));
    }
    lemma_no_match_not_found(routes, m, path, on);
}

} // verus!
