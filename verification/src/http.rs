//! Request-line parsing and response framing, on raw bytes.
//!
//! The embedding program reads bytes from the transport into a fixed
//! buffer and writes bytes back; everything between — locating the end
//! of the request line, splitting it into method, target and version,
//! and laying out the response head — is computed here.
//!
//! Only the request line is interpreted: the service dispatches on
//! method and path alone and ignores request headers, which is all the
//! routed endpoints need.

use vstd::prelude::*;

use crate::actuator::ActuatorState;
use crate::routing::{
    bad_request_response, bad_request_spec, bytes_eq, spec_dispatch, ContentType, Method, Response,
    ResponseSpec, RouteSpec, RouteTable,
};

verus! {

/// One parsed request: the method and the request target (the path).
pub struct Request {
    /// The request method.
    pub method: Method,
    /// The request target, byte for byte.
    pub path: Vec<u8>,
}

/// Whether bytes `i` and `i + 1` of `s` are a CR LF pair.
pub open spec fn is_crlf_at(s: Seq<u8>, i: int) -> bool {
    0 <= i && i + 1 < s.len() && s[i] == 13u8 && s[i + 1] == 10u8
}

/// Find the first CR LF pair of `buf`: the end of the request line.
pub fn find_crlf(buf: &[u8]) -> (r: Option<usize>)
    ensures
        r is Some ==> is_crlf_at(buf@, r->Some_0 as int) && (forall|j: int|
            0 <= j < r->Some_0 ==> !is_crlf_at(buf@, j)),
        r is None ==> forall|j: int| !is_crlf_at(buf@, j),
{
    let n = buf.len();
    if n < 2 {
        return None;
    }
    let mut i: usize = 0;
    while i < n - 1
        invariant
            n == buf@.len(),
            2 <= n,
            i <= n - 1,
            forall|j: int| 0 <= j < i ==> !is_crlf_at(buf@, j),
        decreases n - i,
    {
        if buf[i] == 13 && buf[i + 1] == 10 {
            return Some(i);
        }
        i = i + 1;
    }
    None
}

/// Whether bytes `i` to `i + 3` of `s` are the blank line `CR LF CR LF`
/// that ends a request head.
pub open spec fn is_double_crlf_at(s: Seq<u8>, i: int) -> bool {
    0 <= i && i + 3 < s.len() && s[i] == 13u8 && s[i + 1] == 10u8 && s[i + 2] == 13u8 && s[i + 3]
        == 10u8
}

/// Find the first blank line of `buf`: the end of the request head.
pub fn find_double_crlf(buf: &[u8]) -> (r: Option<usize>)
    ensures
        r is Some ==> is_double_crlf_at(buf@, r->Some_0 as int) && (forall|j: int|
            0 <= j < r->Some_0 ==> !is_double_crlf_at(buf@, j)),
        r is None ==> forall|j: int| !is_double_crlf_at(buf@, j),
{
    let n = buf.len();
    if n < 4 {
        return None;
    }
    let mut i: usize = 0;
    while i < n - 3
        invariant
            n == buf@.len(),
            4 <= n,
            i <= n - 3,
            forall|j: int| 0 <= j < i ==> !is_double_crlf_at(buf@, j),
        decreases n - i,
    {
        if buf[i] == 13 && buf[i + 1] == 10 && buf[i + 2] == 13 && buf[i + 3] == 10 {
            return Some(i);
        }
        i = i + 1;
    }
    None
}

/// The position of the first space of `s` at or after `from`, or the
/// length of `s` when there is none.
pub open spec fn find_space(s: Seq<u8>, from: int) -> int
    recommends
        0 <= from <= s.len(),
    decreases s.len() - from when from <= s.len()
{
    if from >= s.len() {
        s.len() as int
    } else if s[from] == 32u8 {
        from
    } else {
        find_space(s, from + 1)
    }
}

/// The bytes of the token `GET`.
pub open spec fn get_token() -> Seq<u8> {
    seq![71u8, 69u8, 84u8]
}

/// The method a token names.
pub open spec fn spec_method_of(tok: Seq<u8>) -> Method {
    if tok == get_token() {
        Method::Get
    } else {
        Method::Other
    }
}

/// Whether `s` is a well-formed request line: three non-empty tokens —
/// method, target, version — separated by exactly two single spaces.
pub open spec fn wf_request_line(s: Seq<u8>) -> bool {
    let i = find_space(s, 0);
    let j = find_space(s, i + 1);
    &&& 0 < i < s.len()
    &&& i + 1 < j < s.len()
    &&& j + 1 < s.len()
    &&& find_space(s, j + 1) == s.len()
}

/// The method token of a well-formed request line.
pub open spec fn method_token(s: Seq<u8>) -> Seq<u8> {
    s.subrange(0, find_space(s, 0))
}

/// The request target of a well-formed request line.
pub open spec fn target_of(s: Seq<u8>) -> Seq<u8> {
    let i = find_space(s, 0);
    s.subrange(i + 1, find_space(s, i + 1))
}

/// Copy a byte string.
fn copy_bytes(s: &[u8]) -> (v: Vec<u8>)
    ensures
        v@ == s@,
{
    let mut v: Vec<u8> = Vec::new();
    let n = s.len();
    let mut i: usize = 0;
    while i < n
        invariant
            n == s@.len(),
            i <= n,
            v@ == s@.subrange(0, i as int),
        decreases n - i,
    {
        v.push(s[i]);
        proof {
            assert(v@ =~= s@.subrange(0, i + 1 as int));
        }
        i = i + 1;
    }
    proof {
        assert(v@ =~= s@);
    }
    v
}

/// Advance past non-space bytes: the first space at or after `from`,
/// or the end of the line.
fn scan_space(line: &[u8], from: usize) -> (r: usize)
    requires
        from <= line@.len(),
    ensures
        r == find_space(line@, from as int),
        from <= r <= line@.len(),
        r < line@.len() ==> line@[r as int] == 32u8,
{
    let n = line.len();
    let mut i: usize = from;
    while i < n
        invariant
            n == line@.len(),
            from <= i <= n,
            find_space(line@, from as int) == find_space(line@, i as int),
        decreases n - i,
    {
        if line[i] == 32 {
            return i;
        }
        i = i + 1;
    }
    i
}

/// Parse a request line into method and target.
///
/// Returns the parsed request exactly when the line is well formed
/// ([`wf_request_line`]); a malformed line is a client framing error,
/// answered by the caller with a client-error response. A method other
/// than `GET` parses as [`Method::Other`] and later matches no route.
pub fn parse_request_line(line: &[u8]) -> (r: Option<Request>)
    ensures
        (r is Some) == wf_request_line(line@),
        r is Some ==> r->Some_0.method == spec_method_of(method_token(line@)),
        r is Some ==> r->Some_0.path@ == target_of(line@),
{
    let n = line.len();
    let i = scan_space(line, 0);
    if i == 0 || i >= n {
        return None;
    }
    let j = scan_space(line, i + 1);
    if j <= i + 1 || j >= n || j + 1 >= n {
        return None;
    }
    let k = scan_space(line, j + 1);
    if k < n {
        return None;
    }
    let tok = &line[0..i];
    let mut get_tok: Vec<u8> = Vec::new();
    get_tok.push(71);
    get_tok.push(69);
    get_tok.push(84);
    proof {
        assert(get_tok@ =~= get_token());
    }
    let method = if bytes_eq(tok, get_tok.as_slice()) {
        Method::Get
    } else {
        Method::Other
    };
    let path = copy_bytes(&line[i + 1..j]);
    Some(Request { method, path })
}

// ---------------------------------------------------------------------
// Response framing
// ---------------------------------------------------------------------

/// The bytes `CR LF`.
pub open spec fn crlf() -> Seq<u8> {
    seq![13u8, 10u8]
}

/// The bytes `HTTP/1.1 ` that open every status line.
pub open spec fn http_prefix() -> Seq<u8> {
    seq![72u8, 84u8, 84u8, 80u8, 47u8, 49u8, 46u8, 49u8, 32u8]
}

/// The reason phrase of the status codes this service emits.
pub open spec fn reason_of(status: int) -> Seq<u8> {
    if status == 200 {
        seq![79u8, 75u8]
    } else if status == 400 {
        seq![66u8, 97u8, 100u8, 32u8, 82u8, 101u8, 113u8, 117u8, 101u8, 115u8, 116u8]
    } else {
        seq![78u8, 111u8, 116u8, 32u8, 70u8, 111u8, 117u8, 110u8, 100u8]
    }
}

/// The bytes `Content-Type: `.
pub open spec fn content_type_header() -> Seq<u8> {
    seq![67u8, 111u8, 110u8, 116u8, 101u8, 110u8, 116u8, 45u8, 84u8, 121u8, 112u8, 101u8, 58u8, 32u8]
}

/// The bytes `Content-Length: `.
pub open spec fn content_length_header() -> Seq<u8> {
    seq![
        67u8,
        111u8,
        110u8,
        116u8,
        101u8,
        110u8,
        116u8,
        45u8,
        76u8,
        101u8,
        110u8,
        103u8,
        116u8,
        104u8,
        58u8,
        32u8,
    ]
}

/// The media-type bytes of a content-type tag.
pub open spec fn content_type_name(ct: ContentType) -> Seq<u8> {
    match ct {
        ContentType::Html => seq![116u8, 101u8, 120u8, 116u8, 47u8, 104u8, 116u8, 109u8, 108u8],
        ContentType::Css => seq![116u8, 101u8, 120u8, 116u8, 47u8, 99u8, 115u8, 115u8],
        ContentType::Javascript => seq![
            97u8,
            112u8,
            112u8,
            108u8,
            105u8,
            99u8,
            97u8,
            116u8,
            105u8,
            111u8,
            110u8,
            47u8,
            106u8,
            97u8,
            118u8,
            97u8,
            115u8,
            99u8,
            114u8,
            105u8,
            112u8,
            116u8,
        ],
        ContentType::Plain => seq![116u8, 101u8, 120u8, 116u8, 47u8, 112u8, 108u8, 97u8, 105u8, 110u8],
    }
}

/// The decimal digits of `n`, most significant first, no leading zeros
/// (`0` itself is the single digit `0`).
pub open spec fn dec_repr(n: nat) -> Seq<u8>
    decreases n,
{
    if n < 10 {
        seq![(48 + n) as u8]
    } else {
        dec_repr(n / 10).push((48 + n % 10) as u8)
    }
}

/// The full byte image of a response: status line, `Content-Type` and
/// `Content-Length` headers, blank line, body.
pub open spec fn spec_render(r: ResponseSpec) -> Seq<u8> {
    http_prefix() + dec_repr(r.status as nat) + seq![32u8] + reason_of(r.status) + crlf()
        + content_type_header() + content_type_name(r.content_type) + crlf()
        + content_length_header() + dec_repr(r.body.len()) + crlf() + crlf() + r.body
}

/// Append the decimal digits of `n`.
fn push_decimal(out: &mut Vec<u8>, n: usize)
    ensures
        final(out)@ == old(out)@ + dec_repr(n as nat),
    decreases n,
{
    if n < 10 {
        out.push((48 + n) as u8);
        proof {
            assert(out@ =~= old(out)@ + dec_repr(n as nat));
        }
    } else {
        push_decimal(out, n / 10);
        out.push((48 + n % 10) as u8);
        proof {
            assert(out@ =~= old(out)@ + dec_repr(n as nat));
        }
    }
}

/// Append a copy of `body`.
fn push_body(out: &mut Vec<u8>, body: &Vec<u8>)
    ensures
        final(out)@ == old(out)@ + body@,
{
    let n = body.len();
    let mut i: usize = 0;
    while i < n
        invariant
            n == body@.len(),
            i <= n,
            out@ == old(out)@ + body@.subrange(0, i as int),
        decreases n - i,
    {
        out.push(body[i]);
        proof {
            assert(out@ =~= old(out)@ + body@.subrange(0, i + 1 as int));
        }
        i = i + 1;
    }
    proof {
        assert(out@ =~= old(out)@ + body@);
    }
}

/// Append `CR LF`.
fn push_crlf(out: &mut Vec<u8>)
    ensures
        final(out)@ == old(out)@ + crlf(),
{
    out.push(13);
    out.push(10);
    proof {
        assert(out@ =~= old(out)@ + crlf());
    }
}

/// Append `HTTP/1.1 `.
fn push_http_prefix(out: &mut Vec<u8>)
    ensures
        final(out)@ == old(out)@ + http_prefix(),
{
    out.push(72);
    out.push(84);
    out.push(84);
    out.push(80);
    out.push(47);
    out.push(49);
    out.push(46);
    out.push(49);
    out.push(32);
    proof {
        assert(out@ =~= old(out)@ + http_prefix());
    }
}

/// Append the reason phrase of `status`.
fn push_reason(out: &mut Vec<u8>, status: u16)
    ensures
        final(out)@ == old(out)@ + reason_of(status as int),
{
    if status == 200 {
        out.push(79);
        out.push(75);
    } else if status == 400 {
        out.push(66);
        out.push(97);
        out.push(100);
        out.push(32);
        out.push(82);
        out.push(101);
        out.push(113);
        out.push(117);
        out.push(101);
        out.push(115);
        out.push(116);
    } else {
        out.push(78);
        out.push(111);
        out.push(116);
        out.push(32);
        out.push(70);
        out.push(111);
        out.push(117);
        out.push(110);
        out.push(100);
    }
    proof {
        assert(out@ =~= old(out)@ + reason_of(status as int));
    }
}

/// Append `Content-Type: `.
fn push_content_type_header(out: &mut Vec<u8>)
    ensures
        final(out)@ == old(out)@ + content_type_header(),
{
    out.push(67);
    out.push(111);
    out.push(110);
    out.push(116);
    out.push(101);
    out.push(110);
    out.push(116);
    out.push(45);
    out.push(84);
    out.push(121);
    out.push(112);
    out.push(101);
    out.push(58);
    out.push(32);
    proof {
        assert(out@ =~= old(out)@ + content_type_header());
    }
}

/// Append `Content-Length: `.
fn push_content_length_header(out: &mut Vec<u8>)
    ensures
        final(out)@ == old(out)@ + content_length_header(),
{
    out.push(67);
    out.push(111);
    out.push(110);
    out.push(116);
    out.push(101);
    out.push(110);
    out.push(116);
    out.push(45);
    out.push(76);
    out.push(101);
    out.push(110);
    out.push(103);
    out.push(116);
    out.push(104);
    out.push(58);
    out.push(32);
    proof {
        assert(out@ =~= old(out)@ + content_length_header());
    }
}

/// Append the media-type bytes of `ct`.
fn push_content_type_name(out: &mut Vec<u8>, ct: ContentType)
    ensures
        final(out)@ == old(out)@ + content_type_name(ct),
{
    match ct {
        ContentType::Html => {
            out.push(116);
            out.push(101);
            out.push(120);
            out.push(116);
            out.push(47);
            out.push(104);
            out.push(116);
            out.push(109);
            out.push(108);
        },
        ContentType::Css => {
            out.push(116);
            out.push(101);
            out.push(120);
            out.push(116);
            out.push(47);
            out.push(99);
            out.push(115);
            out.push(115);
        },
        ContentType::Javascript => {
            out.push(97);
            out.push(112);
            out.push(112);
            out.push(108);
            out.push(105);
            out.push(99);
            out.push(97);
            out.push(116);
            out.push(105);
            out.push(111);
            out.push(110);
            out.push(47);
            out.push(106);
            out.push(97);
            out.push(118);
            out.push(97);
            out.push(115);
            out.push(99);
            out.push(114);
            out.push(105);
            out.push(112);
            out.push(116);
        },
        ContentType::Plain => {
            out.push(116);
            out.push(101);
            out.push(120);
            out.push(116);
            out.push(47);
            out.push(112);
            out.push(108);
            out.push(97);
            out.push(105);
            out.push(110);
        },
    }
    proof {
        assert(out@ =~= old(out)@ + content_type_name(ct));
    }
}

/// What answering one request line does: a malformed line gets the
/// framed client-error response and leaves the actuator alone; a
/// well-formed line is dispatched and its response framed.
pub open spec fn spec_respond(routes: Seq<RouteSpec>, line: Seq<u8>, on: bool) -> (Seq<u8>, bool) {
    if wf_request_line(line) {
        let o = spec_dispatch(routes, spec_method_of(method_token(line)), target_of(line), on);
        (spec_render(o.0), o.1)
    } else {
        (spec_render(bad_request_spec()), on)
    }
}

/// Answer one request line: parse it, dispatch the request against the
/// table, and frame the response as bytes, exactly as [`spec_respond`]
/// lays it out. This is the whole compute step of one request; the
/// embedding program only carries bytes to and from the transport.
pub fn respond_to_line(table: &RouteTable, line: &[u8], state: &mut ActuatorState) -> (out: Vec<
    u8,
>)
    requires
        table.wf(),
    ensures
        ({
            let o = spec_respond(table@, line@, old(state).on);
            out@ == o.0 && final(state).on == o.1
        }),
{
    match parse_request_line(line) {
        Some(request) => {
            let response = table.dispatch(request.method, request.path.as_slice(), state);
            render_response(&response)
        },
        None => render_response(&bad_request_response()),
    }
}

/// Frame a response as bytes: status line, the two headers, blank line,
/// body, exactly as [`spec_render`] lays them out.
pub fn render_response(r: &Response) -> (out: Vec<u8>)
    ensures
        out@ == spec_render(r@),
{
    let mut out: Vec<u8> = Vec::new();
    push_http_prefix(&mut out);
    push_decimal(&mut out, r.status as usize);
    out.push(32);
    push_reason(&mut out, r.status);
    push_crlf(&mut out);
    push_content_type_header(&mut out);
    push_content_type_name(&mut out, r.content_type);
    push_crlf(&mut out);
    push_content_length_header(&mut out);
    push_decimal(&mut out, r.body.len());
    push_crlf(&mut out);
    push_crlf(&mut out);
    push_body(&mut out, &r.body);
    proof {
        assert(out@ =~= spec_render(r@));
    }
    out
}

} // verus!
