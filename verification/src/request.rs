//! Request-line parsing.
//!
//! A worker reads one buffer from a fresh connection and hands the raw bytes
//! here. The first line has the shape `<METHOD> <PATH> ...`: only the first
//! two space-delimited tokens matter. The method token is compared
//! case-sensitively against `GET` and `POST`; anything else leaves the method
//! as the `NONE` sentinel. The path token is taken verbatim. A buffer with
//! fewer than two tokens (no space byte at all) is malformed and is rejected
//! rather than dispatched.
//!
//! Tokens are split and matched on raw bytes. This agrees with splitting the
//! lossily UTF-8-decoded text on spaces — a space byte never occurs inside a
//! multi-byte sequence — except that a registered path containing the
//! replacement character itself never matches invalid bytes here.
//!
//! A request line longer than the buffer a single read fills is truncated at
//! the buffer's end and may parse as a shorter path: a known limitation of
//! the read-once design around this parser.

use vstd::prelude::*;

verus! {

/// The request methods the server understands. `NONE` is the pre-parse
/// sentinel, also used for an unrecognized method token; it never routes.
#[derive(Clone, Copy, PartialEq, Eq, Structural, Debug)]
pub enum HttpRequestTypes {
    NONE,
    GET,
    POST,
}

/// Why a buffer could not be parsed into a request.
#[derive(Clone, Copy, PartialEq, Eq, Structural, Debug)]
pub enum RequestError {
    /// The request line has fewer than two space-delimited tokens.
    MalformedRequest,
}

/// The space byte that delimits request-line tokens.
pub const SPACE: u8 = 32;

/// The bytes of the literal method token `GET`.
pub open spec fn get_token() -> Seq<u8> {
    seq![71u8, 69u8, 84u8]
}

/// The bytes of the literal method token `POST`.
pub open spec fn post_token() -> Seq<u8> {
    seq![80u8, 79u8, 83u8, 84u8]
}

/// The method a token denotes: exactly `GET` or `POST`, else the sentinel.
pub open spec fn method_of_token(t: Seq<u8>) -> HttpRequestTypes {
    if t == get_token() {
        HttpRequestTypes::GET
    } else if t == post_token() {
        HttpRequestTypes::POST
    } else {
        HttpRequestTypes::NONE
    }
}

/// The index of the first space byte at or after `from`, or `s.len()` if
/// there is none: the exclusive end of the token starting at `from`.
pub open spec fn token_end(s: Seq<u8>, from: int) -> int
    decreases s.len() - from,
{
    if from < 0 || from >= s.len() {
        s.len() as int
    } else if s[from] == SPACE {
        from
    } else {
        token_end(s, from + 1)
    }
}

/// What parsing a buffer yields: the method and the verbatim path token,
/// or nothing when the buffer holds no space byte (fewer than two tokens).
pub open spec fn parse_spec(s: Seq<u8>) -> Option<(HttpRequestTypes, Seq<u8>)> {
    let e0 = token_end(s, 0);
    if e0 == s.len() {
        None
    } else {
        let e1 = token_end(s, e0 + 1);
        Some((method_of_token(s.subrange(0, e0)), s.subrange(e0 + 1, e1)))
    }
}

/// The token that denotes a method on the wire; the `NONE` sentinel has no
/// token of its own and is mapped to the empty sequence, which no method
/// token equals.
pub open spec fn method_token(m: HttpRequestTypes) -> Seq<u8> {
    match m {
        HttpRequestTypes::GET => get_token(),
        HttpRequestTypes::POST => post_token(),
        HttpRequestTypes::NONE => Seq::empty(),
    }
}

/// A request line assembled from its parts: the method token, a space, the
/// path, then whatever follows (the protocol version, headers, padding).
pub open spec fn request_line(m: HttpRequestTypes, path: Seq<u8>, tail: Seq<u8>) -> Seq<u8> {
    method_token(m) + seq![SPACE] + path + tail
}

/// A parsed request line: the resolved method and the path token's bytes.
pub struct Request {
    pub method: HttpRequestTypes,
    pub path: Vec<u8>,
}

/// `token_end` stays within `[from, s.len()]`, sees no space before the end
/// it reports, and stops exactly on a space when it stops early.
pub proof fn lemma_token_end_bounds(s: Seq<u8>, from: int)
    requires
        0 <= from <= s.len(),
    ensures
        from <= token_end(s, from) <= s.len(),
        forall|k: int| from <= k < token_end(s, from) ==> s[k] != SPACE,
        token_end(s, from) < s.len() ==> s[token_end(s, from)] == SPACE,
    decreases s.len() - from,
{
    if from < s.len() && s[from] != SPACE {
        lemma_token_end_bounds(s, from + 1);
    }
}

/// If no byte in `[from, i)` is a space and `i` is the end or a space, then
/// the token starting at `from` ends exactly at `i`.
pub proof fn lemma_token_end_is(s: Seq<u8>, from: int, i: int)
    requires
        0 <= from <= i <= s.len(),
        forall|k: int| from <= k < i ==> s[k] != SPACE,
        i == s.len() || s[i] == SPACE,
    ensures
        token_end(s, from) == i,
    decreases i - from,
{
    if from < i {
        lemma_token_end_is(s, from + 1, i);
    }
}

/// Scan for the first space byte at or after `from`.
fn find_token_end(buf: &[u8], from: usize) -> (r: usize)
    requires
        from <= buf@.len(),
    ensures
        r == token_end(buf@, from as int),
{
    let mut i: usize = from;
    while i < buf.len()
        invariant
            from <= i <= buf@.len(),
            forall|k: int| from <= k < i ==> buf@[k] != SPACE,
        decreases buf@.len() - i,
    {
        if buf[i] == SPACE {
            proof {
                lemma_token_end_is(buf@, from as int, i as int);
            }
            return i;
        }
        i = i + 1;
    }
    proof {
        lemma_token_end_is(buf@, from as int, buf@.len() as int);
    }
    i
}

/// Parse one raw buffer into a request: resolve the method from the first
/// token and take the second token verbatim as the path. A buffer without a
/// space byte has no second token and is malformed.
pub fn parse_request(buf: &[u8]) -> (r: Result<Request, RequestError>)
    ensures
        match r {
            Ok(req) => parse_spec(buf@) == Some((req.method, req.path@)),
            Err(e) => parse_spec(buf@) is None && e == RequestError::MalformedRequest,
        },
{
    let e0 = find_token_end(buf, 0);
    proof {
        lemma_token_end_bounds(buf@, 0);
    }
    if e0 == buf.len() {
        return Err(RequestError::MalformedRequest);
    }
    let method = parse_method(buf, e0);
    let e1 = find_token_end(buf, e0 + 1);
    let mut path: Vec<u8> = Vec::new();
    let mut i: usize = e0 + 1;
    proof {
        lemma_token_end_bounds(buf@, e0 + 1);
    }
    while i < e1
        invariant
            e0 + 1 <= i <= e1 <= buf@.len(),
            path@ == buf@.subrange(e0 + 1, i as int),
        decreases e1 - i,
    {
        path.push(buf[i]);
        proof {
            assert(path@ =~= buf@.subrange(e0 + 1, i + 1));
        }
        i = i + 1;
    }
    Ok(Request { method, path })
}

/// A method's wire token resolves back to that method: the tokens of the
/// three variants are pairwise distinct.
pub proof fn lemma_method_token_roundtrip(m: HttpRequestTypes)
    ensures
        method_of_token(method_token(m)) == m,
{
    assert(get_token().len() == 3);
    assert(post_token().len() == 4);
    assert(Seq::<u8>::empty().len() == 0);
}

/// No method token contains a space byte.
pub proof fn lemma_method_token_no_space(m: HttpRequestTypes)
    ensures
        forall|k: int| 0 <= k < method_token(m).len() ==> method_token(m)[k] != SPACE,
{
    assert forall|k: int| 0 <= k < method_token(m).len() implies method_token(m)[k] != SPACE by {
        if m == HttpRequestTypes::GET {
            assert(method_token(m) == get_token());
        } else if m == HttpRequestTypes::POST {
            assert(method_token(m) == post_token());
        }
    }
}

/// Parsing a well-shaped request line recovers exactly its parts: a buffer
/// of the form `<method token> <path><tail>`, where the path holds no space
/// and the tail is empty or starts with a space, parses to that method and
/// that path.
pub proof fn lemma_parse_request_line(m: HttpRequestTypes, path: Seq<u8>, tail: Seq<u8>)
    requires
        forall|k: int| 0 <= k < path.len() ==> path[k] != SPACE,
        tail.len() == 0 || tail[0] == SPACE,
    ensures
        parse_spec(request_line(m, path, tail)) == Some((m, path)),
{
    let s = request_line(m, path, tail);
    let mt = method_token(m);
    let e1 = mt.len() + 1 + path.len();
    lemma_method_token_no_space(m);
    assert(s.len() == mt.len() + 1 + path.len() + tail.len());
    assert(forall|k: int| 0 <= k < mt.len() ==> s[k] == mt[k]);
    assert(s[mt.len() as int] == SPACE);
    lemma_token_end_is(s, 0, mt.len() as int);
    assert(forall|k: int| mt.len() + 1 <= k < e1 ==> s[k] == path[k - mt.len() - 1]);
    if tail.len() == 0 {
        assert(e1 == s.len());
    } else {
        assert(s[e1 as int] == tail[0]);
    }
    lemma_token_end_is(s, mt.len() + 1 as int, e1 as int);
    assert(s.subrange(0, mt.len() as int) =~= mt);
    lemma_method_token_roundtrip(m);
    assert(s.subrange(mt.len() + 1 as int, e1 as int) =~= path);
}

/// Resolve the method from the first token `buf[0 .. e0]`.
fn parse_method(buf: &[u8], e0: usize) -> (m: HttpRequestTypes)
    requires
        e0 <= buf@.len(),
    ensures
        m == method_of_token(buf@.subrange(0, e0 as int)),
{
    if e0 == 3 && buf[0] == 71 && buf[1] == 69 && buf[2] == 84 {
        proof {
            assert(buf@.subrange(0, e0 as int) =~= get_token());
        }
        HttpRequestTypes::GET
    } else if e0 == 4 && buf[0] == 80 && buf[1] == 79 && buf[2] == 83 && buf[3] == 84 {
        proof {
            assert(buf@.subrange(0, e0 as int) =~= post_token());
        }
        HttpRequestTypes::POST
    } else {
        proof {
            let t = buf@.subrange(0, e0 as int);
            assert(t.len() == e0);
            if t == get_token() {
                assert(t[0] == 71 && t[1] == 69 && t[2] == 84);
            }
            if t == post_token() {
                assert(t[0] == 80 && t[1] == 79 && t[2] == 83 && t[3] == 84);
            }
        }
        HttpRequestTypes::NONE
    }
}

} // verus!
