//! Response formatting.
//!
//! Every successful reply has the same minimal envelope: a fixed `200 OK`
//! status line, a `Content-Length` header equal to the byte length of the
//! body, a blank line, then the body, and nothing else. The length is
//! rendered in decimal with no leading zeros.

use vstd::prelude::*;

verus! {

/// The decimal digits of `n`, most significant first, as ASCII bytes, with
/// no leading zeros (`0` itself is the single digit `0`).
pub open spec fn dec_rep(n: nat) -> Seq<u8>
    decreases n,
{
    if n < 10 {
        seq![(48 + n) as u8]
    } else {
        dec_rep(n / 10).push((48 + n % 10) as u8)
    }
}

/// The fixed preamble of every response: the bytes of
/// `HTTP/1.1 200 OK\r\nContent-Length: `.
pub open spec fn response_preamble() -> Seq<u8> {
    seq![
        72u8, 84u8, 84u8, 80u8, 47u8, 49u8, 46u8, 49u8, 32u8,
        50u8, 48u8, 48u8, 32u8, 79u8, 75u8, 13u8, 10u8,
        67u8, 111u8, 110u8, 116u8, 101u8, 110u8, 116u8, 45u8,
        76u8, 101u8, 110u8, 103u8, 116u8, 104u8, 58u8, 32u8,
    ]
}

/// The blank line that ends the headers.
pub open spec fn header_end() -> Seq<u8> {
    seq![13u8, 10u8, 13u8, 10u8]
}

/// The complete response emitted for a body: preamble, the body's byte
/// length in decimal, the blank line, then the body verbatim.
pub open spec fn response_bytes(body: Seq<u8>) -> Seq<u8> {
    response_preamble() + dec_rep(body.len()) + header_end() + body
}

/// Append the decimal rendering of `n` to `out`.
fn push_decimal(out: &mut Vec<u8>, n: usize)
    ensures
        final(out)@ == old(out)@ + dec_rep(n as nat),
    decreases n,
{
    if n < 10 {
        out.push(48 + (n as u8));
        proof {
            assert(out@ =~= old(out)@ + dec_rep(n as nat));
        }
    } else {
        push_decimal(out, n / 10);
        out.push(48 + ((n % 10) as u8));
        proof {
            assert(out@ =~= old(out)@ + dec_rep(n as nat));
        }
    }
}

/// Build the full response for a body: status line `200 OK`, a
/// `Content-Length` of exactly the body's byte length, the blank line, and
/// the body, in that order.
pub fn http_response(body: &[u8]) -> (r: Vec<u8>)
    ensures
        r@ == response_bytes(body@),
{
    let mut r: Vec<u8> = Vec::new();
    r.push(72u8);
    r.push(84u8);
    r.push(84u8);
    r.push(80u8);
    r.push(47u8);
    r.push(49u8);
    r.push(46u8);
    r.push(49u8);
    r.push(32u8);
    r.push(50u8);
    r.push(48u8);
    r.push(48u8);
    r.push(32u8);
    r.push(79u8);
    r.push(75u8);
    r.push(13u8);
    r.push(10u8);
    r.push(67u8);
    r.push(111u8);
    r.push(110u8);
    r.push(116u8);
    r.push(101u8);
    r.push(110u8);
    r.push(116u8);
    r.push(45u8);
    r.push(76u8);
    r.push(101u8);
    r.push(110u8);
    r.push(103u8);
    r.push(116u8);
    r.push(104u8);
    r.push(58u8);
    r.push(32u8);
    proof {
        assert(r@ =~= response_preamble());
    }
    push_decimal(&mut r, body.len());
    r.push(13u8);
    r.push(10u8);
    r.push(13u8);
    r.push(10u8);
    proof {
        assert(r@ =~= response_preamble() + dec_rep(body@.len()) + header_end() + body@.subrange(
            0,
            0,
        ));
    }
    let mut i: usize = 0;
    while i < body.len()
        invariant
            i <= body@.len(),
            r@ == response_preamble() + dec_rep(body@.len()) + header_end() + body@.subrange(
                0,
                i as int,
            ),
        decreases body@.len() - i,
    {
        r.push(body[i]);
        proof {
            assert(r@ =~= response_preamble() + dec_rep(body@.len()) + header_end()
                + body@.subrange(0, i + 1));
        }
        i = i + 1;
    }
    proof {
        assert(r@ =~= response_bytes(body@));
    }
    r
}

} // verus!
