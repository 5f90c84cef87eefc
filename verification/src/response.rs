//! The fixed HTTP response that every connection receives.
//!
//! The server never parses what a client sends: the one observable output on
//! a connection is this pre-serialized byte sequence, identical for every
//! request. The spec functions below pin the sequence down byte by byte
//! (ASCII, written as decimal codes), and [`fixed_response`] is proved to
//! build exactly that sequence.

use vstd::prelude::*;

verus! {

/// The status line: `HTTP/1.1 200 OK` followed by CRLF.
pub open spec fn status_line() -> Seq<u8> {
    seq![
        72u8, 84, 84, 80, 47, 49, 46, 49, 32, 50, 48, 48, 32, 79, 75, 13, 10,
    ]
}

/// The first header: `Content-Type: text/plain` followed by CRLF.
pub open spec fn content_type_header() -> Seq<u8> {
    seq![
        67u8, 111, 110, 116, 101, 110, 116, 45, 84, 121, 112, 101, 58, 32,
        116, 101, 120, 116, 47, 112, 108, 97, 105, 110, 13, 10,
    ]
}

/// The second header: `Content-Length: 11` followed by CRLF.
pub open spec fn content_length_header() -> Seq<u8> {
    seq![
        67u8, 111, 110, 116, 101, 110, 116, 45, 76, 101, 110, 103, 116, 104,
        58, 32, 49, 49, 13, 10,
    ]
}

/// The blank line that separates headers from the body.
pub open spec fn header_terminator() -> Seq<u8> {
    seq![13u8, 10]
}

/// The body: `helloworld` followed by a newline.
pub open spec fn body_bytes() -> Seq<u8> {
    seq![104u8, 101, 108, 108, 111, 119, 111, 114, 108, 100, 10]
}

/// The content length declared in the `Content-Length` header.
pub open spec fn declared_content_length() -> nat {
    11
}

/// The complete wire format: status line, two headers, blank line, body.
pub open spec fn response_bytes() -> Seq<u8> {
    status_line() + content_type_header() + content_length_header()
        + header_terminator() + body_bytes()
}

/// The declared `Content-Length` matches the exact byte length of the body,
/// so the fixed response is a self-consistent HTTP message.
pub proof fn lemma_content_length_consistent()
    ensures
        body_bytes().len() == declared_content_length(),
{
}

/// The whole response is 76 bytes long and ends with the body.
pub proof fn lemma_response_shape()
    ensures
        response_bytes().len() == 76,
        response_bytes().subrange(65, 76) == body_bytes(),
{
    assert(response_bytes().subrange(65, 76) =~= body_bytes());
}

/// Builds the fixed response buffer: exactly the bytes of `response_bytes`.
pub fn fixed_response() -> (r: Vec<u8>)
    ensures
        r@ == response_bytes(),
{
    let mut r: Vec<u8> = Vec::new();
    r.push(72);
    r.push(84);
    r.push(84);
    r.push(80);
    r.push(47);
    r.push(49);
    r.push(46);
    r.push(49);
    r.push(32);
    r.push(50);
    r.push(48);
    r.push(48);
    r.push(32);
    r.push(79);
    r.push(75);
    r.push(13);
    r.push(10);
    r.push(67);
    r.push(111);
    r.push(110);
    r.push(116);
    r.push(101);
    r.push(110);
    r.push(116);
    r.push(45);
    r.push(84);
    r.push(121);
    r.push(112);
    r.push(101);
    r.push(58);
    r.push(32);
    r.push(116);
    r.push(101);
    r.push(120);
    r.push(116);
    r.push(47);
    r.push(112);
    r.push(108);
    r.push(97);
    r.push(105);
    r.push(110);
    r.push(13);
    r.push(10);
    r.push(67);
    r.push(111);
    r.push(110);
    r.push(116);
    r.push(101);
    r.push(110);
    r.push(116);
    r.push(45);
    r.push(76);
    r.push(101);
    r.push(110);
    r.push(103);
    r.push(116);
    r.push(104);
    r.push(58);
    r.push(32);
    r.push(49);
    r.push(49);
    r.push(13);
    r.push(10);
    r.push(13);
    r.push(10);
    r.push(104);
    r.push(101);
    r.push(108);
    r.push(108);
    r.push(111);
    r.push(119);
    r.push(111);
    r.push(114);
    r.push(108);
    r.push(100);
    r.push(10);
    proof {
        assert(r@ =~= response_bytes());
    }
    r
}

} // verus!
