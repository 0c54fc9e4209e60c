//! The response builder: a pure function from one stats snapshot to a
//! well-formed HTTP/1.1 response, and its serialization to wire text.
//!
//! The page body and the header block are pinned character for character by
//! the spec functions below, and the `Content-Length` header is proved to be
//! the decimal byte length of the body.

use vstd::prelude::*;
use vstd::string::StringExecFns;
use vstd::utf8::{encode_scalar, encode_utf8};
use crate::digits::{dec_chars, lemma_dec_chars_len_u64, u64_to_decimal};
use crate::stats::StatsSnapshot;

verus! {

/// The page text before the total-memory figure.
pub open spec fn body_prefix() -> Seq<char> {
    "\n            <html>\n                <head>\n                    <meta charset=\"UTF-8\">\n                    <title>Unikernel Stats</title>\n                </head>\n                <body>\n                    <h1>Hello, Unikernel World!</h1>\n                    <p>Here are some system stats:</p>\n                    <ul>\n                        <li><strong>Total Memory:</strong> "@
}

/// The page text between the total-memory and used-memory figures.
pub open spec fn body_infix() -> Seq<char> {
    " kB</li>\n                        <li><strong>Used Memory:</strong> "@
}

/// The page text after the used-memory figure.
pub open spec fn body_suffix() -> Seq<char> {
    " kB</li>                        \n                    </ul>\n                </body>\n            </html>\n        "@
}

/// The HTML page reporting the given memory figures, in kilobytes.
pub open spec fn body_chars(total_kb: nat, used_kb: nat) -> Seq<char> {
    body_prefix() + dec_chars(total_kb) + body_infix() + dec_chars(used_kb) + body_suffix()
}

/// The byte length of the page for the given figures: the page is what goes
/// on the wire, so the length is that of its UTF-8 encoding.
pub open spec fn body_byte_len(total_kb: nat, used_kb: nat) -> nat {
    encode_utf8(body_chars(total_kb, used_kb)).len()
}

pub open spec fn status_line_chars() -> Seq<char> {
    "HTTP/1.1 200 OK"@
}

pub open spec fn crlf() -> Seq<char> {
    "\r\n"@
}

pub open spec fn header_sep() -> Seq<char> {
    ": "@
}

pub open spec fn content_type_name() -> Seq<char> {
    "Content-Type"@
}

pub open spec fn content_type_value() -> Seq<char> {
    "text/html; charset=UTF-8"@
}

pub open spec fn content_length_name() -> Seq<char> {
    "Content-Length"@
}

/// One response: status line, headers in insertion order, and the page body.
pub struct HttpResponse {
    pub status_line: String,
    pub headers: Vec<(String, String)>,
    pub body: String,
}

impl HttpResponse {
    /// Well-formedness: the fixed status line; exactly the `Content-Type`
    /// header and then the `Content-Length` header, whose value is the
    /// decimal byte length of the body.
    pub open spec fn wf(self) -> bool {
        &&& self.status_line@ == status_line_chars()
        &&& self.headers@.len() == 2
        &&& self.headers@[0].0@ == content_type_name()
        &&& self.headers@[0].1@ == content_type_value()
        &&& self.headers@[1].0@ == content_length_name()
        &&& self.headers@[1].1@ == dec_chars(encode_utf8(self.body@).len())
    }
}

/// One serialized header line: `name: value` and a line break.
pub open spec fn header_line_chars(h: (String, String)) -> Seq<char> {
    h.0@ + header_sep() + h.1@ + crlf()
}

/// The serialized header block, in insertion order.
pub open spec fn headers_chars(hs: Seq<(String, String)>) -> Seq<char>
    decreases hs.len(),
{
    if hs.len() == 0 {
        Seq::empty()
    } else {
        header_line_chars(hs[0]) + headers_chars(hs.drop_first())
    }
}

/// The wire text of a response: status line, header block, an empty line,
/// then the body.
pub open spec fn wire_chars(r: HttpResponse) -> Seq<char> {
    r.status_line@ + crlf() + headers_chars(r.headers@) + crlf() + r.body@
}

/// The complete response text for the given memory figures.
pub open spec fn response_chars(total_kb: nat, used_kb: nat) -> Seq<char> {
    status_line_chars() + crlf() + content_type_name() + header_sep() + content_type_value()
        + crlf() + content_length_name() + header_sep() + dec_chars(
        body_byte_len(total_kb, used_kb),
    ) + crlf() + crlf() + body_chars(total_kb, used_kb)
}

/// `needle` occurs somewhere in `hay`.
pub open spec fn has_substring(hay: Seq<char>, needle: Seq<char>) -> bool {
    exists|k: int|
        0 <= k && k + needle.len() <= hay.len() && #[trigger] hay.subrange(k, k + needle.len())
            == needle
}

/// Every generated page mentions the title text, whatever the figures are.
pub proof fn lemma_body_mentions_title(total_kb: nat, used_kb: nat)
    ensures
        has_substring(body_chars(total_kb, used_kb), "Unikernel World"@),
{
    reveal_strlit(
        "\n            <html>\n                <head>\n                    <meta charset=\"UTF-8\">\n                    <title>Unikernel Stats</title>\n                </head>\n                <body>\n                    <h1>Hello, Unikernel World!</h1>\n                    <p>Here are some system stats:</p>\n                    <ul>\n                        <li><strong>Total Memory:</strong> ",
    );
    reveal_strlit("Unikernel World");
    let hay = body_chars(total_kb, used_kb);
    let needle = "Unikernel World"@;
    assert(needle.len() == 15);
    assert(body_prefix().len() == 376);
    assert(has_substring(hay, needle)) by {
        assert(hay.subrange(215, 215 + needle.len() as int) =~= needle);
    }
}

/// The UTF-8 encoding of a character sequence takes at most four bytes per
/// character.
pub proof fn lemma_encode_utf8_len_le(chars: Seq<char>)
    ensures
        encode_utf8(chars).len() <= 4 * chars.len(),
    decreases chars.len(),
{
    if chars.len() == 0 {
    } else {
        lemma_encode_utf8_len_le(chars.drop_first());
        assert(encode_scalar(chars[0] as u32).len() <= 4);
    }
}

/// Renders the HTML page for one snapshot, exactly as `body_chars` says.
pub fn build_body(stats: &StatsSnapshot) -> (b: String)
    ensures
        b@ == body_chars(stats.total_kb as nat, stats.used_kb as nat),
{
    let mut b = String::from_str(
        "\n            <html>\n                <head>\n                    <meta charset=\"UTF-8\">\n                    <title>Unikernel Stats</title>\n                </head>\n                <body>\n                    <h1>Hello, Unikernel World!</h1>\n                    <p>Here are some system stats:</p>\n                    <ul>\n                        <li><strong>Total Memory:</strong> ",
    );
    let total_digits = u64_to_decimal(stats.total_kb);
    b.append(total_digits.as_str());
    b.append(" kB</li>\n                        <li><strong>Used Memory:</strong> ");
    let used_digits = u64_to_decimal(stats.used_kb);
    b.append(used_digits.as_str());
    b.append(
        " kB</li>                        \n                    </ul>\n                </body>\n            </html>\n        ",
    );
    proof {
        assert(b@ =~= body_chars(stats.total_kb as nat, stats.used_kb as nat));
    }
    b
}

/// Builds the response for one snapshot: always succeeds, and the
/// `Content-Length` header is the exact byte length of the body, for every
/// snapshot, zero values included.
pub fn build_response(stats: &StatsSnapshot) -> (r: HttpResponse)
    ensures
        r.wf(),
        r.body@ == body_chars(stats.total_kb as nat, stats.used_kb as nat),
{
    let body = build_body(stats);
    proof {
        lemma_body_byte_len_small(stats.total_kb, stats.used_kb);
    }
    let len = body.as_str().len();
    let len_digits = u64_to_decimal(len as u64);
    let mut headers: Vec<(String, String)> = Vec::new();
    headers.push((String::from_str("Content-Type"), String::from_str("text/html; charset=UTF-8")));
    headers.push((String::from_str("Content-Length"), len_digits));
    HttpResponse { status_line: String::from_str("HTTP/1.1 200 OK"), headers, body }
}

/// The page for any pair of `u64` figures is far shorter than any machine's
/// address space, so its byte length survives a cast to `usize` or `u64`.
proof fn lemma_body_byte_len_small(total_kb: u64, used_kb: u64)
    ensures
        body_byte_len(total_kb as nat, used_kb as nat) < 4096,
{
    reveal_strlit(
        "\n            <html>\n                <head>\n                    <meta charset=\"UTF-8\">\n                    <title>Unikernel Stats</title>\n                </head>\n                <body>\n                    <h1>Hello, Unikernel World!</h1>\n                    <p>Here are some system stats:</p>\n                    <ul>\n                        <li><strong>Total Memory:</strong> ",
    );
    reveal_strlit(" kB</li>\n                        <li><strong>Used Memory:</strong> ");
    reveal_strlit(
        " kB</li>                        \n                    </ul>\n                </body>\n            </html>\n        ",
    );
    lemma_dec_chars_len_u64(total_kb);
    lemma_dec_chars_len_u64(used_kb);
    assert(body_chars(total_kb as nat, used_kb as nat).len() <= 594);
    lemma_encode_utf8_len_le(body_chars(total_kb as nat, used_kb as nat));
}

/// Serializes a response to its wire text.
pub fn serialize_response(r: &HttpResponse) -> (w: String)
    ensures
        w@ == wire_chars(*r),
{
    let mut w = r.status_line.clone();
    w.append("\r\n");
    let mut i: usize = 0;
    while i < r.headers.len()
        invariant
            0 <= i <= r.headers@.len(),
            w@ == r.status_line@ + crlf() + headers_chars(r.headers@.take(i as int)),
        decreases r.headers@.len() - i,
    {
        let name = &r.headers[i].0;
        let value = &r.headers[i].1;
        w.append(name.as_str());
        w.append(": ");
        w.append(value.as_str());
        w.append("\r\n");
        proof {
            lemma_headers_chars_push(r.headers@.take(i as int), r.headers@[i as int]);
            assert(r.headers@.take(i as int).push(r.headers@[i as int]) =~= r.headers@.take(
                i as int + 1,
            ));
            assert(w@ =~= r.status_line@ + crlf() + headers_chars(r.headers@.take(i as int + 1)));
        }
        i = i + 1;
    }
    w.append("\r\n");
    let body = &r.body;
    w.append(body.as_str());
    proof {
        assert(r.headers@.take(r.headers@.len() as int) =~= r.headers@);
        assert(w@ =~= wire_chars(*r));
    }
    w
}

/// Appending one header extends the serialized block at its end.
proof fn lemma_headers_chars_push(hs: Seq<(String, String)>, h: (String, String))
    ensures
        headers_chars(hs.push(h)) == headers_chars(hs) + header_line_chars(h),
    decreases hs.len(),
{
    if hs.len() == 0 {
        assert(hs.push(h).drop_first() =~= hs);
        assert(headers_chars(hs.push(h)) =~= headers_chars(hs) + header_line_chars(h));
    } else {
        lemma_headers_chars_push(hs.drop_first(), h);
        assert(hs.push(h).drop_first() =~= hs.drop_first().push(h));
        assert(headers_chars(hs.push(h)) =~= headers_chars(hs) + header_line_chars(h));
    }
}

/// The wire text of a well-formed response whose body reports the given
/// figures is exactly the response text for those figures.
pub proof fn lemma_wire_of_wf(r: HttpResponse, total_kb: nat, used_kb: nat)
    requires
        r.wf(),
        r.body@ == body_chars(total_kb, used_kb),
    ensures
        wire_chars(r) == response_chars(total_kb, used_kb),
{
    let hs = r.headers@;
    assert(headers_chars(hs) == header_line_chars(hs[0]) + headers_chars(hs.drop_first()));
    assert(hs.drop_first()[0] == hs[1]);
    assert(headers_chars(hs.drop_first()) == header_line_chars(hs[1]) + headers_chars(
        hs.drop_first().drop_first(),
    ));
    assert(hs.drop_first().drop_first().len() == 0);
    assert(headers_chars(hs.drop_first().drop_first()) == Seq::<char>::empty());
    assert(wire_chars(r) =~= response_chars(total_kb, used_kb));
}

/// Builds the full wire text for one snapshot in a single step.
pub fn build_wire(stats: &StatsSnapshot) -> (w: String)
    ensures
        w@ == response_chars(stats.total_kb as nat, stats.used_kb as nat),
{
    let r = build_response(stats);
    let w = serialize_response(&r);
    proof {
        lemma_wire_of_wf(r, stats.total_kb as nat, stats.used_kb as nat);
    }
    w
}

} // verus!
