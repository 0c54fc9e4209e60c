//! The read phase's view of inbound bytes: they are never parsed, only
//! decoded leniently into diagnostic text and reported.

use vstd::prelude::*;
use vstd::utf8::{decode_utf8, valid_utf8};

verus! {

/// What lossy UTF-8 decoding returns for the given bytes. The full
/// replacement-character rule takes pages to state; this name stands for its
/// result, which depends on the bytes alone.
pub uninterp spec fn lossy_decode(bytes: Seq<u8>) -> Seq<char>;

/// Relies on `String::from_utf8_lossy`: invalid sequences become replacement
/// characters, valid UTF-8 decodes to exactly the string it encodes, and
/// empty input gives an empty string.
#[verifier::external_body]
fn utf8_lossy(bytes: &[u8]) -> (r: String)
    ensures
        r@ == lossy_decode(bytes@),
        valid_utf8(bytes@) ==> r@ == decode_utf8(bytes@),
        bytes@.len() == 0 ==> r@.len() == 0,
{
    String::from_utf8_lossy(bytes).into_owned()
}

/// The diagnostic text reported for one request: the lossy decoding of the
/// bytes the read produced. Any byte sequence at all is accepted.
pub fn decode_request(bytes: &[u8]) -> (r: String)
    ensures
        r@ == lossy_decode(bytes@),
        valid_utf8(bytes@) ==> r@ == decode_utf8(bytes@),
        bytes@.len() == 0 ==> r@.len() == 0,
{
    utf8_lossy(bytes)
}

} // verus!
