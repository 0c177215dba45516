//! Textual encoding of artifacts for transport.
//!
//! Artifacts are byte blobs; responses carry them as base64 text.

use vstd::prelude::*;
use base64::Engine;

verus! {

/// The text that the standard base64 encoding assigns to a byte sequence.
pub uninterp spec fn base64_of(bytes: Seq<u8>) -> Seq<char>;

/// Relies on base64's `STANDARD` engine (`Engine::encode`): the encoding is
/// a pure function of the input bytes, and with padding it emits four
/// characters for every started group of three bytes. `encode` panics only
/// when that output length overflows `usize`, which the precondition rules
/// out.
#[verifier::external_body]
pub(crate) fn encode_base64(bytes: &Vec<u8>) -> (r: String)
    requires
        4 * ((bytes@.len() + 2) / 3) <= usize::MAX,
    ensures
        r@ == base64_of(bytes@),
        r@.len() == 4 * ((bytes@.len() + 2) / 3),
{
    base64::engine::general_purpose::STANDARD.encode(bytes)
}

} // verus!
