//! Base64, as the `base64` crate writes it. Believed, not proved.

use base64::engine::general_purpose::STANDARD;
use base64::Engine;
use vstd::prelude::*;

verus! {

/// The text that `base64::Engine::encode` of the engine
/// `base64::engine::general_purpose::STANDARD` gives for `bytes`: the standard
/// alphabet, with padding.
pub uninterp spec fn base64_standard(bytes: Seq<u8>) -> Seq<char>;

/// Whether `length` bytes can be encoded: the crate counts four output
/// characters for each three input bytes, and four more for what is left, and
/// gives up where that count cannot be had or is more than a buffer can hold.
pub open spec fn encodable(length: nat) -> bool {
    length / 3 * 4 + 4 <= isize::MAX
}

/// `base64::Engine::encode` on the engine `STANDARD`: the text is the named
/// one.
#[verifier::external_body]
pub(crate) fn encode_standard(bytes: &[u8]) -> (text: String)
    requires
        encodable(bytes@.len()),
    ensures
        text@ == base64_standard(bytes@),
{
    STANDARD.encode(bytes)
}

} // verus!
