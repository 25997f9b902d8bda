//! Base64 text for embedded pictures.

use vstd::prelude::*;
use base64::Engine;

verus! {

/// The standard base64 encoding, with padding, of a sequence of bytes.
pub uninterp spec fn base64_standard(data: Seq<u8>) -> Seq<char>;

/// Input lengths whose encoding is sure to fit the address space.
pub open spec fn can_encode(data: Seq<u8>) -> bool {
    data.len() <= usize::MAX / 2
}

/// Calls `Engine::encode` of the base64 crate on its `STANDARD` engine.
/// The result is taken to be the encoding of the given bytes and of nothing
/// else. The crate gives up where the encoded length, four characters for
/// every three bytes begun, does not fit in `usize`; the bound keeps well
/// below that.
#[verifier::external_body]
pub(crate) fn base64_encode(data: &[u8]) -> (r: String)
    requires
        can_encode(data@),
    ensures
        r@ == base64_standard(data@),
{
    base64::engine::general_purpose::STANDARD.encode(data)
}

} // verus!
