//! The OpenRouter provider, the hosted OpenAI-compatible provider under
//! its older name, and the base64 encoding of the audio that chat requests
//! carry.
use vstd::prelude::*;

use base64::Engine;

pub use crate::openai_compat::OpenAiCompatibleProvider;
pub use crate::provider::default_request_for_config;

verus! {

/// `provider.kind = "openrouter"` selects the hosted OpenAI-compatible
/// provider; this is its older name.
pub type OpenRouterProvider = OpenAiCompatibleProvider;

/// What the `STANDARD` engine of the `base64` crate makes of `bytes`.
pub uninterp spec fn base64_standard(bytes: Seq<u8>) -> Seq<char>;

/// The length of the padded encoding of `n` bytes.
pub open spec fn padded_len(n: nat) -> nat {
    (n / 3) * 4 + if n % 3 == 0 { 0nat } else { 4nat }
}

/// Whether `n` bytes can be encoded: their padded encoding's length fits
/// in `usize`.
pub fn base64_fits(n: usize) -> (b: bool)
    ensures
        b == (padded_len(n as nat) <= usize::MAX),
{
    let chunks: u128 = (n as u128) / 3 * 4;
    let total: u128 = if n % 3 == 0 {
        chunks
    } else {
        chunks + 4
    };
    total <= usize::MAX as u128
}

/// Calls `Engine::encode` of `base64::engine::general_purpose::STANDARD`.
/// The contract claims that the result is that engine's encoding of the
/// bytes, of the padded length; the crate panics where that length does not
/// fit in `usize`, which `requires` leaves out.
#[verifier::external_body]
pub(crate) fn encode_base64(bytes: &[u8]) -> (s: String)
    requires
        padded_len(bytes@.len()) <= usize::MAX,
    ensures
        s@ == base64_standard(bytes@),
        s@.len() == padded_len(bytes@.len()),
{
    base64::engine::general_purpose::STANDARD.encode(bytes)
}

} // verus!
