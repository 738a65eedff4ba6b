//! CoreAudio status codes.

use vstd::prelude::*;

verus! {

/// A CoreAudio status code; zero is success.
pub type OSStatus = i32;

/// The status of a render callback that did its work.
pub const NO_ERROR: OSStatus = 0;

/// The status by which a render callback refuses a call: `kAudio_ParamError`.
pub const PARAM_ERROR: OSStatus = -50;

/// `kAudio_ParamError` of `objc2_core_audio_types`.
///
/// That crate defines the constant as `-50`.
#[verifier::external_body]
pub(crate) fn param_error() -> (status: OSStatus)
    ensures
        status == PARAM_ERROR,
{
    objc2_core_audio_types::kAudio_ParamError
}

} // verus!
