//! The CoreAudio host.

use vstd::prelude::*;

use crate::error::Error;

verus! {

/// The CoreAudio host, the default host on macOS.
#[derive(Clone, Copy, Debug, PartialEq, Eq, Structural)]
pub struct Host;

impl Host {
    /// The host. There is nothing to set up, so this always succeeds.
    pub fn new() -> (r: Result<Host, Error>)
        ensures
            r == Ok::<Host, Error>(Host),
    {
        Ok(Host)
    }

    /// Whether the host can be used: CoreAudio always can.
    pub fn is_available() -> (r: bool)
        ensures
            r,
    {
        true
    }
}

} // verus!
