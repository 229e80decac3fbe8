//! The capability a platform audio output offers: it is created for a sample
//! rate and consumes interleaved 16-bit stereo samples.  The platform
//! backends implementing it live in the application.

use vstd::prelude::*;

verus! {

/// A sink for decoded samples.
pub trait AudioPlayer: Sized {
    /// Open an output running at `hz` Hz.
    fn new(hz: u32) -> Self;

    /// Hand interleaved stereo samples to the output.
    fn write(&mut self, samples: &[i16]);
}

} // verus!
