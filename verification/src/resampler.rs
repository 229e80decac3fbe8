//! The resampler's control state: which rates it converts between and when
//! it passes samples through untouched.  The sinc interpolation itself runs
//! in the application on the outside resampling library.

use vstd::prelude::*;

verus! {

/// The resampling decision: enabled only between differing rates.
#[derive(Debug, Clone, Copy)]
pub struct ResamplerControl {
    pub source_hz: u32,
    pub target_hz: u32,
    pub enabled: bool,
}

impl ResamplerControl {
    /// A control in passthrough, for one rate.
    pub fn new(rate: u32) -> (r: ResamplerControl)
        ensures
            r.source_hz == rate,
            r.target_hz == rate,
            !r.enabled,
    {
        ResamplerControl { source_hz: rate, target_hz: rate, enabled: false }
    }

    /// Adopt new rates: resampling is enabled exactly when they differ, so a
    /// stream converted to its own rate passes through untouched.
    pub fn set_frequencies(&mut self, source_hz: u32, target_hz: u32)
        ensures
            final(self).source_hz == source_hz,
            final(self).target_hz == target_hz,
            final(self).enabled == (source_hz != target_hz),
    {
        self.source_hz = source_hz;
        self.target_hz = target_hz;
        self.enabled = source_hz != target_hz;
    }

    /// Whether samples pass through bit-identical.
    pub fn passthrough(&self) -> (r: bool)
        ensures
            r == !self.enabled,
    {
        !self.enabled
    }
}

} // verus!
