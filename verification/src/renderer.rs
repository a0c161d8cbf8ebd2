use vstd::prelude::*;

verus! {

/// The renderer's own state: the sample clock, a counter wrapping modulo
/// the sample rate that marks the position in time at which the next
/// frame's waveforms are evaluated. Only the render side touches it.
pub struct SampleClock {
    pub sample_rate: u32,
    pub sample_clock: u32,
}

impl SampleClock {
    /// Well-formedness: the rate is positive and the clock stays below
    /// it.
    pub open spec fn wf(&self) -> bool {
        self.sample_rate > 0 && self.sample_clock < self.sample_rate
    }

    /// A clock at position zero for the negotiated sample rate.
    pub fn new(sample_rate: u32) -> (r: SampleClock)
        requires
            sample_rate > 0,
        ensures
            r.wf(),
            r.sample_rate == sample_rate,
            r.sample_clock == 0,
    {
        SampleClock { sample_rate, sample_clock: 0 }
    }

    /// Advance by one frame, wrapping modulo the sample rate, and return
    /// the new position: the renderer evaluates each frame's waveforms at
    /// the clock value reached after the advance.
    pub fn advance(&mut self) -> (position: u32)
        requires
            old(self).wf(),
        ensures
            final(self).wf(),
            final(self).sample_rate == old(self).sample_rate,
            final(self).sample_clock == (old(self).sample_clock + 1) % (
            old(self).sample_rate as int),
            position == final(self).sample_clock,
    {
        self.sample_clock = (self.sample_clock + 1) % self.sample_rate;
        self.sample_clock
    }
}

} // verus!
