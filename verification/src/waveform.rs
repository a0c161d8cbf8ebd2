use vstd::prelude::*;

verus! {

/// Largest instrument selector that names a sounding shape; the selector
/// is clamped to `0..=INSTRUMENT_MAX` by the controller.
pub const INSTRUMENT_MAX: u8 = 3;

/// The closed set of waveform shapes a tone can sound with. `Silence` is
/// the fallback slot for an out-of-range instrument selector.
#[derive(Clone, Copy, PartialEq, Eq, Structural, Debug)]
pub enum Waveform {
    Sine,
    Square,
    Saw,
    Triangle,
    Silence,
}

/// Which waveform an instrument selector chooses: the four sounding
/// shapes in order, and silence for anything past them.
pub open spec fn spec_waveform_for(instrument: u8) -> Waveform {
    if instrument == 0 {
        Waveform::Sine
    } else if instrument == 1 {
        Waveform::Square
    } else if instrument == 2 {
        Waveform::Saw
    } else if instrument == 3 {
        Waveform::Triangle
    } else {
        Waveform::Silence
    }
}

/// Resolve an instrument selector to the waveform newly pressed keys
/// will sound with.
pub fn waveform_for(instrument: u8) -> (w: Waveform)
    ensures
        w == spec_waveform_for(instrument),
{
    if instrument == 0 {
        Waveform::Sine
    } else if instrument == 1 {
        Waveform::Square
    } else if instrument == 2 {
        Waveform::Saw
    } else if instrument == 3 {
        Waveform::Triangle
    } else {
        Waveform::Silence
    }
}

} // verus!
