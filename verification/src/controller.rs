use crate::registry::{ToneParams, ToneRegistry};
use crate::waveform::{spec_waveform_for, waveform_for, INSTRUMENT_MAX};
use vstd::prelude::*;

verus! {

/// Largest volume level: twenty steps of one twentieth each, so level
/// `VOLUME_MAX` stands for full amplitude and one step for 0.05 of it.
pub const VOLUME_MAX: u8 = 20;

/// Starting volume level: half of full amplitude.
pub const VOLUME_INITIAL: u8 = 10;

/// One discrete event delivered by the window/input backend, already
/// resolved to its meaning for the core. A key carries the frequency key
/// of its note; keys without a mapped note never reach the core.
#[derive(Clone, Copy, PartialEq, Eq, Structural, Debug)]
pub enum InputEvent {
    KeyDown(u64),
    KeyUp(u64),
    InstrumentLeft,
    InstrumentRight,
    VolumeUp,
    VolumeDown,
    Quit,
}

/// The input side's own state: the instrument selector and the master
/// volume level. Both are read only when a key goes down; tones already
/// sounding keep what was captured at their press.
#[derive(Clone, Copy, PartialEq, Eq, Structural, Debug)]
pub struct Controller {
    pub instrument: u8,
    pub volume: u8,
}

impl Controller {
    /// Well-formedness: the instrument selector stays in
    /// `0..=INSTRUMENT_MAX` and the volume level in `0..=VOLUME_MAX`.
    pub open spec fn wf(&self) -> bool {
        self.instrument <= INSTRUMENT_MAX && self.volume <= VOLUME_MAX
    }

    /// The starting state: sine instrument at half volume.
    pub fn new() -> (r: Controller)
        ensures
            r.wf(),
            r.instrument == 0,
            r.volume == VOLUME_INITIAL,
    {
        Controller { instrument: 0, volume: VOLUME_INITIAL }
    }

    /// Key press: the note starts sounding with the volume and waveform
    /// read from the current settings at this very moment.
    pub fn on_key_down(&self, registry: &mut ToneRegistry, freq: u64)
        requires
            old(registry).wf(),
        ensures
            final(registry).wf(),
            final(registry)@ == old(registry)@.insert(
                freq,
                ToneParams { amp: self.volume, wave: spec_waveform_for(self.instrument) },
            ),
    {
        let wave = waveform_for(self.instrument);
        registry.insert(freq, self.volume, wave);
    }

    /// Key release: the note stops sounding; releasing a key whose note
    /// is not sounding changes nothing.
    pub fn on_key_up(&self, registry: &mut ToneRegistry, freq: u64)
        requires
            old(registry).wf(),
        ensures
            final(registry).wf(),
            final(registry)@ == old(registry)@.remove(freq),
    {
        registry.remove(freq);
    }

    /// Move the instrument selector one step down, clamped at 0: a move
    /// past the edge is a no-op, not an error.
    pub fn on_instrument_left(&mut self)
        ensures
            *final(self) == spec_step(*old(self), InputEvent::InstrumentLeft),
    {
        if self.instrument > 0 {
            self.instrument = self.instrument - 1;
        }
    }

    /// Move the instrument selector one step up, clamped at
    /// `INSTRUMENT_MAX`: a move past the edge is a no-op, not an error.
    pub fn on_instrument_right(&mut self)
        ensures
            *final(self) == spec_step(*old(self), InputEvent::InstrumentRight),
    {
        if self.instrument < INSTRUMENT_MAX {
            self.instrument = self.instrument + 1;
        }
    }

    /// The volume-up command lowers the level by one step, clamped at 0
    /// (the arrow-key bindings run this way round on purpose).
    pub fn on_volume_up(&mut self)
        ensures
            *final(self) == spec_step(*old(self), InputEvent::VolumeUp),
    {
        if self.volume > 0 {
            self.volume = self.volume - 1;
        }
    }

    /// The volume-down command raises the level by one step, clamped at
    /// `VOLUME_MAX`.
    pub fn on_volume_down(&mut self)
        ensures
            *final(self) == spec_step(*old(self), InputEvent::VolumeDown),
    {
        if self.volume < VOLUME_MAX {
            self.volume = self.volume + 1;
        }
    }

    /// Handle one event: the controller state moves by `spec_step`, the
    /// registry by `spec_step_registry`, and the result says whether the
    /// event loop should keep running (false exactly on `Quit`).
    pub fn handle_event(&mut self, registry: &mut ToneRegistry, event: InputEvent) -> (keep_running:
        bool)
        requires
            old(registry).wf(),
        ensures
            final(registry).wf(),
            *final(self) == spec_step(*old(self), event),
            final(registry)@ == spec_step_registry(*old(self), old(registry)@, event),
            keep_running <==> event != InputEvent::Quit,
    {
        match event {
            InputEvent::KeyDown(freq) => {
                self.on_key_down(registry, freq);
                true
            },
            InputEvent::KeyUp(freq) => {
                self.on_key_up(registry, freq);
                true
            },
            InputEvent::InstrumentLeft => {
                self.on_instrument_left();
                true
            },
            InputEvent::InstrumentRight => {
                self.on_instrument_right();
                true
            },
            InputEvent::VolumeUp => {
                self.on_volume_up();
                true
            },
            InputEvent::VolumeDown => {
                self.on_volume_down();
                true
            },
            InputEvent::Quit => false,
        }
    }
}

/// How one event moves the controller state: instrument and volume move
/// by single clamped steps, and nothing else touches them.
pub open spec fn spec_step(s: Controller, event: InputEvent) -> Controller {
    match event {
        InputEvent::InstrumentLeft => if s.instrument > 0 {
            Controller { instrument: (s.instrument - 1) as u8, volume: s.volume }
        } else {
            s
        },
        InputEvent::InstrumentRight => if s.instrument < INSTRUMENT_MAX {
            Controller { instrument: (s.instrument + 1) as u8, volume: s.volume }
        } else {
            s
        },
        InputEvent::VolumeUp => if s.volume > 0 {
            Controller { instrument: s.instrument, volume: (s.volume - 1) as u8 }
        } else {
            s
        },
        InputEvent::VolumeDown => if s.volume < VOLUME_MAX {
            Controller { instrument: s.instrument, volume: (s.volume + 1) as u8 }
        } else {
            s
        },
        _ => s,
    }
}

/// How one event moves the registry: a key press records the tone under
/// the settings current at that moment, a release removes it, and every
/// other event leaves the registry alone.
pub open spec fn spec_step_registry(
    s: Controller,
    m: Map<u64, ToneParams>,
    event: InputEvent,
) -> Map<u64, ToneParams> {
    match event {
        InputEvent::KeyDown(freq) => m.insert(
            freq,
            ToneParams { amp: s.volume, wave: spec_waveform_for(s.instrument) },
        ),
        InputEvent::KeyUp(freq) => m.remove(freq),
        _ => m,
    }
}

/// The controller state after a whole sequence of events, first to last.
pub open spec fn spec_apply_events(s: Controller, events: Seq<InputEvent>) -> Controller
    decreases events.len(),
{
    if events.len() == 0 {
        s
    } else {
        spec_step(spec_apply_events(s, events.drop_last()), events.last())
    }
}

/// Press-then-release law at the event level: a key press followed by
/// its release, with no other event to that key in between, restores the
/// registry exactly — whatever the settings were at either moment —
/// provided the note was not already sounding.
pub proof fn lemma_press_release_restores(
    at_press: Controller,
    at_release: Controller,
    m: Map<u64, ToneParams>,
    freq: u64,
)
    requires
        !m.contains_key(freq),
    ensures
        spec_step_registry(
            at_release,
            spec_step_registry(at_press, m, InputEvent::KeyDown(freq)),
            InputEvent::KeyUp(freq),
        ) == m,
{
    crate::registry::lemma_insert_then_remove(
        m,
        freq,
        ToneParams { amp: at_press.volume, wave: spec_waveform_for(at_press.instrument) },
    );
}

/// Clamping law for one step: no event moves the instrument selector out
/// of `0..=INSTRUMENT_MAX` or the volume level out of `0..=VOLUME_MAX`.
pub proof fn lemma_step_preserves_wf(s: Controller, event: InputEvent)
    requires
        s.wf(),
    ensures
        spec_step(s, event).wf(),
{
}

/// Clamping law: however many adjustment commands arrive, and in
/// whatever order, the instrument selector never leaves
/// `0..=INSTRUMENT_MAX` and the volume level never leaves
/// `0..=VOLUME_MAX`.
pub proof fn lemma_clamping(s: Controller, events: Seq<InputEvent>)
    requires
        s.wf(),
    ensures
        spec_apply_events(s, events).wf(),
    decreases events.len(),
{
    if events.len() > 0 {
        lemma_clamping(s, events.drop_last());
        lemma_step_preserves_wf(spec_apply_events(s, events.drop_last()), events.last());
    }
}

} // verus!
