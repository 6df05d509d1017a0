//! The effect toggle and the input system that flips it.
//!
//! The toggle is a single boolean, installed by the host at startup and
//! flipped once for every press of the toggle key.  It is handed to the
//! render group's `prepare` as explicit frame context; it never changes
//! the graph's structure.

use vstd::prelude::*;

verus! {

/// Whether the post-process effect is enabled.  When disabled, the pass
/// still runs and records the same draw; selecting the unfiltered path is
/// the shader's business, so toggling never requires a graph rebuild.
#[derive(Clone, Copy, Debug, PartialEq, Eq, Structural)]
pub struct FxaaSettings {
    pub enabled: bool,
}

impl Default for FxaaSettings {
    /// Until the host installs its own settings, the effect is off.
    fn default() -> (s: FxaaSettings)
        ensures
            !s.enabled,
    {
        FxaaSettings { enabled: false }
    }
}

/// The settings the host installs when the session starts: effect on.
pub fn initial_settings() -> (s: FxaaSettings)
    ensures
        s.enabled,
{
    FxaaSettings { enabled: true }
}

/// The keys the session reacts to.
#[derive(Clone, Copy, Debug, PartialEq, Eq, Structural)]
pub enum KeyCode {
    /// Toggles the effect.
    F,
    /// Quits the session.
    Escape,
    /// Any other key.
    Other,
}

/// One input event from the host's event channel.
#[derive(Clone, Copy, Debug, PartialEq, Eq, Structural)]
pub enum InputEvent {
    KeyPressed { key_code: KeyCode },
    Other,
}

/// Whether one event flips the toggle.
pub open spec fn is_toggle_event(e: InputEvent) -> bool {
    e matches InputEvent::KeyPressed { key_code: KeyCode::F }
}

/// The toggle value after `b` has seen every event of `s` in order:
/// flipped once per toggle key press.
pub open spec fn toggled(b: bool, s: Seq<InputEvent>) -> bool
    decreases s.len(),
{
    if s.len() == 0 {
        b
    } else {
        toggled(if is_toggle_event(s[0]) { !b } else { b }, s.drop_first())
    }
}

/// Appending one event toggles the result exactly when the event is a
/// toggle key press.
pub proof fn lemma_toggled_push(b: bool, s: Seq<InputEvent>, e: InputEvent)
    ensures
        toggled(b, s.push(e)) == (if is_toggle_event(e) { !toggled(b, s) } else { toggled(b, s) }),
    decreases s.len(),
{
    let b0 = if is_toggle_event(s.push(e)[0]) { !b } else { b };
    assert(toggled(b, s.push(e)) == toggled(b0, s.push(e).drop_first()));
    if s.len() == 0 {
        assert(s.push(e)[0] == e);
        assert(s.push(e).drop_first() =~= Seq::<InputEvent>::empty());
        assert(toggled(b0, s.push(e).drop_first()) == b0);
        assert(toggled(b, s) == b);
    } else {
        assert(s.push(e)[0] == s[0]);
        assert(s.push(e).drop_first() =~= s.drop_first().push(e));
        lemma_toggled_push(b0, s.drop_first(), e);
        assert(toggled(b, s) == toggled(b0, s.drop_first()));
    }
}

/// The system that reads the input event channel and flips the toggle.
/// The channel is modelled as the growing sequence of all events so far;
/// `event_reader` is this reader's cursor into it.
pub struct FxaaSystem {
    pub event_reader: usize,
}

impl FxaaSystem {
    /// A system whose reader starts at the given cursor.
    pub fn new(event_reader: usize) -> (s: FxaaSystem)
        ensures
            s.event_reader == event_reader,
    {
        FxaaSystem { event_reader }
    }

    /// Consume every event the reader has not seen yet and flip the
    /// toggle once per toggle key press among them.
    pub fn run(&mut self, events: &Vec<InputEvent>, settings: &mut FxaaSettings)
        requires
            old(self).event_reader <= events@.len(),
        ensures
            final(self).event_reader == events@.len(),
            final(settings).enabled == toggled(
                old(settings).enabled,
                events@.subrange(old(self).event_reader as int, events@.len() as int),
            ),
    {
        let ghost start = self.event_reader as int;
        let mut i: usize = self.event_reader;
        while i < events.len()
            invariant
                0 <= start <= i <= events@.len(),
                settings.enabled == toggled(old(settings).enabled, events@.subrange(start, i as int)),
            decreases events@.len() - i,
        {
            let ghost seen = events@.subrange(start, i as int);
            match events[i] {
                InputEvent::KeyPressed { key_code: KeyCode::F } => {
                    settings.enabled = !settings.enabled;
                },
                _ => {},
            }
            proof {
                lemma_toggled_push(old(settings).enabled, seen, events@[i as int]);
                assert(events@.subrange(start, i as int + 1) =~= seen.push(events@[i as int]));
            }
            i = i + 1;
        }
        self.event_reader = i;
    }
}

} // verus!
