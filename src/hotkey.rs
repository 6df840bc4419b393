//! The hotkey state machine: reconstructs the combo from key press and
//! release notifications and decides, exactly once per edge, when recording
//! starts and stops.
use vstd::prelude::*;

verus! {

/// The keys the state machine distinguishes.
#[derive(Clone, Copy, Debug, PartialEq, Eq, Structural)]
pub enum ComboKey {
    /// The combo's modifier (e.g. Super).
    Primary,
    /// The combo's character key (e.g. C); the OS has already typed it.
    Secondary,
    /// Any other key.
    Other,
}

/// One notification of the input-event stream.
#[derive(Clone, Copy, Debug, PartialEq, Eq, Structural)]
pub enum KeyEvent {
    Press(ComboKey),
    Release(ComboKey),
}

/// The recording transition an event claims, if any.
#[derive(Clone, Copy, Debug, PartialEq, Eq, Structural)]
pub enum Transition {
    /// No transition: flags were updated only.
    Nothing,
    /// Mute the output, then start the capture stream.
    Start,
    /// Stop the capture stream, unmute, then run the transcription pipeline.
    Stop,
}

/// What the caller must do in response to one event, in this order:
/// first erase one typed character if `delete_char`, then perform `transition`.
#[derive(Clone, Copy, Debug, PartialEq, Eq, Structural)]
pub struct Reaction {
    pub delete_char: bool,
    pub transition: Transition,
}

/// The state of the combo: the two key flags and the recording flag.
#[derive(Clone, Copy, Debug, PartialEq, Eq, Structural)]
pub struct HotkeyState {
    pub primary_held: bool,
    pub secondary_held: bool,
    pub recording: bool,
}

/// Both keys of the combo are held.
pub open spec fn combo_held(s: HotkeyState) -> bool {
    s.primary_held && s.secondary_held
}

/// The flags after a key changes to `held`; other keys change nothing.
pub open spec fn with_key(s: HotkeyState, k: ComboKey, held: bool) -> HotkeyState {
    match k {
        ComboKey::Primary => HotkeyState { primary_held: held, ..s },
        ComboKey::Secondary => HotkeyState { secondary_held: held, ..s },
        ComboKey::Other => s,
    }
}

/// The reaction to `ev` in state `s`.
/// A press of a combo key marks it held, erases the typed character if it is
/// the secondary key, and starts recording when the combo becomes held while
/// not recording. A release of a combo key marks it released and stops
/// recording when recording was on before the event and the combo is no longer
/// held. Other keys are ignored: no transition, no state change.
pub open spec fn reaction(s: HotkeyState, ev: KeyEvent) -> Reaction {
    match ev {
        KeyEvent::Press(k) => {
            let t = with_key(s, k, true);
            Reaction {
                delete_char: k == ComboKey::Secondary,
                transition: if k != ComboKey::Other && combo_held(t) && !s.recording {
                    Transition::Start
                } else {
                    Transition::Nothing
                },
            }
        },
        KeyEvent::Release(k) => {
            let t = with_key(s, k, false);
            Reaction {
                delete_char: false,
                transition: if k != ComboKey::Other && s.recording && !combo_held(t) {
                    Transition::Stop
                } else {
                    Transition::Nothing
                },
            }
        },
    }
}

/// The state after `ev` in state `s`.
pub open spec fn next_state(s: HotkeyState, ev: KeyEvent) -> HotkeyState {
    let t = match ev {
        KeyEvent::Press(k) => with_key(s, k, true),
        KeyEvent::Release(k) => with_key(s, k, false),
    };
    match reaction(s, ev).transition {
        Transition::Start => HotkeyState { recording: true, ..t },
        Transition::Stop => HotkeyState { recording: false, ..t },
        Transition::Nothing => t,
    }
}

/// The initial state: no key held, not recording.
pub open spec fn idle() -> HotkeyState {
    HotkeyState { primary_held: false, secondary_held: false, recording: false }
}

/// The state after applying `evs` in order from `s`.
pub open spec fn run(s: HotkeyState, evs: Seq<KeyEvent>) -> HotkeyState
    decreases evs.len(),
{
    if evs.len() == 0 {
        s
    } else {
        run(next_state(s, evs[0]), evs.drop_first())
    }
}

/// How many of the reactions to `evs`, applied from `s`, are `t`.
pub open spec fn count_transitions(s: HotkeyState, evs: Seq<KeyEvent>, t: Transition) -> nat
    decreases evs.len(),
{
    if evs.len() == 0 {
        0
    } else {
        (if reaction(s, evs[0]).transition == t { 1nat } else { 0nat })
            + count_transitions(next_state(s, evs[0]), evs.drop_first(), t)
    }
}

/// How many events of `evs`, applied from `s`, make the combo become held
/// (`rising`) or stop being held (`!rising`).
pub open spec fn count_edges(s: HotkeyState, evs: Seq<KeyEvent>, rising: bool) -> nat
    decreases evs.len(),
{
    if evs.len() == 0 {
        0
    } else {
        let n = next_state(s, evs[0]);
        (if combo_held(s) != rising && combo_held(n) == rising { 1nat } else { 0nat })
            + count_edges(n, evs.drop_first(), rising)
    }
}

/// Recording is on exactly while the combo is held (every start succeeded).
pub open spec fn in_step(s: HotkeyState) -> bool {
    s.recording == combo_held(s)
}

/// While recording, no event starts a second capture.
pub proof fn lemma_no_double_start(s: HotkeyState, ev: KeyEvent)
    requires
        s.recording,
    ensures
        reaction(s, ev).transition != Transition::Start,
        next_state(s, ev).recording || reaction(s, ev).transition == Transition::Stop,
{
}

/// Keys outside the combo are ignored in every state: no transition, no
/// erased character, no change of state.
pub proof fn lemma_other_keys_ignored(s: HotkeyState, ev: KeyEvent)
    requires
        ev == KeyEvent::Press(ComboKey::Other) || ev == KeyEvent::Release(ComboKey::Other),
    ensures
        reaction(s, ev) == (Reaction { delete_char: false, transition: Transition::Nothing }),
        next_state(s, ev) == s,
{
}

/// One event keeps recording in step with the combo, and it starts recording
/// exactly when the combo becomes held and stops it exactly when the combo
/// stops being held.
pub proof fn lemma_step_follows_combo(s: HotkeyState, ev: KeyEvent)
    requires
        in_step(s),
    ensures
        in_step(next_state(s, ev)),
        (reaction(s, ev).transition == Transition::Start)
            == (!combo_held(s) && combo_held(next_state(s, ev))),
        (reaction(s, ev).transition == Transition::Stop)
            == (combo_held(s) && !combo_held(next_state(s, ev))),
{
}

/// Over any sequence of notifications, starts are exactly the edges where the
/// combo becomes held and stops exactly those where it stops being held.
pub proof fn lemma_transitions_follow_combo(s: HotkeyState, evs: Seq<KeyEvent>)
    requires
        in_step(s),
    ensures
        in_step(run(s, evs)),
        count_transitions(s, evs, Transition::Start) == count_edges(s, evs, true),
        count_transitions(s, evs, Transition::Stop) == count_edges(s, evs, false),
    decreases evs.len(),
{
    if evs.len() > 0 {
        lemma_step_follows_combo(s, evs[0]);
        lemma_transitions_follow_combo(next_state(s, evs[0]), evs.drop_first());
    }
}

proof fn lemma_edges_balance(s: HotkeyState, evs: Seq<KeyEvent>)
    ensures
        count_edges(s, evs, true) as int - count_edges(s, evs, false) as int
            == (if combo_held(run(s, evs)) { 1int } else { 0 })
                - (if combo_held(s) { 1int } else { 0 }),
    decreases evs.len(),
{
    if evs.len() > 0 {
        lemma_edges_balance(next_state(s, evs[0]), evs.drop_first());
    }
}

/// Exactly once: for any interleaving of notifications, from the idle state,
/// in which the combo becomes held once and is no longer held at the end,
/// recording starts exactly once and stops exactly once.
pub proof fn lemma_one_hold_exactly_once(evs: Seq<KeyEvent>)
    requires
        count_edges(idle(), evs, true) == 1,
        !combo_held(run(idle(), evs)),
    ensures
        count_transitions(idle(), evs, Transition::Start) == 1,
        count_transitions(idle(), evs, Transition::Stop) == 1,
        !run(idle(), evs).recording,
{
    lemma_transitions_follow_combo(idle(), evs);
    lemma_edges_balance(idle(), evs);
}

/// The owner of the combo and recording flags. Events are applied one at a
/// time through `&mut self`, so each start and stop edge is claimed by exactly
/// one event.
pub struct Orchestrator {
    state: HotkeyState,
}

impl View for Orchestrator {
    type V = HotkeyState;

    closed spec fn view(&self) -> HotkeyState {
        self.state
    }
}

impl Orchestrator {
    pub fn new() -> (r: Orchestrator)
        ensures
            r@ == idle(),
    {
        Orchestrator {
            state: HotkeyState { primary_held: false, secondary_held: false, recording: false },
        }
    }

    pub fn is_recording(&self) -> (r: bool)
        ensures
            r == self@.recording,
    {
        self.state.recording
    }

    fn set_key(&mut self, k: ComboKey, held: bool)
        ensures
            final(self)@ == with_key(old(self)@, k, held),
    {
        match k {
            ComboKey::Primary => self.state.primary_held = held,
            ComboKey::Secondary => self.state.secondary_held = held,
            ComboKey::Other => {},
        }
    }

    /// Applies one key notification and returns what the caller must do.
    pub fn handle_event(&mut self, ev: KeyEvent) -> (r: Reaction)
        ensures
            r == reaction(old(self)@, ev),
            final(self)@ == next_state(old(self)@, ev),
            old(self)@.recording ==> r.transition != Transition::Start,
            !old(self)@.recording ==> r.transition != Transition::Stop,
            ev == KeyEvent::Press(ComboKey::Other) || ev == KeyEvent::Release(ComboKey::Other)
                ==> r == (Reaction { delete_char: false, transition: Transition::Nothing })
                && final(self)@ == old(self)@,
    {
        match ev {
            KeyEvent::Press(k) => {
                self.set_key(k, true);
                let delete_char = k == ComboKey::Secondary;
                let transition = if k != ComboKey::Other && self.state.primary_held
                    && self.state.secondary_held && !self.state.recording {
                    self.state.recording = true;
                    Transition::Start
                } else {
                    Transition::Nothing
                };
                Reaction { delete_char, transition }
            },
            KeyEvent::Release(k) => {
                let was_recording = self.state.recording;
                self.set_key(k, false);
                let transition = if k != ComboKey::Other && was_recording
                    && !(self.state.primary_held && self.state.secondary_held) {
                    self.state.recording = false;
                    Transition::Stop
                } else {
                    Transition::Nothing
                };
                Reaction { delete_char: false, transition }
            },
        }
    }

    /// Unwinds a claimed start whose capture stream could not be opened, so
    /// that a later hold can try again. The caller unmutes the output.
    pub fn start_failed(&mut self)
        ensures
            final(self)@ == (HotkeyState { recording: false, ..old(self)@ }),
    {
        self.state.recording = false;
    }
}

} // verus!
