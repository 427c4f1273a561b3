//! The visibility controller: a three-state machine over the lifecycle of
//! the single popup window. Tray clicks and the open menu entry toggle it,
//! losing input focus dismisses it, and once created it is never destroyed
//! or created again.

use vstd::prelude::*;

verus! {

/// Lifecycle state of the popup window. `Absent` holds only before the
/// window is first created and is never re-entered.
#[derive(Clone, Copy, Debug, PartialEq, Eq, Structural)]
pub enum VisState {
    Absent,
    Hidden,
    Visible,
}

/// An event the controller reacts to: a toggle request (tray left click or
/// the open menu entry) or the window losing input focus.
#[derive(Clone, Copy, Debug, PartialEq, Eq, Structural)]
pub enum VisEvent {
    Toggle,
    FocusLost,
}

/// What the toolkit must be told to do for one transition.
#[derive(Clone, Copy, Debug, PartialEq, Eq, Structural)]
pub enum VisAction {
    /// Create the window, already visible and with input focus.
    CreateFocused,
    /// Show the existing window, then explicitly request focus.
    ShowAndFocus,
    /// Hide the window.
    Hide,
    /// Nothing to do.
    Nothing,
}

/// The transition relation of the controller.
pub open spec fn spec_step(s: VisState, e: VisEvent) -> (VisState, VisAction) {
    match e {
        VisEvent::Toggle => match s {
            VisState::Absent => (VisState::Visible, VisAction::CreateFocused),
            VisState::Hidden => (VisState::Visible, VisAction::ShowAndFocus),
            VisState::Visible => (VisState::Hidden, VisAction::Hide),
        },
        VisEvent::FocusLost => match s {
            VisState::Visible => (VisState::Hidden, VisAction::Hide),
            _ => (s, VisAction::Nothing),
        },
    }
}

/// One transition of the state machine.
pub fn step(s: VisState, e: VisEvent) -> (r: (VisState, VisAction))
    ensures
        r == spec_step(s, e),
{
    match e {
        VisEvent::Toggle => match s {
            VisState::Absent => (VisState::Visible, VisAction::CreateFocused),
            VisState::Hidden => (VisState::Visible, VisAction::ShowAndFocus),
            VisState::Visible => (VisState::Hidden, VisAction::Hide),
        },
        VisEvent::FocusLost => match s {
            VisState::Visible => (VisState::Hidden, VisAction::Hide),
            _ => (s, VisAction::Nothing),
        },
    }
}

/// The state after running a whole sequence of events.
pub open spec fn spec_run(s: VisState, es: Seq<VisEvent>) -> VisState
    decreases es.len(),
{
    if es.len() == 0 {
        s
    } else {
        spec_run(spec_step(s, es[0]).0, es.drop_first())
    }
}

/// How many events of the sequence create the window.
pub open spec fn spec_creations(s: VisState, es: Seq<VisEvent>) -> nat
    decreases es.len(),
{
    if es.len() == 0 {
        0
    } else {
        (if spec_step(s, es[0]).1 is CreateFocused {
            1nat
        } else {
            0nat
        }) + spec_creations(spec_step(s, es[0]).0, es.drop_first())
    }
}

/// A sequence of tray-click toggles.
pub open spec fn toggles(n: nat) -> Seq<VisEvent> {
    Seq::new(n, |i: int| VisEvent::Toggle)
}

/// Law: once the window exists, one toggle flips it between `Visible` and
/// `Hidden`, and a second toggle brings it back.
pub proof fn lemma_toggle_alternates(s: VisState)
    requires
        s != VisState::Absent,
    ensures
        spec_step(s, VisEvent::Toggle).0 != s,
        spec_step(s, VisEvent::Toggle).0 != VisState::Absent,
        spec_step(spec_step(s, VisEvent::Toggle).0, VisEvent::Toggle).0 == s,
{
}

/// Law: for any number of tray clicks on an existing window, the state
/// strictly alternates: it is back where it started after an even number of
/// clicks and flipped after an odd number.
pub proof fn lemma_tray_clicks_alternate(s: VisState, n: nat)
    requires
        s != VisState::Absent,
    ensures
        spec_run(s, toggles(n)) == if n % 2 == 0 {
            s
        } else {
            spec_step(s, VisEvent::Toggle).0
        },
    decreases n,
{
    if n > 0 {
        assert(toggles(n).drop_first() =~= toggles((n - 1) as nat));
        lemma_tray_clicks_alternate(spec_step(s, VisEvent::Toggle).0, (n - 1) as nat);
    }
}

/// Law: once the window exists it never becomes absent again, and no later
/// event creates it.
pub proof fn lemma_no_recreation(s: VisState, es: Seq<VisEvent>)
    requires
        s != VisState::Absent,
    ensures
        spec_run(s, es) != VisState::Absent,
        spec_creations(s, es) == 0,
    decreases es.len(),
{
    if es.len() > 0 {
        lemma_no_recreation(spec_step(s, es[0]).0, es.drop_first());
    }
}

/// Law: over any event sequence from process start, the window is created
/// at most once.
pub proof fn lemma_created_at_most_once(es: Seq<VisEvent>)
    ensures
        spec_creations(VisState::Absent, es) <= 1,
    decreases es.len(),
{
    if es.len() > 0 {
        match es[0] {
            VisEvent::Toggle => {
                lemma_no_recreation(VisState::Visible, es.drop_first());
            },
            VisEvent::FocusLost => {
                lemma_created_at_most_once(es.drop_first());
            },
        }
    }
}

/// Law: a focus-lost event while `Visible` hides the window; while `Hidden`
/// it is a no-op.
pub proof fn lemma_focus_lost_dismisses()
    ensures
        spec_step(VisState::Visible, VisEvent::FocusLost) == (VisState::Hidden, VisAction::Hide),
        spec_step(VisState::Hidden, VisEvent::FocusLost) == (
            VisState::Hidden,
            VisAction::Nothing,
        ),
{
}

/// The visibility controller: owns the lifecycle state and decides, event by
/// event, what the toolkit must do.
#[derive(Clone, Copy, Debug, PartialEq, Eq, Structural)]
pub struct Controller {
    pub state: VisState,
}

impl Controller {
    /// A fresh controller: the window has not been created yet.
    pub fn new() -> (c: Controller)
        ensures
            c.state == VisState::Absent,
    {
        Controller { state: VisState::Absent }
    }

    /// Advance the controller by one event and report what the toolkit must
    /// do.
    pub fn handle(&mut self, e: VisEvent) -> (a: VisAction)
        ensures
            (final(self).state, a) == spec_step(old(self).state, e),
    {
        let (s, a) = step(self.state, e);
        self.state = s;
        a
    }

    /// React to a change of input focus: losing focus dismisses a visible
    /// window, gaining focus changes nothing.
    pub fn focus_changed(&mut self, focused: bool) -> (a: VisAction)
        ensures
            !focused ==> (final(self).state, a) == spec_step(
                old(self).state,
                VisEvent::FocusLost,
            ),
            focused ==> *final(self) == *old(self) && a == VisAction::Nothing,
    {
        if focused {
            VisAction::Nothing
        } else {
            self.handle(VisEvent::FocusLost)
        }
    }
}

} // verus!
