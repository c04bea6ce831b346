//! The render loop's two states and the one transition between them.

use crate::input::KeyEvent;
use vstd::prelude::*;

verus! {

/// Whether the render loop goes on.
#[derive(Clone, Copy, Debug, PartialEq, Eq, Structural)]
pub enum LoopState {
    /// Frames are being drawn. The loop starts here.
    Running,
    /// A close request was seen. The loop ends at its next check and never
    /// runs again.
    Closing,
}

impl LoopState {
    /// The state after one event: a close request moves to `Closing`, any
    /// other event changes nothing.
    pub open spec fn after(self, event: KeyEvent) -> LoopState {
        if event.requests_close() {
            LoopState::Closing
        } else {
            self
        }
    }

    /// The state after one poll that delivered `events`: `Closing` if the loop
    /// was closing already or any of the events asks for it.
    pub open spec fn after_all(self, events: Seq<KeyEvent>) -> LoopState {
        if self == LoopState::Closing || exists|i: int|
            0 <= i < events.len() && #[trigger] events[i].requests_close() {
            LoopState::Closing
        } else {
            LoopState::Running
        }
    }

    /// Takes one event into account.
    pub fn on_event(self, event: &KeyEvent) -> (next: LoopState)
        ensures
            next == self.after(*event),
    {
        if event.is_close_request() {
            LoopState::Closing
        } else {
            self
        }
    }

    /// Takes every event of one poll into account, oldest first.
    pub fn on_events(self, events: &Vec<KeyEvent>) -> (next: LoopState)
        ensures
            next == self.after_all(events@),
    {
        let mut state = self;
        let mut i: usize = 0;
        while i < events.len()
            invariant
                0 <= i <= events.len(),
                state == self.after_all(events@.take(i as int)),
            decreases events.len() - i,
        {
            proof {
                law_events_apply_in_order(self, events@.take(i as int), events@[i as int]);
                assert(events@.take(i as int).push(events@[i as int]) =~= events@.take(i + 1));
            }
            state = state.on_event(&events[i]);
            i += 1;
        }
        assert(events@.take(i as int) =~= events@);
        state
    }

    /// Whether the loop runs another frame.
    pub fn is_running(self) -> (b: bool)
        ensures
            b == (self == LoopState::Running),
    {
        match self {
            LoopState::Running => true,
            LoopState::Closing => false,
        }
    }
}

/// A press of the escape key closes a running loop, and nothing else does:
/// no other key, and no release or repeat of the escape key, whatever the
/// scan code and the modifiers.
pub proof fn law_only_escape_press_closes(event: KeyEvent)
    ensures
        LoopState::Running.after(event) == LoopState::Closing <==> event.key == crate::input::Key::Escape
            && event.action == crate::input::Action::Press,
        LoopState::Running.after(event) != LoopState::Closing ==> LoopState::Running.after(event)
            == LoopState::Running,
{
}

/// `Closing` is terminal: no event leads back to `Running`.
pub proof fn law_closing_is_terminal(events: Seq<KeyEvent>, event: KeyEvent)
    ensures
        LoopState::Closing.after(event) == LoopState::Closing,
        LoopState::Closing.after_all(events) == LoopState::Closing,
{
}

/// A poll that delivers no event changes nothing, and a poll's outcome is
/// that of taking its events one by one in the order of their arrival.
pub proof fn law_events_apply_in_order(state: LoopState, events: Seq<KeyEvent>, last: KeyEvent)
    ensures
        state.after_all(Seq::empty()) == state,
        state.after_all(events.push(last)) == state.after_all(events).after(last),
{
    let all = events.push(last);
    if exists|i: int| 0 <= i < events.len() && #[trigger] events[i].requests_close() {
        let i = choose|i: int| 0 <= i < events.len() && #[trigger] events[i].requests_close();
        assert(all[i].requests_close());
    }
    if last.requests_close() {
        assert(all[events.len() as int].requests_close());
    }
    if exists|i: int| 0 <= i < all.len() && #[trigger] all[i].requests_close() {
        let i = choose|i: int| 0 <= i < all.len() && #[trigger] all[i].requests_close();
        if i < events.len() {
            assert(events[i].requests_close());
        }
    }
}

/// Within one poll, a running loop closes exactly when one of the delivered
/// events is a press of the escape key.
pub proof fn law_poll_closes_on_escape_press(events: Seq<KeyEvent>)
    ensures
        LoopState::Running.after_all(events) == LoopState::Closing <==> exists|i: int|
            0 <= i < events.len() && (#[trigger] events[i]).key == crate::input::Key::Escape
                && events[i].action == crate::input::Action::Press,
{
    if LoopState::Running.after_all(events) == LoopState::Closing {
        let i = choose|i: int| 0 <= i < events.len() && #[trigger] events[i].requests_close();
        assert(events[i].key == crate::input::Key::Escape);
    }
    if exists|i: int|
        0 <= i < events.len() && (#[trigger] events[i]).key == crate::input::Key::Escape
            && events[i].action == crate::input::Action::Press {
        let i = choose|i: int|
            0 <= i < events.len() && (#[trigger] events[i]).key == crate::input::Key::Escape
                && events[i].action == crate::input::Action::Press;
        assert(events[i].requests_close());
    }
}

} // verus!
