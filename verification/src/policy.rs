//! The filter policy: which events ask for the window to close.
//!
//! The policy is a pure function of one event. It keeps no state, so the
//! outcome of a batch is the outcome of each of its events, in arrival order.

use vstd::prelude::*;
use crate::input::{Event, Key, KeyAction};

verus! {

/// What the session does about one event.
#[derive(Clone, Copy, Debug, PartialEq, Eq, Structural, Hash)]
pub enum Action {
    /// Set the close flag of the window.
    RequestClose,
    /// Do nothing.
    Ignore,
}

/// Whether `event` is a press of the escape key. A release or a repeat is
/// not, and neither the modifiers nor the scancode matter.
pub open spec fn is_escape_press(event: Event) -> bool {
    event matches Event::Key { key, action, .. } && key == Key::Escape && action
        == KeyAction::Press
}

/// The policy on one event: a press of the escape key asks to close, every
/// other event is ignored.
pub open spec fn filter(event: Event) -> Action {
    if is_escape_press(event) {
        Action::RequestClose
    } else {
        Action::Ignore
    }
}

/// The policy on a batch: one action for each event, in arrival order.
pub open spec fn filter_all(batch: Seq<Event>) -> Seq<Action> {
    Seq::new(batch.len(), |i: int| filter(batch[i]))
}

/// Whether some event of the batch asks to close.
pub open spec fn requests_close(batch: Seq<Event>) -> bool {
    exists|i: int| 0 <= i < batch.len() && is_escape_press(#[trigger] batch[i])
}

/// Maps one event to its action.
pub fn apply_filter(event: &Event) -> (action: Action)
    ensures
        action == filter(*event),
        action == Action::RequestClose <==> is_escape_press(*event),
{
    match event {
        Event::Key { key: Key::Escape, action: KeyAction::Press, .. } => Action::RequestClose,
        _ => Action::Ignore,
    }
}

/// Every event of a batch is visited once: the actions are as many as the
/// events, and each is the policy's answer to the event at its own position.
/// None is dropped, none is replayed, and an event that asks to close does
/// not cut the batch short.
pub proof fn lemma_every_event_filtered_once(batch: Seq<Event>)
    ensures
        filter_all(batch).len() == batch.len(),
        forall|i: int| 0 <= i < batch.len() ==> filter_all(batch)[i] == filter(#[trigger] batch[i]),
{
}

/// A batch asks to close exactly when one of its actions does.
pub proof fn lemma_requests_close_iff_some_action(batch: Seq<Event>)
    ensures
        requests_close(batch) <==> exists|i: int|
            0 <= i < filter_all(batch).len() && #[trigger] filter_all(batch)[i]
                == Action::RequestClose,
{
    let actions = filter_all(batch);
    if requests_close(batch) {
        let i = choose|i: int| 0 <= i < batch.len() && is_escape_press(#[trigger] batch[i]);
        assert(actions[i] == Action::RequestClose);
    }
    if exists|i: int| 0 <= i < actions.len() && #[trigger] actions[i] == Action::RequestClose {
        let i = choose|i: int| 0 <= i < actions.len() && #[trigger] actions[i] == Action::RequestClose;
        assert(is_escape_press(batch[i]));
    }
}

/// Taking one more event of a batch adds its action at the end, and asks to
/// close if the events before it did or if it does.
pub proof fn lemma_filter_next(batch: Seq<Event>, i: int)
    requires
        0 <= i < batch.len(),
    ensures
        filter_all(batch.take(i + 1)) == filter_all(batch.take(i)).push(filter(batch[i])),
        requests_close(batch.take(i + 1)) <==> requests_close(batch.take(i)) || is_escape_press(
            batch[i],
        ),
{
    let shorter = batch.take(i);
    let longer = batch.take(i + 1);
    assert(filter_all(longer) =~= filter_all(shorter).push(filter(batch[i])));
    if requests_close(shorter) {
        let j = choose|j: int| 0 <= j < shorter.len() && is_escape_press(#[trigger] shorter[j]);
        assert(is_escape_press(longer[j]));
    }
    if is_escape_press(batch[i]) {
        assert(is_escape_press(longer[i]));
    }
    if requests_close(longer) {
        let j = choose|j: int| 0 <= j < longer.len() && is_escape_press(#[trigger] longer[j]);
        if j < i {
            assert(is_escape_press(shorter[j]));
        }
    }
}

} // verus!
