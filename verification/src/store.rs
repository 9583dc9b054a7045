//! The states of all conversations, keyed by conversation.
//!
//! This store lives in memory. It gives the dialogue an explicit place to
//! read a conversation's state from and to write it back to, so that no
//! conversation can see or change what belongs to another.

use crate::dialogue::{
    accepts, action_views, actions_for, next_state, transition, Action, Event, EventView,
};
use crate::formats::{from_filetype_tags, to_filetype_tags};
use crate::state::{State, StateView};
use std::collections::HashMap;
use vstd::prelude::*;

verus! {

/// The state recorded for a conversation: the start for one never heard of.
pub open spec fn stored_state(states: Map<i64, StateView>, chat_id: i64) -> StateView {
    if states.dom().contains(chat_id) {
        states[chat_id]
    } else {
        StateView::Start
    }
}

/// The records after the conversation `chat_id` has seen `event`.
pub open spec fn after_event(states: Map<i64, StateView>, chat_id: i64, event: EventView) -> Map<
    i64,
    StateView,
> {
    states.insert(chat_id, next_state(stored_state(states, chat_id), event))
}

/// Whether every recorded state carries only choices the bot offers.
pub open spec fn all_well_formed(states: Map<i64, StateView>) -> bool {
    forall|chat_id: i64|
        states.dom().contains(chat_id) ==> (#[trigger] states[chat_id]).well_formed()
}

/// One state per conversation.
pub struct StateStore {
    states: HashMap<i64, State>,
}

impl View for StateStore {
    type V = Map<i64, StateView>;

    closed spec fn view(&self) -> Map<i64, StateView> {
        self.states@.map_values(|state: State| state@)
    }
}

impl StateStore {
    /// A store that has heard of no conversation.
    pub fn new() -> (store: StateStore)
        ensures
            store@ == Map::<i64, StateView>::empty(),
            all_well_formed(store@),
    {
        let store = StateStore { states: HashMap::new() };
        assert(store@ =~= Map::<i64, StateView>::empty());
        store
    }

    /// The state of a conversation; the start if none was ever saved.
    pub fn load(&self, chat_id: i64) -> (state: State)
        ensures
            state@ == stored_state(self@, chat_id),
    {
        match self.states.get(&chat_id) {
            Some(state) => state.clone(),
            None => State::Start,
        }
    }

    /// Records the state of a conversation, in place of the one recorded
    /// before. No other conversation is touched.
    pub fn save(&mut self, chat_id: i64, state: State)
        ensures
            final(self)@ == old(self)@.insert(chat_id, state@),
    {
        self.states.insert(chat_id, state);
        assert(self@ =~= old(self)@.insert(chat_id, state@));
    }

    /// Takes the conversation `chat_id` one event further and returns what
    /// the bot is to do. The conversation's state is replaced by the one
    /// `transition` gives; every other conversation keeps its state.
    pub fn dispatch(&mut self, chat_id: i64, event: Event) -> (actions: Vec<Action>)
        ensures
            final(self)@ == after_event(old(self)@, chat_id, event@),
            action_views(actions@) == actions_for(stored_state(old(self)@, chat_id), event@),
            forall|other: i64|
                other != chat_id ==> stored_state(final(self)@, other) == stored_state(
                    old(self)@,
                    other,
                ),
            !accepts(stored_state(old(self)@, chat_id), event@) ==> stored_state(
                final(self)@,
                chat_id,
            ) == stored_state(old(self)@, chat_id),
            all_well_formed(old(self)@) ==> all_well_formed(final(self)@),
    {
        let state = self.load(chat_id);
        let (next, actions) = transition(state, event);
        self.save(chat_id, next);
        actions
    }
}

/// What one conversation does leaves the state of every other conversation
/// as it was, and the order in which two conversations take their turns
/// makes no difference to the records.
pub proof fn lemma_conversations_are_independent(
    states: Map<i64, StateView>,
    first: i64,
    first_event: EventView,
    second: i64,
    second_event: EventView,
)
    requires
        first != second,
    ensures
        stored_state(after_event(states, first, first_event), second) == stored_state(
            states,
            second,
        ),
        stored_state(after_event(states, first, first_event), first) == next_state(
            stored_state(states, first),
            first_event,
        ),
        after_event(after_event(states, first, first_event), second, second_event)
            == after_event(after_event(states, second, second_event), first, first_event),
{
    assert(after_event(after_event(states, first, first_event), second, second_event)
        =~= after_event(after_event(states, second, second_event), first, first_event));
}

/// Two conversations that each pick a source type and a target type, turn
/// and turn about, both end up waiting for their document, each with its own
/// choices.
pub proof fn lemma_two_conversations_reach_upload(
    states: Map<i64, StateView>,
    first: i64,
    first_from: Seq<char>,
    first_to: Seq<char>,
    second: i64,
    second_from: Seq<char>,
    second_to: Seq<char>,
)
    requires
        first != second,
        stored_state(states, first) == StateView::ReceiveFromFiletype,
        stored_state(states, second) == StateView::ReceiveFromFiletype,
        from_filetype_tags().contains(first_from),
        from_filetype_tags().contains(second_from),
        to_filetype_tags().contains(first_to),
        to_filetype_tags().contains(second_to),
    ensures
        ({
            let one = after_event(states, first, EventView::ChoiceSelected(first_from));
            let two = after_event(one, second, EventView::ChoiceSelected(second_from));
            let three = after_event(two, first, EventView::ChoiceSelected(first_to));
            let four = after_event(three, second, EventView::ChoiceSelected(second_to));
            &&& stored_state(four, first) == StateView::ReceiveInputFile {
                from_filetype: first_from,
                to_filetype: first_to,
            }
            &&& stored_state(four, second) == StateView::ReceiveInputFile {
                from_filetype: second_from,
                to_filetype: second_to,
            }
        }),
{
}

} // verus!
