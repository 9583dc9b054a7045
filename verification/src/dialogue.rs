//! The dialogue itself: which event moves a conversation from which phase
//! to which, and what the bot says or does on the way.
//!
//! `transition` is a pure function. It keeps nothing between calls: the
//! caller loads a conversation's state, hands it in with the event, carries
//! out the actions and stores the state that comes back.

use crate::formats::{
    from_filetype_tags, from_filetypes, is_from_filetype, is_to_filetype, texts, to_filetype_tags,
    to_filetypes,
};
use crate::message::{Job, JobView};
use crate::state::{State, StateView};
use vstd::prelude::*;
use vstd::string::StringExecFns;

verus! {

/// Something the user did.
#[derive(Debug, PartialEq, Eq)]
pub enum Event {
    /// The user wrote a message.
    TextReceived(String),
    /// The user picked one of the options offered.
    ChoiceSelected(String),
    /// The user sent a document.
    FileReceived { file_id: String, file_name: String },
}

/// The mathematical counterpart of [`Event`].
pub enum EventView {
    TextReceived(Seq<char>),
    ChoiceSelected(Seq<char>),
    FileReceived { file_id: Seq<char>, file_name: Seq<char> },
}

impl View for Event {
    type V = EventView;

    open spec fn view(&self) -> EventView {
        match *self {
            Event::TextReceived(text) => EventView::TextReceived(text@),
            Event::ChoiceSelected(tag) => EventView::ChoiceSelected(tag@),
            Event::FileReceived { file_id, file_name } => EventView::FileReceived {
                file_id: file_id@,
                file_name: file_name@,
            },
        }
    }
}

/// The text of an optional string; nothing counts as the empty text.
pub open spec fn text_or_empty(text: Option<String>) -> Seq<char> {
    match text {
        Some(words) => words@,
        None => Seq::empty(),
    }
}

/// The event a message stands for: an upload if it carries a document,
/// whatever else it holds, and text otherwise.
pub open spec fn message_event(
    text: Option<String>,
    file_id: Option<String>,
    file_name: Option<String>,
) -> EventView {
    match file_id {
        Some(id) => EventView::FileReceived { file_id: id@, file_name: text_or_empty(file_name) },
        None => EventView::TextReceived(text_or_empty(text)),
    }
}

impl Event {
    /// The event for a message, given its text and, if it carries a
    /// document, the document's identifier and name.
    pub fn from_message(
        text: Option<String>,
        file_id: Option<String>,
        file_name: Option<String>,
    ) -> (event: Event)
        ensures
            event@ == message_event(text, file_id, file_name),
    {
        match file_id {
            Some(file_id) => {
                let file_name = match file_name {
                    Some(name) => name,
                    None => String::new(),
                };
                Event::FileReceived { file_id, file_name }
            },
            None => match text {
                Some(words) => Event::TextReceived(words),
                None => Event::TextReceived(String::new()),
            },
        }
    }

    /// The event for a pressed button, given the data the button carried.
    /// A button without data selects the empty choice, which no prompt
    /// offers.
    pub fn from_choice(data: Option<String>) -> (event: Event)
        ensures
            event@ == EventView::ChoiceSelected(text_or_empty(data)),
    {
        match data {
            Some(tag) => Event::ChoiceSelected(tag),
            None => Event::ChoiceSelected(String::new()),
        }
    }
}

/// Something the bot does in answer to an event.
#[derive(Debug, PartialEq, Eq)]
pub enum Action {
    /// Tell the user what is expected next, with the choices on offer if
    /// there are any.
    SendPrompt { text: String, options: Option<Vec<String>> },
    /// Tell the user that the event was not what was expected.
    SendError { text: String },
    /// Hand a job to the workers.
    PublishJob(Job),
    /// Do nothing.
    Noop,
}

/// The mathematical counterpart of [`Action`].
pub enum ActionView {
    SendPrompt { text: Seq<char>, options: Option<Seq<Seq<char>>> },
    SendError { text: Seq<char> },
    PublishJob(JobView),
    Noop,
}

impl View for Action {
    type V = ActionView;

    open spec fn view(&self) -> ActionView {
        match *self {
            Action::SendPrompt { text, options } => ActionView::SendPrompt {
                text: text@,
                options: match options {
                    Some(list) => Some(texts(list@)),
                    None => None,
                },
            },
            Action::SendError { text } => ActionView::SendError { text: text@ },
            Action::PublishJob(job) => ActionView::PublishJob(job@),
            Action::Noop => ActionView::Noop,
        }
    }
}

/// The views of a list of actions.
pub open spec fn action_views(actions: Seq<Action>) -> Seq<ActionView> {
    actions.map_values(|a: Action| a@)
}

/// The prompt that opens a request.
pub open spec fn start_text() -> Seq<char> {
    "Let's start! Tell me the type of the original document."@
}

/// The prompt that confirms the source type and asks for the target type.
pub open spec fn source_chosen_text(from_filetype: Seq<char>) -> Seq<char> {
    "The type of the original document is set to <b>"@ + from_filetype
        + "</b>. What format do you want for the output?"@
}

/// The reply to anything but a valid source type.
pub open spec fn source_retry_text() -> Seq<char> {
    "Tell me the type of the original document."@
}

/// The prompt that confirms the target type and asks for the document.
pub open spec fn target_chosen_text(to_filetype: Seq<char>) -> Seq<char> {
    "The output format is set to <b>"@ + to_filetype
        + "</b>. Now send me the file to be converted."@
}

/// The reply to anything but a valid target type.
pub open spec fn target_retry_text() -> Seq<char> {
    "What format do you want for the output?"@
}

/// The prompt that confirms the upload.
pub open spec fn processing_text() -> Seq<char> {
    "The conversion is being performed ..."@
}

/// The reply to anything but a document.
pub open spec fn file_retry_text() -> Seq<char> {
    "Send me the file to be converted."@
}

/// Whether `event` is what a conversation in `state` is waiting for.
pub open spec fn accepts(state: StateView, event: EventView) -> bool {
    match state {
        StateView::Start => true,
        StateView::ReceiveFromFiletype => event matches EventView::ChoiceSelected(tag)
            && from_filetype_tags().contains(tag),
        StateView::ReceiveToFiletype { .. } => event matches EventView::ChoiceSelected(tag)
            && to_filetype_tags().contains(tag),
        StateView::ReceiveInputFile { .. } => event is FileReceived,
    }
}

/// The state a conversation is in after `event`: one step further if the
/// event is accepted, unchanged if it is not.
pub open spec fn next_state(state: StateView, event: EventView) -> StateView {
    if !accepts(state, event) {
        state
    } else {
        match state {
            StateView::Start => StateView::ReceiveFromFiletype,
            StateView::ReceiveFromFiletype => StateView::ReceiveToFiletype {
                from_filetype: event->ChoiceSelected_0,
            },
            StateView::ReceiveToFiletype { from_filetype } => StateView::ReceiveInputFile {
                from_filetype,
                to_filetype: event->ChoiceSelected_0,
            },
            StateView::ReceiveInputFile { .. } => StateView::Start,
        }
    }
}

/// What the bot does in answer to `event`: the next prompt (and the job,
/// once the document is there) if the event is accepted, a single error
/// message if it is not.
pub open spec fn actions_for(state: StateView, event: EventView) -> Seq<ActionView> {
    match state {
        StateView::Start => seq![
            ActionView::SendPrompt { text: start_text(), options: Some(from_filetype_tags()) },
        ],
        StateView::ReceiveFromFiletype => if accepts(state, event) {
            seq![
                ActionView::SendPrompt {
                    text: source_chosen_text(event->ChoiceSelected_0),
                    options: Some(to_filetype_tags()),
                },
            ]
        } else {
            seq![ActionView::SendError { text: source_retry_text() }]
        },
        StateView::ReceiveToFiletype { .. } => if accepts(state, event) {
            seq![
                ActionView::SendPrompt {
                    text: target_chosen_text(event->ChoiceSelected_0),
                    options: None,
                },
            ]
        } else {
            seq![ActionView::SendError { text: target_retry_text() }]
        },
        StateView::ReceiveInputFile { from_filetype, to_filetype } => if accepts(state, event) {
            seq![
                ActionView::SendPrompt { text: processing_text(), options: None },
                ActionView::PublishJob(
                    JobView { file_id: event->file_id, from_filetype, to_filetype },
                ),
            ]
        } else {
            seq![ActionView::SendError { text: file_retry_text() }]
        },
    }
}

/// A prompt without choices.
fn plain_prompt(text: String) -> (action: Action)
    ensures
        action@ == (ActionView::SendPrompt { text: text@, options: None }),
{
    Action::SendPrompt { text, options: None }
}

/// A prompt with the choices on offer.
fn choice_prompt(text: String, options: Vec<String>) -> (action: Action)
    ensures
        action@ == (ActionView::SendPrompt { text: text@, options: Some(texts(options@)) }),
{
    Action::SendPrompt { text, options: Some(options) }
}

/// The single error message that answers a rejected event.
fn rejection(text: &str) -> (actions: Vec<Action>)
    ensures
        action_views(actions@) == seq![ActionView::SendError { text: text@ }],
{
    let mut actions: Vec<Action> = Vec::new();
    actions.push(Action::SendError { text: text.to_owned() });
    assert(action_views(actions@) =~= seq![ActionView::SendError { text: text@ }]);
    actions
}

/// A list of one action.
fn single(action: Action) -> (actions: Vec<Action>)
    ensures
        action_views(actions@) == seq![action@],
{
    let mut actions: Vec<Action> = Vec::new();
    actions.push(action);
    assert(action_views(actions@) =~= seq![action@]);
    actions
}

/// `before`, then `inner`, then `after`.
fn framed(before: &str, inner: &str, after: &str) -> (text: String)
    ensures
        text@ == before@ + inner@ + after@,
{
    let mut text = before.to_owned();
    text.append(inner);
    text.append(after);
    text
}

/// Takes a conversation one event further.
///
/// Returns the state to store and the actions to carry out, in order. An
/// event the state is not waiting for leaves the state as it was and is
/// answered by one error message; choices the state carries stay among those
/// the bot offers.
pub fn transition(state: State, event: Event) -> (result: (State, Vec<Action>))
    ensures
        result.0@ == next_state(state@, event@),
        action_views(result.1@) == actions_for(state@, event@),
        !accepts(state@, event@) ==> result.0@ == state@ && result.1@.len() == 1
            && result.1@[0]@ is SendError,
        state@.well_formed() ==> result.0@.well_formed(),
{
    let ghost before = state@;
    let ghost seen = event@;
    let result = match state {
        State::Start => {
            let prompt = choice_prompt(
                "Let's start! Tell me the type of the original document.".to_owned(),
                from_filetypes(),
            );
            (State::ReceiveFromFiletype, single(prompt))
        },
        State::ReceiveFromFiletype => match event {
            Event::ChoiceSelected(tag) => {
                if is_from_filetype(tag.as_str()) {
                    let text = framed(
                        "The type of the original document is set to <b>",
                        tag.as_str(),
                        "</b>. What format do you want for the output?",
                    );
                    let prompt = choice_prompt(text, to_filetypes());
                    (State::ReceiveToFiletype { from_filetype: tag }, single(prompt))
                } else {
                    (
                        State::ReceiveFromFiletype,
                        rejection("Tell me the type of the original document."),
                    )
                }
            },
            _ => (
                State::ReceiveFromFiletype,
                rejection("Tell me the type of the original document."),
            ),
        },
        State::ReceiveToFiletype { from_filetype } => match event {
            Event::ChoiceSelected(tag) => {
                if is_to_filetype(tag.as_str()) {
                    let text = framed(
                        "The output format is set to <b>",
                        tag.as_str(),
                        "</b>. Now send me the file to be converted.",
                    );
                    let prompt = plain_prompt(text);
                    (
                        State::ReceiveInputFile { from_filetype, to_filetype: tag },
                        single(prompt),
                    )
                } else {
                    (
                        State::ReceiveToFiletype { from_filetype },
                        rejection("What format do you want for the output?"),
                    )
                }
            },
            _ => (
                State::ReceiveToFiletype { from_filetype },
                rejection("What format do you want for the output?"),
            ),
        },
        State::ReceiveInputFile { from_filetype, to_filetype } => match event {
            Event::FileReceived { file_id, .. } => {
                let mut actions: Vec<Action> = Vec::new();
                actions.push(plain_prompt("The conversion is being performed ...".to_owned()));
                actions.push(Action::PublishJob(Job { file_id, from_filetype, to_filetype }));
                assert(action_views(actions@) =~= actions_for(before, seen));
                (State::Start, actions)
            },
            _ => (
                State::ReceiveInputFile { from_filetype, to_filetype },
                rejection("Send me the file to be converted."),
            ),
        },
    };
    proof {
        if !accepts(before, seen) {
            assert(action_views(result.1@).len() == 1);
            assert(action_views(result.1@)[0] == result.1@[0]@);
        }
    }
    result
}

/// The state and the actions after a run of events, taken one by one.
pub open spec fn replay(state: StateView, events: Seq<EventView>) -> (StateView, Seq<ActionView>)
    decreases events.len(),
{
    if events.len() == 0 {
        (state, Seq::empty())
    } else {
        let (reached, done) = replay(state, events.drop_last());
        (next_state(reached, events.last()), done + actions_for(reached, events.last()))
    }
}

/// The jobs that a list of actions hands to the workers, in order.
pub open spec fn published_jobs(actions: Seq<ActionView>) -> Seq<JobView>
    decreases actions.len(),
{
    if actions.len() == 0 {
        Seq::empty()
    } else {
        let earlier = published_jobs(actions.drop_last());
        match actions.last() {
            ActionView::PublishJob(job) => earlier.push(job),
            _ => earlier,
        }
    }
}

/// A run of one more event goes on from where the shorter run ended.
pub proof fn lemma_replay_push(state: StateView, events: Seq<EventView>, event: EventView)
    ensures
        replay(state, events.push(event)) == (
            next_state(replay(state, events).0, event),
            replay(state, events).1 + actions_for(replay(state, events).0, event),
        ),
{
    assert(events.push(event).drop_last() =~= events);
}

/// An event that a state is not waiting for leaves the state as it is and
/// is answered by exactly one error message.
pub proof fn lemma_rejection_keeps_state(state: StateView, event: EventView)
    requires
        !accepts(state, event),
    ensures
        next_state(state, event) == state,
        actions_for(state, event).len() == 1,
        actions_for(state, event)[0] is SendError,
{
}

/// No event ever leads to a state that carries a choice the bot does not
/// offer.
pub proof fn lemma_transition_keeps_choices_valid(state: StateView, event: EventView)
    requires
        state.well_formed(),
    ensures
        next_state(state, event).well_formed(),
{
}

/// A conversation that waits for the source type and then sees a valid
/// source type, a valid target type and a document is back at the start,
/// and the one job it has published is for that document and those types.
pub proof fn lemma_complete_request(
    from_filetype: Seq<char>,
    to_filetype: Seq<char>,
    file_id: Seq<char>,
    file_name: Seq<char>,
)
    requires
        from_filetype_tags().contains(from_filetype),
        to_filetype_tags().contains(to_filetype),
    ensures
        ({
            let events = seq![
                EventView::ChoiceSelected(from_filetype),
                EventView::ChoiceSelected(to_filetype),
                EventView::FileReceived { file_id, file_name },
            ];
            let (reached, done) = replay(StateView::ReceiveFromFiletype, events);
            &&& reached == StateView::Start
            &&& published_jobs(done) == seq![JobView { file_id, from_filetype, to_filetype }]
        }),
{
    let first = EventView::ChoiceSelected(from_filetype);
    let second = EventView::ChoiceSelected(to_filetype);
    let third = EventView::FileReceived { file_id, file_name };
    let none = Seq::<EventView>::empty();
    let waiting = StateView::ReceiveFromFiletype;
    lemma_replay_push(waiting, none, first);
    lemma_replay_push(waiting, none.push(first), second);
    lemma_replay_push(waiting, none.push(first).push(second), third);
    assert(none.push(first).push(second).push(third) =~= seq![first, second, third]);
    let done = replay(waiting, seq![first, second, third]).1;
    let job = JobView { file_id, from_filetype, to_filetype };
    let expected = seq![
        ActionView::SendPrompt {
            text: source_chosen_text(from_filetype),
            options: Some(to_filetype_tags()),
        },
        ActionView::SendPrompt { text: target_chosen_text(to_filetype), options: None },
        ActionView::SendPrompt { text: processing_text(), options: None },
        ActionView::PublishJob(job),
    ];
    assert(done =~= expected);
    lemma_published_jobs_of_request(expected, job);
}

/// Three prompts and then one job publish that job and no other.
proof fn lemma_published_jobs_of_request(actions: Seq<ActionView>, job: JobView)
    requires
        actions.len() == 4,
        actions[0] is SendPrompt,
        actions[1] is SendPrompt,
        actions[2] is SendPrompt,
        actions[3] == ActionView::PublishJob(job),
    ensures
        published_jobs(actions) == seq![job],
{
    let three = actions.drop_last();
    let two = three.drop_last();
    let one = two.drop_last();
    assert(one.drop_last().len() == 0);
    assert(published_jobs(one.drop_last()) =~= Seq::<JobView>::empty());
    assert(one.last() == actions[0]);
    assert(published_jobs(one) =~= Seq::<JobView>::empty());
    assert(two.last() == actions[1]);
    assert(published_jobs(two) =~= Seq::<JobView>::empty());
    assert(three.last() == actions[2]);
    assert(published_jobs(three) =~= Seq::<JobView>::empty());
    assert(published_jobs(actions) =~= seq![job]);
}

/// The same, from the very beginning: whatever event opens the
/// conversation, the three that follow complete one request.
pub proof fn lemma_complete_request_from_start(
    opening: EventView,
    from_filetype: Seq<char>,
    to_filetype: Seq<char>,
    file_id: Seq<char>,
    file_name: Seq<char>,
)
    requires
        from_filetype_tags().contains(from_filetype),
        to_filetype_tags().contains(to_filetype),
    ensures
        ({
            let events = seq![
                EventView::ChoiceSelected(from_filetype),
                EventView::ChoiceSelected(to_filetype),
                EventView::FileReceived { file_id, file_name },
            ];
            let opened = next_state(StateView::Start, opening);
            let (reached, done) = replay(opened, events);
            &&& published_jobs(actions_for(StateView::Start, opening)) == Seq::<JobView>::empty()
            &&& reached == StateView::Start
            &&& published_jobs(done) == seq![JobView { file_id, from_filetype, to_filetype }]
        }),
{
    lemma_complete_request(from_filetype, to_filetype, file_id, file_name);
    let opened = actions_for(StateView::Start, opening);
    assert(opened.drop_last().len() == 0);
    assert(published_jobs(opened.drop_last()) =~= Seq::<JobView>::empty());
    assert(opened.last() is SendPrompt);
}

} // verus!
