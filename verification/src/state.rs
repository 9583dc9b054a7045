//! The phases of one conversation.

use crate::formats::{from_filetype_tags, to_filetype_tags};
use vstd::prelude::*;

verus! {

/// Where a conversation stands. Each phase carries exactly the choices made
/// so far: nothing is filled in ahead of time and nothing stale is kept.
#[derive(Debug, PartialEq, Eq)]
pub enum State {
    /// Nothing has been asked yet; the next event opens a new request.
    Start,
    /// Waiting for the type of the document to convert.
    ReceiveFromFiletype,
    /// Waiting for the type to convert to.
    ReceiveToFiletype { from_filetype: String },
    /// Waiting for the document itself.
    ReceiveInputFile { from_filetype: String, to_filetype: String },
}

/// The mathematical counterpart of [`State`].
pub enum StateView {
    Start,
    ReceiveFromFiletype,
    ReceiveToFiletype { from_filetype: Seq<char> },
    ReceiveInputFile { from_filetype: Seq<char>, to_filetype: Seq<char> },
}

impl StateView {
    /// Whether every choice the state carries is one the bot offers.
    pub open spec fn well_formed(self) -> bool {
        match self {
            StateView::Start => true,
            StateView::ReceiveFromFiletype => true,
            StateView::ReceiveToFiletype { from_filetype } => from_filetype_tags().contains(
                from_filetype,
            ),
            StateView::ReceiveInputFile { from_filetype, to_filetype } => {
                &&& from_filetype_tags().contains(from_filetype)
                &&& to_filetype_tags().contains(to_filetype)
            },
        }
    }
}

impl View for State {
    type V = StateView;

    open spec fn view(&self) -> StateView {
        match *self {
            State::Start => StateView::Start,
            State::ReceiveFromFiletype => StateView::ReceiveFromFiletype,
            State::ReceiveToFiletype { from_filetype } => StateView::ReceiveToFiletype {
                from_filetype: from_filetype@,
            },
            State::ReceiveInputFile { from_filetype, to_filetype } => StateView::ReceiveInputFile {
                from_filetype: from_filetype@,
                to_filetype: to_filetype@,
            },
        }
    }
}

impl Default for State {
    /// A conversation that has not been heard of is at the start.
    fn default() -> (state: State)
        ensures
            state@ == StateView::Start,
            state@.well_formed(),
    {
        State::Start
    }
}

impl Clone for State {
    fn clone(&self) -> (copy: State)
        ensures
            copy@ == self@,
    {
        match self {
            State::Start => State::Start,
            State::ReceiveFromFiletype => State::ReceiveFromFiletype,
            State::ReceiveToFiletype { from_filetype } => State::ReceiveToFiletype {
                from_filetype: from_filetype.clone(),
            },
            State::ReceiveInputFile { from_filetype, to_filetype } => State::ReceiveInputFile {
                from_filetype: from_filetype.clone(),
                to_filetype: to_filetype.clone(),
            },
        }
    }
}

} // verus!
