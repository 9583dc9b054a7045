//! The two envelopes exchanged with the conversion workers.

use vstd::prelude::*;

verus! {

/// The queue that requests are published on.
pub const JOB_QUEUE: &'static str = "pandoc-bot-jobs";

/// The queue that responses are consumed from.
pub const RESULT_QUEUE: &'static str = "pandoc-outputs";

/// What the dialogue knows of a conversion once the document has arrived:
/// everything a request needs but the conversation and the bytes.
#[derive(Debug, PartialEq, Eq)]
pub struct Job {
    /// The identifier under which the upload is known to the chat service.
    pub file_id: String,
    /// The document type of the upload.
    pub from_filetype: String,
    /// The document type to produce.
    pub to_filetype: String,
}

/// The mathematical counterpart of [`Job`].
pub struct JobView {
    pub file_id: Seq<char>,
    pub from_filetype: Seq<char>,
    pub to_filetype: Seq<char>,
}

impl View for Job {
    type V = JobView;

    open spec fn view(&self) -> JobView {
        JobView {
            file_id: self.file_id@,
            from_filetype: self.from_filetype@,
            to_filetype: self.to_filetype@,
        }
    }
}

impl Job {
    /// The request to send for this job, once the conversation it belongs to
    /// and the bytes of the upload are known.
    pub fn into_request(self, chat_id: i64, file: Vec<u8>) -> (request: ConvertRequest)
        ensures
            request@ == (ConvertRequestView {
                chat_id,
                file: file@,
                file_id: self@.file_id,
                from_filetype: self@.from_filetype,
                to_filetype: self@.to_filetype,
            }),
    {
        ConvertRequest {
            chat_id,
            file,
            file_id: self.file_id,
            from_filetype: self.from_filetype,
            to_filetype: self.to_filetype,
        }
    }
}

/// A conversion job, as sent to the workers.
#[derive(Debug, PartialEq, Eq)]
pub struct ConvertRequest {
    /// The conversation that asked for the conversion.
    pub chat_id: i64,
    /// The bytes of the uploaded document.
    pub file: Vec<u8>,
    /// The identifier under which the upload is known to the chat service.
    pub file_id: String,
    /// The document type of `file`.
    pub from_filetype: String,
    /// The document type to produce.
    pub to_filetype: String,
}

/// The mathematical counterpart of [`ConvertRequest`].
pub struct ConvertRequestView {
    pub chat_id: i64,
    pub file: Seq<u8>,
    pub file_id: Seq<char>,
    pub from_filetype: Seq<char>,
    pub to_filetype: Seq<char>,
}

impl View for ConvertRequest {
    type V = ConvertRequestView;

    open spec fn view(&self) -> ConvertRequestView {
        ConvertRequestView {
            chat_id: self.chat_id,
            file: self.file@,
            file_id: self.file_id@,
            from_filetype: self.from_filetype@,
            to_filetype: self.to_filetype@,
        }
    }
}

/// The outcome of a conversion job, as reported by a worker: either the
/// converted document or an error message, never both.
#[derive(Debug, PartialEq, Eq)]
pub enum ConvertResponse {
    Success {
        /// The conversation that asked for the conversion.
        chat_id: i64,
        /// The bytes of the converted document.
        file: Vec<u8>,
        /// The document type of `file`.
        to_filetype: String,
    },
    Failure {
        /// The conversation that asked for the conversion.
        chat_id: i64,
        /// Why the conversion failed.
        error_msg: String,
    },
}

/// The mathematical counterpart of [`ConvertResponse`].
pub enum ConvertResponseView {
    Success { chat_id: i64, file: Seq<u8>, to_filetype: Seq<char> },
    Failure { chat_id: i64, error_msg: Seq<char> },
}

impl ConvertResponseView {
    /// The conversation the response is addressed to.
    pub open spec fn chat_id(self) -> i64 {
        match self {
            ConvertResponseView::Success { chat_id, .. } => chat_id,
            ConvertResponseView::Failure { chat_id, .. } => chat_id,
        }
    }
}

impl View for ConvertResponse {
    type V = ConvertResponseView;

    open spec fn view(&self) -> ConvertResponseView {
        match *self {
            ConvertResponse::Success { chat_id, file, to_filetype } => {
                ConvertResponseView::Success { chat_id, file: file@, to_filetype: to_filetype@ }
            },
            ConvertResponse::Failure { chat_id, error_msg } => ConvertResponseView::Failure {
                chat_id,
                error_msg: error_msg@,
            },
        }
    }
}

impl ConvertResponse {
    /// The conversation the response is addressed to.
    pub fn chat_id(&self) -> (id: i64)
        ensures
            id == self@.chat_id(),
    {
        match self {
            ConvertResponse::Success { chat_id, .. } => *chat_id,
            ConvertResponse::Failure { chat_id, .. } => *chat_id,
        }
    }
}

} // verus!
