//! From a worker's response to what the user is sent.
//!
//! Routing reads nothing but the response: by the time a response arrives
//! its conversation is long back at the start, so no state is looked up and
//! none is changed. The same response is therefore routed the same way
//! however often it arrives.

use crate::codec::{decode_response, decoded_response, DecodeFailure, DecodeFault};
use crate::formats::{extension_of, filetype_to_extension};
use crate::message::{ConvertResponse, ConvertResponseView};
use vstd::prelude::*;
use vstd::string::StringExecFns;

verus! {

/// What to send to a user once a job is over.
#[derive(Debug, PartialEq, Eq)]
pub enum Delivery {
    /// Send the converted document.
    SendDocument { chat_id: i64, file: Vec<u8>, file_name: String, caption: String },
    /// Send a message that says why there is none.
    SendText { chat_id: i64, text: String },
}

/// The mathematical counterpart of [`Delivery`].
pub enum DeliveryView {
    SendDocument { chat_id: i64, file: Seq<u8>, file_name: Seq<char>, caption: Seq<char> },
    SendText { chat_id: i64, text: Seq<char> },
}

impl DeliveryView {
    /// The conversation the delivery is addressed to.
    pub open spec fn chat_id(self) -> i64 {
        match self {
            DeliveryView::SendDocument { chat_id, .. } => chat_id,
            DeliveryView::SendText { chat_id, .. } => chat_id,
        }
    }
}

impl View for Delivery {
    type V = DeliveryView;

    open spec fn view(&self) -> DeliveryView {
        match *self {
            Delivery::SendDocument { chat_id, file, file_name, caption } => {
                DeliveryView::SendDocument {
                    chat_id,
                    file: file@,
                    file_name: file_name@,
                    caption: caption@,
                }
            },
            Delivery::SendText { chat_id, text } => DeliveryView::SendText { chat_id, text: text@ },
        }
    }
}

impl Delivery {
    /// The conversation the delivery is addressed to.
    pub fn chat_id(&self) -> (id: i64)
        ensures
            id == self@.chat_id(),
    {
        match self {
            Delivery::SendDocument { chat_id, .. } => *chat_id,
            Delivery::SendText { chat_id, .. } => *chat_id,
        }
    }
}

/// The name a converted document is sent under.
pub open spec fn output_file_name(to_filetype: Seq<char>) -> Seq<char> {
    "output."@ + extension_of(to_filetype)
}

/// The caption a converted document is sent with.
pub open spec fn success_caption(to_filetype: Seq<char>) -> Seq<char> {
    "Converted succesffully to <b>"@ + to_filetype + "</b>!"@
}

/// The message that reports a failed conversion.
pub open spec fn failure_text(error_msg: Seq<char>) -> Seq<char> {
    "Failed to perform the conversion:\n<pre>"@ + error_msg + "</pre>"@
}

/// What a response is turned into.
pub open spec fn routed(response: ConvertResponseView) -> DeliveryView {
    match response {
        ConvertResponseView::Success { chat_id, file, to_filetype } => DeliveryView::SendDocument {
            chat_id,
            file,
            file_name: output_file_name(to_filetype),
            caption: success_caption(to_filetype),
        },
        ConvertResponseView::Failure { chat_id, error_msg } => DeliveryView::SendText {
            chat_id,
            text: failure_text(error_msg),
        },
    }
}

/// What becomes of a message taken from the result queue.
pub open spec fn delivery_outcome(raw: Seq<u8>) -> Result<DeliveryView, DecodeFault> {
    match decoded_response(raw) {
        Ok(response) => Ok(routed(response)),
        Err(fault) => Err(fault),
    }
}

/// What the broker is told about a message once it has been dealt with.
#[derive(Debug, PartialEq, Eq, Clone, Copy)]
pub enum Settlement {
    /// The message is done with and may be forgotten.
    Acknowledge,
    /// The message is to be delivered again.
    Requeue,
    /// The message can never be handled: it is set aside, not delivered
    /// again.
    DeadLetter,
}

/// How a message is settled. It is acknowledged only when it was decoded
/// and what it asked for was sent; one that was decoded but could not be
/// sent comes back; one that could not be decoded is set aside.
pub open spec fn settlement_for(decoded: bool, sent: bool) -> Settlement {
    if !decoded {
        Settlement::DeadLetter
    } else if sent {
        Settlement::Acknowledge
    } else {
        Settlement::Requeue
    }
}

/// Decides what to tell the broker about a message, given how handling it
/// went and whether the delivery, if there was one, reached the user.
pub fn settle(handled: &Result<Delivery, DecodeFailure>, sent: bool) -> (settlement: Settlement)
    ensures
        settlement == settlement_for(handled is Ok, sent),
        settlement == Settlement::Acknowledge <==> handled is Ok && sent,
{
    match handled {
        Err(_) => Settlement::DeadLetter,
        Ok(_) => if sent {
            Settlement::Acknowledge
        } else {
            Settlement::Requeue
        },
    }
}

/// Turns a response into what the user is sent: the converted document for
/// a success, the error message for a failure, addressed in either case to
/// the conversation the response names and to no other.
pub fn route(response: ConvertResponse) -> (delivery: Delivery)
    ensures
        delivery@ == routed(response@),
        delivery@.chat_id() == response@.chat_id(),
        response@ is Success <==> delivery@ is SendDocument,
{
    match response {
        ConvertResponse::Success { chat_id, file, to_filetype } => {
            let mut file_name = "output.".to_owned();
            file_name.append(filetype_to_extension(to_filetype.as_str()));
            let mut caption = "Converted succesffully to <b>".to_owned();
            caption.append(to_filetype.as_str());
            caption.append("</b>!");
            Delivery::SendDocument { chat_id, file, file_name, caption }
        },
        ConvertResponse::Failure { chat_id, error_msg } => {
            let mut text = "Failed to perform the conversion:\n<pre>".to_owned();
            text.append(error_msg.as_str());
            text.append("</pre>");
            Delivery::SendText { chat_id, text }
        },
    }
}

/// Handles one message taken from the result queue: decodes it and routes
/// the response. Bytes that are no response are reported, never routed.
pub fn handle_delivery(raw: &[u8]) -> (result: Result<Delivery, DecodeFailure>)
    ensures
        match result {
            Ok(delivery) => delivery_outcome(raw@) == Ok::<DeliveryView, DecodeFault>(delivery@),
            Err(failure) => delivery_outcome(raw@) == Err::<DeliveryView, DecodeFault>(
                failure.fault(),
            ),
        },
{
    match decode_response(raw) {
        Ok(response) => Ok(route(response)),
        Err(failure) => Err(failure),
    }
}

/// A success is answered by sending a document, and a failure by sending a
/// text, to the conversation the response names.
pub proof fn lemma_routed_to_own_conversation(response: ConvertResponseView)
    ensures
        routed(response).chat_id() == response.chat_id(),
        response is Success <==> routed(response) is SendDocument,
        response is Failure <==> routed(response) is SendText,
{
}

/// A message that is delivered again is handled exactly as it was the first
/// time: the same bytes give the same delivery, or the same fault.
pub proof fn lemma_redelivery_repeats_outcome(first: Seq<u8>, again: Seq<u8>)
    requires
        first == again,
    ensures
        delivery_outcome(again) == delivery_outcome(first),
{
}

} // verus!
