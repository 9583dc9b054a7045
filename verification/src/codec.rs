//! The wire format of the two envelopes: each is a BSON document with one
//! field per envelope field. A response carries no tag of its own; the
//! names of the fields present tell a success from a failure.

use crate::formats::{same_bytes, same_text};
use crate::message::{ConvertRequest, ConvertRequestView, ConvertResponse, ConvertResponseView};
use crate::wire::{
    all_fields_known, all_texts_fit, document_fields, document_to_bytes, field_value, field_views,
    find_field, insert_field, lemma_other_name_changes_nothing, lemma_unused_name, new_document,
    parsed_document, raw_error_text, read_fields, ser_error_text, serialized_document, text_fits,
    FieldValue, WireField, WireValue, MAX_TEXT_BYTES,
};
use vstd::prelude::*;

verus! {

/// Why an envelope could not be written.
#[derive(Debug, PartialEq, Eq)]
pub enum EncodeFailure {
    /// One of the envelope's strings is longer than the wire format has
    /// room for.
    TextTooLong,
    /// The serializer refused the document.
    Refused {
        /// The serializer's own description of what went wrong.
        reason: String,
    },
    /// The bytes were written, but reading them again did not give the
    /// envelope back. Only the checked encoders report this.
    NotReadBack,
}

/// The ways encoding fails, without the serializer's message.
pub enum EncodeFault {
    TextTooLong,
    Refused,
    NotReadBack,
}

impl EncodeFailure {
    /// Which of the ways of failing this is.
    pub open spec fn fault(self) -> EncodeFault {
        match self {
            EncodeFailure::TextTooLong => EncodeFault::TextTooLong,
            EncodeFailure::Refused { .. } => EncodeFault::Refused,
            EncodeFailure::NotReadBack => EncodeFault::NotReadBack,
        }
    }

    /// A description of the failure.
    pub fn message(&self) -> (text: String)
        ensures
            self is TextTooLong ==> text@ == "a string of the envelope is too long"@,
            self matches EncodeFailure::Refused { reason } ==> text@ == reason@,
            self is NotReadBack ==> text@ == "the bytes written do not read back"@,
    {
        match self {
            EncodeFailure::TextTooLong => "a string of the envelope is too long".to_owned(),
            EncodeFailure::Refused { reason } => reason.clone(),
            EncodeFailure::NotReadBack => "the bytes written do not read back".to_owned(),
        }
    }
}

/// Why bytes could not be read as an envelope.
#[derive(Debug, PartialEq, Eq)]
pub enum DecodeFailure {
    /// The bytes are not a BSON document.
    Malformed {
        /// The parser's own description of what went wrong.
        reason: String,
    },
    /// The bytes are a BSON document, but its fields are not those of the
    /// envelope asked for.
    Unrecognized,
}

/// The two ways decoding fails, without the parser's message.
pub enum DecodeFault {
    Malformed,
    Unrecognized,
}

impl DecodeFailure {
    /// Which of the two ways of failing this is.
    pub open spec fn fault(self) -> DecodeFault {
        match self {
            DecodeFailure::Malformed { .. } => DecodeFault::Malformed,
            DecodeFailure::Unrecognized => DecodeFault::Unrecognized,
        }
    }

    /// A description of the failure.
    pub fn message(&self) -> (text: String)
        ensures
            self is Unrecognized ==> text@ == "the document is not a known envelope"@,
            self matches DecodeFailure::Malformed { reason } ==> text@ == reason@,
    {
        match self {
            DecodeFailure::Malformed { reason } => reason.clone(),
            DecodeFailure::Unrecognized => "the document is not a known envelope".to_owned(),
        }
    }
}

/// The integer stored under `key`, whether written with 32 or 64 bits.
pub open spec fn integer_field(fields: Seq<(Seq<char>, FieldValue)>, key: Seq<char>) -> Option<
    i64,
> {
    match field_value(fields, key) {
        Some(FieldValue::Int64(v)) => Some(v),
        Some(FieldValue::Int32(v)) => Some(v as i64),
        _ => None,
    }
}

/// The string stored under `key`.
pub open spec fn text_field(fields: Seq<(Seq<char>, FieldValue)>, key: Seq<char>) -> Option<
    Seq<char>,
> {
    match field_value(fields, key) {
        Some(FieldValue::Text(s)) => Some(s),
        _ => None,
    }
}

/// The binary data stored under `key`.
pub open spec fn bytes_field(fields: Seq<(Seq<char>, FieldValue)>, key: Seq<char>) -> Option<
    Seq<u8>,
> {
    match field_value(fields, key) {
        Some(FieldValue::Bytes(b)) => Some(b),
        _ => None,
    }
}

/// Whether `name` is the name of a field of one of the envelopes.
pub open spec fn is_envelope_name(name: Seq<char>) -> bool {
    ||| name == "chat_id"@
    ||| name == "file"@
    ||| name == "file_id"@
    ||| name == "from_filetype"@
    ||| name == "to_filetype"@
    ||| name == "error_msg"@
}

/// The fields a request is written as, in order.
pub open spec fn request_fields(request: ConvertRequestView) -> Seq<(Seq<char>, FieldValue)> {
    seq![
        ("chat_id"@, FieldValue::Int64(request.chat_id)),
        ("file"@, FieldValue::Bytes(request.file)),
        ("file_id"@, FieldValue::Text(request.file_id)),
        ("from_filetype"@, FieldValue::Text(request.from_filetype)),
        ("to_filetype"@, FieldValue::Text(request.to_filetype)),
    ]
}

/// The fields a response is written as, in order.
pub open spec fn response_fields(response: ConvertResponseView) -> Seq<(Seq<char>, FieldValue)> {
    match response {
        ConvertResponseView::Success { chat_id, file, to_filetype } => seq![
            ("chat_id"@, FieldValue::Int64(chat_id)),
            ("file"@, FieldValue::Bytes(file)),
            ("to_filetype"@, FieldValue::Text(to_filetype)),
        ],
        ConvertResponseView::Failure { chat_id, error_msg } => seq![
            ("chat_id"@, FieldValue::Int64(chat_id)),
            ("error_msg"@, FieldValue::Text(error_msg)),
        ],
    }
}

/// The request a list of fields stands for: all five fields must be there
/// with the right kind of value; fields of other names are ignored.
pub open spec fn request_of_fields(fields: Seq<(Seq<char>, FieldValue)>) -> Option<
    ConvertRequestView,
> {
    let chat_id = integer_field(fields, "chat_id"@);
    let file = bytes_field(fields, "file"@);
    let file_id = text_field(fields, "file_id"@);
    let from_filetype = text_field(fields, "from_filetype"@);
    let to_filetype = text_field(fields, "to_filetype"@);
    if chat_id is Some && file is Some && file_id is Some && from_filetype is Some
        && to_filetype is Some {
        Some(
            ConvertRequestView {
                chat_id: chat_id->0,
                file: file->0,
                file_id: file_id->0,
                from_filetype: from_filetype->0,
                to_filetype: to_filetype->0,
            },
        )
    } else {
        None
    }
}

/// The response a list of fields stands for. A document with the three
/// fields of a success is a success, whatever else it holds; failing that,
/// one with the two fields of a failure is a failure. Fields of other names
/// are ignored.
pub open spec fn response_of_fields(fields: Seq<(Seq<char>, FieldValue)>) -> Option<
    ConvertResponseView,
> {
    let chat_id = integer_field(fields, "chat_id"@);
    let file = bytes_field(fields, "file"@);
    let to_filetype = text_field(fields, "to_filetype"@);
    let error_msg = text_field(fields, "error_msg"@);
    if chat_id is Some && file is Some && to_filetype is Some {
        Some(
            ConvertResponseView::Success {
                chat_id: chat_id->0,
                file: file->0,
                to_filetype: to_filetype->0,
            },
        )
    } else if chat_id is Some && error_msg is Some {
        Some(ConvertResponseView::Failure { chat_id: chat_id->0, error_msg: error_msg->0 })
    } else {
        None
    }
}

/// What writing a document with the given fields yields: the serializer's
/// bytes, unless a string is too long or the serializer refuses.
pub open spec fn encoding_of(fields: Seq<(Seq<char>, FieldValue)>) -> Result<Seq<u8>, EncodeFault> {
    if !all_texts_fit(fields) {
        Err(EncodeFault::TextTooLong)
    } else {
        match serialized_document(fields) {
            Some(bytes) => Ok(bytes),
            None => Err(EncodeFault::Refused),
        }
    }
}

/// What encoding a request yields.
pub open spec fn encoded_request(request: ConvertRequestView) -> Result<Seq<u8>, EncodeFault> {
    encoding_of(request_fields(request))
}

/// What encoding a response yields.
pub open spec fn encoded_response(response: ConvertResponseView) -> Result<Seq<u8>, EncodeFault> {
    encoding_of(response_fields(response))
}

/// What decoding the given bytes as a request yields.
pub open spec fn decoded_request(bytes: Seq<u8>) -> Result<ConvertRequestView, DecodeFault> {
    match parsed_document(bytes) {
        None => Err(DecodeFault::Malformed),
        Some(fields) => match request_of_fields(fields) {
            Some(request) => Ok(request),
            None => Err(DecodeFault::Unrecognized),
        },
    }
}

/// What decoding the given bytes as a response yields.
pub open spec fn decoded_response(bytes: Seq<u8>) -> Result<ConvertResponseView, DecodeFault> {
    match parsed_document(bytes) {
        None => Err(DecodeFault::Malformed),
        Some(fields) => match response_of_fields(fields) {
            Some(response) => Ok(response),
            None => Err(DecodeFault::Unrecognized),
        },
    }
}

/// What encoding a request and reading the bytes back yields: the bytes,
/// if they decode to the request again.
pub open spec fn checked_request(request: ConvertRequestView) -> Result<Seq<u8>, EncodeFault> {
    match encoded_request(request) {
        Ok(bytes) => if decoded_request(bytes) == Ok::<ConvertRequestView, DecodeFault>(request) {
            Ok(bytes)
        } else {
            Err(EncodeFault::NotReadBack)
        },
        Err(fault) => Err(fault),
    }
}

/// What encoding a response and reading the bytes back yields: the bytes,
/// if they decode to the response again.
pub open spec fn checked_response(response: ConvertResponseView) -> Result<Seq<u8>, EncodeFault> {
    match encoded_response(response) {
        Ok(bytes) => if decoded_response(bytes) == Ok::<ConvertResponseView, DecodeFault>(
            response,
        ) {
            Ok(bytes)
        } else {
            Err(EncodeFault::NotReadBack)
        },
        Err(fault) => Err(fault),
    }
}

/// The names of the envelope fields are pairwise different.
proof fn lemma_field_names_differ()
    ensures
        "chat_id"@ != "file"@,
        "chat_id"@ != "file_id"@,
        "chat_id"@ != "from_filetype"@,
        "chat_id"@ != "to_filetype"@,
        "chat_id"@ != "error_msg"@,
        "file"@ != "file_id"@,
        "file"@ != "from_filetype"@,
        "file"@ != "to_filetype"@,
        "file"@ != "error_msg"@,
        "file_id"@ != "from_filetype"@,
        "file_id"@ != "to_filetype"@,
        "from_filetype"@ != "to_filetype"@,
        "to_filetype"@ != "error_msg"@,
{
    reveal_strlit("chat_id");
    reveal_strlit("file");
    reveal_strlit("file_id");
    reveal_strlit("from_filetype");
    reveal_strlit("to_filetype");
    reveal_strlit("error_msg");
    assert("chat_id"@.len() == 7 && "file"@.len() == 4 && "file_id"@.len() == 7);
    assert("from_filetype"@.len() == 13 && "to_filetype"@.len() == 11 && "error_msg"@.len() == 9);
    assert("chat_id"@[0] != "file_id"@[0]);
}

/// Whether a string is short enough to be written.
fn fits(text: &str) -> (ok: bool)
    ensures
        ok == text_fits(text@),
{
    text.as_bytes().len() <= MAX_TEXT_BYTES
}

/// Lays a request out as a document.
fn request_document(request: &ConvertRequest) -> (doc: bson::Document)
    ensures
        document_fields(doc) == request_fields(request@),
{
    proof {
        lemma_field_names_differ();
    }
    let mut doc = new_document();
    proof {
        lemma_unused_name(document_fields(doc), "chat_id"@);
    }
    insert_field(&mut doc, "chat_id", WireValue::Int64(request.chat_id));
    proof {
        lemma_unused_name(document_fields(doc), "file"@);
    }
    insert_field(&mut doc, "file", WireValue::Bytes(request.file.clone()));
    proof {
        lemma_unused_name(document_fields(doc), "file_id"@);
    }
    insert_field(&mut doc, "file_id", WireValue::Text(request.file_id.clone()));
    proof {
        lemma_unused_name(document_fields(doc), "from_filetype"@);
    }
    insert_field(&mut doc, "from_filetype", WireValue::Text(request.from_filetype.clone()));
    proof {
        lemma_unused_name(document_fields(doc), "to_filetype"@);
    }
    insert_field(&mut doc, "to_filetype", WireValue::Text(request.to_filetype.clone()));
    assert(document_fields(doc) =~= request_fields(request@));
    doc
}

/// Lays a response out as a document.
fn response_document(response: &ConvertResponse) -> (doc: bson::Document)
    ensures
        document_fields(doc) == response_fields(response@),
{
    proof {
        lemma_field_names_differ();
    }
    let mut doc = new_document();
    proof {
        lemma_unused_name(document_fields(doc), "chat_id"@);
    }
    match response {
        ConvertResponse::Success { chat_id, file, to_filetype } => {
            insert_field(&mut doc, "chat_id", WireValue::Int64(*chat_id));
            proof {
                lemma_unused_name(document_fields(doc), "file"@);
            }
            insert_field(&mut doc, "file", WireValue::Bytes(file.clone()));
            proof {
                lemma_unused_name(document_fields(doc), "to_filetype"@);
            }
            insert_field(&mut doc, "to_filetype", WireValue::Text(to_filetype.clone()));
        },
        ConvertResponse::Failure { chat_id, error_msg } => {
            insert_field(&mut doc, "chat_id", WireValue::Int64(*chat_id));
            proof {
                lemma_unused_name(document_fields(doc), "error_msg"@);
            }
            insert_field(&mut doc, "error_msg", WireValue::Text(error_msg.clone()));
        },
    }
    assert(document_fields(doc) =~= response_fields(response@));
    doc
}

/// Writes a document whose fields are all integers, strings that fit, or
/// binary data.
fn write_document(doc: &bson::Document) -> (result: Result<Vec<u8>, EncodeFailure>)
    requires
        all_fields_known(document_fields(*doc)),
        all_texts_fit(document_fields(*doc)),
    ensures
        match result {
            Ok(bytes) => encoding_of(document_fields(*doc)) == Ok::<Seq<u8>, EncodeFault>(bytes@),
            Err(failure) => failure is Refused && encoding_of(document_fields(*doc)) == Err::<
                Seq<u8>,
                EncodeFault,
            >(EncodeFault::Refused),
        },
{
    match document_to_bytes(doc) {
        Ok(bytes) => Ok(bytes),
        Err(error) => Err(EncodeFailure::Refused { reason: ser_error_text(&error) }),
    }
}

/// Encodes a request for the job queue.
///
/// A request with a string of more than `MAX_TEXT_BYTES` bytes is
/// `TextTooLong`. Any other request is handed to the serializer: the result
/// is the bytes it produced, or `Refused` where it gave an error (it does so
/// for a document of more than 16 MiB of binary data).
pub fn encode_request(request: &ConvertRequest) -> (result: Result<Vec<u8>, EncodeFailure>)
    ensures
        match result {
            Ok(bytes) => encoded_request(request@) == Ok::<Seq<u8>, EncodeFault>(bytes@),
            Err(failure) => failure !is NotReadBack && encoded_request(request@) == Err::<
                Seq<u8>,
                EncodeFault,
            >(failure.fault()),
        },
{
    let fitting = fits(request.file_id.as_str()) && fits(request.from_filetype.as_str()) && fits(
        request.to_filetype.as_str(),
    );
    proof {
        let fields = request_fields(request@);
        if !fitting {
            assert(fields[2].1 == FieldValue::Text(request@.file_id));
            assert(fields[3].1 == FieldValue::Text(request@.from_filetype));
            assert(fields[4].1 == FieldValue::Text(request@.to_filetype));
        }
    }
    if !fitting {
        return Err(EncodeFailure::TextTooLong);
    }
    let doc = request_document(request);
    write_document(&doc)
}

/// Encodes a response for the result queue.
///
/// A response with a string of more than `MAX_TEXT_BYTES` bytes is
/// `TextTooLong`. Any other response is handed to the serializer: the result
/// is the bytes it produced, or `Refused` where it gave an error.
pub fn encode_response(response: &ConvertResponse) -> (result: Result<Vec<u8>, EncodeFailure>)
    ensures
        match result {
            Ok(bytes) => encoded_response(response@) == Ok::<Seq<u8>, EncodeFault>(bytes@),
            Err(failure) => failure !is NotReadBack && encoded_response(response@) == Err::<
                Seq<u8>,
                EncodeFault,
            >(failure.fault()),
        },
{
    let fitting = match response {
        ConvertResponse::Success { to_filetype, .. } => fits(to_filetype.as_str()),
        ConvertResponse::Failure { error_msg, .. } => fits(error_msg.as_str()),
    };
    proof {
        let fields = response_fields(response@);
        if !fitting {
            match response@ {
                ConvertResponseView::Success { to_filetype, .. } => {
                    assert(fields[2].1 == FieldValue::Text(to_filetype));
                },
                ConvertResponseView::Failure { error_msg, .. } => {
                    assert(fields[1].1 == FieldValue::Text(error_msg));
                },
            }
        }
    }
    if !fitting {
        return Err(EncodeFailure::TextTooLong);
    }
    let doc = response_document(response);
    write_document(&doc)
}

/// The integer stored under `key`, if there is one.
fn integer_in(fields: &[WireField], key: &str) -> (value: Option<i64>)
    ensures
        value == integer_field(field_views(fields@), key@),
{
    match find_field(fields, key) {
        Some(WireValue::Int64(v)) => Some(*v),
        Some(WireValue::Int32(v)) => Some(*v as i64),
        _ => None,
    }
}

/// The string stored under `key`, if there is one.
fn text_in(fields: &[WireField], key: &str) -> (value: Option<String>)
    ensures
        match value {
            Some(s) => text_field(field_views(fields@), key@) == Some(s@),
            None => text_field(field_views(fields@), key@) is None,
        },
{
    match find_field(fields, key) {
        Some(WireValue::Text(s)) => Some(s.clone()),
        _ => None,
    }
}

/// The binary data stored under `key`, if there is any.
fn bytes_in(fields: &[WireField], key: &str) -> (value: Option<Vec<u8>>)
    ensures
        match value {
            Some(b) => bytes_field(field_views(fields@), key@) == Some(b@),
            None => bytes_field(field_views(fields@), key@) is None,
        },
{
    match find_field(fields, key) {
        Some(WireValue::Bytes(b)) => Some(b.clone()),
        _ => None,
    }
}

/// Reads a request out of the fields of a document.
///
/// Succeeds exactly when the five request fields are there with the right
/// kinds of value; any other list of fields is `Unrecognized`.
pub fn request_from_fields(fields: &[WireField]) -> (result: Result<ConvertRequest, DecodeFailure>)
    ensures
        match result {
            Ok(request) => request_of_fields(field_views(fields@)) == Some(request@),
            Err(failure) => failure is Unrecognized && request_of_fields(field_views(fields@))
                is None,
        },
{
    let chat_id = integer_in(fields, "chat_id");
    let file = bytes_in(fields, "file");
    let file_id = text_in(fields, "file_id");
    let from_filetype = text_in(fields, "from_filetype");
    let to_filetype = text_in(fields, "to_filetype");
    match (chat_id, file, file_id, from_filetype, to_filetype) {
        (Some(chat_id), Some(file), Some(file_id), Some(from_filetype), Some(to_filetype)) => Ok(
            ConvertRequest { chat_id, file, file_id, from_filetype, to_filetype },
        ),
        _ => Err(DecodeFailure::Unrecognized),
    }
}

/// Reads a response out of the fields of a document.
///
/// Fields that hold those of a success are read as a success; failing that,
/// fields that hold those of a failure are read as a failure; any other list
/// of fields is `Unrecognized`.
pub fn response_from_fields(fields: &[WireField]) -> (result: Result<
    ConvertResponse,
    DecodeFailure,
>)
    ensures
        match result {
            Ok(response) => response_of_fields(field_views(fields@)) == Some(response@),
            Err(failure) => failure is Unrecognized && response_of_fields(field_views(fields@))
                is None,
        },
{
    let chat_id = match integer_in(fields, "chat_id") {
        Some(chat_id) => chat_id,
        None => {
            return Err(DecodeFailure::Unrecognized);
        },
    };
    let file = bytes_in(fields, "file");
    let to_filetype = text_in(fields, "to_filetype");
    match (file, to_filetype) {
        (Some(file), Some(to_filetype)) => Ok(
            ConvertResponse::Success { chat_id, file, to_filetype },
        ),
        _ => match text_in(fields, "error_msg") {
            Some(error_msg) => Ok(ConvertResponse::Failure { chat_id, error_msg }),
            None => Err(DecodeFailure::Unrecognized),
        },
    }
}

/// Decodes a request taken from the job queue.
///
/// Bytes the parser rejects are `Malformed`; a document that is not a
/// request is `Unrecognized`. Only the top level of the document is read.
pub fn decode_request(bytes: &[u8]) -> (result: Result<ConvertRequest, DecodeFailure>)
    ensures
        match result {
            Ok(request) => decoded_request(bytes@) == Ok::<ConvertRequestView, DecodeFault>(
                request@,
            ),
            Err(failure) => decoded_request(bytes@) == Err::<ConvertRequestView, DecodeFault>(
                failure.fault(),
            ),
        },
{
    match read_fields(bytes) {
        Ok(fields) => request_from_fields(fields.as_slice()),
        Err(error) => Err(DecodeFailure::Malformed { reason: raw_error_text(&error) }),
    }
}

/// Decodes a response taken from the result queue.
///
/// Bytes the parser rejects are `Malformed`; a document that is neither a
/// success nor a failure is `Unrecognized`. Only the top level of the
/// document is read.
pub fn decode_response(bytes: &[u8]) -> (result: Result<ConvertResponse, DecodeFailure>)
    ensures
        match result {
            Ok(response) => decoded_response(bytes@) == Ok::<ConvertResponseView, DecodeFault>(
                response@,
            ),
            Err(failure) => decoded_response(bytes@) == Err::<ConvertResponseView, DecodeFault>(
                failure.fault(),
            ),
        },
{
    match read_fields(bytes) {
        Ok(fields) => response_from_fields(fields.as_slice()),
        Err(error) => Err(DecodeFailure::Malformed { reason: raw_error_text(&error) }),
    }
}

/// Whether two requests are the same, field by field.
pub fn same_request(a: &ConvertRequest, b: &ConvertRequest) -> (same: bool)
    ensures
        same == (a@ == b@),
{
    a.chat_id == b.chat_id && same_bytes(a.file.as_slice(), b.file.as_slice()) && same_text(
        a.file_id.as_str(),
        b.file_id.as_str(),
    ) && same_text(a.from_filetype.as_str(), b.from_filetype.as_str()) && same_text(
        a.to_filetype.as_str(),
        b.to_filetype.as_str(),
    )
}

/// Whether two responses are the same, field by field.
pub fn same_response(a: &ConvertResponse, b: &ConvertResponse) -> (same: bool)
    ensures
        same == (a@ == b@),
{
    match (a, b) {
        (
            ConvertResponse::Success { chat_id, file, to_filetype },
            ConvertResponse::Success { chat_id: other_id, file: other_file, to_filetype: other_to },
        ) => *chat_id == *other_id && same_bytes(file.as_slice(), other_file.as_slice())
            && same_text(to_filetype.as_str(), other_to.as_str()),
        (
            ConvertResponse::Failure { chat_id, error_msg },
            ConvertResponse::Failure { chat_id: other_id, error_msg: other_msg },
        ) => *chat_id == *other_id && same_text(error_msg.as_str(), other_msg.as_str()),
        _ => false,
    }
}

/// Encodes a request and makes sure of the result: the bytes are decoded
/// again and compared with the request, field by field.
///
/// Whatever bytes this returns decode to the request. Where `encode_request`
/// fails this fails in the same way; where the bytes do not decode to the
/// request, it is `NotReadBack`.
pub fn encode_request_checked(request: &ConvertRequest) -> (result: Result<Vec<u8>, EncodeFailure>)
    ensures
        match result {
            Ok(bytes) => checked_request(request@) == Ok::<Seq<u8>, EncodeFault>(bytes@),
            Err(failure) => checked_request(request@) == Err::<Seq<u8>, EncodeFault>(
                failure.fault(),
            ),
        },
        result matches Ok(bytes) ==> encoded_request(request@) == Ok::<Seq<u8>, EncodeFault>(bytes@)
            && decoded_request(bytes@) == Ok::<ConvertRequestView, DecodeFault>(request@),
{
    let bytes = match encode_request(request) {
        Ok(bytes) => bytes,
        Err(failure) => {
            return Err(failure);
        },
    };
    let read_back = match decode_request(bytes.as_slice()) {
        Ok(back) => same_request(&back, request),
        Err(_) => false,
    };
    if read_back {
        Ok(bytes)
    } else {
        Err(EncodeFailure::NotReadBack)
    }
}

/// Encodes a response and makes sure of the result: the bytes are decoded
/// again and compared with the response, field by field.
///
/// Whatever bytes this returns decode to the response. Where
/// `encode_response` fails this fails in the same way; where the bytes do
/// not decode to the response, it is `NotReadBack`.
pub fn encode_response_checked(response: &ConvertResponse) -> (result: Result<
    Vec<u8>,
    EncodeFailure,
>)
    ensures
        match result {
            Ok(bytes) => checked_response(response@) == Ok::<Seq<u8>, EncodeFault>(bytes@),
            Err(failure) => checked_response(response@) == Err::<Seq<u8>, EncodeFault>(
                failure.fault(),
            ),
        },
        result matches Ok(bytes) ==> encoded_response(response@) == Ok::<Seq<u8>, EncodeFault>(
            bytes@,
        ) && decoded_response(bytes@) == Ok::<ConvertResponseView, DecodeFault>(response@),
{
    let bytes = match encode_response(response) {
        Ok(bytes) => bytes,
        Err(failure) => {
            return Err(failure);
        },
    };
    let read_back = match decode_response(bytes.as_slice()) {
        Ok(back) => same_response(&back, response),
        Err(_) => false,
    };
    if read_back {
        Ok(bytes)
    } else {
        Err(EncodeFailure::NotReadBack)
    }
}

/// Reading back the fields a request is written as gives the request.
pub proof fn lemma_request_fields_round_trip(request: ConvertRequestView)
    ensures
        request_of_fields(request_fields(request)) == Some(request),
{
    lemma_field_names_differ();
    reveal_with_fuel(field_value, 6);
}

/// Reading back the fields a response is written as gives the response.
pub proof fn lemma_response_fields_round_trip(response: ConvertResponseView)
    ensures
        response_of_fields(response_fields(response)) == Some(response),
{
    lemma_field_names_differ();
    reveal_with_fuel(field_value, 4);
}

/// The bytes a checked encoder returns decode to the envelope that was
/// encoded.
pub proof fn lemma_checked_bytes_round_trip(
    request: ConvertRequestView,
    response: ConvertResponseView,
)
    ensures
        checked_request(request) matches Ok(bytes) ==> decoded_request(bytes) == Ok::<
            ConvertRequestView,
            DecodeFault,
        >(request),
        checked_response(response) matches Ok(bytes) ==> decoded_response(bytes) == Ok::<
            ConvertResponseView,
            DecodeFault,
        >(response),
{
}

/// A field whose name is that of no envelope field, put in anywhere among
/// the others, changes neither the request nor the response that the fields
/// stand for.
pub proof fn lemma_unknown_field_is_ignored(
    fields: Seq<(Seq<char>, FieldValue)>,
    at: int,
    name: Seq<char>,
    value: FieldValue,
)
    requires
        0 <= at <= fields.len(),
        !is_envelope_name(name),
    ensures
        request_of_fields(fields.insert(at, (name, value))) == request_of_fields(fields),
        response_of_fields(fields.insert(at, (name, value))) == response_of_fields(fields),
{
    lemma_other_name_changes_nothing(fields, at, name, value, "chat_id"@);
    lemma_other_name_changes_nothing(fields, at, name, value, "file"@);
    lemma_other_name_changes_nothing(fields, at, name, value, "file_id"@);
    lemma_other_name_changes_nothing(fields, at, name, value, "from_filetype"@);
    lemma_other_name_changes_nothing(fields, at, name, value, "to_filetype"@);
    lemma_other_name_changes_nothing(fields, at, name, value, "error_msg"@);
}

/// Whatever the fields, they stand for at most one response, and that one
/// is a success or a failure, never both: a success is read only where the
/// payload and its type are both there.
pub proof fn lemma_response_is_one_or_the_other(fields: Seq<(Seq<char>, FieldValue)>)
    ensures
        response_of_fields(fields) matches Some(response) ==> (response is Success <==> bytes_field(
            fields,
            "file"@,
        ) is Some && text_field(fields, "to_filetype"@) is Some),
        response_of_fields(fields) matches Some(response) ==> (response is Failure <==> !(
            bytes_field(fields, "file"@) is Some && text_field(fields, "to_filetype"@) is Some)),
{
}

} // verus!
