//! BSON documents as the codec sees them: an ordered list of named fields.
//!
//! The documents themselves are built, written and read by the `bson` crate.
//! Nothing in this module is proved about that crate: each function marked
//! `external_body` states what is taken on trust from it.
//!
//! Reading looks at the top level of a document only. What lies inside a
//! nested document or an array is never visited, so the work done for a
//! message does not grow with the depth of what it nests.

use crate::formats::same_text;
use bson::spec::BinarySubtype;
use bson::{RawBinaryRef, RawBsonRef, RawDocument};
use vstd::prelude::*;
use vstd::utf8::encode_utf8;

verus! {

/// The value of one document field, as far as the codec looks into it.
/// Everything that is neither an integer, a string nor generic binary data
/// is `Other`.
#[derive(Debug, PartialEq, Eq)]
pub enum WireValue {
    Int32(i32),
    Int64(i64),
    Text(String),
    Bytes(Vec<u8>),
    Other,
}

/// The mathematical counterpart of [`WireValue`].
pub enum FieldValue {
    Int32(i32),
    Int64(i64),
    Text(Seq<char>),
    Bytes(Seq<u8>),
    Other,
}

impl View for WireValue {
    type V = FieldValue;

    open spec fn view(&self) -> FieldValue {
        match *self {
            WireValue::Int32(v) => FieldValue::Int32(v),
            WireValue::Int64(v) => FieldValue::Int64(v),
            WireValue::Text(s) => FieldValue::Text(s@),
            WireValue::Bytes(b) => FieldValue::Bytes(b@),
            WireValue::Other => FieldValue::Other,
        }
    }
}

/// One field of a document: its name and its value.
#[derive(Debug, PartialEq, Eq)]
pub struct WireField {
    pub name: String,
    pub value: WireValue,
}

impl View for WireField {
    type V = (Seq<char>, FieldValue);

    open spec fn view(&self) -> (Seq<char>, FieldValue) {
        (self.name@, self.value@)
    }
}

/// The views of a list of fields.
pub open spec fn field_views(fields: Seq<WireField>) -> Seq<(Seq<char>, FieldValue)> {
    fields.map_values(|field: WireField| field@)
}

/// `bson::Document`, carried around as it is; what it holds is known only
/// through [`document_fields`].
#[verifier::external_type_specification]
#[verifier::external_body]
pub struct ExDocument(bson::Document);

/// `bson::ser::Error`, the error of `bson::to_vec`. Nothing is known of it.
#[verifier::external_type_specification]
#[verifier::external_body]
pub struct ExSerError(bson::ser::Error);

/// `bson::raw::Error`, the error of reading a `bson::RawDocument`. Nothing
/// is known of it.
#[verifier::external_type_specification]
#[verifier::external_body]
pub struct ExRawError(bson::raw::Error);

/// The fields of a document, in the order the document keeps them, which is
/// the order in which their names were first inserted. No name occurs twice.
pub uninterp spec fn document_fields(doc: bson::Document) -> Seq<(Seq<char>, FieldValue)>;

/// The bytes `bson::to_vec` produces for the document with the given fields,
/// or `None` where it reports an error. It is applied only where every field
/// is an integer, a string or generic binary data: such fields leave nothing
/// of the document open.
pub uninterp spec fn serialized_document(fields: Seq<(Seq<char>, FieldValue)>) -> Option<Seq<u8>>;

/// The top-level fields that `bson::RawDocument` reads from the given bytes,
/// in the order they stand there, or `None` where it reports an error. A name
/// that the bytes hold twice occurs twice.
pub uninterp spec fn parsed_document(bytes: Seq<u8>) -> Option<Seq<(Seq<char>, FieldValue)>>;

/// The value stored under `key`: that of the last field with this name.
pub open spec fn field_value(fields: Seq<(Seq<char>, FieldValue)>, key: Seq<char>) -> Option<
    FieldValue,
>
    decreases fields.len(),
{
    if fields.len() == 0 {
        None
    } else if fields.last().0 == key {
        Some(fields.last().1)
    } else {
        field_value(fields.drop_last(), key)
    }
}

/// Whether every field holds an integer, a string or generic binary data.
pub open spec fn all_fields_known(fields: Seq<(Seq<char>, FieldValue)>) -> bool {
    forall|i: int| 0 <= i < fields.len() ==> !((#[trigger] fields[i]).1 is Other)
}

/// The longest string, counted in bytes of UTF-8, that the wire format has
/// room for: its length and the byte that ends it are written as one signed
/// 32-bit number.
pub const MAX_TEXT_BYTES: usize = 0x7fff_fffe;

/// Whether a string is short enough to be written.
pub open spec fn text_fits(text: Seq<char>) -> bool {
    encode_utf8(text).len() <= MAX_TEXT_BYTES
}

/// Whether every string among the fields is short enough to be written.
pub open spec fn all_texts_fit(fields: Seq<(Seq<char>, FieldValue)>) -> bool {
    forall|i: int|
        0 <= i < fields.len() ==> ((#[trigger] fields[i]).1 matches FieldValue::Text(text)
            ==> text_fits(text))
}

/// `bson::Document::new`: the new document has no fields.
#[verifier::external_body]
pub(crate) fn new_document() -> (doc: bson::Document)
    ensures
        document_fields(doc) == Seq::<(Seq<char>, FieldValue)>::empty(),
{
    bson::Document::new()
}

/// `bson::Document::insert`, for a name the document does not hold yet: the
/// field is added after the ones already there, which stay as they are. An
/// integer goes in as `Bson::Int32` or `Bson::Int64`, a string as
/// `Bson::String`, bytes as `Bson::Binary` of the generic subtype.
#[verifier::external_body]
pub(crate) fn insert_field(doc: &mut bson::Document, key: &str, value: WireValue)
    requires
        field_value(document_fields(*old(doc)), key@) is None,
        !(value is Other),
    ensures
        document_fields(*final(doc)) == document_fields(*old(doc)).push((key@, value@)),
{
    let value = match value {
        WireValue::Int32(v) => bson::Bson::Int32(v),
        WireValue::Int64(v) => bson::Bson::Int64(v),
        WireValue::Text(s) => bson::Bson::String(s),
        WireValue::Bytes(bytes) => bson::Bson::Binary(bson::Binary {
            subtype: bson::spec::BinarySubtype::Generic,
            bytes,
        }),
        WireValue::Other => bson::Bson::Null,
    };
    doc.insert(key, value);
}

/// `bson::to_vec` on a document: whether it succeeds, and the bytes it then
/// gives, depend on the fields alone. What the bytes are is not stated.
/// Strings must fit: the serializer adds one to a string's length as a
/// signed 32-bit number, which overflows for a longer one.
#[verifier::external_body]
pub(crate) fn document_to_bytes(doc: &bson::Document) -> (result: Result<
    Vec<u8>,
    bson::ser::Error,
>)
    requires
        all_fields_known(document_fields(*doc)),
        all_texts_fit(document_fields(*doc)),
    ensures
        match result {
            Ok(bytes) => serialized_document(document_fields(*doc)) == Some(bytes@),
            Err(_) => serialized_document(document_fields(*doc)) is None,
        },
{
    bson::to_vec(doc)
}

/// `bson::RawDocument::from_bytes` and the iterator over what it gives: the
/// top-level fields of the document, in order. `RawBsonRef::Int32`,
/// `RawBsonRef::Int64`, `RawBsonRef::String` and a `RawBsonRef::Binary` of
/// the generic subtype come out with what they hold, any other value as
/// `Other`. Whether reading succeeds, and the fields it then gives, depend on
/// the bytes alone. Which bytes are accepted is not stated.
#[verifier::external_body]
pub(crate) fn read_fields(bytes: &[u8]) -> (result: Result<Vec<WireField>, bson::raw::Error>)
    ensures
        match result {
            Ok(fields) => parsed_document(bytes@) == Some(field_views(fields@)),
            Err(_) => parsed_document(bytes@) is None,
        },
{
    let mut fields = Vec::new();
    for entry in RawDocument::from_bytes(bytes)? {
        let (name, value) = entry?;
        let value = match value {
            RawBsonRef::Int32(v) => WireValue::Int32(v),
            RawBsonRef::Int64(v) => WireValue::Int64(v),
            RawBsonRef::String(s) => WireValue::Text(s.to_owned()),
            RawBsonRef::Binary(RawBinaryRef { subtype: BinarySubtype::Generic, bytes }) => {
                WireValue::Bytes(bytes.to_vec())
            },
            _ => WireValue::Other,
        };
        fields.push(WireField { name: name.to_owned(), value });
    }
    Ok(fields)
}

/// `ToString::to_string` on a `bson::ser::Error`: the error's message.
/// Nothing is claimed of it.
#[verifier::external_body]
pub(crate) fn ser_error_text(error: &bson::ser::Error) -> (text: String) {
    error.to_string()
}

/// `ToString::to_string` on a `bson::raw::Error`: the error's message.
/// Nothing is claimed of it.
#[verifier::external_body]
pub(crate) fn raw_error_text(error: &bson::raw::Error) -> (text: String) {
    error.to_string()
}

/// The value stored under `key` in a list of fields, if there is one: that
/// of the last field with this name.
pub fn find_field<'a>(fields: &'a [WireField], key: &str) -> (value: Option<&'a WireValue>)
    ensures
        match value {
            Some(found) => field_value(field_views(fields@), key@) == Some(found@),
            None => field_value(field_views(fields@), key@) is None,
        },
{
    let ghost all = field_views(fields@);
    let mut i: usize = fields.len();
    proof {
        assert(all.take(i as int) =~= all);
    }
    while i > 0
        invariant
            i <= fields.len(),
            all == field_views(fields@),
            field_value(all, key@) == field_value(all.take(i as int), key@),
        decreases i,
    {
        i -= 1;
        proof {
            let front = all.take(i + 1);
            assert(front.last() == fields@[i as int]@);
            assert(front.drop_last() =~= all.take(i as int));
        }
        if same_text(fields[i].name.as_str(), key) {
            return Some(&fields[i].value);
        }
    }
    proof {
        assert(all.take(0).len() == 0);
    }
    None
}

/// A name that no field carries leads to no value.
pub proof fn lemma_unused_name(fields: Seq<(Seq<char>, FieldValue)>, key: Seq<char>)
    requires
        forall|i: int| 0 <= i < fields.len() ==> (#[trigger] fields[i]).0 != key,
    ensures
        field_value(fields, key) is None,
    decreases fields.len(),
{
    if fields.len() > 0 {
        lemma_unused_name(fields.drop_last(), key);
    }
}

/// A field of another name, put in anywhere, leaves what `key` leads to as
/// it was.
pub proof fn lemma_other_name_changes_nothing(
    fields: Seq<(Seq<char>, FieldValue)>,
    at: int,
    name: Seq<char>,
    value: FieldValue,
    key: Seq<char>,
)
    requires
        0 <= at <= fields.len(),
        name != key,
    ensures
        field_value(fields.insert(at, (name, value)), key) == field_value(fields, key),
    decreases fields.len() - at,
{
    let longer = fields.insert(at, (name, value));
    if at == fields.len() {
        assert(longer.last() == (name, value));
        assert(longer.drop_last() =~= fields);
    } else {
        assert(longer.last() == fields.last());
        assert(longer.drop_last() =~= fields.drop_last().insert(at, (name, value)));
        lemma_other_name_changes_nothing(fields.drop_last(), at, name, value, key);
    }
}

} // verus!
