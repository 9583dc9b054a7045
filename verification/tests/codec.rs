use bson::spec::BinarySubtype;
use bson::{Binary, Bson, Document};
use pandoc_bot::codec::{
    decode_request, decode_response, encode_request, encode_request_checked, encode_response,
    encode_response_checked, request_from_fields, response_from_fields, same_request,
    same_response, DecodeFailure, EncodeFailure,
};
use pandoc_bot::formats::same_bytes;
use pandoc_bot::message::{ConvertRequest, ConvertResponse, Job};
use pandoc_bot::wire::{find_field, WireField, WireValue, MAX_TEXT_BYTES};

fn sample_request() -> ConvertRequest {
    ConvertRequest {
        chat_id: 42,
        file: vec![1, 2, 3],
        file_id: "abc".to_string(),
        from_filetype: "markdown".to_string(),
        to_filetype: "pdf".to_string(),
    }
}

fn generic(bytes: Vec<u8>) -> Bson {
    Bson::Binary(Binary { subtype: BinarySubtype::Generic, bytes })
}

fn field(name: &str, value: WireValue) -> WireField {
    WireField { name: name.to_string(), value }
}

fn words(text: &str) -> WireValue {
    WireValue::Text(text.to_string())
}

fn written(doc: &Document) -> Vec<u8> {
    let mut bytes: Vec<u8> = Vec::new();
    doc.to_writer(&mut bytes).unwrap();
    bytes
}

const REQUEST_BYTES: [u8; 102] = [
    102, 0, 0, 0, 18, 99, 104, 97, 116, 95, 105, 100, 0, 42, 0, 0, 0, 0, 0, 0, 0, 5, 102, 105, 108,
    101, 0, 3, 0, 0, 0, 0, 1, 2, 3, 2, 102, 105, 108, 101, 95, 105, 100, 0, 4, 0, 0, 0, 97, 98, 99,
    0, 2, 102, 114, 111, 109, 95, 102, 105, 108, 101, 116, 121, 112, 101, 0, 9, 0, 0, 0, 109, 97,
    114, 107, 100, 111, 119, 110, 0, 2, 116, 111, 95, 102, 105, 108, 101, 116, 121, 112, 101, 0, 4,
    0, 0, 0, 112, 100, 102, 0, 0,
];

const SUCCESS_BYTES: [u8; 56] = [
    56, 0, 0, 0, 18, 99, 104, 97, 116, 95, 105, 100, 0, 249, 255, 255, 255, 255, 255, 255, 255, 5,
    102, 105, 108, 101, 0, 2, 0, 0, 0, 0, 9, 8, 2, 116, 111, 95, 102, 105, 108, 101, 116, 121, 112,
    101, 0, 4, 0, 0, 0, 111, 100, 116, 0, 0,
];

const FAILURE_BYTES: [u8; 42] = [
    42, 0, 0, 0, 18, 99, 104, 97, 116, 95, 105, 100, 0, 5, 0, 0, 0, 0, 0, 0, 0, 2, 101, 114, 114,
    111, 114, 95, 109, 115, 103, 0, 5, 0, 0, 0, 98, 111, 111, 109, 0, 0,
];

const FAILURE_BYTES_SHORT_ID: [u8; 38] = [
    38, 0, 0, 0, 16, 99, 104, 97, 116, 95, 105, 100, 0, 5, 0, 0, 0, 2, 101, 114, 114, 111, 114, 95,
    109, 115, 103, 0, 5, 0, 0, 0, 98, 111, 111, 109, 0, 0,
];

#[test]
fn a_request_is_written_field_by_field() {
    assert_eq!(encode_request(&sample_request()).unwrap(), REQUEST_BYTES.to_vec());
}

#[test]
fn a_success_is_written_field_by_field() {
    let response =
        ConvertResponse::Success { chat_id: -7, file: vec![9, 8], to_filetype: "odt".to_string() };
    assert_eq!(encode_response(&response).unwrap(), SUCCESS_BYTES.to_vec());
}

#[test]
fn a_failure_is_written_field_by_field() {
    let response = ConvertResponse::Failure { chat_id: 5, error_msg: "boom".to_string() };
    assert_eq!(encode_response(&response).unwrap(), FAILURE_BYTES.to_vec());
}

#[test]
fn a_written_request_is_read_back() {
    assert_eq!(decode_request(&REQUEST_BYTES).unwrap(), sample_request());
}

#[test]
fn a_written_success_is_read_back() {
    assert_eq!(
        decode_response(&SUCCESS_BYTES).unwrap(),
        ConvertResponse::Success { chat_id: -7, file: vec![9, 8], to_filetype: "odt".to_string() }
    );
}

#[test]
fn a_written_failure_is_read_back() {
    assert_eq!(
        decode_response(&FAILURE_BYTES).unwrap(),
        ConvertResponse::Failure { chat_id: 5, error_msg: "boom".to_string() }
    );
}

#[test]
fn requests_survive_the_round_trip() {
    let requests = vec![
        sample_request(),
        ConvertRequest {
            chat_id: i64::MIN,
            file: Vec::new(),
            file_id: String::new(),
            from_filetype: String::new(),
            to_filetype: String::new(),
        },
        ConvertRequest {
            chat_id: i64::MAX,
            file: (0..=255u8).collect(),
            file_id: "BQACAgIAAxkBAAIB\u{0}zero".to_string(),
            from_filetype: "gr\u{fc}\u{df}e".to_string(),
            to_filetype: "\u{1f600}".to_string(),
        },
    ];
    for request in requests {
        let bytes = encode_request(&request).unwrap();
        assert_eq!(decode_request(&bytes).unwrap(), request);
    }
}

#[test]
fn responses_survive_the_round_trip() {
    let responses = vec![
        ConvertResponse::Success { chat_id: 0, file: Vec::new(), to_filetype: String::new() },
        ConvertResponse::Success {
            chat_id: -1,
            file: vec![0, 255, 0, 255],
            to_filetype: "latex".to_string(),
        },
        ConvertResponse::Failure { chat_id: i64::MAX, error_msg: String::new() },
        ConvertResponse::Failure {
            chat_id: 77,
            error_msg: "pandoc: line 3\n<unexpected> \u{2713}".to_string(),
        },
    ];
    for response in responses {
        let bytes = encode_response(&response).unwrap();
        assert_eq!(decode_response(&bytes).unwrap(), response);
    }
}

#[test]
fn a_job_becomes_a_request() {
    let job = Job {
        file_id: "abc".to_string(),
        from_filetype: "markdown".to_string(),
        to_filetype: "pdf".to_string(),
    };
    assert_eq!(job.into_request(42, vec![1, 2, 3]), sample_request());
}

#[test]
fn an_oversized_upload_is_refused_by_the_serializer() {
    let mut request = sample_request();
    request.file = vec![0u8; 16 * 1024 * 1024 + 1];
    match encode_request(&request) {
        Err(EncodeFailure::Refused { reason }) => assert!(!reason.is_empty()),
        other => panic!("{:?}", other.map(|bytes| bytes.len())),
    }
    assert!(matches!(encode_request_checked(&request), Err(EncodeFailure::Refused { .. })));
}

#[test]
fn an_upload_at_the_size_limit_is_written() {
    let mut request = sample_request();
    request.file = vec![7u8; 16 * 1024 * 1024];
    let bytes = encode_request(&request).unwrap();
    assert_eq!(bytes.len(), REQUEST_BYTES.len() - 3 + 16 * 1024 * 1024);
}

#[test]
fn bytes_that_are_no_document_are_malformed() {
    let inputs: Vec<Vec<u8>> = vec![
        Vec::new(),
        vec![0],
        vec![1, 2, 3, 4, 5, 6],
        vec![5, 0, 0, 0, 1],
        vec![255, 255, 255, 255, 0],
        REQUEST_BYTES[..50].to_vec(),
    ];
    for input in inputs {
        match decode_response(&input) {
            Err(DecodeFailure::Malformed { reason }) => assert!(!reason.is_empty()),
            other => panic!("{:?}", other),
        }
        assert!(matches!(decode_request(&input), Err(DecodeFailure::Malformed { .. })));
    }
}

#[test]
fn an_empty_document_is_no_envelope() {
    let empty = [5u8, 0, 0, 0, 0];
    assert!(matches!(decode_response(&empty), Err(DecodeFailure::Unrecognized)));
    assert!(matches!(decode_request(&empty), Err(DecodeFailure::Unrecognized)));
}

#[test]
fn a_request_is_no_failure_but_reads_as_a_success() {
    // A request carries the three fields of a success.
    assert_eq!(
        decode_response(&REQUEST_BYTES).unwrap(),
        ConvertResponse::Success {
            chat_id: 42,
            file: vec![1, 2, 3],
            to_filetype: "pdf".to_string()
        }
    );
}

#[test]
fn a_response_is_no_request() {
    assert!(matches!(decode_request(&SUCCESS_BYTES), Err(DecodeFailure::Unrecognized)));
    assert!(matches!(decode_request(&FAILURE_BYTES), Err(DecodeFailure::Unrecognized)));
}

#[test]
fn a_conversation_written_with_32_bits_is_read() {
    assert_eq!(
        decode_response(&FAILURE_BYTES_SHORT_ID).unwrap(),
        ConvertResponse::Failure { chat_id: 5, error_msg: "boom".to_string() }
    );
}

#[test]
fn unknown_fields_are_ignored() {
    let mut doc = Document::new();
    doc.insert("version", Bson::Int32(3));
    doc.insert("chat_id", Bson::Int64(11));
    doc.insert("worker", Bson::String("w-1".to_string()));
    doc.insert("error_msg", Bson::String("no such file".to_string()));
    doc.insert("took", Bson::Double(1.5));
    let mut nested = Document::new();
    nested.insert("error_msg", Bson::String("inner".to_string()));
    doc.insert("trace", Bson::Document(nested));
    doc.insert("steps", Bson::Array(vec![Bson::Int32(1), Bson::Null]));
    let expected = ConvertResponse::Failure { chat_id: 11, error_msg: "no such file".to_string() };
    assert_eq!(decode_response(&written(&doc)).unwrap(), expected);
    let fields = vec![
        field("version", WireValue::Int32(3)),
        field("chat_id", WireValue::Int64(11)),
        field("worker", words("w-1")),
        field("error_msg", words("no such file")),
        field("took", WireValue::Other),
    ];
    assert_eq!(response_from_fields(&fields).unwrap(), expected);
}

#[test]
fn the_order_of_fields_does_not_matter() {
    let mut doc = Document::new();
    doc.insert("to_filetype", Bson::String("docx".to_string()));
    doc.insert("file", generic(vec![4, 5]));
    doc.insert("chat_id", Bson::Int64(3));
    let expected =
        ConvertResponse::Success { chat_id: 3, file: vec![4, 5], to_filetype: "docx".to_string() };
    assert_eq!(decode_response(&written(&doc)).unwrap(), expected);
    let fields = vec![
        field("to_filetype", words("docx")),
        field("file", WireValue::Bytes(vec![4, 5])),
        field("chat_id", WireValue::Int64(3)),
    ];
    assert_eq!(response_from_fields(&fields).unwrap(), expected);
}

#[test]
fn a_success_wins_over_a_failure() {
    let mut doc = Document::new();
    doc.insert("chat_id", Bson::Int64(3));
    doc.insert("error_msg", Bson::String("ignored".to_string()));
    doc.insert("file", generic(vec![4, 5]));
    doc.insert("to_filetype", Bson::String("pdf".to_string()));
    assert_eq!(
        decode_response(&written(&doc)).unwrap(),
        ConvertResponse::Success { chat_id: 3, file: vec![4, 5], to_filetype: "pdf".to_string() }
    );
}

#[test]
fn half_a_success_with_an_error_is_a_failure() {
    let mut doc = Document::new();
    doc.insert("chat_id", Bson::Int64(3));
    doc.insert("file", generic(vec![4, 5]));
    doc.insert("error_msg", Bson::String("late failure".to_string()));
    assert_eq!(
        decode_response(&written(&doc)).unwrap(),
        ConvertResponse::Failure { chat_id: 3, error_msg: "late failure".to_string() }
    );
}

#[test]
fn a_response_without_a_conversation_is_no_envelope() {
    let mut doc = Document::new();
    doc.insert("file", generic(vec![4, 5]));
    doc.insert("to_filetype", Bson::String("pdf".to_string()));
    doc.insert("error_msg", Bson::String("x".to_string()));
    assert!(matches!(decode_response(&written(&doc)), Err(DecodeFailure::Unrecognized)));
    let fields = vec![
        field("file", WireValue::Bytes(vec![4, 5])),
        field("to_filetype", words("pdf")),
        field("error_msg", words("x")),
    ];
    assert!(matches!(response_from_fields(&fields), Err(DecodeFailure::Unrecognized)));
}

#[test]
fn half_a_success_is_no_envelope() {
    let mut doc = Document::new();
    doc.insert("chat_id", Bson::Int64(3));
    doc.insert("file", generic(vec![4, 5]));
    assert!(matches!(decode_response(&written(&doc)), Err(DecodeFailure::Unrecognized)));
    let mut other = Document::new();
    other.insert("chat_id", Bson::Int64(3));
    other.insert("to_filetype", Bson::String("pdf".to_string()));
    assert!(matches!(decode_response(&written(&other)), Err(DecodeFailure::Unrecognized)));
}

#[test]
fn fields_of_the_wrong_kind_do_not_count() {
    let mut doc = Document::new();
    doc.insert("chat_id", Bson::String("3".to_string()));
    doc.insert("error_msg", Bson::String("x".to_string()));
    assert!(matches!(decode_response(&written(&doc)), Err(DecodeFailure::Unrecognized)));

    let mut doc = Document::new();
    doc.insert("chat_id", Bson::Double(3.0));
    doc.insert("error_msg", Bson::String("x".to_string()));
    assert!(matches!(decode_response(&written(&doc)), Err(DecodeFailure::Unrecognized)));

    let mut doc = Document::new();
    doc.insert("chat_id", Bson::Int64(3));
    doc.insert("error_msg", Bson::Int32(1));
    assert!(matches!(decode_response(&written(&doc)), Err(DecodeFailure::Unrecognized)));

    let mut doc = Document::new();
    doc.insert("chat_id", Bson::Int64(3));
    doc.insert("file", Bson::String("not bytes".to_string()));
    doc.insert("to_filetype", Bson::String("pdf".to_string()));
    assert!(matches!(decode_response(&written(&doc)), Err(DecodeFailure::Unrecognized)));

    let mut doc = Document::new();
    doc.insert("chat_id", Bson::Int64(3));
    doc.insert("file", generic(vec![1]));
    doc.insert("to_filetype", Bson::Null);
    assert!(matches!(decode_response(&written(&doc)), Err(DecodeFailure::Unrecognized)));
}

#[test]
fn binary_data_of_another_subtype_does_not_count() {
    let mut doc = Document::new();
    doc.insert("chat_id", Bson::Int64(3));
    doc.insert("file", Bson::Binary(Binary { subtype: BinarySubtype::Md5, bytes: vec![1; 16] }));
    doc.insert("to_filetype", Bson::String("pdf".to_string()));
    assert!(matches!(decode_response(&written(&doc)), Err(DecodeFailure::Unrecognized)));
}

#[test]
fn a_request_needs_all_five_fields() {
    let names = ["chat_id", "file", "file_id", "from_filetype", "to_filetype"];
    for missing in names {
        let mut doc = Document::new();
        for name in names {
            if name == missing {
                continue;
            }
            match name {
                "chat_id" => doc.insert(name, Bson::Int64(1)),
                "file" => doc.insert(name, generic(vec![1, 2])),
                _ => doc.insert(name, Bson::String("x".to_string())),
            };
        }
        assert!(
            matches!(decode_request(&written(&doc)), Err(DecodeFailure::Unrecognized)),
            "{}",
            missing
        );
    }
}

#[test]
fn a_request_is_read_from_a_document() {
    let mut doc = Document::new();
    doc.insert("to_filetype", Bson::String("pdf".to_string()));
    doc.insert("from_filetype", Bson::String("markdown".to_string()));
    doc.insert("file_id", Bson::String("abc".to_string()));
    doc.insert("file", generic(vec![1, 2, 3]));
    doc.insert("chat_id", Bson::Int32(42));
    doc.insert("priority", Bson::Boolean(true));
    assert_eq!(decode_request(&written(&doc)).unwrap(), sample_request());
    let fields = vec![
        field("to_filetype", words("pdf")),
        field("from_filetype", words("markdown")),
        field("file_id", words("abc")),
        field("file", WireValue::Bytes(vec![1, 2, 3])),
        field("chat_id", WireValue::Int32(42)),
        field("priority", WireValue::Other),
    ];
    assert_eq!(request_from_fields(&fields).unwrap(), sample_request());
}

#[test]
fn the_serializer_agrees_on_a_request() {
    let mut doc = Document::new();
    doc.insert("chat_id", Bson::Int64(42));
    doc.insert("file", generic(vec![1, 2, 3]));
    doc.insert("file_id", Bson::String("abc".to_string()));
    doc.insert("from_filetype", Bson::String("markdown".to_string()));
    doc.insert("to_filetype", Bson::String("pdf".to_string()));
    assert_eq!(encode_request(&sample_request()).unwrap(), bson::to_vec(&doc).unwrap());
}

#[test]
fn decode_failures_describe_themselves() {
    assert_eq!(DecodeFailure::Unrecognized.message(), "the document is not a known envelope");
    let malformed = DecodeFailure::Malformed { reason: "too short".to_string() };
    assert_eq!(malformed.message(), "too short");
}

#[test]
fn decoding_is_repeatable() {
    let first = decode_response(&SUCCESS_BYTES).unwrap();
    let second = decode_response(&SUCCESS_BYTES).unwrap();
    assert_eq!(first, second);
}

fn nested_documents(depth: usize, kind: u8) -> Vec<u8> {
    // Each level holds one field, "a", whose value is the next level.
    let mut bytes: Vec<u8> = Vec::with_capacity(5 + 8 * depth);
    for level in (1..=depth).rev() {
        bytes.extend_from_slice(&((5 + 8 * level) as i32).to_le_bytes());
        bytes.extend_from_slice(&[kind, b'a', 0]);
    }
    bytes.extend_from_slice(&[5, 0, 0, 0, 0]);
    bytes.extend(std::iter::repeat(0u8).take(depth));
    bytes
}

fn failure_with_extra(name: &str, kind: u8, value: &[u8]) -> Vec<u8> {
    let mut body: Vec<u8> = Vec::new();
    body.push(18);
    body.extend_from_slice(b"chat_id\0");
    body.extend_from_slice(&5i64.to_le_bytes());
    body.push(kind);
    body.extend_from_slice(name.as_bytes());
    body.push(0);
    body.extend_from_slice(value);
    body.push(2);
    body.extend_from_slice(b"error_msg\0");
    body.extend_from_slice(&5i32.to_le_bytes());
    body.extend_from_slice(b"boom\0");
    body.push(0);
    let mut bytes = ((body.len() + 4) as i32).to_le_bytes().to_vec();
    bytes.extend(body);
    bytes
}

#[test]
fn documents_nested_very_deep_are_not_descended_into() {
    let expected = ConvertResponse::Failure { chat_id: 5, error_msg: "boom".to_string() };
    for kind in [3u8, 4u8] {
        let deep = nested_documents(300_000, kind);
        let raw = failure_with_extra("deep", kind, &deep);
        assert_eq!(decode_response(&raw).unwrap(), expected);
        assert!(matches!(decode_request(&raw), Err(DecodeFailure::Unrecognized)));
        assert!(matches!(decode_response(&deep), Err(DecodeFailure::Unrecognized)));
    }
}

#[test]
fn a_nested_document_with_a_wrong_length_is_malformed() {
    let mut nested = nested_documents(2, 3);
    nested[0] = nested[0].wrapping_add(1);
    let raw = failure_with_extra("deep", 3, &nested);
    assert!(matches!(decode_response(&raw), Err(DecodeFailure::Malformed { .. })));
}

#[test]
fn a_name_written_twice_counts_the_last_time() {
    let mut raw = failure_with_extra("chat_id", 18, &77i64.to_le_bytes());
    assert_eq!(
        decode_response(&raw).unwrap(),
        ConvertResponse::Failure { chat_id: 77, error_msg: "boom".to_string() }
    );
    raw.truncate(raw.len() - 1);
    assert!(matches!(decode_response(&raw), Err(DecodeFailure::Malformed { .. })));
    let fields = vec![
        field("chat_id", WireValue::Int64(1)),
        field("error_msg", words("first")),
        field("error_msg", words("second")),
        field("chat_id", WireValue::Int32(2)),
    ];
    assert_eq!(
        response_from_fields(&fields).unwrap(),
        ConvertResponse::Failure { chat_id: 2, error_msg: "second".to_string() }
    );
}

#[test]
fn a_field_is_found_by_its_name() {
    let fields = vec![
        field("a", WireValue::Int32(1)),
        field("b", words("x")),
        field("a", WireValue::Int64(2)),
    ];
    assert_eq!(find_field(&fields, "a"), Some(&WireValue::Int64(2)));
    assert_eq!(find_field(&fields, "b"), Some(&words("x")));
    assert_eq!(find_field(&fields, "c"), None);
    assert_eq!(find_field(&fields, ""), None);
    assert_eq!(find_field(&[], "a"), None);
}

#[test]
fn a_key_that_starts_with_a_dollar_is_a_field_like_any_other() {
    let raw = failure_with_extra("$oid", 2, &[2, 0, 0, 0, b'x', 0]);
    assert_eq!(
        decode_response(&raw).unwrap(),
        ConvertResponse::Failure { chat_id: 5, error_msg: "boom".to_string() }
    );
}

#[test]
fn a_string_that_is_no_utf8_is_malformed() {
    let raw = failure_with_extra("note", 2, &[2, 0, 0, 0, 0xff, 0]);
    assert!(matches!(decode_response(&raw), Err(DecodeFailure::Malformed { .. })));
}

#[test]
fn a_string_too_long_for_the_wire_is_refused_before_it_is_written() {
    assert_eq!(MAX_TEXT_BYTES, 2147483646);
    let mut request = sample_request();
    request.file_id = "a".repeat(MAX_TEXT_BYTES + 1);
    assert_eq!(encode_request(&request), Err(EncodeFailure::TextTooLong));
    assert_eq!(encode_request_checked(&request), Err(EncodeFailure::TextTooLong));
    let long = std::mem::take(&mut request.file_id);
    request.file_id = "abc".to_string();
    request.to_filetype = long;
    assert_eq!(encode_request(&request), Err(EncodeFailure::TextTooLong));
    let long = std::mem::take(&mut request.to_filetype);
    let response = ConvertResponse::Failure { chat_id: 1, error_msg: long };
    assert_eq!(encode_response(&response), Err(EncodeFailure::TextTooLong));
    assert_eq!(encode_response_checked(&response), Err(EncodeFailure::TextTooLong));
}

#[test]
fn checked_bytes_are_the_plain_bytes() {
    assert_eq!(encode_request_checked(&sample_request()).unwrap(), REQUEST_BYTES.to_vec());
    let success =
        ConvertResponse::Success { chat_id: -7, file: vec![9, 8], to_filetype: "odt".to_string() };
    assert_eq!(encode_response_checked(&success).unwrap(), SUCCESS_BYTES.to_vec());
    let failure = ConvertResponse::Failure { chat_id: 5, error_msg: "boom".to_string() };
    assert_eq!(encode_response_checked(&failure).unwrap(), FAILURE_BYTES.to_vec());
}

#[test]
fn checked_bytes_decode_to_what_was_encoded() {
    let requests = vec![
        sample_request(),
        ConvertRequest {
            chat_id: i64::MIN,
            file: Vec::new(),
            file_id: String::new(),
            from_filetype: String::new(),
            to_filetype: String::new(),
        },
        ConvertRequest {
            chat_id: -1,
            file: (0..=255u8).rev().collect(),
            file_id: "with\u{0}zero and \u{1f600}".to_string(),
            from_filetype: "$oid".to_string(),
            to_filetype: "\u{fc}".to_string(),
        },
    ];
    for request in requests {
        let bytes = encode_request_checked(&request).unwrap();
        assert_eq!(decode_request(&bytes).unwrap(), request);
    }
    let responses = vec![
        ConvertResponse::Success {
            chat_id: 0,
            file: vec![0; 1000],
            to_filetype: "pdf".to_string(),
        },
        ConvertResponse::Failure { chat_id: i64::MAX, error_msg: "a\nb".to_string() },
    ];
    for response in responses {
        let bytes = encode_response_checked(&response).unwrap();
        assert_eq!(decode_response(&bytes).unwrap(), response);
    }
}

#[test]
fn requests_are_compared_field_by_field() {
    let base = sample_request();
    assert!(same_request(&base, &sample_request()));
    let mut other = sample_request();
    other.chat_id = 43;
    assert!(!same_request(&base, &other));
    let mut other = sample_request();
    other.file = vec![1, 2];
    assert!(!same_request(&base, &other));
    let mut other = sample_request();
    other.file = vec![1, 2, 4];
    assert!(!same_request(&base, &other));
    let mut other = sample_request();
    other.file_id = "abd".to_string();
    assert!(!same_request(&base, &other));
    let mut other = sample_request();
    other.from_filetype = "latex".to_string();
    assert!(!same_request(&base, &other));
    let mut other = sample_request();
    other.to_filetype = "odt".to_string();
    assert!(!same_request(&base, &other));
}

#[test]
fn responses_are_compared_field_by_field() {
    let success =
        ConvertResponse::Success { chat_id: 1, file: vec![1], to_filetype: "pdf".to_string() };
    let failure = ConvertResponse::Failure { chat_id: 1, error_msg: "pdf".to_string() };
    assert!(same_response(&success, &success));
    assert!(same_response(&failure, &failure));
    assert!(!same_response(&success, &failure));
    assert!(!same_response(&failure, &success));
    let other =
        ConvertResponse::Success { chat_id: 1, file: vec![2], to_filetype: "pdf".to_string() };
    assert!(!same_response(&success, &other));
    let other =
        ConvertResponse::Success { chat_id: 2, file: vec![1], to_filetype: "pdf".to_string() };
    assert!(!same_response(&success, &other));
    let other =
        ConvertResponse::Success { chat_id: 1, file: vec![1], to_filetype: "odt".to_string() };
    assert!(!same_response(&success, &other));
    let other = ConvertResponse::Failure { chat_id: 1, error_msg: "odt".to_string() };
    assert!(!same_response(&failure, &other));
    let other = ConvertResponse::Failure { chat_id: 2, error_msg: "pdf".to_string() };
    assert!(!same_response(&failure, &other));
}

#[test]
fn bytes_are_compared_one_by_one() {
    assert!(same_bytes(&[], &[]));
    assert!(same_bytes(&[1, 2, 3], &[1, 2, 3]));
    assert!(!same_bytes(&[1, 2, 3], &[1, 2]));
    assert!(!same_bytes(&[1, 2, 3], &[1, 2, 4]));
    assert!(!same_bytes(&[], &[0]));
}

#[test]
fn encode_failures_describe_themselves() {
    assert_eq!(EncodeFailure::TextTooLong.message(), "a string of the envelope is too long");
    assert_eq!(EncodeFailure::NotReadBack.message(), "the bytes written do not read back");
    let refused = EncodeFailure::Refused { reason: "too large".to_string() };
    assert_eq!(refused.message(), "too large");
}
