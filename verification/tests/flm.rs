use flowmark::errors::FlmError;
use flowmark::flm::{decode_flm, encode_flm, member_name};
use flowmark::tag::check_format_tag;

/// Builds a container with one member by calling the zip crate directly,
/// so that decoding is held against archives this library did not write.
fn container_with_member(name: &str, data: &[u8]) -> Vec<u8> {
    let mut writer = zip::ZipWriter::new(std::io::Cursor::new(Vec::new()));
    let options = zip::write::SimpleFileOptions::default();
    writer.start_file(name, options).unwrap();
    std::io::Write::write_all(&mut writer, data).unwrap();
    writer.finish().unwrap().into_inner()
}

#[test]
fn member_name_is_document_json() {
    assert_eq!(member_name(), "document.json");
}

#[test]
fn round_trip_returns_payload_verbatim() {
    let payload = "{\"format\":\"flowmark\",\"title\":\"x\"}";
    let container = encode_flm(payload).unwrap();
    let loaded = decode_flm(&container).unwrap();
    assert_eq!(loaded, payload);
}

#[test]
fn round_trip_keeps_extra_fields_and_whitespace() {
    let payload = "{ \"format\": \"flowmark\", \"body\": [1, 2, 3], \"nested\": {\"a\": null} }";
    let container = encode_flm(payload).unwrap();
    let loaded = decode_flm(&container).unwrap();
    assert_eq!(loaded, payload);
}

#[test]
fn container_bytes_are_an_archive_not_the_payload() {
    let payload = "{\"format\":\"flowmark\"}";
    let container = encode_flm(payload).unwrap();
    assert_ne!(container, payload.as_bytes());
    assert_eq!(&container[0..2], b"PK");
}

#[test]
fn equal_payloads_give_equal_containers() {
    let payload = "{\"format\":\"flowmark\",\"title\":\"same\"}";
    let first = encode_flm(payload).unwrap();
    let second = encode_flm(payload).unwrap();
    assert_eq!(first, second);
}

#[test]
fn second_save_wins_after_overwrite() {
    let first = "{\"format\":\"flowmark\",\"title\":\"one\"}";
    let second = "{\"format\":\"flowmark\",\"title\":\"two\"}";
    let mut stored = encode_flm(first).unwrap();
    stored = encode_flm(second).unwrap();
    let loaded = decode_flm(&stored).unwrap();
    assert_eq!(loaded, second);
}

#[test]
fn empty_bytes_are_not_a_container() {
    let err = decode_flm(&[]).unwrap_err();
    assert!(matches!(err, FlmError::NotContainer(_)));
    assert!(err.message().starts_with("Failed to read ZIP: "));
}

#[test]
fn arbitrary_bytes_are_not_a_container() {
    let err = decode_flm(b"this is in no way a zip archive").unwrap_err();
    assert!(matches!(err, FlmError::NotContainer(_)));
    assert!(err.message().starts_with("Failed to read ZIP: "));
}

#[test]
fn missing_member_is_distinct_from_corruption() {
    let container = container_with_member("other.txt", b"{\"format\":\"flowmark\"}");
    let err = decode_flm(&container).unwrap_err();
    assert!(matches!(err, FlmError::MemberMissing(_)));
    assert!(
        err.message()
            .starts_with("document.json not found in .flm file: ")
    );
}

#[test]
fn non_utf8_member_is_unreadable() {
    let container = container_with_member("document.json", &[0xff, 0xfe, 0xfd]);
    let err = decode_flm(&container).unwrap_err();
    assert!(matches!(err, FlmError::MemberUnreadable(_)));
    assert!(err.message().starts_with("Failed to read document.json: "));
}

#[test]
fn payload_that_is_not_json_is_rejected() {
    let container = encode_flm("not json at all").unwrap();
    let err = decode_flm(&container).unwrap_err();
    assert!(matches!(err, FlmError::NotJson(_)));
    assert!(err.message().starts_with("Invalid JSON in document.json: "));
}

#[test]
fn payload_without_format_field_is_rejected() {
    let container = container_with_member("document.json", b"{\"title\":\"x\"}");
    let err = decode_flm(&container).unwrap_err();
    assert!(matches!(err, FlmError::WrongTag));
    assert_eq!(err.message(), "Invalid format: expected 'flowmark'");
}

#[test]
fn payload_with_wrong_format_value_is_rejected() {
    let container = encode_flm("{\"format\":\"markdown\"}").unwrap();
    let err = decode_flm(&container).unwrap_err();
    assert!(matches!(err, FlmError::WrongTag));
}

#[test]
fn payload_with_non_string_format_is_rejected() {
    let container = encode_flm("{\"format\":42}").unwrap();
    let err = decode_flm(&container).unwrap_err();
    assert!(matches!(err, FlmError::WrongTag));
}

#[test]
fn payload_that_is_a_json_array_is_rejected() {
    let container = encode_flm("[1,2,3]").unwrap();
    let err = decode_flm(&container).unwrap_err();
    assert!(matches!(err, FlmError::WrongTag));
}

#[test]
fn save_does_not_validate_the_tag() {
    assert!(encode_flm("{\"title\":\"untagged\"}").is_ok());
}

#[test]
fn check_format_tag_accepts_tagged_text() {
    assert!(check_format_tag("{\"format\":\"flowmark\"}").is_ok());
    assert!(check_format_tag("{\"format\":\"flowmark\",\"extra\":[]}").is_ok());
}

#[test]
fn check_format_tag_tells_bad_json_from_wrong_tag() {
    let not_json = check_format_tag("{oops").unwrap_err();
    assert!(matches!(not_json, FlmError::NotJson(_)));
    let wrong = check_format_tag("{\"format\":\"Flowmark\"}").unwrap_err();
    assert!(matches!(wrong, FlmError::WrongTag));
}

#[test]
fn messages_of_save_errors_name_their_stage() {
    let start = FlmError::MemberStart(String::from("cause"));
    assert_eq!(start.message(), "Failed to add file to ZIP: cause");
    let write = FlmError::MemberWrite(String::from("cause"));
    assert_eq!(write.message(), "Failed to write to ZIP: cause");
    let finish = FlmError::Finalize(String::from("cause"));
    assert_eq!(finish.message(), "Failed to finalize ZIP: cause");
}
