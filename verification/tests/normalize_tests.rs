use winadmin_core::error::ErrorKind;
use winadmin_core::execution::ExecutionResult;
use winadmin_core::json::JsonValue;
use winadmin_core::normalize::{
    clean_powershell_output, decode_records, extract_payload, last_line, normalize,
    normalize_text,
};

fn chars(text: &str) -> Vec<char> {
    text.chars().collect()
}

fn payload_of(text: &str) -> String {
    extract_payload(&chars(text)).into_iter().collect()
}

#[test]
fn a_bare_object_is_one_record() {
    let records = normalize_text(true, "{\"a\":1}", "").unwrap();
    assert_eq!(records.len(), 1);
    match &records[0] {
        JsonValue::Object(members) => {
            assert_eq!(members.len(), 1);
            assert_eq!(members[0].0, "a");
            assert!(matches!(members[0].1, JsonValue::Integer(1)));
        }
        _ => panic!("the record must be the object"),
    }
}

#[test]
fn a_bare_array_is_itself() {
    let records = normalize_text(true, " [ {\"a\":1}, {\"a\":2}, 3 ] \r\n", "").unwrap();
    assert_eq!(records.len(), 3);
    assert!(matches!(records[0], JsonValue::Object(_)));
    assert!(matches!(records[2], JsonValue::Integer(3)));
}

#[test]
fn empty_and_blank_output_give_no_record() {
    assert_eq!(normalize_text(true, "", "").unwrap().len(), 0);
    assert_eq!(normalize_text(true, " \r\n\t \n", "").unwrap().len(), 0);
    assert_eq!(normalize_text(true, "\u{a0}\u{3000}", "").unwrap().len(), 0);
}

#[test]
fn null_gives_no_record() {
    assert_eq!(normalize_text(true, "null", "").unwrap().len(), 0);
    assert_eq!(normalize_text(true, "[]", "").unwrap().len(), 0);
}

#[test]
fn diagnostic_lines_around_the_payload_are_ignored() {
    let noisy = "WARNING: module loaded\r\nVERBOSE: querying\r\n[{\"Name\":\"a\"},{\"Name\":\"b\"}]\r\nDone.\r\n";
    let records = normalize_text(true, noisy, "").unwrap();
    assert_eq!(records.len(), 2);
    assert_eq!(payload_of(noisy), "[{\"Name\":\"a\"},{\"Name\":\"b\"}]");
    let again = normalize_text(true, &payload_of(noisy), "").unwrap();
    assert_eq!(again.len(), 2);
    assert_eq!(payload_of(&payload_of(noisy)), payload_of(noisy));
}

#[test]
fn the_payload_is_what_the_outermost_brackets_hold() {
    assert_eq!(payload_of("x {\"a\":[1,2]} y"), "{\"a\":[1,2]}");
    assert_eq!(payload_of("x [ {\"a\":1} ] y }"), "[ {\"a\":1} ]");
    assert_eq!(payload_of("no brackets"), "no brackets");
    assert_eq!(payload_of("] backwards ["), "] backwards [");
    assert_eq!(payload_of("{"), "{");
    assert_eq!(payload_of(""), "");
}

#[test]
fn an_object_that_holds_a_list_stays_whole() {
    let records = normalize_text(true, "note\n{\"Items\":[1,2,3]}\n", "").unwrap();
    assert_eq!(records.len(), 1);
    assert!(records[0].get("Items").unwrap().as_array().is_some());
}

#[test]
fn a_failure_that_found_nothing_is_an_empty_result() {
    let records = normalize_text(
        false,
        "",
        "Get-WinEvent : No events were found that match the specified selection criteria.",
    )
    .unwrap();
    assert!(records.is_empty());
}

#[test]
fn another_failure_carries_the_error_text_unchanged() {
    match normalize_text(false, "[1]", "Access is denied.\r\n") {
        Err(ErrorKind::ExternalToolFailed { stderr }) => assert_eq!(stderr, "Access is denied.\r\n"),
        _ => panic!("the failure must be reported"),
    }
}

#[test]
fn what_cannot_be_decoded_is_reported_with_its_start() {
    match normalize_text(true, "  {not json}  ", "") {
        Err(ErrorKind::MalformedOutput { raw_snippet }) => assert_eq!(raw_snippet, "{not json}"),
        _ => panic!("the text must be reported"),
    }
    let long: String = std::iter::repeat('x').take(500).collect();
    match decode_records(&long) {
        Err(ErrorKind::MalformedOutput { raw_snippet }) => {
            assert_eq!(raw_snippet.chars().count(), 200)
        }
        _ => panic!("the text must be reported"),
    }
}

#[test]
fn bytes_that_are_no_text_are_replaced() {
    let raw = ExecutionResult {
        exit_success: false,
        stdout: Vec::new(),
        stderr: vec![b'e', b'r', b'r', 0xff, b'!'],
    };
    match normalize(&raw) {
        Err(ErrorKind::ExternalToolFailed { stderr }) => assert_eq!(stderr, "err\u{fffd}!"),
        _ => panic!("the failure must be reported"),
    }
    let raw = ExecutionResult {
        exit_success: true,
        stdout: "{\"Nom\":\"\u{e9}t\u{e9}\"}".as_bytes().to_vec(),
        stderr: Vec::new(),
    };
    let records = normalize(&raw).unwrap();
    assert_eq!(records[0].get("Nom").unwrap().as_text().unwrap(), "\u{e9}t\u{e9}");
}

#[test]
fn numbers_keep_their_kind() {
    let records = normalize_text(true, "[0, -5, 18446744073709551615, 1.5, 1e3, -9223372036854775808]", "").unwrap();
    assert!(matches!(records[0], JsonValue::Integer(0)));
    assert!(matches!(records[1], JsonValue::Integer(-5)));
    assert!(matches!(records[2], JsonValue::Integer(18446744073709551615)));
    assert_eq!(records[2].as_u64(), Some(u64::MAX));
    assert_eq!(records[2].as_i64(), None);
    assert_eq!(records[5].as_i64(), Some(i64::MIN));
    assert_eq!(records[5].as_u64(), None);
    match &records[3] {
        JsonValue::Decimal(text) => assert_eq!(text, "1.5"),
        _ => panic!("a fraction is no integer"),
    }
    assert_eq!(records[3].number_text().unwrap(), "1.5");
    assert_eq!(records[4].number_text().unwrap(), "1000.0");
    assert_eq!(records[1].number_text().unwrap(), "-5");
    assert_eq!(records[0].number_text().unwrap(), "0");
}

#[test]
fn the_last_line_that_holds_something_is_taken() {
    assert_eq!(last_line("VERBOSE: x\r\n{\"1\":{}}\r\n\r\n  \n"), "{\"1\":{}}");
    assert_eq!(last_line("only"), "only");
    assert_eq!(last_line(" \n "), "");
    assert_eq!(last_line(""), "");
    assert_eq!(last_line("a\nb  "), "b");
}

#[test]
fn cleaned_output_is_the_last_piece() {
    assert_eq!(clean_powershell_output("debug\r\n  {\"a\":1}  \r\n"), "{\"a\":1}");
    assert_eq!(clean_powershell_output(""), "");
    assert_eq!(clean_powershell_output("one line"), "one line");
}
