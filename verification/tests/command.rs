use ppc_fpscr::command::{decode, decode_arguments};
use ppc_fpscr::error::FpscrError;

fn args(words: &[&str]) -> Vec<String> {
    words.iter().map(|word| word.to_string()).collect()
}

#[test]
fn decodes_fi() {
    assert_eq!(decode("0x00020000"), Ok(vec!["FI: Set".to_string()]));
}

#[test]
fn decodes_fr_and_fi_in_that_order() {
    assert_eq!(decode("0x00060000"), Ok(vec!["FR: Set".to_string(), "FI: Set".to_string()]));
}

#[test]
fn decodes_without_prefix_as_with_it() {
    assert_eq!(decode("20000"), Ok(vec!["FI: Set".to_string()]));
    assert_eq!(decode("20000"), decode("0x00020000"));
    assert_eq!(decode("60000"), decode("0x00060000"));
}

#[test]
fn decodes_zero_to_an_empty_report() {
    assert_eq!(decode("0"), Ok(Vec::new()));
    assert_eq!(decode("0x0000000000000000"), Ok(Vec::new()));
}

#[test]
fn malformed_text_gives_an_error_and_no_line() {
    assert_eq!(decode("zzzz"), Err(FpscrError::MalformedValue));
    assert_eq!(decode(""), Err(FpscrError::MalformedValue));
    assert_eq!(decode("0x2000g"), Err(FpscrError::MalformedValue));
    assert_eq!(decode("10000000000000000"), Err(FpscrError::MalformedValue));
}

#[test]
fn command_line_names_the_value_in_second_place() {
    assert_eq!(decode_arguments(&args(&["fpscr", "0x00020000"])), Ok(vec!["FI: Set".to_string()]));
    assert_eq!(
        decode_arguments(&args(&["fpscr", "00060000"])),
        Ok(vec!["FR: Set".to_string(), "FI: Set".to_string()])
    );
}

#[test]
fn command_line_ignores_further_arguments() {
    assert_eq!(
        decode_arguments(&args(&["fpscr", "0x00020000", "zzzz"])),
        Ok(vec!["FI: Set".to_string()])
    );
}

#[test]
fn command_line_without_value_is_an_error() {
    assert_eq!(decode_arguments(&args(&["fpscr"])), Err(FpscrError::MissingValue));
    assert_eq!(decode_arguments(&args(&[])), Err(FpscrError::MissingValue));
}

#[test]
fn command_line_with_malformed_value_is_an_error() {
    assert_eq!(decode_arguments(&args(&["fpscr", "zzzz"])), Err(FpscrError::MalformedValue));
    assert_eq!(decode_arguments(&args(&["fpscr", ""])), Err(FpscrError::MalformedValue));
}

#[test]
fn errors_are_told_apart() {
    assert_ne!(FpscrError::MissingValue, FpscrError::MalformedValue);
    assert_ne!(FpscrError::MalformedValue, FpscrError::BitOutOfRange);
    assert_ne!(FpscrError::MissingValue, FpscrError::BitOutOfRange);
}

#[test]
fn each_error_has_its_message() {
    assert_eq!(FpscrError::MissingValue.message(), "A register value is required");
    assert_eq!(
        FpscrError::MalformedValue.message(),
        "Register value is not a hexadecimal number of at most 64 bits"
    );
    assert_eq!(FpscrError::BitOutOfRange.message(), "Bit range between [0, 63]");
}
