use time_format::{validate_format, Error};

#[test]
fn date_pattern_is_valid() {
    assert_eq!(validate_format("%Y-%m-%d"), Ok(()));
}

#[test]
fn unknown_specifier_is_rejected() {
    assert_eq!(validate_format("%Q"), Err(Error::InvalidFormatString));
}

#[test]
fn unescaped_percent_is_rejected() {
    assert_eq!(validate_format("100% done"), Err(Error::InvalidFormatString));
    assert_eq!(validate_format("100%% done"), Ok(()));
}

#[test]
fn unbalanced_brace_is_rejected() {
    assert_eq!(validate_format("{unbalanced"), Err(Error::InvalidFormatString));
    assert_eq!(validate_format("%H}"), Err(Error::InvalidFormatString));
}

#[test]
fn empty_pattern_is_rejected() {
    assert_eq!(validate_format(""), Err(Error::InvalidFormatString));
}

#[test]
fn trailing_percent_is_rejected() {
    assert_eq!(validate_format("%Y%"), Err(Error::InvalidFormatString));
    assert_eq!(validate_format("%"), Err(Error::InvalidFormatString));
}

#[test]
fn null_character_is_its_own_error() {
    assert_eq!(validate_format("%Y\0%m"), Err(Error::NullByteError));
    assert_eq!(validate_format("%Q\0"), Err(Error::NullByteError));
}

#[test]
fn directive_errors_come_before_brace_errors() {
    assert_eq!(validate_format("{%Q"), Err(Error::InvalidFormatString));
}

#[test]
fn millisecond_placeholder_and_modifiers_are_valid() {
    assert_eq!(validate_format("%Y-%m-%d %H:%M:%S.{ms}"), Ok(()));
    assert_eq!(validate_format("%Ey %Od %+"), Ok(()));
    assert_eq!(validate_format("plain text"), Ok(()));
    assert_eq!(validate_format("äöü %B"), Ok(()));
}

#[test]
fn escaped_percent_consumes_the_next_character() {
    // "%%Q" is an escaped percent followed by a literal Q.
    assert_eq!(validate_format("%%Q"), Ok(()));
    assert_eq!(validate_format("%%%"), Err(Error::InvalidFormatString));
}
