//! The skip-count argument.

use jukebox::parse::parse_skip_count;
use jukebox::protocol::CommandError;

#[test]
fn absent_argument_means_one() {
    assert_eq!(parse_skip_count(b""), Ok(1));
}

#[test]
fn plain_numbers_parse() {
    assert_eq!(parse_skip_count(b"5"), Ok(5));
    assert_eq!(parse_skip_count(b"12"), Ok(12));
    assert_eq!(parse_skip_count(b"007"), Ok(7));
}

#[test]
fn the_largest_count_parses() {
    assert_eq!(parse_skip_count(b"18446744073709551615"), Ok(u64::MAX));
}

#[test]
fn a_count_past_the_range_is_rejected() {
    assert_eq!(
        parse_skip_count(b"18446744073709551616"),
        Err(CommandError::InvalidArgument)
    );
    assert_eq!(
        parse_skip_count(b"99999999999999999999999"),
        Err(CommandError::InvalidArgument)
    );
}

#[test]
fn zero_is_rejected() {
    assert_eq!(parse_skip_count(b"0"), Err(CommandError::InvalidArgument));
    assert_eq!(parse_skip_count(b"000"), Err(CommandError::InvalidArgument));
}

#[test]
fn non_numeric_input_is_rejected() {
    assert_eq!(parse_skip_count(b"abc"), Err(CommandError::InvalidArgument));
    assert_eq!(parse_skip_count(b"12x"), Err(CommandError::InvalidArgument));
    assert_eq!(parse_skip_count(b"-3"), Err(CommandError::InvalidArgument));
    assert_eq!(parse_skip_count(b"+3"), Err(CommandError::InvalidArgument));
    assert_eq!(parse_skip_count(b" 3"), Err(CommandError::InvalidArgument));
}
