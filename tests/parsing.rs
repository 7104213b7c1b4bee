use bincut::{parse_absolute_path, parse_end_or_len, EndOrLen};
use std::path::PathBuf;

#[test]
fn plus_means_length() {
    assert_eq!(parse_end_or_len("+3"), Ok(EndOrLen::Len(3)));
    assert_eq!(parse_end_or_len("+0x10"), Ok(EndOrLen::Len(16)));
}

#[test]
fn bare_number_means_end() {
    assert_eq!(parse_end_or_len("12"), Ok(EndOrLen::End(12)));
    assert_eq!(parse_end_or_len("0x1f"), Ok(EndOrLen::End(31)));
    assert_eq!(parse_end_or_len("0X1F"), Ok(EndOrLen::End(31)));
}

#[test]
fn sign_after_prefix_is_read_by_the_number_parser() {
    assert_eq!(parse_end_or_len("++5"), Ok(EndOrLen::Len(5)));
}

#[test]
fn malformed_terminus_is_refused() {
    assert!(parse_end_or_len("").is_err());
    assert!(parse_end_or_len("+").is_err());
    assert!(parse_end_or_len("abc").is_err());
    assert!(parse_end_or_len("0x").is_err());
    assert!(parse_end_or_len("-4").is_err());
    assert!(parse_end_or_len("1f").is_err());
    assert!(parse_end_or_len("99999999999999999999999").is_err());
}

#[test]
fn absolute_path_is_normalised() {
    assert_eq!(
        parse_absolute_path("/a/b/../c/./d"),
        Ok(PathBuf::from("/a/c/d"))
    );
}

#[test]
fn relative_path_becomes_absolute() {
    let p = parse_absolute_path("some/file.bin").unwrap();
    assert!(p.is_absolute());
    assert!(p.ends_with("some/file.bin"));
}
