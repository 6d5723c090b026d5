use download_async::headers::{parse_content_length, same_bytes};

#[test]
fn content_length_of_eleven() {
    assert_eq!(parse_content_length(b"11"), Some(11));
}

#[test]
fn content_length_plain_numbers() {
    assert_eq!(parse_content_length(b"0"), Some(0));
    assert_eq!(parse_content_length(b"7"), Some(7));
    assert_eq!(parse_content_length(b"0011"), Some(11));
    assert_eq!(parse_content_length(b"5242880"), Some(5_242_880));
}

#[test]
fn content_length_with_plus_sign() {
    assert_eq!(parse_content_length(b"+11"), Some(11));
    assert_eq!(parse_content_length(b"+0"), Some(0));
}

#[test]
fn content_length_malformed() {
    for bad in [
        &b""[..], b"+", b"-1", b"-0", b"++1", b"1+", b" 11", b"11 ", b"1 1", b"12a", b"a12",
        b"0x10", b"1_000", b"1.0", b"\xff", b"11\n", b"\t11",
    ] {
        assert_eq!(parse_content_length(bad), None, "{:?}", bad);
    }
}

#[test]
fn content_length_at_the_limit() {
    let max = usize::MAX.to_string();
    assert_eq!(parse_content_length(max.as_bytes()), Some(usize::MAX));
    let mut over = max.clone().into_bytes();
    let last = over.len() - 1;
    over[last] += 1;
    assert_eq!(parse_content_length(&over), None);
    let longer = format!("{}0", max);
    assert_eq!(parse_content_length(longer.as_bytes()), None);
    assert_eq!(parse_content_length(b"99999999999999999999999999999999999999999"), None);
    let padded = format!("000000000000000000000000{}", max);
    assert_eq!(parse_content_length(padded.as_bytes()), Some(usize::MAX));
}

#[test]
fn content_length_agrees_with_std() {
    for text in ["11", "+11", "", "+", "-1", "007", "18446744073709551615", "18446744073709551616", "4294967296", " 1", "1 ", "٣"] {
        assert_eq!(parse_content_length(text.as_bytes()), text.parse::<usize>().ok(), "{:?}", text);
    }
}

#[test]
fn same_bytes_compares_contents() {
    assert!(same_bytes(b"gzip", b"gzip"));
    assert!(same_bytes(b"", b""));
    assert!(!same_bytes(b"gzip", b"gzi"));
    assert!(!same_bytes(b"gzip", b"gziq"));
    assert!(!same_bytes(b"gzip", b"GZIP"));
    assert!(!same_bytes(b"", b"a"));
}
