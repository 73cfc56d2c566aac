use mylog::parse::{parse_duration, parse_duration_folded, parse_file_size, parse_size_folded};

#[test]
fn size_examples() {
    assert_eq!(parse_file_size("50 ko"), Some(50_000));
    assert_eq!(parse_file_size("10 MiB"), Some(10_485_760));
    assert_eq!(parse_file_size("kb"), None);
    assert_eq!(parse_file_size("5 xyz"), None);
}

#[test]
fn size_every_unit() {
    assert_eq!(parse_file_size("1 b"), Some(1));
    assert_eq!(parse_file_size("2 kb"), Some(2_000));
    assert_eq!(parse_file_size("2 ko"), Some(2_000));
    assert_eq!(parse_file_size("3 mb"), Some(3_000_000));
    assert_eq!(parse_file_size("3 mo"), Some(3_000_000));
    assert_eq!(parse_file_size("4 gb"), Some(4_000_000_000));
    assert_eq!(parse_file_size("4 go"), Some(4_000_000_000));
    assert_eq!(parse_file_size("1 kib"), Some(1_024));
    assert_eq!(parse_file_size("1 mib"), Some(1_048_576));
    assert_eq!(parse_file_size("2 gib"), Some(2_147_483_648));
}

#[test]
fn size_is_case_folded_and_trimmed() {
    assert_eq!(parse_file_size("  10 KB  "), Some(10_000));
    assert_eq!(parse_file_size("7GiB"), Some(7_516_192_768));
    assert_eq!(parse_file_size("\u{00A0}5 kb\u{2003}"), Some(5_000));
    assert_eq!(parse_file_size("\t8 MO\n"), Some(8_000_000));
}

#[test]
fn size_rejects_malformed_input() {
    assert_eq!(parse_file_size(""), None);
    assert_eq!(parse_file_size("   "), None);
    assert_eq!(parse_file_size("5"), None);
    assert_eq!(parse_file_size("5 "), None);
    assert_eq!(parse_file_size("-5 kb"), None);
    assert_eq!(parse_file_size("5 k b"), None);
    assert_eq!(parse_file_size("five kb"), None);
    assert_eq!(parse_file_size("5.0 kb"), None);
}

#[test]
fn size_magnitude_bounds() {
    assert_eq!(parse_file_size("0 b"), Some(0));
    assert_eq!(parse_file_size("18446744073709551615 b"), Some(u64::MAX));
    assert_eq!(parse_file_size("18446744073709551616 b"), None);
    assert_eq!(parse_file_size("99999999999999999999999 b"), None);
    assert_eq!(parse_file_size("18446744073709551615 kb"), None);
    assert_eq!(parse_file_size("99999999999 gib"), None);
}

#[test]
fn duration_examples() {
    assert_eq!(parse_duration("2 days"), Some(172_800));
    assert_eq!(parse_duration("30 min"), Some(1_800));
    assert_eq!(parse_duration("2"), None);
}

#[test]
fn duration_every_unit() {
    assert_eq!(parse_duration("1 s"), Some(1));
    assert_eq!(parse_duration("2 sec"), Some(2));
    assert_eq!(parse_duration("45 secs"), Some(45));
    assert_eq!(parse_duration("10 seconds"), Some(10));
    assert_eq!(parse_duration("10 m"), Some(600));
    assert_eq!(parse_duration("3 mins"), Some(180));
    assert_eq!(parse_duration("5 minutes"), Some(300));
    assert_eq!(parse_duration("2 h"), Some(7_200));
    assert_eq!(parse_duration("1 hr"), Some(3_600));
    assert_eq!(parse_duration("4 hrs"), Some(14_400));
    assert_eq!(parse_duration("3 hours"), Some(10_800));
    assert_eq!(parse_duration("1 d"), Some(86_400));
    assert_eq!(parse_duration("1 day"), Some(86_400));
}

#[test]
fn duration_rejects_malformed_input() {
    assert_eq!(parse_duration(""), None);
    assert_eq!(parse_duration("day"), None);
    assert_eq!(parse_duration("2 weeks"), None);
    assert_eq!(parse_duration("2 DAYS "), Some(172_800));
    assert_eq!(parse_duration("18446744073709551615 d"), None);
}

#[test]
fn parsing_is_pure() {
    let input = "123 MiB";
    let first = parse_file_size(input);
    let second = parse_file_size(input);
    assert_eq!(first, second);
    assert_eq!(first, Some(128_974_848));
    let d1 = parse_duration("90 min");
    let d2 = parse_duration("90 min");
    assert_eq!(d1, d2);
    assert_eq!(d1, Some(5_400));
}

#[test]
fn folded_size_parsing_is_exact() {
    assert_eq!(parse_size_folded("50 ko"), Some(50_000));
    assert_eq!(parse_size_folded("10 mib"), Some(10_485_760));
    assert_eq!(parse_size_folded("0 b"), Some(0));
    assert_eq!(parse_size_folded("kb"), None);
    assert_eq!(parse_size_folded("5 xyz"), None);
    assert_eq!(parse_size_folded("5 KB"), None);
}

#[test]
fn folded_duration_parsing_is_exact() {
    assert_eq!(parse_duration_folded("2 days"), Some(172_800));
    assert_eq!(parse_duration_folded("30 min"), Some(1_800));
    assert_eq!(parse_duration_folded("2"), None);
    assert_eq!(parse_duration_folded("2 Days"), None);
}
