use moto_core::text::{decimal_string, parse_u16, str_eq, trim};

#[test]
fn trim_removes_unicode_white_space_at_both_ends() {
    assert_eq!(trim("  ana \t\n"), "ana");
    assert_eq!(trim("\u{a0}ana garcia\u{3000}"), "ana garcia");
    assert_eq!(trim("   "), "");
    assert_eq!(trim(""), "");
}

#[test]
fn decimal_strings_match_to_string() {
    for n in [0u64, 7, 10, 409, 65535, u64::MAX] {
        assert_eq!(decimal_string(n), n.to_string());
    }
}

#[test]
fn parse_u16_matches_the_standard_parser() {
    for s in ["", "+", "-1", "0", "+2022", "2022", "65535", "65536", "007", "20 22", "abc", "99999999999"] {
        assert_eq!(parse_u16(s), s.parse::<u16>().ok(), "input {s:?}");
    }
}

#[test]
fn str_eq_compares_characters() {
    assert!(str_eq("ride.requested", "ride.requested"));
    assert!(!str_eq("ride.requested", "ride.unavailable"));
}
