use boringssl_src::Build;
use boringssl_src::version::dot_split;
use boringssl_src::version::parse_u32;
use boringssl_src::version::report_meets_floor;
use boringssl_src::version::split_tokens;
use boringssl_src::version::token_meets_floor;

fn msvc_build() -> Build {
    let mut b = Build::new();
    b.out_dir("/out");
    b.target("x86_64-pc-windows-msvc");
    b
}

const REPORT_OLD: &str = "cmake version 3.9.6\n\nCMake suite maintained by Kitware.\n";
const REPORT_NEW: &str = "cmake version 3.20.1\n\nCMake suite maintained by Kitware.\n";
const REPORT_FLOOR: &str = "cmake version 3.13.2\n";

#[test]
fn below_floor_disables_asm() {
    let b = msvc_build();
    assert!(b.asm_disable_needed(REPORT_OLD, true, true));
}

#[test]
fn floor_met_with_assembler_keeps_asm() {
    let b = msvc_build();
    assert!(!b.asm_disable_needed(REPORT_FLOOR, true, false));
    assert!(!b.asm_disable_needed(REPORT_NEW, false, true));
}

#[test]
fn floor_met_without_assembler_disables_asm() {
    let b = msvc_build();
    assert!(b.asm_disable_needed(REPORT_NEW, false, false));
}

#[test]
fn other_toolchains_never_disable_asm() {
    let mut b = Build::new();
    b.target("x86_64-unknown-linux-gnu");
    assert!(!b.asm_disable_needed(REPORT_OLD, false, false));
}

#[test]
fn floor_is_numeric_not_semantic() {
    // The minor floor is tested on its own, so a later major with a
    // small minor still fails.
    assert!(!report_meets_floor("cmake version 4.0.0\n"));
    assert!(report_meets_floor("cmake version 3.13.0\n"));
    assert!(report_meets_floor("cmake version 3.20.1\n"));
    assert!(!report_meets_floor("cmake version 3.12.4\n"));
    assert!(!report_meets_floor("cmake version 3.9.6\n"));
}

#[test]
fn malformed_reports_fail_the_floor() {
    assert!(!report_meets_floor(""));
    assert!(!report_meets_floor("cmake version"));
    assert!(!report_meets_floor("cmake version 2.8.12.2\n"));
    assert!(!report_meets_floor("cmake version 3.13\n"));
    assert!(!report_meets_floor("cmake version three.13.2\n"));
    assert!(!report_meets_floor("cmake version 3..2\n"));
}

#[test]
fn tokens_split_on_whitespace() {
    let ts = split_tokens("cmake version 3.13.2\n\nKitware");
    assert_eq!(ts, vec!["cmake", "version", "3.13.2", "Kitware"]);
    assert_eq!(split_tokens(""), Vec::<String>::new());
    assert_eq!(split_tokens("  \t\r\n "), Vec::<String>::new());
    assert_eq!(split_tokens(" one "), vec!["one"]);
}

#[test]
fn dot_split_keeps_empty_segments() {
    assert_eq!(dot_split("3.13.2"), vec!["3", "13", "2"]);
    assert_eq!(dot_split("3..2"), vec!["3", "", "2"]);
    assert_eq!(dot_split("313"), vec!["313"]);
    assert_eq!(dot_split(""), vec![""]);
    assert_eq!(dot_split("."), vec!["", ""]);
}

#[test]
fn parse_u32_is_digits_only() {
    assert_eq!(parse_u32("3"), Some(3));
    assert_eq!(parse_u32("013"), Some(13));
    assert_eq!(parse_u32("4294967295"), Some(u32::MAX));
    assert_eq!(parse_u32("4294967296"), None);
    assert_eq!(parse_u32("99999999999999999999"), None);
    assert_eq!(parse_u32(""), None);
    assert_eq!(parse_u32("+3"), None);
    assert_eq!(parse_u32("-3"), None);
    assert_eq!(parse_u32("1a"), None);
}

#[test]
fn token_floor_wants_exactly_three_components() {
    assert!(token_meets_floor("3.13.2"));
    assert!(!token_meets_floor("3.13"));
    assert!(!token_meets_floor("3.13.2.1"));
    assert!(!token_meets_floor("3.13.two"));
}
