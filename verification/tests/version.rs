use upx_tools::version::{parse_component, parse_version, version_compare};

#[test]
fn later_patch_is_newer() {
    assert!(version_compare("1.2.0", "1.1.9"));
}

#[test]
fn missing_component_counts_as_zero() {
    assert!(!version_compare("1.2", "1.2.0"));
    assert!(!version_compare("1.2.0", "1.2"));
}

#[test]
fn major_version_decides_first() {
    assert!(version_compare("2", "1.9.9"));
    assert!(!version_compare("1.9.9", "2"));
}

#[test]
fn equal_versions_are_not_newer() {
    assert!(!version_compare("1.2.3", "1.2.3"));
    assert!(!version_compare("", ""));
    assert!(!version_compare("0", ""));
    assert!(!version_compare("1.0.0.0", "1"));
}

#[test]
fn earlier_difference_decides() {
    assert!(!version_compare("1.9.9", "2.0.0"));
    assert!(version_compare("1.10.0", "1.9.9"));
    assert!(!version_compare("1.2.9", "1.3.0"));
    assert!(version_compare("1.2.0.1", "1.2"));
}

#[test]
fn parts_that_are_no_numbers_are_left_out() {
    // "1.x.3" reads as 1.3
    assert!(version_compare("1.x.3", "1.2"));
    assert!(!version_compare("1.x.3", "1.3"));
    assert!(!version_compare("1.3", "1.x.3"));
    // an empty part is none
    assert!(!version_compare("1..2", "1.2"));
    assert!(!version_compare("1.2", "1..2"));
    assert!(version_compare("1.2-beta.5", "1.4"));
    assert!(!version_compare("v2", "1"));
}

#[test]
fn numbers_are_read_as_std_reads_them() {
    let samples = [
        "", "0", "7", "007", "+7", "+", "-7", "++7", "+-7", "7+", " 7", "7 ", "4294967295",
        "4294967296", "04294967295", "99999999999999999999999999", "00000000000000000000000000",
        "1a", "a1", "１", "٣", "1_000", "0x10", "+0",
    ];
    for s in samples {
        let v: Vec<char> = s.chars().collect();
        assert_eq!(parse_component(&v), s.parse::<u32>().ok(), "for {:?}", s);
    }
}

#[test]
fn versions_are_split_at_dots() {
    let samples = ["", "1", "1.2", "1.2.3", ".1", "1.", "1..2", "a.b", "1.+2.x.03", "...", "4294967296.1"];
    for s in samples {
        let v: Vec<char> = s.chars().collect();
        let expected: Vec<u32> = s.split('.').filter_map(|p| p.parse().ok()).collect();
        assert_eq!(parse_version(&v), expected, "for {:?}", s);
    }
}
