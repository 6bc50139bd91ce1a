use sysmon::host::{get_const_info, get_cpu_info, get_disk_info, DiskUsage};
use sysmon::text::{contains, decimal_text, parse_unsigned, split, strip_last_char, trim};

fn chars(s: &str) -> Vec<char> {
    s.chars().collect()
}

#[test]
fn const_info_lines() {
    let r = get_const_info(&"ann".to_string(), &"box".to_string(), &"Linux".to_string());
    assert_eq!(r, "User: ann\nPC: box\nOS: Linux\n");
}

#[test]
fn cpu_info_lines() {
    assert_eq!(
        get_cpu_info(&"Ryzen 5".to_string(), Some(123)),
        "=== CPU Information ===\nName: Ryzen 5\nUsage: 12.3 %\n"
    );
    assert_eq!(get_cpu_info(&"X".to_string(), None), "=== CPU Information ===\nName: X\nUsage: NaN %\n");
}

#[test]
fn disk_info_lines() {
    let disks = vec![
        DiskUsage { mount_point: "/".to_string(), used_tenths: Some(505) },
        DiskUsage { mount_point: "/home".to_string(), used_tenths: None },
    ];
    assert_eq!(get_disk_info(Some(1000), &disks), "RAM usage: 100.0 %\n/ usage: 50.5 %\n/home usage: NaN %\n");
    assert_eq!(get_disk_info(Some(0), &Vec::new()), "RAM usage: 0.0 %\n");
}

#[test]
fn trim_strips_unicode_space() {
    assert_eq!(trim(&chars("\u{3000} a b\r\n\t")), chars("a b"));
    assert_eq!(trim(&chars("   ")), chars(""));
}

#[test]
fn split_keeps_empty_pieces() {
    let p = split(&chars("a,,b,"), ',');
    assert_eq!(p, vec![chars("a"), chars(""), chars("b"), chars("")]);
    assert_eq!(split(&chars(""), ','), vec![chars("")]);
}

#[test]
fn contains_finds_substrings() {
    assert!(contains(&chars("GPU Load: 3"), &chars("Load")));
    assert!(!contains(&chars("GPU"), &chars("GPU Load")));
    assert!(contains(&chars("x"), &chars("")));
}

#[test]
fn strip_last_char_and_decimal() {
    assert_eq!(strip_last_char(&chars("C5C5C"), 'C'), chars("C5C5"));
    assert_eq!(strip_last_char(&chars("55"), 'C'), chars("55"));
    assert_eq!(decimal_text(0), chars("0"));
    assert_eq!(decimal_text(18446744073709551615), chars("18446744073709551615"));
}

#[test]
fn parse_unsigned_as_from_str() {
    assert_eq!(parse_unsigned(&chars("4294967296")), Some(4294967296));
    assert_eq!(parse_unsigned(&chars("+7")), Some(7));
    assert_eq!(parse_unsigned(&chars("+")), None);
    assert_eq!(parse_unsigned(&chars("")), None);
    assert_eq!(parse_unsigned(&chars("-1")), None);
    assert_eq!(parse_unsigned(&chars("18446744073709551615")), Some(u64::MAX));
    assert_eq!(parse_unsigned(&chars("18446744073709551616")), None);
}
