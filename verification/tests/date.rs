use chrono::DateTime;
use cw_zk_base::date::project;

fn text(t: i64) -> Option<String> {
    project(t)
}

#[test]
fn project_known_timestamp() {
    assert_eq!(project(1683556139), Some(String::from("20230508")));
}

#[test]
fn project_epoch() {
    assert_eq!(text(0), Some("19700101".to_string()));
    assert_eq!(text(86_399), Some("19700101".to_string()));
    assert_eq!(text(86_400), Some("19700102".to_string()));
}

#[test]
fn project_before_epoch_rounds_down() {
    assert_eq!(text(-1), Some("19691231".to_string()));
    assert_eq!(text(-86_400), Some("19691231".to_string()));
    assert_eq!(text(-86_401), Some("19691230".to_string()));
}

#[test]
fn project_leap_days() {
    assert_eq!(text(951_782_400), Some("20000229".to_string()));
    assert_eq!(text(1_709_164_800), Some("20240229".to_string()));
    assert_eq!(text(1_709_251_200), Some("20240301".to_string()));
    // 1900 and 2100 are no leap years.
    assert_eq!(text(-2_203_891_200), Some("19000301".to_string()));
    assert_eq!(text(4_107_456_000), Some("21000228".to_string()));
    assert_eq!(text(4_107_542_400), Some("21000301".to_string()));
}

#[test]
fn project_pads_with_zeros() {
    assert_eq!(text(-62_135_596_800), Some("00010101".to_string()));
    assert_eq!(text(-30_610_224_000), Some("10000101".to_string()));
    assert_eq!(text(-30_610_224_001), Some("09991231".to_string()));
}

#[test]
fn project_first_and_last_second() {
    assert_eq!(text(-62_167_219_200), Some("00000101".to_string()));
    assert_eq!(text(253_402_300_799), Some("99991231".to_string()));
}

#[test]
fn project_outside_four_digit_years() {
    assert_eq!(text(-62_167_219_201), None);
    assert_eq!(text(253_402_300_800), None);
    assert_eq!(text(i64::MIN), None);
    assert_eq!(text(i64::MAX), None);
    assert_eq!(text(8_210_266_876_799), None);
    assert_eq!(text(-8_334_601_228_800), None);
}

#[test]
fn project_is_eight_digits() {
    let mut t: i64 = -62_167_219_200;
    while t <= 253_402_300_799 {
        let s = project(t).unwrap();
        assert_eq!(s.len(), 8);
        assert!(s.bytes().all(|b| b.is_ascii_digit()));
        t += 86_400 * 9_973 + 4_321;
    }
}

#[test]
fn project_is_deterministic() {
    for t in [i64::MIN, -1, 0, 1_683_556_139, 253_402_300_799, i64::MAX] {
        assert_eq!(project(t), project(t));
    }
}

#[test]
fn project_writes_what_the_calendar_writes() {
    let mut t: i64 = -62_167_219_200;
    while t <= 253_402_300_799 {
        let date = DateTime::from_timestamp(t, 0).unwrap();
        assert_eq!(project(t).unwrap(), date.format("%Y%m%d").to_string());
        t += 86_400 * 7_919 + 12_345;
    }
}

#[test]
fn project_follows_each_day_of_four_years() {
    // Every day from 2023-01-01 to 2026-12-31, at noon.
    let mut t: i64 = 1_672_574_400;
    let mut expected = (2023u32, 1u32, 1u32);
    while expected.0 < 2027 {
        let (y, m, d) = expected;
        assert_eq!(project(t), Some(format!("{:04}{:02}{:02}", y, m, d)));
        let leap = y % 4 == 0 && (y % 100 != 0 || y % 400 == 0);
        let last = match m {
            2 => {
                if leap {
                    29
                } else {
                    28
                }
            }
            4 | 6 | 9 | 11 => 30,
            _ => 31,
        };
        expected = if d < last {
            (y, m, d + 1)
        } else if m < 12 {
            (y, m + 1, 1)
        } else {
            (y + 1, 1, 1)
        };
        t += 86_400;
    }
}
