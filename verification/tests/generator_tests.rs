use mumu_search::generate_z_values;
use std::collections::HashSet;

#[test]
fn produces_exactly_86400_candidates() {
    let v = generate_z_values();
    assert_eq!(v.len(), 86400);
}

#[test]
fn enumeration_is_hour_major() {
    let v = generate_z_values();
    assert_eq!(v[0], "000000");
    assert_eq!(v[1], "000001");
    assert_eq!(v[59], "000059");
    assert_eq!(v[60], "000100");
    assert_eq!(v[3600], "010000");
    assert_eq!(v[3723], "010203");
    assert_eq!(v[86399], "235959");
}

#[test]
fn all_candidates_distinct() {
    let v = generate_z_values();
    let set: HashSet<String> = v.into_iter().collect();
    assert_eq!(set.len(), 86400);
}

#[test]
fn all_candidates_are_six_digits() {
    let v = generate_z_values();
    for z in &v {
        assert_eq!(z.len(), 6);
        for c in z.chars() {
            assert!(c.is_ascii_digit());
        }
    }
}

#[test]
fn every_clock_time_appears_once() {
    let v = generate_z_values();
    let mut i: usize = 0;
    for h in 0..24u32 {
        for m in 0..60u32 {
            for s in 0..60u32 {
                let expected = format!("{:02}{:02}{:02}", h, m, s);
                assert_eq!(v[i], expected);
                i += 1;
            }
        }
    }
    assert_eq!(i, v.len());
}
