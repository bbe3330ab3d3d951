use she::config::{DlpConfig, Group};
use she::dlp::{DlpSearch, SearchStep};
use she::error::SheError;

/// The baby-step table's answer for `g^d`.
fn table(hash_size: u64, d: i128) -> Option<u64> {
    if d >= 0 && d < hash_size as i128 {
        Some(d as u64)
    } else {
        None
    }
}

/// Runs a whole search for the exponent `m`, answering each probe truthfully.
fn decode(mut s: DlpSearch, m: i64) -> Result<i64, SheError> {
    let h = s.hash_size();
    if s.is_exhausted() {
        return Err(SheError::CantDecrypt);
    }
    loop {
        let off = s.probe_offset() as i128;
        let pos = table(h, m as i128 - off);
        let neg = table(h, -(m as i128) - off);
        if let Some(r) = s.step(pos, neg).result() {
            return r;
        }
    }
}

#[test]
fn configured_range_decodes_up_to_bound() {
    let config = DlpConfig::new(1000, 10);
    let s = config.search(Group::G1).unwrap();
    assert_eq!(decode(s, 9999), Ok(9999));
    let s = config.search(Group::G1).unwrap();
    assert_eq!(decode(s, 10001), Err(SheError::CantDecrypt));
    let s = config.search(Group::GT).unwrap();
    assert_eq!(decode(s, -9999), Ok(-9999));
    let s = config.search(Group::G2).unwrap();
    assert_eq!(decode(s, 10000), Err(SheError::CantDecrypt));
}

#[test]
fn every_value_inside_the_bound_decodes() {
    for m in -20i64..=20 {
        let s = DlpSearch::new(7, 3).unwrap();
        assert_eq!(decode(s, m), Ok(m));
    }
    for m in [21i64, -21, 22, -100, i64::MAX, i64::MIN] {
        let s = DlpSearch::new(7, 3).unwrap();
        assert_eq!(decode(s, m), Err(SheError::CantDecrypt));
    }
}

#[test]
fn zero_tries_decode_nothing() {
    let s = DlpSearch::new(1000, 0).unwrap();
    assert!(s.is_exhausted());
    assert_eq!(decode(s, 0), Err(SheError::CantDecrypt));
}

#[test]
fn empty_table_decodes_nothing() {
    let s = DlpSearch::new(0, 5).unwrap();
    assert_eq!(decode(s, 0), Err(SheError::CantDecrypt));
}

#[test]
fn range_must_fit_in_i64() {
    assert!(DlpSearch::new(u64::MAX, 2).is_none());
    assert!(DlpSearch::new(1u64 << 31, 1u64 << 32).is_none());
    let s = DlpSearch::new(i64::MAX as u64, 1).unwrap();
    assert_eq!(s.hash_size(), i64::MAX as u64);
    assert_eq!(s.try_num(), 1);
    assert!(DlpSearch::new(u64::MAX, 0).is_some());
}

#[test]
fn giant_steps_advance_by_table_size() {
    let mut s = DlpSearch::new(1000, 3).unwrap();
    assert_eq!(s.probe_offset(), 0);
    assert_eq!(s.step(None, None), SearchStep::Continue);
    assert_eq!(s.probe_offset(), 1000);
    assert_eq!(s.step(None, Some(17)), SearchStep::Found(-1017));
    assert_eq!(s.probe_offset(), 2000);
    assert_eq!(s.step(None, None), SearchStep::Exhausted);
    assert!(s.is_exhausted());
}

#[test]
fn positive_probe_wins_over_negative() {
    let mut s = DlpSearch::new(10, 4).unwrap();
    assert_eq!(s.step(Some(0), Some(0)), SearchStep::Found(0));
    let mut s = DlpSearch::new(10, 4).unwrap();
    s.step(None, None);
    assert_eq!(s.step(Some(3), Some(5)), SearchStep::Found(13));
}

#[test]
fn step_results() {
    assert_eq!(SearchStep::Found(-4).result(), Some(Ok(-4)));
    assert_eq!(SearchStep::Continue.result(), None);
    assert_eq!(SearchStep::Exhausted.result(), Some(Err(SheError::CantDecrypt)));
}

#[test]
fn config_setters() {
    let mut c = DlpConfig::new(1024, 2048);
    assert_eq!(c.hash_size(Group::G1), 1024);
    assert_eq!(c.hash_size(Group::GT), 1024);
    c.set_try_num(10);
    assert_eq!(c.try_num, 10);
    assert_eq!(c.hash_size(Group::G2), 1024);
    c.set_range_for_g1_dlp(1);
    c.set_range_for_g2_dlp(2);
    c.set_range_for_gt_dlp(3);
    assert_eq!(c, DlpConfig { g1_hash_size: 1, g2_hash_size: 2, gt_hash_size: 3, try_num: 10 });
    c.set_range_for_dlp(1000);
    assert_eq!(c, DlpConfig::new(1000, 10));
}

#[test]
fn config_range() {
    let c = DlpConfig::new(1000, 10);
    assert!(c.in_range_of(Group::G1, 9999));
    assert!(c.in_range_of(Group::G1, -9999));
    assert!(c.in_range_of(Group::G1, 0));
    assert!(!c.in_range_of(Group::G1, 10000));
    assert!(!c.in_range_of(Group::G1, 10001));
    assert!(!c.in_range_of(Group::G1, i64::MIN));
    let wide = DlpConfig::new(u64::MAX, u64::MAX);
    assert!(wide.in_range_of(Group::GT, i64::MIN));
    assert!(wide.search(Group::GT).is_none());
    let mut c = DlpConfig::new(1000, 10);
    c.set_range_for_gt_dlp(0);
    assert!(!c.in_range_of(Group::GT, 0));
    assert!(c.in_range_of(Group::G2, 0));
}

#[test]
fn larger_settings_widen_the_range() {
    let mut c = DlpConfig::new(1000, 10);
    c.set_try_num(11);
    let s = c.search(Group::G1).unwrap();
    assert_eq!(decode(s, 10001), Ok(10001));
    c.set_range_for_g1_dlp(2000);
    c.set_try_num(10);
    let s = c.search(Group::G1).unwrap();
    assert_eq!(decode(s, -19999), Ok(-19999));
}
