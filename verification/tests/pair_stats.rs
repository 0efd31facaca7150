use clank::model::{pair_code, pair_from_code, pair_key, Model, PairStat, PAUSE_THRESHOLD_US};

#[test]
fn pair_key_is_the_two_characters() {
    assert_eq!(pair_key('t', 'h'), "th");
    assert_eq!(pair_key(' ', 'é'), " é");
}

#[test]
fn pair_codes_round_trip() {
    for &(a, b) in &[('a', 'b'), (' ', 'z'), ('\u{10FFFF}', '\u{0}'), ('é', '中')] {
        assert_eq!(pair_from_code(pair_code(a, b)), Some((a, b)));
    }
    assert_eq!(pair_code('a', 'b'), 97 * 0x20_0000 + 98);
    // A surrogate in the low part decodes to nothing.
    assert_eq!(pair_from_code(0xD800), None);
    assert_eq!(pair_from_code(u64::MAX), None);
}

#[test]
fn attempts_read_back() {
    let mut m = Model::default();
    m.record_attempt('a', 'b', true);
    m.record_attempt('a', 'b', false);
    m.record_attempt('a', 'b', false);
    assert_eq!(m.pair_attempts('a', 'b'), (1, 2));
    assert_eq!(m.pair_attempts('b', 'a'), (0, 0));
    assert_eq!(m.pair_count('a', 'b'), 0);
    assert!(m.has_pair('a', 'b'));
    assert!(!m.has_pair('b', 'a'));
    assert_eq!(m.total_obs, 0);
}

#[test]
fn attempt_counts_saturate() {
    let mut m = Model::default();
    m.set_pair('a', 'b', PairStat { n: u32::MAX, ok: u32::MAX, err: 7 });
    m.record_attempt('a', 'b', true);
    assert!(m.observe('a', 'b', 10));
    assert_eq!(m.pair_attempts('a', 'b'), (u32::MAX, 7));
    assert_eq!(m.pair_count('a', 'b'), u32::MAX);
    assert_eq!(m.total_obs, 1);
}

#[test]
fn observe_counts_only_accepted_intervals() {
    let mut m = Model::default();
    assert!(m.observe('a', 'b', 0));
    assert!(m.observe('a', 'b', PAUSE_THRESHOLD_US - 1));
    assert!(!m.observe('a', 'b', PAUSE_THRESHOLD_US));
    assert_eq!(m.pair_count('a', 'b'), 2);
    assert_eq!(m.total_obs, 2);
}

#[test]
fn pair_accuracy_blends_the_prior() {
    let mut m = Model::default();
    // No attempts: the prior accuracy 0.97.
    assert_eq!(m.pair_accuracy('a', 'b'), (970, 1000));
    m.record_attempt('a', 'b', false);
    assert_eq!(m.pair_accuracy('a', 'b'), (970, 1100));
    m.record_attempt('a', 'b', true);
    assert_eq!(m.pair_accuracy('a', 'b'), (1070, 1200));
}

#[test]
fn default_pair_stat_is_fresh() {
    assert_eq!(PairStat::default(), PairStat { n: 0, ok: 0, err: 0 });
}

#[test]
fn a_pair_with_nothing_recorded_is_absent() {
    let mut m = Model::default();
    m.set_pair('a', 'b', PairStat { n: 0, ok: 0, err: 0 });
    assert!(!m.has_pair('a', 'b'));
    m.set_pair('a', 'b', PairStat { n: 1, ok: 0, err: 0 });
    assert!(m.has_pair('a', 'b'));
    m.set_pair('a', 'b', PairStat { n: 0, ok: 0, err: 3 });
    assert!(m.has_pair('a', 'b'));
}
