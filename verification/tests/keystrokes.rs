use clank::model::{Model, PAUSE_THRESHOLD_US};
use clank::session::{classify, CharState, ErrorKind, KeyOutcome, Sample, Session};

/// Feeds `keys` one every `step_us` microseconds starting at `start_us`;
/// returns the samples handed out.
fn type_at(s: &mut Session, m: &mut Model, keys: &str, start_us: u64, step_us: u64) -> Vec<Sample> {
    let mut out = Vec::new();
    let mut t = start_us;
    for c in keys.chars() {
        assert!(s.has_room(m));
        if let Some(x) = s.handle_char(c, t, m) {
            out.push(x);
        }
        t += step_us;
    }
    out
}

#[test]
fn clean_typing_samples_every_interval() {
    let mut m = Model::default();
    let mut s = Session::new("the".into());
    let samples = type_at(&mut s, &mut m, "the", 1_000, 150_000);
    assert_eq!(
        samples,
        vec![
            Sample { from: 't', to: 'h', dt_us: 150_000 },
            Sample { from: 'h', to: 'e', dt_us: 150_000 },
        ]
    );
    assert!(s.done());
    assert_eq!(s.correct, 3);
    assert_eq!(s.raw_wpm(), (2, 300_000));
    assert_eq!(s.raw_accuracy(), (3, 3));
    assert_eq!(m.total_obs, 2);
    assert_eq!(m.pair_count('t', 'h'), 1);
    assert_eq!(m.pair_attempts('t', 'h'), (1, 0));
}

#[test]
fn pauses_are_not_sampled() {
    let mut m = Model::default();
    let mut s = Session::new("ab".into());
    let samples = type_at(&mut s, &mut m, "ab", 0, PAUSE_THRESHOLD_US);
    assert!(samples.is_empty());
    assert_eq!(m.pair_count('a', 'b'), 0);
    // The attempt itself still counts as correct.
    assert_eq!(m.pair_attempts('a', 'b'), (1, 0));
    assert_eq!(s.raw_wpm(), (0, 0));
    assert!(m.has_pair('a', 'b'));
}

#[test]
fn just_under_the_pause_is_sampled() {
    let mut m = Model::default();
    let mut s = Session::new("ab".into());
    let samples = type_at(&mut s, &mut m, "ab", 0, PAUSE_THRESHOLD_US - 1);
    assert_eq!(samples.len(), 1);
    assert_eq!(samples[0].dt_us, 1_999_999);
}

#[test]
fn untracked_keys_are_timed_but_not_modelled() {
    let mut m = Model::default();
    let mut s = Session::new("aB".into());
    let samples = type_at(&mut s, &mut m, "aB", 0, 200_000);
    assert!(samples.is_empty());
    assert_eq!(s.raw_wpm(), (1, 200_000));
    assert!(!m.has_pair('a', 'B'));
    assert_eq!(m.total_obs, 0);
}

#[test]
fn mismatch_waits_at_the_cursor() {
    let mut m = Model::default();
    let mut s = Session::new("cat".into());
    type_at(&mut s, &mut m, "cq", 0, 100_000);
    assert_eq!(s.pos, 1);
    assert_eq!(s.typed, vec![true]);
    assert_eq!(s.pending, Some('q'));
    assert_eq!(s.errors(), 0);
    assert!(s.last_error.is_none());
}

#[test]
fn error_breaks_the_timing_chain() {
    let mut m = Model::default();
    let mut s = Session::new("cat".into());
    // 'x' is an extra key before 'a': no interval ends at 'a'.
    let samples = type_at(&mut s, &mut m, "cxat", 0, 100_000);
    assert_eq!(samples, vec![Sample { from: 'a', to: 't', dt_us: 100_000 }]);
    assert_eq!(m.pair_count('c', 'a'), 0);
    assert_eq!(m.pair_attempts('c', 'a'), (0, 1));
}

#[test]
fn reversal_charges_the_swapped_transition() {
    let mut m = Model::default();
    let mut s = Session::new("cat".into());
    type_at(&mut s, &mut m, "cta", 0, 100_000);
    let ev = s.last_error.unwrap();
    assert_eq!((ev.kind, ev.got, ev.expected), (ErrorKind::Reversal, 't', 'a'));
    assert_eq!(m.pair_attempts('a', 't'), (0, 1));
    assert_eq!(m.pair_attempts('c', 'a'), (0, 0));
}

#[test]
fn omission_charges_the_transition_into_the_skipped_key() {
    let mut m = Model::default();
    let mut s = Session::new("cats".into());
    type_at(&mut s, &mut m, "cts", 0, 100_000);
    assert_eq!(m.pair_attempts('c', 'a'), (0, 1));
    assert_eq!(s.correct, 3);
    assert_eq!(s.raw_accuracy(), (3, 4));
}

#[test]
fn backspace_undoes_a_clean_key() {
    let mut m = Model::default();
    let mut s = Session::new("cat".into());
    type_at(&mut s, &mut m, "ca", 0, 100_000);
    assert_eq!(s.pos, 2);
    s.handle_backspace();
    assert_eq!(s.pos, 1);
    assert_eq!(s.typed, vec![true]);
    // The key after a correction is not timed.
    let samples = type_at(&mut s, &mut m, "a", 1_000_000, 0);
    assert!(samples.is_empty());
    assert_eq!(s.pos, 2);
}

#[test]
fn backspace_at_start_changes_nothing() {
    let mut s = Session::new("cat".into());
    s.handle_backspace();
    assert_eq!(s.pos, 0);
    assert!(s.typed.is_empty());
}

#[test]
fn held_key_at_the_end_finishes_the_lesson() {
    let mut m = Model::default();
    let mut s = Session::new("ab".into());
    type_at(&mut s, &mut m, "axy", 0, 100_000);
    assert!(s.done());
    assert_eq!(s.pending, Some('y'));
    assert_eq!(s.substitutions, 1);
    assert_eq!(s.typed, vec![true, false]);
    // Keys after the end change nothing.
    let before = s.errors();
    type_at(&mut s, &mut m, "z", 0, 0);
    assert_eq!(s.errors(), before);
    assert_eq!(s.pos, 2);
}

#[test]
fn new_session_is_empty() {
    let s = Session::new("héllo".into());
    assert_eq!(s.lesson, vec!['h', 'é', 'l', 'l', 'o']);
    assert_eq!(s.pos, 0);
    assert!(!s.done());
    assert_eq!(s.errors(), 0);
    assert_eq!(s.raw_accuracy(), (1, 1));
    assert_eq!(s.raw_wpm(), (0, 0));
}

#[test]
fn classification_table() {
    assert_eq!(classify(None, 'a', Some('t'), None, 'a'), KeyOutcome::Match);
    assert_eq!(classify(None, 'a', Some('t'), None, 't'), KeyOutcome::Mismatch);
    assert_eq!(classify(Some('x'), 'a', Some('t'), None, 'a'), KeyOutcome::Insertion);
    assert_eq!(classify(Some('x'), 'a', Some('t'), None, 't'), KeyOutcome::Substitution);
    assert_eq!(classify(Some('t'), 'a', Some('t'), None, 'a'), KeyOutcome::Reversal);
    assert_eq!(classify(Some('t'), 'a', Some('t'), Some('s'), 's'), KeyOutcome::Omission);
    assert_eq!(classify(Some('t'), 'a', Some('t'), Some('s'), 't'), KeyOutcome::Substitution);
    assert_eq!(classify(Some('x'), 'a', Some('t'), None, 'z'), KeyOutcome::SubstitutionHeld);
    assert_eq!(classify(Some('t'), 'a', Some('t'), Some('s'), 'z'), KeyOutcome::SubstitutionHeld);
}

#[test]
fn positions_are_shown_by_state() {
    let mut m = Model::default();
    let mut s = Session::new("cats".into());
    type_at(&mut s, &mut m, "cxtq", 0, 100_000);
    // c correct, a replaced by x, t correct, q pending against s.
    assert_eq!(s.char_state(0), CharState::Correct);
    assert_eq!(s.char_state(1), CharState::Wrong);
    assert_eq!(s.char_state(2), CharState::Correct);
    assert_eq!(s.char_state(3), CharState::CursorOnMistake);
    s.handle_backspace();
    assert_eq!(s.char_state(3), CharState::Cursor);
    assert_eq!(s.char_state(4), CharState::Upcoming);
}

#[test]
fn swap_keeps_the_timing_chain_broken() {
    let mut m = Model::default();
    let mut s = Session::new("cats".into());
    let samples = type_at(&mut s, &mut m, "ctas", 0, 100_000);
    assert_eq!(s.reversals, 1);
    assert!(s.done());
    assert_eq!(s.typed, vec![true, false, false, true]);
    assert!(samples.is_empty());
    assert_eq!(m.pair_count('a', 's'), 0);
    assert_eq!(m.pair_attempts('a', 's'), (0, 0));
    assert_eq!(m.total_obs, 0);
}
