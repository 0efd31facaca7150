use clank::model::Model;
use clank::session::{ErrorKind, Session};
use std::time::{SystemTime, UNIX_EPOCH};

fn now_us() -> u64 {
    SystemTime::now()
        .duration_since(UNIX_EPOCH)
        .map(|d| d.as_micros() as u64)
        .unwrap_or(0)
}

fn session(lesson: &str) -> Session {
    Session::new(lesson.into())
}

fn feed(session: &mut Session, model: &mut Model, s: &str) {
    for c in s.chars() {
        assert!(session.has_room(model));
        session.handle_char(c, now_us(), model);
    }
}

fn accuracy(frac: (u64, u64)) -> f64 {
    frac.0 as f64 / frac.1 as f64
}

#[test]
fn classifies_insertion() {
    let mut m = Model::default();
    let mut s = session("cat");
    feed(&mut s, &mut m, "cxat"); // extra 'x' before 'a'
    assert_eq!(s.insertions, 1);
    assert_eq!(s.errors(), 1);
    assert!(s.done());
    assert_eq!(s.typed, vec![true, true, true]);
    assert_eq!(s.last_error.unwrap().kind, ErrorKind::Insertion);
}

#[test]
fn classifies_omission() {
    let mut m = Model::default();
    let mut s = session("cats");
    feed(&mut s, &mut m, "cts"); // skipped the 'a', kept going
    assert_eq!(s.omissions, 1);
    assert!(s.done());
    assert_eq!(s.typed, vec![true, false, true, true]);
    assert_eq!(s.last_error.unwrap().kind, ErrorKind::Omission);
}

#[test]
fn classifies_reversal() {
    let mut m = Model::default();
    let mut s = session("cat");
    feed(&mut s, &mut m, "cta"); // 'a' and 't' typed in swapped order
    assert_eq!(s.reversals, 1);
    assert_eq!(s.errors(), 1);
    assert!(s.done());
    assert_eq!(s.typed, vec![true, false, false]);
    assert_eq!(s.last_error.unwrap().kind, ErrorKind::Reversal);
}

#[test]
fn next_char_mismatch_can_still_be_substitution() {
    let mut m = Model::default();
    // 't' typed in place of 'a' happens to equal the next expected char;
    // the repeated 't' disambiguates it as a substitution, not a skip.
    let mut s = session("cat");
    feed(&mut s, &mut m, "ctt");
    assert_eq!(s.substitutions, 1);
    assert_eq!(s.omissions, 0);
    assert!(s.done());
    assert_eq!(s.typed, vec![true, false, true]);
    assert_eq!(s.last_error.unwrap().kind, ErrorKind::Substitution);
}

#[test]
fn classifies_substitution() {
    let mut m = Model::default();
    let mut s = session("cat");
    feed(&mut s, &mut m, "cxt"); // typed 'x' in place of 'a', moved on
    assert_eq!(s.substitutions, 1);
    assert!(s.done());
    assert_eq!(s.typed, vec![true, false, true]);
    assert_eq!(s.last_error.unwrap().kind, ErrorKind::Substitution);
}

#[test]
fn consecutive_mismatches_commit_and_advance() {
    // Two unclassifiable wrong keys before the correct one: the first is
    // committed as a substitution and the cursor advances instead of
    // parking, so the second is pending against the *next* position.
    let mut m = Model::default();
    let mut s = session("cat");
    feed(&mut s, &mut m, "cq"); // 'q' mismatches 'a', now pending
    assert_eq!(s.pos, 1);
    feed(&mut s, &mut m, "z"); // second unclassifiable key
    assert_eq!(s.substitutions, 1); // first mismatch committed
    assert_eq!(s.pos, 2); // advanced past 'a'
    assert_eq!(s.pending, Some('z')); // 'z' now pending against 't'
    feed(&mut s, &mut m, "t"); // 'z' was an extra key before 't'
    assert!(s.done());
    assert_eq!(s.typed, vec![true, false, true]);
}

#[test]
fn backspace_clears_pending_mismatch() {
    let mut m = Model::default();
    let mut s = session("cat");
    feed(&mut s, &mut m, "cq");
    assert!(s.pending.is_some());
    s.handle_backspace();
    assert!(s.pending.is_none());
    assert_eq!(s.pos, 1); // still at the 'a'
    feed(&mut s, &mut m, "at");
    assert!(s.done());
}

#[test]
fn errors_feed_pair_accuracy() {
    let mut m = Model::default();
    let mut s = session("cat");
    feed(&mut s, &mut m, "cxt"); // substitution at the c->a transition
    let acc_ca = accuracy(m.pair_accuracy('c', 'a'));
    let acc_at = accuracy(m.pair_accuracy('a', 't'));
    assert!(
        acc_ca < acc_at,
        "c->a should be less accurate ({acc_ca} vs {acc_at})"
    );
    assert!(accuracy(s.raw_accuracy()) < 1.0);
}

#[test]
fn observes_space_transitions() {
    let mut m = Model::default();
    let mut s = Session::new("a b".into());
    feed(&mut s, &mut m, "a b");
    assert!(s.done());
    assert_eq!(m.pair_count('a', ' '), 1);
    assert_eq!(m.pair_count(' ', 'b'), 1);
    assert!(m.pair_count('a', 'b') == 0);
}

#[test]
fn records_space_adjacent_errors() {
    let mut m = Model::default();
    let mut s = Session::new("a bc".into());
    feed(&mut s, &mut m, "abc"); // skipped the space
    assert_eq!(s.omissions, 1);
    assert!(m.pair_attempts('a', ' ').1 > 0);
}
