//! Typing session state: lesson text, cursor, correctness, error
//! classification, and raw stats.
//!
//! Error handling is "strict": the cursor does not advance past a position
//! until it is resolved, which is what makes real-time error classification
//! well-defined. A mismatched keystroke is classified with one-key lookahead
//! (expected `e`, next `n`, then `n2`):
//! - wrong `w`, then `e`  (w != n)  -> insertion (an extra letter was hit)
//! - wrong `w`, then `n`            -> substitution (typed `w` in place of `e`)
//! - wrong `w == n`, then `e`       -> reversal (typed `n` and `e` swapped)
//! - wrong `w == n`, then `n2`      -> omission (`e` was skipped)

use crate::model::{with_attempt, with_observation, Model, PairStat, PAUSE_THRESHOLD_US};
use vstd::prelude::*;
use vstd::string::StrSliceExecFns;

verus! {

/// Bound on the keystrokes counted in one session; it keeps the accumulated
/// microseconds of timed keystrokes within a `u64`.
pub const KEYSTROKE_LIMIT: u64 = 9_000_000_000_000;

#[derive(Debug, Clone, Copy, PartialEq, Eq)]
pub enum ErrorKind {
    /// An extra letter was hit before the expected one.
    Insertion,
    /// The expected letter was skipped.
    Omission,
    /// A different letter was typed in place of the expected one.
    Substitution,
    /// Two adjacent letters were typed in swapped order.
    Reversal,
}

#[derive(Debug, Clone, Copy)]
pub struct ErrorEvent {
    pub kind: ErrorKind,
    /// The character that was actually typed.
    pub got: char,
    /// The character that was expected.
    pub expected: char,
}

/// An interval between two correctly typed keys that the model accepted;
/// the speed estimator learns from it.
#[derive(Debug, Clone, Copy, PartialEq, Eq)]
pub struct Sample {
    pub from: char,
    pub to: char,
    pub dt_us: u64,
}

/// How a lesson position is shown.
#[derive(Debug, Clone, Copy, PartialEq, Eq)]
pub enum CharState {
    /// Resolved and typed correctly.
    Correct,
    /// Resolved with an error.
    Wrong,
    /// The cursor, with nothing pending.
    Cursor,
    /// The cursor, with a mismatched key awaiting classification.
    CursorOnMistake,
    /// Not reached yet.
    Upcoming,
}

/// What one keystroke does, given the key awaiting classification.
#[derive(Debug, Clone, Copy, PartialEq, Eq)]
pub enum KeyOutcome {
    /// The expected key, with nothing pending.
    Match,
    /// A wrong key with nothing pending: it waits for the next key.
    Mismatch,
    /// Pending `w == n`, then `e`: adjacent letters swapped.
    Reversal,
    /// Pending `w == n`, then `n2`: `e` was skipped.
    Omission,
    /// Pending `w != n`, then `e`: `w` was an extra key.
    Insertion,
    /// Pending `w`, then `n`: `w` replaced `e`; the key is accepted at `n`.
    Substitution,
    /// Pending `w`, then an unclassifiable key: `w` is committed as a
    /// substitution for `e` and the new key waits against the next position.
    SubstitutionHeld,
}

/// True when `o` holds exactly `c`.
pub open spec fn holds(o: Option<char>, c: char) -> bool {
    o matches Some(x) && x == c
}

/// The classification table: what keystroke `c` does when `pending` awaits
/// classification, `e` is expected, and `n`, `n2` follow it.
pub open spec fn outcome(
    pending: Option<char>,
    e: char,
    n: Option<char>,
    n2: Option<char>,
    c: char,
) -> KeyOutcome {
    match pending {
        None => if c == e {
            KeyOutcome::Match
        } else {
            KeyOutcome::Mismatch
        },
        Some(w) => if holds(n, w) {
            if c == e {
                KeyOutcome::Reversal
            } else if holds(n2, c) {
                KeyOutcome::Omission
            } else if holds(n, c) {
                KeyOutcome::Substitution
            } else {
                KeyOutcome::SubstitutionHeld
            }
        } else {
            if c == e {
                KeyOutcome::Insertion
            } else if holds(n, c) {
                KeyOutcome::Substitution
            } else {
                KeyOutcome::SubstitutionHeld
            }
        },
    }
}

/// The correctness marks a keystroke adds to the typed positions.
pub open spec fn marks(o: KeyOutcome) -> Seq<bool> {
    match o {
        KeyOutcome::Match => seq![true],
        KeyOutcome::Mismatch => seq![],
        KeyOutcome::Reversal => seq![false, false],
        KeyOutcome::Omission => seq![false, true, true],
        KeyOutcome::Insertion => seq![true],
        KeyOutcome::Substitution => seq![false, true],
        KeyOutcome::SubstitutionHeld => seq![false],
    }
}

/// The number of correct keystrokes an outcome counts.
pub open spec fn correct_gain(o: KeyOutcome) -> nat {
    match o {
        KeyOutcome::Match => 1,
        KeyOutcome::Omission => 2,
        KeyOutcome::Insertion => 1,
        KeyOutcome::Substitution => 1,
        _ => 0,
    }
}

/// The error an outcome commits, if any.
pub open spec fn committed_error(o: KeyOutcome) -> Option<ErrorKind> {
    match o {
        KeyOutcome::Match => None,
        KeyOutcome::Mismatch => None,
        KeyOutcome::Reversal => Some(ErrorKind::Reversal),
        KeyOutcome::Omission => Some(ErrorKind::Omission),
        KeyOutcome::Insertion => Some(ErrorKind::Insertion),
        KeyOutcome::Substitution => Some(ErrorKind::Substitution),
        KeyOutcome::SubstitutionHeld => Some(ErrorKind::Substitution),
    }
}

/// True when the outcome leaves the keystroke waiting for classification.
pub open spec fn leaves_pending(o: KeyOutcome) -> bool {
    o == KeyOutcome::Mismatch || o == KeyOutcome::SubstitutionHeld
}

/// True when the keystroke leaves no correct key to time the next interval
/// from: it waits for classification, or it completes a swap whose both
/// positions are wrong.
pub open spec fn breaks_chain(o: KeyOutcome) -> bool {
    leaves_pending(o) || o == KeyOutcome::Reversal
}

/// 1 when `b` holds, else 0.
pub open spec fn count_if(b: bool) -> int {
    if b {
        1
    } else {
        0
    }
}

/// Keys whose transitions the model tracks: lowercase ASCII letters and space.
pub open spec fn is_model_char(c: char) -> bool {
    ('a' <= c && c <= 'z') || c == ' '
}

/// Whether `c` is a key whose transitions the model tracks.
pub fn model_char(c: char) -> (r: bool)
    ensures
        r == is_model_char(c),
{
    ('a' <= c && c <= 'z') || c == ' '
}

/// Classifies keystroke `c` by the table above.
pub fn classify(
    pending: Option<char>,
    e: char,
    n: Option<char>,
    n2: Option<char>,
    c: char,
) -> (r: KeyOutcome)
    ensures
        r == outcome(pending, e, n, n2, c),
{
    match pending {
        None => if c == e {
            KeyOutcome::Match
        } else {
            KeyOutcome::Mismatch
        },
        Some(w) => {
            let w_is_next = match n {
                Some(x) => x == w,
                None => false,
            };
            let c_is_next = match n {
                Some(x) => x == c,
                None => false,
            };
            let c_is_after_next = match n2 {
                Some(x) => x == c,
                None => false,
            };
            if w_is_next {
                if c == e {
                    KeyOutcome::Reversal
                } else if c_is_after_next {
                    KeyOutcome::Omission
                } else if c_is_next {
                    KeyOutcome::Substitution
                } else {
                    KeyOutcome::SubstitutionHeld
                }
            } else {
                if c == e {
                    KeyOutcome::Insertion
                } else if c_is_next {
                    KeyOutcome::Substitution
                } else {
                    KeyOutcome::SubstitutionHeld
                }
            }
        },
    }
}

/// One more timed interval still fits the session's microsecond total.
proof fn lemma_room_for_sample(chars: u64, us: u64, dt: u64, correct: u64)
    requires
        chars <= correct,
        correct < KEYSTROKE_LIMIT,
        us <= chars * PAUSE_THRESHOLD_US,
        dt < PAUSE_THRESHOLD_US,
    ensures
        us + dt <= (chars + 1) * PAUSE_THRESHOLD_US,
        us + dt <= u64::MAX,
{
    assert((chars + 1) * PAUSE_THRESHOLD_US == chars * PAUSE_THRESHOLD_US + PAUSE_THRESHOLD_US) by (nonlinear_arith);
    assert((chars + 1) * PAUSE_THRESHOLD_US <= KEYSTROKE_LIMIT * PAUSE_THRESHOLD_US) by (nonlinear_arith)
        requires
            chars + 1 <= KEYSTROKE_LIMIT,
    ;
}

/// `now - then` in microseconds, zero when the clock went backwards.
pub open spec fn elapsed(then: u64, now: u64) -> u64 {
    if now >= then {
        (now - then) as u64
    } else {
        0
    }
}

pub struct Session {
    pub lesson: Vec<char>,
    /// Correctness of each resolved lesson position.
    pub typed: Vec<bool>,
    pub pos: usize,
    /// A mismatched keystroke awaiting classification by the next key.
    pub pending: Option<char>,
    pub last_error: Option<ErrorEvent>,
    pub insertions: u64,
    pub omissions: u64,
    pub substitutions: u64,
    pub reversals: u64,
    /// Correctly typed characters (attempt successes).
    pub correct: u64,
    /// The last correctly typed key and its time in microseconds, while the
    /// keystroke chain is intact.
    pub last_key: Option<(char, u64)>,
    /// Keystrokes whose interval was timed.
    pub session_chars: u64,
    /// Total microseconds of the timed intervals.
    pub session_us: u64,
}

impl Session {
    /// Errors of every kind committed so far.
    pub open spec fn error_count(self) -> int {
        self.insertions + self.omissions + self.substitutions + self.reversals
    }

    /// Every keystroke counted so far, correct or not.
    pub open spec fn keystrokes(self) -> int {
        self.correct + self.insertions + self.omissions + self.substitutions + self.reversals
    }

    /// The internal consistency every session keeps.
    pub open spec fn wf(self) -> bool {
        &&& self.typed@.len() == self.pos
        &&& self.pos <= self.lesson@.len()
        &&& self.pending is Some ==> self.last_key is None
        &&& (self.pending is Some && self.pos < self.lesson@.len()) ==> self.pending->0
            != self.lesson@[self.pos as int]
        &&& self.session_chars <= self.correct
        &&& self.session_us <= self.session_chars * PAUSE_THRESHOLD_US
        &&& self.keystrokes() <= KEYSTROKE_LIMIT
    }

    /// True when one more keystroke fits in the session's and model's counters.
    pub open spec fn room_for_key(self, model: &Model) -> bool {
        &&& self.keystrokes() + 3 <= KEYSTROKE_LIMIT
        &&& model.total_obs < u64::MAX
    }

    pub open spec fn is_done(self) -> bool {
        self.pos >= self.lesson@.len()
    }

    /// The lesson character `k` places after the cursor, if any.
    pub open spec fn ahead(self, k: int) -> Option<char> {
        if self.pos + k < self.lesson@.len() {
            Some(self.lesson@[self.pos + k])
        } else {
            None
        }
    }

    /// The expected character at the cursor.
    pub open spec fn expected(self) -> char {
        self.lesson@[self.pos as int]
    }

    /// How keystroke `c` is classified in this state.
    pub open spec fn outcome_of(self, c: char) -> KeyOutcome {
        outcome(self.pending, self.expected(), self.ahead(1), self.ahead(2), c)
    }

    /// True when a correct key `c` at time `now` completes a timed interval.
    pub open spec fn timed(self, now: u64) -> bool {
        self.last_key matches Some((prev, t0)) && elapsed(t0, now) < PAUSE_THRESHOLD_US
    }

    /// The interval a correct key at time `now` closes.
    pub open spec fn interval(self, now: u64) -> u64 {
        match self.last_key {
            Some((prev, t0)) => elapsed(t0, now),
            None => 0,
        }
    }

    /// The model table after a correct key `c` at time `now` in this state.
    pub open spec fn after_accept(self, m: Map<(char, char), PairStat>, c: char, now: u64) -> Map<
        (char, char),
        PairStat,
    > {
        match self.last_key {
            Some((prev, t0)) => if is_model_char(prev) && is_model_char(c) {
                let m1 = if elapsed(t0, now) < PAUSE_THRESHOLD_US {
                    with_observation(m, prev, c)
                } else {
                    m
                };
                with_attempt(m1, prev, c, true)
            } else {
                m
            },
            None => m,
        }
    }

    /// True when a correct key `c` at time `now` feeds the speed model.
    pub open spec fn observes(self, c: char, now: u64) -> bool {
        self.last_key matches Some((prev, t0)) && is_model_char(prev) && is_model_char(c)
            && elapsed(t0, now) < PAUSE_THRESHOLD_US
    }

    /// The timing sample a correct key `c` at time `now` hands the speed model.
    pub open spec fn sample_for(self, c: char, now: u64) -> Option<Sample> {
        match self.last_key {
            Some((prev, t0)) => if is_model_char(prev) && is_model_char(c) && elapsed(t0, now)
                < PAUSE_THRESHOLD_US {
                Some(Sample { from: prev, to: c, dt_us: elapsed(t0, now) })
            } else {
                None
            },
            None => None,
        }
    }

    /// The model table after an error of `kind` whose typed key is `got`.
    pub open spec fn after_error(self, m: Map<(char, char), PairStat>, kind: ErrorKind, got: char) -> Map<
        (char, char),
        PairStat,
    > {
        let e = self.expected();
        if kind == ErrorKind::Reversal {
            if is_model_char(e) && is_model_char(got) {
                with_attempt(m, e, got, false)
            } else {
                m
            }
        } else {
            if self.pos > 0 && is_model_char(self.lesson@[self.pos - 1]) && is_model_char(e) {
                with_attempt(m, self.lesson@[self.pos - 1], e, false)
            } else {
                m
            }
        }
    }

    /// The model table after keystroke `c` at time `now` in this state.
    pub open spec fn model_after(self, m: Map<(char, char), PairStat>, c: char, now: u64) -> Map<
        (char, char),
        PairStat,
    > {
        let o = self.outcome_of(c);
        match committed_error(o) {
            Some(kind) => self.after_error(m, kind, self.pending->0),
            None => if o == KeyOutcome::Match {
                self.after_accept(m, c, now)
            } else {
                m
            },
        }
    }

    /// A new session on the characters of `lesson`.
    pub fn new(lesson: String) -> (s: Self)
        ensures
            s.wf(),
            s.lesson@ == lesson@,
            s.typed@ == Seq::<bool>::empty(),
            s.pos == 0,
            s.pending is None,
            s.last_error is None,
            s.insertions == 0,
            s.omissions == 0,
            s.substitutions == 0,
            s.reversals == 0,
            s.correct == 0,
            s.last_key is None,
            s.session_chars == 0,
            s.session_us == 0,
    {
        let text = lesson.as_str();
        let len = text.unicode_len();
        let mut chars: Vec<char> = Vec::new();
        let mut i: usize = 0;
        while i < len
            invariant
                len == text@.len(),
                text@ == lesson@,
                i <= len,
                chars@ == text@.subrange(0, i as int),
            decreases len - i,
        {
            chars.push(text.get_char(i));
            i = i + 1;
        }
        assert(chars@ =~= lesson@);
        Session {
            lesson: chars,
            typed: Vec::new(),
            pos: 0,
            pending: None,
            last_error: None,
            insertions: 0,
            omissions: 0,
            substitutions: 0,
            reversals: 0,
            correct: 0,
            last_key: None,
            session_chars: 0,
            session_us: 0,
        }
    }

    /// How position `i` of the lesson is shown.
    pub open spec fn state_at(self, i: int) -> CharState {
        if i < self.typed@.len() {
            if self.typed@[i] {
                CharState::Correct
            } else {
                CharState::Wrong
            }
        } else if i == self.pos {
            if self.pending is Some {
                CharState::CursorOnMistake
            } else {
                CharState::Cursor
            }
        } else {
            CharState::Upcoming
        }
    }

    /// How position `i` of the lesson is shown: resolved positions by their
    /// correctness, the cursor red while a mistake is pending.
    pub fn char_state(&self, i: usize) -> (r: CharState)
        ensures
            r == self.state_at(i as int),
    {
        if i < self.typed.len() {
            if self.typed[i] {
                CharState::Correct
            } else {
                CharState::Wrong
            }
        } else if i == self.pos {
            if self.pending.is_some() {
                CharState::CursorOnMistake
            } else {
                CharState::Cursor
            }
        } else {
            CharState::Upcoming
        }
    }

    pub fn done(&self) -> (r: bool)
        ensures
            r == self.is_done(),
    {
        self.pos >= self.lesson.len()
    }

    /// Errors of every kind committed so far.
    pub fn errors(&self) -> (r: u64)
        requires
            self.wf(),
        ensures
            r == self.insertions + self.omissions + self.substitutions + self.reversals,
    {
        self.insertions + self.omissions + self.substitutions + self.reversals
    }

    /// Raw session accuracy as a fraction `(correct, attempts)`: correct
    /// keystrokes over attempts, `(1, 1)` before any attempt.
    pub fn raw_accuracy(&self) -> (r: (u64, u64))
        requires
            self.wf(),
        ensures
            self.keystrokes() == 0 ==> r == (1u64, 1u64),
            self.keystrokes() > 0 ==> r.0 == self.correct && r.1 == self.keystrokes(),
            r.0 <= r.1,
            r.1 > 0,
    {
        let attempts = self.correct + self.errors();
        if attempts == 0 {
            return (1, 1);
        }
        (self.correct, attempts)
    }

    /// Raw session speed as `(timed keystrokes, their total microseconds)`;
    /// words per minute are a fifth of the keystrokes per minute.
    pub fn raw_wpm(&self) -> (r: (u64, u64))
        ensures
            r == (self.session_chars, self.session_us),
    {
        (self.session_chars, self.session_us)
    }

    /// Whether one more keystroke fits in the counters of the session and
    /// of `model`.
    pub fn has_room(&self, model: &Model) -> (r: bool)
        requires
            self.wf(),
        ensures
            r == self.room_for_key(model),
    {
        self.correct + self.errors() <= KEYSTROKE_LIMIT - 3 && model.total_obs < u64::MAX
    }

    /// What keystroke `c` at time `now` does: session `s0` and model `m0`
    /// become `s1` and `m1`, and `sample` is handed to the speed estimator.
    pub open spec fn key_step(
        s0: Session,
        m0: Model,
        c: char,
        now: u64,
        s1: Session,
        m1: Model,
        sample: Option<Sample>,
    ) -> bool {
        &&& s0.is_done() ==> s1 == s0 && m1@ == m0@
            && m1.total_obs == m0.total_obs && sample is None
        &&& !s0.is_done() ==> ({
            let o = s0.outcome_of(c);
            let err = committed_error(o);
            let timed = o == KeyOutcome::Match && s0.timed(now);
            &&& s1.lesson@ == s0.lesson@
            &&& s1.typed@ == s0.typed@ + marks(o)
            &&& s1.pos == s0.pos + marks(o).len()
            &&& s1.pending == if leaves_pending(o) {
                Some(c)
            } else {
                None
            }
            &&& s1.last_error == match err {
                Some(kind) => Some(
                    ErrorEvent { kind, got: s0.pending->0, expected: s0.expected() },
                ),
                None => s0.last_error,
            }
            &&& s1.insertions == s0.insertions + count_if(
                err == Some(ErrorKind::Insertion),
            )
            &&& s1.omissions == s0.omissions + count_if(
                err == Some(ErrorKind::Omission),
            )
            &&& s1.substitutions == s0.substitutions + count_if(
                err == Some(ErrorKind::Substitution),
            )
            &&& s1.reversals == s0.reversals + count_if(
                err == Some(ErrorKind::Reversal),
            )
            &&& s1.correct == s0.correct + correct_gain(o)
            &&& s1.last_key == if breaks_chain(o) {
                None
            } else {
                Some((c, now))
            }
            &&& s1.session_chars == s0.session_chars + count_if(timed)
            &&& s1.session_us == s0.session_us + if timed {
                s0.interval(now) as int
            } else {
                0
            }
            &&& m1@ == s0.model_after(m0@, c, now)
            &&& m1.total_obs == m0.total_obs + count_if(
                o == KeyOutcome::Match && s0.observes(c, now),
            )
            &&& sample == if o == KeyOutcome::Match {
                s0.sample_for(c, now)
            } else {
                None
            }
        })
    }

    /// Handles keystroke `c` typed at time `now_us` (microseconds on any
    /// clock that does not run backwards within a session), classifying it
    /// with one-key lookahead and recording its effect on `model`. Returns the
    /// timing sample that the model accepted, if the keystroke produced one.
    pub fn handle_char(&mut self, c: char, now_us: u64, model: &mut Model) -> (sample: Option<
        Sample,
    >)
        requires
            old(self).wf(),
            old(self).room_for_key(old(model)),
        ensures
            final(self).wf(),
            Session::key_step(*old(self), *old(model), c, now_us, *final(self), *final(model), sample),
    {
        let len = self.lesson.len();
        if self.pos >= len {
            return None;
        }
        let expected = self.lesson[self.pos];
        let next = if self.pos + 1 < len {
            Some(self.lesson[self.pos + 1])
        } else {
            None
        };
        let next2 = if len - self.pos > 2 {
            Some(self.lesson[self.pos + 2])
        } else {
            None
        };
        let o = classify(self.pending, expected, next, next2, c);
        match o {
            KeyOutcome::Match => {
                let r = self.accept(expected, now_us, model);
                assert(self.typed@ =~= old(self).typed@ + marks(o));
                r
            },
            KeyOutcome::Mismatch => {
                // Any mismatch, including one matching the next expected char,
                // is ambiguous until the following key; classify then.
                self.pending = Some(c);
                self.last_key = None;
                assert(self.typed@ =~= old(self).typed@ + marks(o));
                None
            },
            KeyOutcome::Reversal => {
                let wrong = self.pending.unwrap();
                self.record_error(ErrorKind::Reversal, wrong, expected, model);
                self.pending = None;
                self.typed.push(false);
                self.typed.push(false);
                self.pos = self.pos + 2;
                // Both swapped positions are wrong: the timing chain stays
                // broken, so no interval adjacent to the swap is timed.
                assert(self.typed@ =~= old(self).typed@ + marks(o));
                None
            },
            KeyOutcome::Omission => {
                let wrong = self.pending.unwrap();
                self.record_error(ErrorKind::Omission, wrong, expected, model);
                self.pending = None;
                self.typed.push(false);
                // The next char was typed correctly (as the pending key).
                self.typed.push(true);
                self.correct = self.correct + 1;
                self.pos = self.pos + 2;
                let r = self.accept(c, now_us, model);
                assert(self.typed@ =~= old(self).typed@ + marks(o));
                r
            },
            KeyOutcome::Insertion => {
                let wrong = self.pending.unwrap();
                self.record_error(ErrorKind::Insertion, wrong, expected, model);
                self.pending = None;
                let r = self.accept(expected, now_us, model);
                assert(self.typed@ =~= old(self).typed@ + marks(o));
                r
            },
            KeyOutcome::Substitution => {
                let wrong = self.pending.unwrap();
                self.record_error(ErrorKind::Substitution, wrong, expected, model);
                self.pending = None;
                self.typed.push(false);
                self.pos = self.pos + 1;
                let r = self.accept(c, now_us, model);
                assert(self.typed@ =~= old(self).typed@ + marks(o));
                r
            },
            KeyOutcome::SubstitutionHeld => {
                // A second unclassifiable key: commit the first mismatch as a
                // substitution for `expected` (advancing past it) and leave the
                // new key pending against the following position.
                let wrong = self.pending.unwrap();
                self.record_error(ErrorKind::Substitution, wrong, expected, model);
                self.typed.push(false);
                self.pos = self.pos + 1;
                self.pending = Some(c);
                assert(self.typed@ =~= old(self).typed@ + marks(o));
                None
            },
        }
    }

    /// What a backspace does: session `s0` becomes `s1`.
    pub open spec fn backspace_step(s0: Session, s1: Session) -> bool {
        &&& s1.lesson@ == s0.lesson@
        &&& s1.insertions == s0.insertions
        &&& s1.omissions == s0.omissions
        &&& s1.substitutions == s0.substitutions
        &&& s1.reversals == s0.reversals
        &&& s1.correct == s0.correct
        &&& s1.session_chars == s0.session_chars
        &&& s1.session_us == s0.session_us
        &&& s1.pending is None
        &&& s0.pending is Some ==> {
            &&& s1.pos == s0.pos
            &&& s1.typed@ == s0.typed@
            &&& s1.last_error is None
            &&& s1.last_key == s0.last_key
        }
        &&& s0.pending is None && s0.pos > 0 ==> {
            &&& s1.pos == s0.pos - 1
            &&& s1.typed@ == s0.typed@.drop_last()
            &&& s1.last_error == s0.last_error
            &&& s1.last_key is None
        }
        &&& s0.pending is None && s0.pos == 0 ==> s1 == s0
    }

    /// Clears an unresolved mistake; otherwise steps the cursor back one
    /// position, breaking the timing chain.
    pub fn handle_backspace(&mut self)
        requires
            old(self).wf(),
        ensures
            final(self).wf(),
            Session::backspace_step(*old(self), *final(self)),
    {
        if self.pending.is_some() {
            // The mismatched key was never committed; just clear it.
            self.pending = None;
            self.last_error = None;
            return;
        }
        if self.pos > 0 {
            self.pos = self.pos - 1;
            self.typed.pop();
            // Exclude intervals adjacent to corrections.
            self.last_key = None;
        }
    }

    /// Counts an error of `kind` at the cursor, where `got` was typed and
    /// `expected` was expected, and breaks the timing chain.
    fn record_error(&mut self, kind: ErrorKind, got: char, expected: char, model: &mut Model)
        requires
            old(self).pos < old(self).lesson@.len(),
            expected == old(self).expected(),
            old(self).keystrokes() + 1 <= KEYSTROKE_LIMIT,
        ensures
            final(self).insertions == old(self).insertions + count_if(kind == ErrorKind::Insertion),
            final(self).omissions == old(self).omissions + count_if(kind == ErrorKind::Omission),
            final(self).substitutions == old(self).substitutions + count_if(
                kind == ErrorKind::Substitution,
            ),
            final(self).reversals == old(self).reversals + count_if(kind == ErrorKind::Reversal),
            final(self).last_error == Some(ErrorEvent { kind, got, expected }),
            final(self).last_key is None,
            final(self).lesson@ == old(self).lesson@,
            final(self).typed@ == old(self).typed@,
            final(self).pos == old(self).pos,
            final(self).pending == old(self).pending,
            final(self).correct == old(self).correct,
            final(self).session_chars == old(self).session_chars,
            final(self).session_us == old(self).session_us,
            final(model)@ == old(self).after_error(old(model)@, kind, got),
            final(model).total_obs == old(model).total_obs,
    {
        match kind {
            ErrorKind::Insertion => self.insertions = self.insertions + 1,
            ErrorKind::Omission => self.omissions = self.omissions + 1,
            ErrorKind::Substitution => self.substitutions = self.substitutions + 1,
            ErrorKind::Reversal => self.reversals = self.reversals + 1,
        }
        self.last_error = Some(ErrorEvent { kind, got, expected });
        match kind {
            // A reversal is an ordering failure of the expected->next
            // transition itself (got == next here).
            ErrorKind::Reversal => {
                if model_char(expected) && model_char(got) {
                    model.record_attempt(expected, got, false);
                }
            },
            // Other errors count against the transition into the expected char.
            _ => {
                if self.pos > 0 {
                    let prev = self.lesson[self.pos - 1];
                    if model_char(prev) && model_char(expected) {
                        model.record_attempt(prev, expected, false);
                    }
                }
            },
        }
        self.last_key = None;
    }

    /// Accepts `c` as the correct char at the cursor at time `now`. Records
    /// timing and an accuracy success only when the keystroke chain is intact.
    fn accept(&mut self, c: char, now: u64, model: &mut Model) -> (sample: Option<Sample>)
        requires
            old(self).pos < old(self).lesson@.len(),
            old(self).keystrokes() + 1 <= KEYSTROKE_LIMIT,
            old(self).session_chars <= old(self).correct,
            old(self).session_us <= old(self).session_chars * PAUSE_THRESHOLD_US,
            old(model).total_obs < u64::MAX,
        ensures
            final(self).typed@ == old(self).typed@.push(true),
            final(self).pos == old(self).pos + 1,
            final(self).correct == old(self).correct + 1,
            final(self).last_key == Some((c, now)),
            final(self).session_chars == old(self).session_chars + count_if(old(self).timed(now)),
            final(self).session_us == old(self).session_us + if old(self).timed(now) {
                old(self).interval(now) as int
            } else {
                0
            },
            final(self).session_us <= final(self).session_chars * PAUSE_THRESHOLD_US,
            final(self).lesson@ == old(self).lesson@,
            final(self).pending == old(self).pending,
            final(self).last_error == old(self).last_error,
            final(self).insertions == old(self).insertions,
            final(self).omissions == old(self).omissions,
            final(self).substitutions == old(self).substitutions,
            final(self).reversals == old(self).reversals,
            final(model)@ == old(self).after_accept(old(model)@, c, now),
            final(model).total_obs == old(model).total_obs + count_if(old(self).observes(c, now)),
            sample == old(self).sample_for(c, now),
    {
        let len = self.lesson.len();
        let mut sample: Option<Sample> = None;
        if let Some((prev, t0)) = self.last_key {
            let dt = if now >= t0 {
                now - t0
            } else {
                0
            };
            if model_char(prev) && model_char(c) {
                if model.observe(prev, c, dt) {
                    proof {
                        lemma_room_for_sample(self.session_chars, self.session_us, dt, self.correct);
                    }
                    self.session_chars = self.session_chars + 1;
                    self.session_us = self.session_us + dt;
                    sample = Some(Sample { from: prev, to: c, dt_us: dt });
                }
                model.record_attempt(prev, c, true);
            } else if dt < PAUSE_THRESHOLD_US {
                proof {
                    lemma_room_for_sample(self.session_chars, self.session_us, dt, self.correct);
                }
                self.session_chars = self.session_chars + 1;
                self.session_us = self.session_us + dt;
            }
        }
        self.correct = self.correct + 1;
        self.last_key = Some((c, now));
        self.typed.push(true);
        assert(self.pos < len);
        self.pos = self.pos + 1;
        sample
    }
}

/// The error table: with a mismatched `w` pending against expected `e`,
/// next `n` and then `n2`, the following key classifies `w`:
/// `w != n` then `e` is an insertion; `w != n` then `n` a substitution;
/// `w == n` then `e` a reversal; `w == n` then `n2` an omission; and
/// `w == n` then `n` again a substitution.
pub proof fn law_error_table(w: char, e: char, n: char, n2: Option<char>)
    requires
        w != e,
        n != e,
    ensures
        w != n ==> outcome(Some(w), e, Some(n), n2, e) == KeyOutcome::Insertion,
        w != n ==> outcome(Some(w), e, Some(n), n2, n) == KeyOutcome::Substitution,
        outcome(Some(n), e, Some(n), n2, e) == KeyOutcome::Reversal,
        n2 is Some && n2->0 != e ==> outcome(Some(n), e, Some(n), n2, n2->0) == KeyOutcome::Omission,
        !holds(n2, n) ==> outcome(Some(n), e, Some(n), n2, n) == KeyOutcome::Substitution,
{
}

/// The cursor never moves past an unresolved mistake: a wrong key with
/// nothing pending leaves the cursor, the marks, the counters and the model
/// as they were, and waits as the pending key.
pub proof fn law_mismatch_waits(
    s0: Session,
    m0: Model,
    c: char,
    now: u64,
    s1: Session,
    m1: Model,
    sample: Option<Sample>,
)
    requires
        s0.wf(),
        !s0.is_done(),
        s0.pending is None,
        c != s0.expected(),
        Session::key_step(s0, m0, c, now, s1, m1, sample),
    ensures
        s1.pos == s0.pos,
        s1.typed@ == s0.typed@,
        s1.pending == Some(c),
        s1.error_count() == s0.error_count(),
        s1.correct == s0.correct,
        m1@ == m0@,
        sample is None,
{
    assert(marks(KeyOutcome::Mismatch) =~= Seq::<bool>::empty());
    assert(s1.typed@ =~= s0.typed@);
}

/// Each keystroke commits at most one error; the error count grows by one
/// exactly when it does, and the last error then names its kind, the typed
/// key and the expected one.
pub proof fn law_one_error_per_key(
    s0: Session,
    m0: Model,
    c: char,
    now: u64,
    s1: Session,
    m1: Model,
    sample: Option<Sample>,
)
    requires
        s0.wf(),
        !s0.is_done(),
        Session::key_step(s0, m0, c, now, s1, m1, sample),
    ensures
        s1.error_count() == s0.error_count() + count_if(committed_error(s0.outcome_of(c)) is Some),
        committed_error(s0.outcome_of(c)) matches Some(k) ==> s1.last_error == Some(
            ErrorEvent { kind: k, got: s0.pending->0, expected: s0.expected() },
        ),
        committed_error(s0.outcome_of(c)) is Some ==> s0.pending is Some,
{
}

/// Every error counts against the accuracy of the transition it occurred
/// on: the transition into the expected key, or for a reversal the swapped
/// transition itself, when the model tracks both keys.
pub proof fn law_error_charges_transition(
    s0: Session,
    m0: Model,
    c: char,
    now: u64,
    s1: Session,
    m1: Model,
    sample: Option<Sample>,
)
    requires
        s0.wf(),
        !s0.is_done(),
        Session::key_step(s0, m0, c, now, s1, m1, sample),
    ensures
        committed_error(s0.outcome_of(c)) == Some(ErrorKind::Reversal) && is_model_char(
            s0.expected(),
        ) && is_model_char(s0.pending->0) ==> m1.stat(s0.expected(), s0.pending->0) == m0.stat(
            s0.expected(),
            s0.pending->0,
        ).attempted(false),
        committed_error(s0.outcome_of(c)) is Some && committed_error(s0.outcome_of(c)) != Some(
            ErrorKind::Reversal,
        ) && s0.pos > 0 && is_model_char(s0.lesson@[s0.pos - 1]) && is_model_char(s0.expected())
            ==> m1.stat(s0.lesson@[s0.pos - 1], s0.expected()) == m0.stat(
            s0.lesson@[s0.pos - 1],
            s0.expected(),
        ).attempted(false),
{
}

/// No fabricated interval reaches the speed model: a keystroke yields a
/// sample or an observation only when it is a clean match and the timing
/// chain is intact (`last_key` holds the previous key).
pub proof fn law_only_clean_intervals(
    s0: Session,
    m0: Model,
    c: char,
    now: u64,
    s1: Session,
    m1: Model,
    sample: Option<Sample>,
)
    requires
        s0.wf(),
        Session::key_step(s0, m0, c, now, s1, m1, sample),
        s0.outcome_of(c) != KeyOutcome::Match || s0.last_key is None || s0.is_done(),
    ensures
        sample is None,
        m1.total_obs == m0.total_obs,
        s1.session_chars == s0.session_chars,
        s1.session_us == s0.session_us,
{
}

/// A correction breaks the timing chain: the key after a backspace yields
/// no sample and no observation.
pub proof fn law_correction_breaks_chain(
    s0: Session,
    s1: Session,
    m1: Model,
    c: char,
    now: u64,
    s2: Session,
    m2: Model,
    sample: Option<Sample>,
)
    requires
        s0.wf(),
        s0.pending is Some || s0.pos > 0,
        Session::backspace_step(s0, s1),
        Session::key_step(s1, m1, c, now, s2, m2, sample),
    ensures
        sample is None,
        m2.total_obs == m1.total_obs,
{
}

/// A backspace undoes a clean keystroke: the cursor and the marks return to
/// where they were before it.
pub proof fn law_backspace_undoes_match(
    s0: Session,
    m0: Model,
    c: char,
    now: u64,
    s1: Session,
    m1: Model,
    sample: Option<Sample>,
    s2: Session,
)
    requires
        s0.wf(),
        !s0.is_done(),
        c == s0.expected(),
        s0.pending is None,
        Session::key_step(s0, m0, c, now, s1, m1, sample),
        Session::backspace_step(s1, s2),
    ensures
        s2.pos == s0.pos,
        s2.typed@ == s0.typed@,
        s2.pending is None,
{
    assert(s1.typed@.drop_last() =~= s0.typed@);
}

/// A backspace on a pending mistake discards it without moving the cursor.
pub proof fn law_backspace_clears_pending(s0: Session, s1: Session)
    requires
        s0.wf(),
        s0.pending is Some,
        Session::backspace_step(s0, s1),
    ensures
        s1.pending is None,
        s1.pos == s0.pos,
        s1.typed@ == s0.typed@,
        s1.error_count() == s0.error_count(),
{
}

/// An error breaks the timing chain: after a keystroke that leaves a key
/// pending or completes a swap, the next keystroke yields no sample and no
/// observation, whatever it is.
pub proof fn law_error_breaks_chain(
    s0: Session,
    m0: Model,
    c: char,
    now: u64,
    s1: Session,
    m1: Model,
    sample: Option<Sample>,
    c2: char,
    now2: u64,
    s2: Session,
    m2: Model,
    sample2: Option<Sample>,
)
    requires
        s0.wf(),
        !s0.is_done(),
        breaks_chain(s0.outcome_of(c)),
        Session::key_step(s0, m0, c, now, s1, m1, sample),
        Session::key_step(s1, m1, c2, now2, s2, m2, sample2),
    ensures
        s1.last_key is None,
        sample is None,
        sample2 is None,
        m2.total_obs == m1.total_obs,
        s2.session_chars == s1.session_chars,
{
}

/// Each keystroke only moves forward: the lesson stays, the cursor never
/// moves back, the earlier marks stay as a prefix, no counter decreases, and
/// at most one error is committed.
pub proof fn law_key_moves_forward(
    s0: Session,
    m0: Model,
    c: char,
    now: u64,
    s1: Session,
    m1: Model,
    sample: Option<Sample>,
)
    requires
        s0.wf(),
        Session::key_step(s0, m0, c, now, s1, m1, sample),
    ensures
        s1.lesson@ == s0.lesson@,
        s1.pos >= s0.pos,
        s1.typed@.len() >= s0.typed@.len(),
        s1.typed@.subrange(0, s0.typed@.len() as int) == s0.typed@,
        s1.insertions >= s0.insertions,
        s1.omissions >= s0.omissions,
        s1.substitutions >= s0.substitutions,
        s1.reversals >= s0.reversals,
        s1.correct >= s0.correct,
        s1.error_count() <= s0.error_count() + 1,
{
    if !s0.is_done() {
        let o = s0.outcome_of(c);
        assert(s1.typed@.subrange(0, s0.typed@.len() as int) =~= s0.typed@);
    }
}

/// A clean keystroke that follows a correct key within the pause threshold
/// is timed: when both keys are lowercase letters or spaces (the same key
/// twice included), it hands out the interval as a sample, and the pair's
/// observation count, its correct-attempt count and the model's total each
/// grow by one (counts saturate at their maximum).
pub proof fn law_clean_match_timed(
    s0: Session,
    m0: Model,
    c: char,
    now: u64,
    s1: Session,
    m1: Model,
    sample: Option<Sample>,
    p: char,
    t0: u64,
)
    requires
        s0.wf(),
        s0.pos < s0.lesson@.len(),
        s0.pending is None,
        c == s0.lesson@[s0.pos as int],
        s0.last_key == Some((p, t0)),
        ('a' <= p && p <= 'z') || p == ' ',
        ('a' <= c && c <= 'z') || c == ' ',
        t0 <= now,
        now - t0 < PAUSE_THRESHOLD_US,
        Session::key_step(s0, m0, c, now, s1, m1, sample),
    ensures
        sample == Some(Sample { from: p, to: c, dt_us: (now - t0) as u64 }),
        m1.total_obs == m0.total_obs + 1,
        m1@.contains_key((p, c)),
        m1.stat(p, c).n == if m0.stat(p, c).n == u32::MAX {
            u32::MAX as int
        } else {
            m0.stat(p, c).n + 1
        },
        m1.stat(p, c).ok == if m0.stat(p, c).ok == u32::MAX {
            u32::MAX as int
        } else {
            m0.stat(p, c).ok + 1
        },
        m1.stat(p, c).err == m0.stat(p, c).err,
        s1.session_chars == s0.session_chars + 1,
        s1.session_us == s0.session_us + (now - t0),
        s1.pos == s0.pos + 1,
        s1.last_key == Some((c, now)),
{
}

/// How a lesson position is shown: resolved positions by their mark, the
/// cursor red exactly while a mismatched key is pending (whatever errors were
/// committed before), and later positions as upcoming.
pub proof fn law_position_states(s: Session, i: int)
    requires
        s.wf(),
        0 <= i,
    ensures
        i < s.pos ==> (s.state_at(i) == CharState::Correct) == s.typed@[i],
        i < s.pos ==> (s.state_at(i) == CharState::Wrong) == !s.typed@[i],
        (s.state_at(s.pos as int) == CharState::CursorOnMistake) == (s.pending is Some),
        (s.state_at(s.pos as int) == CharState::Cursor) == (s.pending is None),
        i > s.pos ==> s.state_at(i) == CharState::Upcoming,
{
}

/// With nothing pending, a backspace always steps the cursor back one
/// position and drops the last mark, whatever the timing chain holds.
pub proof fn law_backspace_steps_back(s0: Session, s1: Session)
    requires
        s0.wf(),
        s0.pending is None,
        s0.pos > 0,
        Session::backspace_step(s0, s1),
    ensures
        s1.pos == s0.pos - 1,
        s1.typed@ == s0.typed@.subrange(0, s0.pos - 1),
        s1.wf(),
{
    assert(s0.typed@.drop_last() =~= s0.typed@.subrange(0, s0.pos - 1));
}

/// Two backspaces in a row, with nothing pending and at least two resolved
/// positions, step the cursor back two positions and drop the last two marks.
pub proof fn law_two_backspaces(s0: Session, s1: Session, s2: Session)
    requires
        s0.wf(),
        s0.pending is None,
        s0.pos >= 2,
        Session::backspace_step(s0, s1),
        Session::backspace_step(s1, s2),
    ensures
        s2.pos == s0.pos - 2,
        s2.typed@ == s0.typed@.subrange(0, s0.pos - 2),
{
    assert(s0.typed@.drop_last() =~= s0.typed@.subrange(0, s0.pos - 1));
    assert(s1.typed@.drop_last() =~= s0.typed@.subrange(0, s0.pos - 2));
}

/// A clean keystroke after a pause of two seconds or more is not timed:
/// no sample, no observation, no timed keystroke; when both keys are
/// lowercase letters or spaces the attempt still counts as correct.
pub proof fn law_clean_match_after_pause(
    s0: Session,
    m0: Model,
    c: char,
    now: u64,
    s1: Session,
    m1: Model,
    sample: Option<Sample>,
    p: char,
    t0: u64,
)
    requires
        s0.wf(),
        s0.pos < s0.lesson@.len(),
        s0.pending is None,
        c == s0.lesson@[s0.pos as int],
        s0.last_key == Some((p, t0)),
        t0 <= now,
        now - t0 >= 2_000_000,
        Session::key_step(s0, m0, c, now, s1, m1, sample),
    ensures
        sample is None,
        m1.total_obs == m0.total_obs,
        m1.stat(p, c).n == m0.stat(p, c).n,
        s1.session_chars == s0.session_chars,
        s1.session_us == s0.session_us,
        (('a' <= p && p <= 'z') || p == ' ') && (('a' <= c && c <= 'z') || c == ' ') ==> m1.stat(
            p,
            c,
        ).ok == if m0.stat(p, c).ok == u32::MAX {
            u32::MAX as int
        } else {
            m0.stat(p, c).ok + 1
        },
        s1.pos == s0.pos + 1,
        s1.correct == s0.correct + 1,
{
}

/// A clean keystroke involving a key the model does not track (anything but
/// a lowercase letter or a space) leaves the model untouched; its interval is
/// still timed when under two seconds.
pub proof fn law_clean_match_untracked(
    s0: Session,
    m0: Model,
    c: char,
    now: u64,
    s1: Session,
    m1: Model,
    sample: Option<Sample>,
    p: char,
    t0: u64,
)
    requires
        s0.wf(),
        s0.pos < s0.lesson@.len(),
        s0.pending is None,
        c == s0.lesson@[s0.pos as int],
        s0.last_key == Some((p, t0)),
        !(('a' <= p && p <= 'z') || p == ' ') || !(('a' <= c && c <= 'z') || c == ' '),
        t0 <= now,
        Session::key_step(s0, m0, c, now, s1, m1, sample),
    ensures
        sample is None,
        m1@ == m0@,
        m1.total_obs == m0.total_obs,
        now - t0 < 2_000_000 ==> s1.session_chars == s0.session_chars + 1 && s1.session_us
            == s0.session_us + (now - t0),
        now - t0 >= 2_000_000 ==> s1.session_chars == s0.session_chars && s1.session_us
            == s0.session_us,
{
}

/// A clean keystroke with the timing chain broken (no previous key) is not
/// timed and leaves the model untouched; it still advances the cursor and
/// restarts the chain at itself.
pub proof fn law_clean_match_starts_chain(
    s0: Session,
    m0: Model,
    c: char,
    now: u64,
    s1: Session,
    m1: Model,
    sample: Option<Sample>,
)
    requires
        s0.wf(),
        s0.pos < s0.lesson@.len(),
        s0.pending is None,
        c == s0.lesson@[s0.pos as int],
        s0.last_key is None,
        Session::key_step(s0, m0, c, now, s1, m1, sample),
    ensures
        sample is None,
        m1@ == m0@,
        m1.total_obs == m0.total_obs,
        s1.session_chars == s0.session_chars,
        s1.session_us == s0.session_us,
        s1.typed@ == s0.typed@.push(true),
        s1.pos == s0.pos + 1,
        s1.correct == s0.correct + 1,
        s1.last_key == Some((c, now)),
        s1.pending is None,
        s1.error_count() == s0.error_count(),
{
    assert(s1.typed@ =~= s0.typed@.push(true));
}

/// How a pending mismatch `w` is resolved by the next key `c`, with `e`
/// expected, `n` after it and `n2` after that; each row says which marks are
/// added, how far the cursor moves and which counters grow:
/// - `c == e`, `w != n`: insertion; one correct mark.
/// - `c == e`, `w == n`: reversal; two wrong marks; the chain stays broken.
/// - `c == n2 != e`, `w == n`: omission; wrong, correct, correct.
/// - `c == n != e`, not an omission: substitution; wrong, correct.
/// - `c` neither `e` nor `n`, not an omission: substitution; one wrong mark,
///   and `c` waits against the next position.
pub proof fn law_resolution_rows(
    s0: Session,
    m0: Model,
    c: char,
    now: u64,
    s1: Session,
    m1: Model,
    sample: Option<Sample>,
    w: char,
)
    requires
        s0.wf(),
        s0.pos < s0.lesson@.len(),
        s0.pending == Some(w),
        Session::key_step(s0, m0, c, now, s1, m1, sample),
    ensures
        ({
            let pos = s0.pos as int;
            let l = s0.lesson@;
            let e = l[pos];
            let w_is_n = pos + 1 < l.len() && l[pos + 1] == w;
            let c_is_n = pos + 1 < l.len() && l[pos + 1] == c;
            let c_is_n2 = pos + 2 < l.len() && l[pos + 2] == c;
            let ev = Some(ErrorEvent { kind: ErrorKind::Insertion, got: w, expected: e });
            &&& sample is None
            &&& s1.lesson@ == l
            &&& (c == e && !w_is_n) ==> {
                &&& s1.typed@ == s0.typed@.push(true)
                &&& s1.pos == pos + 1
                &&& s1.insertions == s0.insertions + 1
                &&& s1.error_count() == s0.error_count() + 1
                &&& s1.correct == s0.correct + 1
                &&& s1.pending is None
                &&& s1.last_error == ev
                &&& s1.last_key == Some((c, now))
            }
            &&& (c == e && w_is_n) ==> {
                &&& s1.typed@ == s0.typed@ + seq![false, false]
                &&& s1.pos == pos + 2
                &&& s1.reversals == s0.reversals + 1
                &&& s1.error_count() == s0.error_count() + 1
                &&& s1.correct == s0.correct
                &&& s1.pending is None
                &&& s1.last_key is None
                &&& s1.last_error == Some(ErrorEvent { kind: ErrorKind::Reversal, got: w, expected: e })
            }
            &&& (c != e && w_is_n && c_is_n2) ==> {
                &&& s1.typed@ == s0.typed@ + seq![false, true, true]
                &&& s1.pos == pos + 3
                &&& s1.omissions == s0.omissions + 1
                &&& s1.error_count() == s0.error_count() + 1
                &&& s1.correct == s0.correct + 2
                &&& s1.pending is None
                &&& s1.last_key == Some((c, now))
            }
            &&& (c != e && c_is_n && !(w_is_n && c_is_n2)) ==> {
                &&& s1.typed@ == s0.typed@ + seq![false, true]
                &&& s1.pos == pos + 2
                &&& s1.substitutions == s0.substitutions + 1
                &&& s1.error_count() == s0.error_count() + 1
                &&& s1.correct == s0.correct + 1
                &&& s1.pending is None
                &&& s1.last_key == Some((c, now))
            }
            &&& (c != e && !c_is_n && !(w_is_n && c_is_n2)) ==> {
                &&& s1.typed@ == s0.typed@.push(false)
                &&& s1.pos == pos + 1
                &&& s1.substitutions == s0.substitutions + 1
                &&& s1.error_count() == s0.error_count() + 1
                &&& s1.correct == s0.correct
                &&& s1.pending == Some(c)
                &&& s1.last_key is None
            }
        }),
{
    let l = s0.lesson@;
    let pos = s0.pos as int;
    assert(s0.typed@ + seq![true] =~= s0.typed@.push(true));
    assert(s0.typed@ + seq![false] =~= s0.typed@.push(false));
}

} // verus!
