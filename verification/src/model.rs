//! Per-transition (digram) bookkeeping of the typing model: observation
//! counts, attempt outcomes and outlier rejection of timing samples.

use std::collections::HashMap;
use vstd::prelude::*;
use vstd::string::StrSliceExecFns;

verus! {

broadcast use vstd::std_specs::hash::group_hash_axioms;

/// Intervals of this many microseconds or more are treated as pauses and
/// discarded.
pub const PAUSE_THRESHOLD_US: u64 = 2_000_000;

/// Pseudo-count of prior attempts blended into accuracy estimates.
pub const ACC_PRIOR_N: u64 = 10;

/// Prior accuracy, in percent, blended into accuracy estimates.
pub const ACC_PRIOR_PERCENT: u64 = 97;

/// Multiplier that packs the first character of a pair above the second.
pub const PAIR_CODE_SHIFT: u64 = 0x20_0000;

/// Counts kept for one transition `a -> b`.
#[derive(Clone, Copy, Debug, PartialEq, Eq)]
pub struct PairStat {
    /// Number of accepted timing observations.
    pub n: u32,
    /// Correct attempts at this transition.
    pub ok: u32,
    /// Errored attempts at this transition.
    pub err: u32,
}

impl PairStat {
    /// Numerator of the prior-blended accuracy, scaled by 100.
    pub open spec fn accuracy_num(self) -> int {
        100 * self.ok + ACC_PRIOR_N * ACC_PRIOR_PERCENT
    }

    /// Denominator of the prior-blended accuracy, scaled by 100.
    pub open spec fn accuracy_den(self) -> int {
        100 * (self.ok + self.err + ACC_PRIOR_N)
    }

    /// The statistics of a transition that was never seen.
    pub open spec fn fresh() -> PairStat {
        PairStat { n: 0, ok: 0, err: 0 }
    }

    /// The statistics after one more accepted timing observation.
    pub open spec fn observed(self) -> PairStat {
        PairStat { n: self.n.saturating_add(1), ok: self.ok, err: self.err }
    }

    /// The statistics after one more attempt, correct or not.
    pub open spec fn attempted(self, correct: bool) -> PairStat {
        if correct {
            PairStat { n: self.n, ok: self.ok.saturating_add(1), err: self.err }
        } else {
            PairStat { n: self.n, ok: self.ok, err: self.err.saturating_add(1) }
        }
    }
}

impl Default for PairStat {
    fn default() -> (r: Self)
        ensures
            r == PairStat::fresh(),
    {
        PairStat { n: 0, ok: 0, err: 0 }
    }
}

/// The integer a pair of characters is stored under.
pub open spec fn pair_code_spec(a: char, b: char) -> int {
    (a as int) * (PAIR_CODE_SHIFT as int) + (b as int)
}

/// A character's code point lies in the Unicode range.
proof fn lemma_char_range(c: char)
    ensures
        0 <= c as int <= 0x10FFFF,
        !(0xD800 <= c as int <= 0xDFFF),
        c as u32 == c as int,
{
}

/// The code of a pair fits in 48 bits.
proof fn lemma_pair_code_range(a: char, b: char)
    ensures
        0 <= pair_code_spec(a, b) < 0x1_0000_0000_0000,
{
    lemma_char_range(a);
    lemma_char_range(b);
    let (x, y) = (a as int, b as int);
    assert(0 <= x * 0x20_0000 + y < 0x1_0000_0000_0000) by (nonlinear_arith)
        requires
            0 <= x <= 0x10FFFF,
            0 <= y <= 0x10FFFF,
    ;
}

/// Packing a high part above a low part below the shift is one to one.
proof fn lemma_pair_code_injective_int(x: int, y: int, u: int, v: int)
    requires
        x * (PAIR_CODE_SHIFT as int) + y == u * (PAIR_CODE_SHIFT as int) + v,
        0 <= y < PAIR_CODE_SHIFT,
        0 <= v < PAIR_CODE_SHIFT,
        0 <= x,
        0 <= u,
    ensures
        x == u,
        y == v,
{
    let k = PAIR_CODE_SHIFT as int;
    assert(x == u && y == v) by (nonlinear_arith)
        requires
            x * k + y == u * k + v,
            0 <= y < k,
            0 <= v < k,
            0 <= x,
            0 <= u,
    {
        if x < u {
            assert(x * k + k <= u * k);
        } else if u < x {
            assert(u * k + k <= x * k);
        }
    }
}

/// Distinct pairs of characters have distinct codes.
pub proof fn lemma_pair_code_injective(a: char, b: char, c: char, d: char)
    requires
        pair_code_spec(a, b) == pair_code_spec(c, d),
    ensures
        a == c,
        b == d,
{
    lemma_char_range(a);
    lemma_char_range(b);
    lemma_char_range(c);
    lemma_char_range(d);
    lemma_pair_code_injective_int(a as int, b as int, c as int, d as int);
}

/// True when `x` is the code point of some `char`.
pub open spec fn is_scalar_value(x: u32) -> bool {
    x <= 0x10FFFF && !(0xD800 <= x <= 0xDFFF)
}

/// The `char` whose code point is `x`, if there is one.
///
/// Calls `char::from_u32`, which std documents to return `None` exactly when
/// `x` is a surrogate or above the Unicode range, and the character with that
/// code point otherwise.
#[verifier::external_body]
fn char_from_u32(x: u32) -> (r: Option<char>)
    ensures
        r is Some <==> is_scalar_value(x),
        r matches Some(c) ==> c as u32 == x,
{
    char::from_u32(x)
}

/// Appends `c` to `s`.
///
/// Calls `String::push`, which std documents to append the character to the
/// end of the string.
#[verifier::external_body]
fn push_char(s: &mut String, c: char)
    ensures
        final(s)@ == old(s)@.push(c),
{
    s.push(c)
}

/// The two-character text of a transition, e.g. `"th"`.
pub fn pair_key(a: char, b: char) -> (k: String)
    ensures
        k@ == seq![a, b],
{
    let mut k = String::new();
    push_char(&mut k, a);
    push_char(&mut k, b);
    k
}

/// The transition whose two-character text is `key`, if it has exactly two
/// characters.
pub fn pair_from_key(key: &str) -> (r: Option<(char, char)>)
    ensures
        key@.len() == 2 ==> r == Some((key@[0], key@[1])),
        key@.len() != 2 ==> r is None,
{
    if key.unicode_len() != 2 {
        return None;
    }
    Some((key.get_char(0), key.get_char(1)))
}

/// The key under which the transition `a -> b` is stored in a [`Model`].
pub fn pair_code(a: char, b: char) -> (code: u64)
    ensures
        code as int == pair_code_spec(a, b),
{
    let x = a as u64;
    let y = b as u64;
    assert(x * PAIR_CODE_SHIFT + y < 0x1_0000_0000_0000) by (nonlinear_arith)
        requires
            x <= 0x10FFFF,
            y <= 0x10FFFF,
            PAIR_CODE_SHIFT == 0x20_0000,
    ;
    x * PAIR_CODE_SHIFT + y
}

/// `r` is the pair whose code is `code`, or `None` when no pair has it.
pub open spec fn decodes_to(code: u64, r: Option<(char, char)>) -> bool {
    &&& r matches Some((a, b)) ==> pair_code_spec(a, b) == code
    &&& r is None ==> forall|a: char, b: char| pair_code_spec(a, b) != code
}

/// The transition stored under `code`, if `code` is the code of one.
pub fn pair_from_code(code: u64) -> (r: Option<(char, char)>)
    ensures
        decodes_to(code, r),
{
    let hi = code / PAIR_CODE_SHIFT;
    let lo = code % PAIR_CODE_SHIFT;
    if hi > 0x10FFFF {
        proof {
            assert forall|a: char, b: char| pair_code_spec(a, b) != code by {
                lemma_char_range(a);
                lemma_char_range(b);
                if pair_code_spec(a, b) == code {
                    assert(code / PAIR_CODE_SHIFT == a as int) by (nonlinear_arith)
                        requires
                            code == (a as int) * 0x20_0000 + (b as int),
                            0 <= b as int <= 0x10FFFF,
                            0 <= a as int,
                            PAIR_CODE_SHIFT == 0x20_0000,
                    ;
                }
            }
        }
        return None;
    }
    let ra = char_from_u32(hi as u32);
    let rb = char_from_u32(lo as u32);
    assert(code == hi * PAIR_CODE_SHIFT + lo) by (nonlinear_arith)
        requires
            hi == code / PAIR_CODE_SHIFT,
            lo == code % PAIR_CODE_SHIFT,
            PAIR_CODE_SHIFT == 0x20_0000,
    ;
    match (ra, rb) {
        (Some(a), Some(b)) => {
            proof {
                lemma_char_range(a);
                lemma_char_range(b);
            }
            Some((a, b))
        },
        _ => {
            proof {
                assert forall|a: char, b: char| pair_code_spec(a, b) != code by {
                    lemma_char_range(a);
                    lemma_char_range(b);
                    if pair_code_spec(a, b) == code {
                        lemma_pair_code_injective_int(a as int, b as int, hi as int, lo as int);
                        assert(is_scalar_value(a as u32));
                        assert(is_scalar_value(b as u32));
                    }
                }
            }
            None
        },
    }
}

/// Counts for every transition seen so far.
pub struct Model {
    /// Pair statistics keyed by [`pair_code`].
    pub pairs: HashMap<u64, PairStat>,
    /// Total accepted timing observations across all pairs.
    pub total_obs: u64,
}

/// The pairs of characters that a table keyed by [`pair_code`] holds.
pub open spec fn pairs_view(m: Map<u64, PairStat>) -> Map<(char, char), PairStat> {
    Map::new(
        |p: (char, char)| m.contains_key(pair_code_spec(p.0, p.1) as u64),
        |p: (char, char)| m[pair_code_spec(p.0, p.1) as u64],
    )
}

/// Storing under the code of `(a, b)` stores under `(a, b)` and nowhere else.
proof fn lemma_pairs_view_insert(m: Map<u64, PairStat>, a: char, b: char, v: PairStat)
    ensures
        pairs_view(m.insert(pair_code_spec(a, b) as u64, v)) == pairs_view(m).insert((a, b), v),
{
    let code = pair_code_spec(a, b) as u64;
    assert forall|p: (char, char)| #[trigger] pair_code_spec(p.0, p.1) as u64 == code implies p == (a, b) by {
        lemma_pair_code_range(p.0, p.1);
        lemma_pair_code_range(a, b);
        lemma_pair_code_injective(p.0, p.1, a, b);
    }
    assert(pairs_view(m.insert(code, v)) =~= pairs_view(m).insert((a, b), v));
}

/// The statistics a table holds for `a -> b`, fresh ones when it holds none.
pub open spec fn stat_in(m: Map<(char, char), PairStat>, a: char, b: char) -> PairStat {
    if m.contains_key((a, b)) {
        m[(a, b)]
    } else {
        PairStat::fresh()
    }
}

/// A table after one more attempt at `a -> b`.
pub open spec fn with_attempt(
    m: Map<(char, char), PairStat>,
    a: char,
    b: char,
    correct: bool,
) -> Map<(char, char), PairStat> {
    m.insert((a, b), stat_in(m, a, b).attempted(correct))
}

/// A table after one more accepted timing observation of `a -> b`.
pub open spec fn with_observation(m: Map<(char, char), PairStat>, a: char, b: char) -> Map<
    (char, char),
    PairStat,
> {
    m.insert((a, b), stat_in(m, a, b).observed())
}

impl View for Model {
    type V = Map<(char, char), PairStat>;

    open spec fn view(&self) -> Map<(char, char), PairStat> {
        pairs_view(self.pairs@)
    }
}

impl Default for Model {
    fn default() -> (m: Self)
        ensures
            m@ == Map::<(char, char), PairStat>::empty(),
            m.total_obs == 0,
    {
        let m = Model { pairs: HashMap::new(), total_obs: 0 };
        assert(m@ =~= Map::<(char, char), PairStat>::empty());
        m
    }
}

impl Model {
    /// The statistics of `a -> b`, fresh ones when the pair was never seen.
    pub open spec fn stat(self, a: char, b: char) -> PairStat {
        stat_in(self@, a, b)
    }

    /// Reads the statistics of `a -> b`, fresh ones when the pair was never seen.
    fn stat_of(&self, a: char, b: char) -> (st: PairStat)
        ensures
            st == self.stat(a, b),
    {
        let code = pair_code(a, b);
        match self.pairs.get(&code) {
            Some(st) => *st,
            None => PairStat::default(),
        }
    }

    /// Stores `st` as the statistics of `a -> b`, leaving every other pair
    /// and the observation total as they were.
    pub fn set_pair(&mut self, a: char, b: char, st: PairStat)
        ensures
            final(self)@ == old(self)@.insert((a, b), st),
            final(self).total_obs == old(self).total_obs,
    {
        let code = pair_code(a, b);
        proof {
            lemma_pairs_view_insert(self.pairs@, a, b, st);
        }
        self.pairs.insert(code, st);
    }

    /// Observe key `a` followed by key `b` after `dt_us` microseconds.
    /// Returns false, and changes nothing, when the interval is a pause.
    pub fn observe(&mut self, a: char, b: char, dt_us: u64) -> (accepted: bool)
        requires
            dt_us < PAUSE_THRESHOLD_US ==> old(self).total_obs < u64::MAX,
        ensures
            accepted == (dt_us < PAUSE_THRESHOLD_US),
            accepted ==> final(self)@ == with_observation(old(self)@, a, b),
            accepted ==> final(self).total_obs == old(self).total_obs + 1,
            !accepted ==> final(self)@ == old(self)@,
            !accepted ==> final(self).total_obs == old(self).total_obs,
    {
        if dt_us >= PAUSE_THRESHOLD_US {
            return false;
        }
        let st = self.stat_of(a, b);
        self.set_pair(a, b, PairStat { n: st.n.saturating_add(1), ok: st.ok, err: st.err });
        self.total_obs = self.total_obs + 1;
        true
    }

    /// Record whether an attempt at the transition `a -> b` was typed correctly.
    pub fn record_attempt(&mut self, a: char, b: char, correct: bool)
        ensures
            final(self)@ == with_attempt(old(self)@, a, b, correct),
            final(self).total_obs == old(self).total_obs,
    {
        let st = self.stat_of(a, b);
        let next = if correct {
            PairStat { n: st.n, ok: st.ok.saturating_add(1), err: st.err }
        } else {
            PairStat { n: st.n, ok: st.ok, err: st.err.saturating_add(1) }
        };
        self.set_pair(a, b, next);
    }

    /// Number of accepted timing observations of `a -> b`.
    pub fn pair_count(&self, a: char, b: char) -> (n: u32)
        ensures
            n == self.stat(a, b).n,
    {
        self.stat_of(a, b).n
    }

    /// True if this pair has any speed observations or accuracy attempts.
    pub fn has_pair(&self, a: char, b: char) -> (r: bool)
        ensures
            r == (self.stat(a, b).n > 0 || self.stat(a, b).ok > 0 || self.stat(a, b).err > 0),
    {
        let st = self.stat_of(a, b);
        st.n > 0 || st.ok > 0 || st.err > 0
    }

    /// Raw `(ok, err)` attempt counts for a transition.
    pub fn pair_attempts(&self, a: char, b: char) -> (r: (u32, u32))
        ensures
            r == (self.stat(a, b).ok, self.stat(a, b).err),
    {
        let st = self.stat_of(a, b);
        (st.ok, st.err)
    }

    /// Prior-blended accuracy estimate of a transition, as a fraction
    /// `(numerator, denominator)`: `(ok + 9.7) / (ok + err + 10)` scaled by 100.
    pub fn pair_accuracy(&self, a: char, b: char) -> (r: (u64, u64))
        ensures
            r.0 == self.stat(a, b).accuracy_num(),
            r.1 == self.stat(a, b).accuracy_den(),
            0 < r.0 <= r.1,
    {
        let st = self.stat_of(a, b);
        let ok = st.ok as u64;
        let err = st.err as u64;
        (100 * ok + ACC_PRIOR_N * ACC_PRIOR_PERCENT, 100 * (ok + err + ACC_PRIOR_N))
    }
}

/// Decoding the code of a pair gives the pair back.
pub proof fn law_pair_code_round_trip(a: char, b: char, r: Option<(char, char)>)
    requires
        decodes_to(pair_code_spec(a, b) as u64, r),
    ensures
        r == Some((a, b)),
{
    lemma_pair_code_range(a, b);
    if let Some((x, y)) = r {
        lemma_pair_code_range(x, y);
        lemma_pair_code_injective(x, y, a, b);
    }
}

/// Reading a transition after recording an attempt at it gives the attempt
/// back: one more correct or one more errored attempt (until the count
/// saturates), the observation count unchanged; every other transition
/// reads as before.
pub proof fn law_attempt_read_back(
    m: Map<(char, char), PairStat>,
    a: char,
    b: char,
    correct: bool,
    x: char,
    y: char,
)
    ensures
        stat_in(with_attempt(m, a, b, correct), a, b) == stat_in(m, a, b).attempted(correct),
        stat_in(with_attempt(m, a, b, correct), a, b).n == stat_in(m, a, b).n,
        correct && stat_in(m, a, b).ok < u32::MAX ==> stat_in(with_attempt(m, a, b, correct), a, b).ok
            == stat_in(m, a, b).ok + 1,
        !correct && stat_in(m, a, b).err < u32::MAX ==> stat_in(
            with_attempt(m, a, b, correct),
            a,
            b,
        ).err == stat_in(m, a, b).err + 1,
        (x, y) != (a, b) ==> stat_in(with_attempt(m, a, b, correct), x, y) == stat_in(m, x, y),
        with_attempt(m, a, b, correct).contains_key((a, b)),
{
}

/// An accepted observation counts one more sample of its transition (until
/// the count saturates) and touches no other transition.
pub proof fn law_observation_counts(m: Map<(char, char), PairStat>, a: char, b: char, x: char, y: char)
    ensures
        stat_in(m, a, b).n < u32::MAX ==> stat_in(with_observation(m, a, b), a, b).n == stat_in(
            m,
            a,
            b,
        ).n + 1,
        stat_in(with_observation(m, a, b), a, b).ok == stat_in(m, a, b).ok,
        stat_in(with_observation(m, a, b), a, b).err == stat_in(m, a, b).err,
        (x, y) != (a, b) ==> stat_in(with_observation(m, a, b), x, y) == stat_in(m, x, y),
{
}

/// An errored attempt lowers a transition's accuracy estimate and a correct
/// one raises it, while the counts have room; the estimate always lies in
/// (0, 1].
pub proof fn law_accuracy_moves_with_attempts(st: PairStat)
    ensures
        0 < st.accuracy_num() <= st.accuracy_den(),
        st.err < u32::MAX ==> st.attempted(false).accuracy_num() * st.accuracy_den()
            < st.accuracy_num() * st.attempted(false).accuracy_den(),
        st.ok < u32::MAX ==> st.attempted(true).accuracy_num() * st.accuracy_den()
            > st.accuracy_num() * st.attempted(true).accuracy_den(),
{
    let (ok, err) = (st.ok as int, st.err as int);
    if st.err < u32::MAX {
        assert((100 * ok + 970) * (100 * (ok + err + 10)) < (100 * ok + 970) * (100 * (ok + err + 1
            + 10))) by (nonlinear_arith)
            requires
                ok >= 0,
                err >= 0,
        ;
    }
    if st.ok < u32::MAX {
        assert((100 * (ok + 1) + 970) * (100 * (ok + err + 10)) > (100 * ok + 970) * (100 * (ok + 1
            + err + 10))) by (nonlinear_arith)
            requires
                ok >= 0,
                err >= 0,
        ;
    }
}

/// Reading the text of a transition back gives the transition.
pub proof fn law_pair_key_round_trip(a: char, b: char, k: Seq<char>, r: Option<(char, char)>)
    requires
        k == seq![a, b],
        k.len() == 2 ==> r == Some((k[0], k[1])),
        k.len() != 2 ==> r is None,
    ensures
        r == Some((a, b)),
{
}

/// The numbers the model is built on: an interval of two seconds or more is
/// a pause, and a transition's accuracy estimate is `(ok + 9.7) / (ok + err
/// + 10)`, i.e. 0.97 weighted as ten prior attempts.
pub proof fn law_model_figures(st: PairStat)
    ensures
        PAUSE_THRESHOLD_US == 2_000_000,
        st.accuracy_num() == 100 * st.ok + 970,
        st.accuracy_den() == 100 * (st.ok + st.err) + 1000,
        PairStat::fresh().accuracy_num() * 100 == 97 * PairStat::fresh().accuracy_den(),
        st.attempted(true).ok == if st.ok == u32::MAX {
            u32::MAX as int
        } else {
            st.ok + 1
        },
        st.attempted(true).err == st.err && st.attempted(true).n == st.n,
        st.attempted(false).err == if st.err == u32::MAX {
            u32::MAX as int
        } else {
            st.err + 1
        },
        st.attempted(false).ok == st.ok && st.attempted(false).n == st.n,
        st.observed().n == if st.n == u32::MAX {
            u32::MAX as int
        } else {
            st.n + 1
        },
        st.observed().ok == st.ok && st.observed().err == st.err,
        PairStat::fresh().n == 0 && PairStat::fresh().ok == 0 && PairStat::fresh().err == 0,
{
}

} // verus!
