//! Word-level pieces of the lesson corpus: which words are drilled, the
//! digrams a word is made of, and how chosen words become lesson text.

use vstd::prelude::*;
use vstd::string::StrSliceExecFns;
use vstd::string::StringExecFns;

verus! {

/// True when every character of `s` is a lowercase ASCII letter.
pub open spec fn all_lowercase(s: Seq<char>) -> bool {
    forall|i: int| 0 <= i < s.len() ==> 'a' <= #[trigger] s[i] && s[i] <= 'z'
}

/// Words that lessons are built from: at least two characters, all of them
/// lowercase ASCII letters.
pub fn is_lesson_word(word: &str) -> (r: bool)
    ensures
        r == (word@.len() >= 2 && all_lowercase(word@)),
{
    let n = word.unicode_len();
    if n < 2 {
        return false;
    }
    let mut i: usize = 0;
    while i < n
        invariant
            n == word@.len(),
            i <= n,
            all_lowercase(word@.subrange(0, i as int)),
        decreases n - i,
    {
        let c = word.get_char(i);
        if !('a' <= c && c <= 'z') {
            assert(!all_lowercase(word@)) by {
                assert(word@[i as int] == c);
            }
            return false;
        }
        assert(all_lowercase(word@.subrange(0, i + 1))) by {
            assert forall|j: int| 0 <= j < i + 1 implies 'a' <= #[trigger] word@.subrange(0, i + 1)[j]
                && word@.subrange(0, i + 1)[j] <= 'z' by {
                if j < i {
                    assert(word@.subrange(0, i + 1)[j] == word@.subrange(0, i as int)[j]);
                }
            }
        }
        i = i + 1;
    }
    assert(word@.subrange(0, n as int) =~= word@);
    true
}

/// The digrams of `word` in order: each character with the one after it.
pub fn word_digrams(word: &str) -> (r: Vec<(char, char)>)
    ensures
        r@.len() == if word@.len() == 0 {
            0
        } else {
            word@.len() - 1
        },
        forall|i: int| 0 <= i < r@.len() ==> #[trigger] r@[i] == (word@[i], word@[i + 1]),
{
    let n = word.unicode_len();
    let mut out: Vec<(char, char)> = Vec::new();
    if n == 0 {
        return out;
    }
    let mut prev = word.get_char(0);
    let mut i: usize = 1;
    while i < n
        invariant
            n == word@.len(),
            1 <= i <= n,
            prev == word@[i - 1],
            out@.len() == i - 1,
            forall|j: int| 0 <= j < out@.len() ==> #[trigger] out@[j] == (word@[j], word@[j + 1]),
        decreases n - i,
    {
        let c = word.get_char(i);
        out.push((prev, c));
        prev = c;
        i = i + 1;
    }
    out
}

/// `words` joined with single spaces between them.
pub open spec fn joined(words: Seq<Seq<char>>) -> Seq<char>
    decreases words.len(),
{
    if words.len() == 0 {
        Seq::empty()
    } else if words.len() == 1 {
        words[0]
    } else {
        joined(words.drop_last()) + seq![' '] + words.last()
    }
}

/// The lesson text made of `words`, separated by single spaces.
pub fn join_words(words: &Vec<&str>) -> (r: String)
    ensures
        r@ == joined(words@.map_values(|w: &str| w@)),
{
    let ghost views = words@.map_values(|w: &str| w@);
    let mut out = String::new();
    let mut i: usize = 0;
    while i < words.len()
        invariant
            views == words@.map_values(|w: &str| w@),
            i <= words@.len(),
            out@ == joined(views.subrange(0, i as int)),
        decreases words@.len() - i,
    {
        if i > 0 {
            out.append(" ");
        }
        out.append(words[i]);
        proof {
            reveal_strlit(" ");
            let next = views.subrange(0, i + 1);
            assert(next.drop_last() =~= views.subrange(0, i as int));
            assert(next.last() == words@[i as int]@);
            if i == 0 {
                assert(joined(views.subrange(0, 0)) =~= Seq::<char>::empty());
            }
        }
        i = i + 1;
    }
    assert(views.subrange(0, words@.len() as int) =~= views);
    out
}

/// A word counts as lowercase exactly when every character's code point is
/// one of the 26 letters `a` (97) through `z` (122), both ends included.
pub proof fn law_lowercase_letters(s: Seq<char>)
    ensures
        all_lowercase(s) <==> forall|i: int| 0 <= i < s.len() ==> 97 <= #[trigger] (s[i] as int)
            <= 122,
        all_lowercase(seq!['a', 'z']),
        all_lowercase(seq!['z', 'z']),
        !all_lowercase(seq!['a', '{']),
        !all_lowercase(seq!['`', 'a']),
{
    assert forall|i: int| 0 <= i < s.len() implies ('a' <= #[trigger] s[i] && s[i] <= 'z') <==> (97
        <= s[i] as int <= 122) by {}
    assert(all_lowercase(seq!['a', 'z']));
    assert(all_lowercase(seq!['z', 'z']));
    assert(!('a' <= seq!['a', '{'][1] && seq!['a', '{'][1] <= 'z'));
    assert(!('a' <= seq!['`', 'a'][0]));
}

/// A lesson word is any sequence of at least two characters drawn from the
/// letters `a` through `z`, `z` included, and nothing else is.
pub proof fn law_lesson_words(w: Seq<char>, r: bool)
    requires
        r == (w.len() >= 2 && all_lowercase(w)),
    ensures
        r <==> (w.len() >= 2 && forall|i: int| 0 <= i < w.len() ==> 97 <= #[trigger] (w[i] as int)
            <= 122),
{
    law_lowercase_letters(w);
}

/// Lesson text puts exactly one space between consecutive words: one word
/// is itself, and appending a word appends a space and the word.
pub proof fn law_join_shape(words: Seq<Seq<char>>, w: Seq<char>)
    ensures
        joined(Seq::empty()) == Seq::<char>::empty(),
        joined(seq![w]) == w,
        words.len() > 0 ==> joined(words.push(w)) == joined(words) + seq![' '] + w,
        joined(words.push(w)).len() == if words.len() == 0 {
            w.len() as int
        } else {
            (joined(words).len() + 1 + w.len()) as int
        },
{
    assert(words.push(w).drop_last() =~= words);
    if words.len() == 0 {
        assert(words.push(w) =~= seq![w]);
    }
}

} // verus!
