//! Character sequences: searching and splitting.

use vstd::prelude::*;
use vstd::string::*;

verus! {

/// The number of characters of `s` that stand before the first `c`; the
/// length of `s` where it holds no `c`.
pub open spec fn first_index(s: Seq<char>, c: char) -> nat
    decreases s.len(),
{
    if s.len() == 0 || s[0] == c {
        0
    } else {
        1 + first_index(s.drop_first(), c)
    }
}

/// `first_index` is the least position that holds `c`.
pub proof fn lemma_first_index(s: Seq<char>, c: char)
    ensures
        first_index(s, c) <= s.len(),
        forall|i: int| 0 <= i < first_index(s, c) ==> s[i] != c,
        first_index(s, c) < s.len() ==> s[first_index(s, c) as int] == c,
    decreases s.len(),
{
    if s.len() == 0 || s[0] == c {
    } else {
        let rest = s.drop_first();
        lemma_first_index(rest, c);
        assert forall|i: int| 0 <= i < first_index(s, c) implies s[i] != c by {
            if i > 0 {
                assert(s[i] == rest[i - 1]);
            }
        }
    }
}

/// The pieces of `s` between occurrences of `sep`, empty pieces included.
/// A sequence without `sep` is its own single piece.
pub open spec fn split(s: Seq<char>, sep: char) -> Seq<Seq<char>>
    decreases s.len(),
{
    let n = first_index(s, sep);
    if n >= s.len() {
        seq![s]
    } else {
        seq![s.take(n as int)] + split(s.skip(n as int + 1), sep)
    }
}

/// Position of the first `c` at or after `from`, or the length of `s`
/// where there is none. Positions count characters.
pub fn find_char(s: &str, from: usize, c: char) -> (at: usize)
    ensures
        at <= s@.len(),
        from <= s@.len() ==> at == from + first_index(s@.skip(from as int), c),
        from > s@.len() ==> at == s@.len(),
{
    let n: usize = s.unicode_len();
    if from > n {
        return n;
    }
    let mut i: usize = from;
    while i < n && s.get_char(i) != c
        invariant
            from <= i <= n,
            n == s@.len(),
            first_index(s@.skip(from as int), c) == (i - from) + first_index(s@.skip(i as int), c),
        decreases n - i,
    {
        assert(s@.skip(i as int).drop_first() =~= s@.skip(i + 1));
        i = i + 1;
    }
    i
}

/// Splits `s` at every `sep`.
pub fn split_on(s: &str, sep: char) -> (parts: Vec<String>)
    ensures
        parts.deep_view() == split(s@, sep),
{
    let n: usize = s.unicode_len();
    let mut parts: Vec<String> = Vec::new();
    let mut start: usize = 0;
    assert(s@.skip(0) =~= s@);
    loop
        invariant_except_break
            split(s@, sep) == parts.deep_view() + split(s@.skip(start as int), sep),
        invariant
            start <= n,
            n == s@.len(),
        ensures
            parts.deep_view() == split(s@, sep),
        decreases n - start,
    {
        let at: usize = find_char(s, start, sep);
        let piece: String = String::from_str(s.substring_char(start, at));
        let ghost before = parts.deep_view();
        let ghost rest = s@.skip(start as int);
        parts.push(piece);
        proof {
            assert(rest.take(at - start) =~= s@.subrange(start as int, at as int));
            assert(parts.deep_view() =~= before + seq![rest.take(at - start)]);
        }
        if at >= n {
            proof {
                assert(rest.take(at - start) =~= rest);
            }
            break ;
        }
        proof {
            assert(rest.skip(at - start + 1) =~= s@.skip(at + 1));
        }
        start = at + 1;
    }
    parts
}

/// Whether two strings hold the same characters.
pub fn str_eq(a: &str, b: &str) -> (same: bool)
    ensures
        same == (a@ == b@),
{
    let n: usize = a.unicode_len();
    if n != b.unicode_len() {
        return false;
    }
    let mut i: usize = 0;
    while i < n
        invariant
            i <= n,
            n == a@.len(),
            n == b@.len(),
            forall|j: int| 0 <= j < i ==> a@[j] == b@[j],
        decreases n - i,
    {
        if a.get_char(i) != b.get_char(i) {
            return false;
        }
        i = i + 1;
    }
    assert(a@ =~= b@);
    true
}

/// The lines of `s`: its pieces between line feeds, where a line feed at
/// the very end closes the last line and opens no further one.
pub open spec fn lines(s: Seq<char>) -> Seq<Seq<char>> {
    let pieces = split(s, '\n');
    if pieces.last().len() == 0 {
        pieces.drop_last()
    } else {
        pieces
    }
}

/// `split` yields at least one piece.
pub proof fn lemma_split_nonempty(s: Seq<char>, sep: char)
    ensures
        split(s, sep).len() >= 1,
    decreases s.len(),
{
    let n = first_index(s, sep);
    if n < s.len() {
        lemma_split_nonempty(s.skip(n as int + 1), sep);
    }
}

/// Splits `s` into its lines.
pub fn split_lines(s: &str) -> (out: Vec<String>)
    ensures
        out.deep_view() == lines(s@),
{
    let mut out: Vec<String> = split_on(s, '\n');
    proof {
        lemma_split_nonempty(s@, '\n');
    }
    let k: usize = out.len();
    let ghost pieces = out.deep_view();
    assert(pieces[k - 1] == out@[k - 1]@);
    if out[k - 1].as_str().unicode_len() == 0 {
        out.pop();
        assert(out.deep_view() =~= pieces.drop_last());
    }
    out
}

/// The characters that separate words: space, tab, line feed, form feed
/// and carriage return.
pub open spec fn is_ascii_space(c: char) -> bool {
    c == ' ' || c == '\t' || c == '\n' || c == '\x0C' || c == '\r'
}

/// The length of the longest prefix of `s` that holds no separator.
pub open spec fn word_len(s: Seq<char>) -> nat
    decreases s.len(),
{
    if s.len() == 0 || is_ascii_space(s[0]) {
        0
    } else {
        1 + word_len(s.drop_first())
    }
}

/// `word_len` stays within the sequence.
pub proof fn lemma_word_len(s: Seq<char>)
    ensures
        word_len(s) <= s.len(),
        s.len() > 0 && !is_ascii_space(s[0]) ==> word_len(s) >= 1,
        forall|i: int| 0 <= i < word_len(s) ==> !is_ascii_space(s[i]),
        word_len(s) < s.len() ==> is_ascii_space(s[word_len(s) as int]),
    decreases s.len(),
{
    if s.len() == 0 || is_ascii_space(s[0]) {
    } else {
        let rest = s.drop_first();
        lemma_word_len(rest);
        assert forall|i: int| 0 <= i < word_len(s) implies !is_ascii_space(s[i]) by {
            if i > 0 {
                assert(s[i] == rest[i - 1]);
            }
        }
    }
}

/// The words of `s`: its maximal runs of characters that are no
/// separators, in order. Separators at either end, and runs of them,
/// yield no empty word. (The bounds on the length of the first word
/// always hold, by `lemma_word_len`; they are spelled out so that the
/// definition is seen to terminate.)
pub open spec fn words(s: Seq<char>) -> Seq<Seq<char>>
    decreases s.len(),
{
    if s.len() == 0 {
        Seq::empty()
    } else if is_ascii_space(s[0]) {
        words(s.drop_first())
    } else {
        let n = word_len(s);
        if 1 <= n <= s.len() {
            seq![s.take(n as int)] + words(s.skip(n as int))
        } else {
            Seq::empty()
        }
    }
}

/// A word is not empty and holds no separator.
pub open spec fn is_word(w: Seq<char>) -> bool {
    w.len() > 0 && forall|i: int| 0 <= i < w.len() ==> !is_ascii_space(#[trigger] w[i])
}

/// Everything that `words` yields is a word.
pub proof fn lemma_words_are_words(s: Seq<char>)
    ensures
        forall|k: int| 0 <= k < words(s).len() ==> is_word(#[trigger] words(s)[k]),
    decreases s.len(),
{
    if s.len() == 0 {
        assert(words(s).len() == 0);
    } else if is_ascii_space(s[0]) {
        lemma_words_are_words(s.drop_first());
        assert(words(s) == words(s.drop_first()));
    } else {
        let n = word_len(s);
        lemma_word_len(s);
        lemma_words_are_words(s.skip(n as int));
        let head = s.take(n as int);
        let tail = words(s.skip(n as int));
        assert(is_word(head));
        assert(words(s) == seq![head] + tail);
        assert forall|k: int| 0 <= k < words(s).len() implies is_word(#[trigger] words(s)[k]) by {
            if k == 0 {
                assert(words(s)[0] == head);
            } else {
                assert(words(s)[k] == tail[k - 1]);
            }
        }
    }
}

/// Whether `c` separates words.
pub fn is_space(c: char) -> (yes: bool)
    ensures
        yes == is_ascii_space(c),
{
    c == ' ' || c == '\t' || c == '\n' || c == '\x0C' || c == '\r'
}

/// Splits `s` into its words.
pub fn split_ascii_whitespace(s: &str) -> (out: Vec<String>)
    ensures
        out.deep_view() == words(s@),
{
    let n: usize = s.unicode_len();
    let mut out: Vec<String> = Vec::new();
    let mut i: usize = 0;
    assert(s@.skip(0) =~= s@);
    while i < n
        invariant
            i <= n,
            n == s@.len(),
            words(s@) == out.deep_view() + words(s@.skip(i as int)),
        decreases n - i,
    {
        let ghost rest = s@.skip(i as int);
        if is_space(s.get_char(i)) {
            assert(rest.drop_first() =~= s@.skip(i + 1));
            i = i + 1;
        } else {
            let mut j: usize = i + 1;
            assert(rest.drop_first() =~= s@.skip(i + 1));
            while j < n && !is_space(s.get_char(j))
                invariant
                    i < j <= n,
                    n == s@.len(),
                    word_len(s@.skip(i as int)) == (j - i) + word_len(s@.skip(j as int)),
                decreases n - j,
            {
                assert(s@.skip(j as int).drop_first() =~= s@.skip(j + 1));
                j = j + 1;
            }
            let word: String = String::from_str(s.substring_char(i, j));
            let ghost before = out.deep_view();
            out.push(word);
            proof {
                assert(word_len(rest) == j - i);
                assert(rest.take(j - i) =~= s@.subrange(i as int, j as int));
                assert(rest.skip(j - i) =~= s@.skip(j as int));
                assert(out.deep_view() =~= before + seq![rest.take(j - i)]);
            }
            i = j;
        }
    }
    assert(words(s@.skip(n as int)) =~= Seq::<Seq<char>>::empty());
    out
}

} // verus!
