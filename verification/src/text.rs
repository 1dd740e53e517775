//! Character-level string utilities: finding a separator, trimming
//! whitespace, and splitting on a character, each with an exact
//! specification over the string's character sequence.

use vstd::prelude::*;
use vstd::string::*;

verus! {

/// ASCII whitespace, the characters stripped from symbol-map fields.
pub open spec fn is_space(c: char) -> bool {
    c == ' ' || c == '\t' || c == '\n' || c == '\r' || c == '\u{c}'
}

/// Whether `c` is ASCII whitespace.
pub fn char_is_space(c: char) -> (r: bool)
    ensures
        r == is_space(c),
{
    c == ' ' || c == '\t' || c == '\n' || c == '\r' || c == '\u{c}'
}

/// The index of the first occurrence of `c` in `s`, or `s.len()` when `c`
/// does not occur.
pub open spec fn sep_index(s: Seq<char>, c: char) -> int
    decreases s.len(),
{
    if s.len() == 0 {
        0
    } else if s.first() == c {
        0
    } else {
        1 + sep_index(s.drop_first(), c)
    }
}

/// `sep_index` is the first index holding `c`, or the length when none does.
pub proof fn lemma_sep_index(s: Seq<char>, c: char)
    ensures
        0 <= sep_index(s, c) <= s.len(),
        sep_index(s, c) < s.len() ==> s[sep_index(s, c)] == c,
        forall|j: int| 0 <= j < sep_index(s, c) ==> s[j] != c,
    decreases s.len(),
{
    if s.len() > 0 && s.first() != c {
        lemma_sep_index(s.drop_first(), c);
        assert forall|j: int| 0 <= j < sep_index(s, c) implies s[j] != c by {
            if j > 0 {
                assert(s.drop_first()[j - 1] != c);
            }
        }
    }
}

/// Finds the first occurrence of `c` in `s`, returning the character index,
/// or the character length of `s` when `c` does not occur.
pub fn find_char(s: &str, c: char) -> (r: usize)
    ensures
        r == sep_index(s@, c),
{
    proof {
        lemma_sep_index(s@, c);
    }
    let n: usize = s.unicode_len();
    let mut i: usize = 0;
    while i < n
        invariant
            0 <= i <= n,
            n == s@.len(),
            forall|j: int| 0 <= j < i ==> s@[j] != c,
            sep_index(s@, c) < s@.len() ==> s@[sep_index(s@, c)] == c,
            0 <= sep_index(s@, c) <= s@.len(),
            forall|j: int| 0 <= j < sep_index(s@, c) ==> s@[j] != c,
        decreases n - i,
    {
        if s.get_char(i) == c {
            return i;
        }
        i = i + 1;
    }
    i
}

/// `s` with leading whitespace removed.
pub open spec fn trim_front(s: Seq<char>) -> Seq<char>
    decreases s.len(),
{
    if s.len() > 0 && is_space(s.first()) {
        trim_front(s.drop_first())
    } else {
        s
    }
}

/// `s` with trailing whitespace removed.
pub open spec fn trim_back(s: Seq<char>) -> Seq<char>
    decreases s.len(),
{
    if s.len() > 0 && is_space(s.last()) {
        trim_back(s.drop_last())
    } else {
        s
    }
}

/// `s` with surrounding whitespace removed.
pub open spec fn spec_trim(s: Seq<char>) -> Seq<char> {
    trim_back(trim_front(s))
}

/// When everything before `i` is whitespace and `i` is not (or is the end),
/// trimming the front keeps exactly the suffix from `i`.
proof fn lemma_trim_front_range(s: Seq<char>, i: int)
    requires
        0 <= i <= s.len(),
        forall|j: int| 0 <= j < i ==> is_space(s[j]),
        i < s.len() ==> !is_space(s[i]),
    ensures
        trim_front(s) == s.subrange(i, s.len() as int),
    decreases i,
{
    if i == 0 {
        assert(trim_front(s) == s);
        assert(s =~= s.subrange(0, s.len() as int));
    } else {
        assert(is_space(s.first()));
        let t = s.drop_first();
        assert(forall|j: int| 0 <= j < i - 1 ==> t[j] == s[j + 1] && is_space(t[j]));
        lemma_trim_front_range(t, i - 1);
        assert(t.subrange(i - 1, t.len() as int) =~= s.subrange(i, s.len() as int));
    }
}

/// When everything from `i` on is whitespace and `i - 1` is not (or is the
/// start), trimming the back keeps exactly the prefix up to `i`.
proof fn lemma_trim_back_range(s: Seq<char>, i: int)
    requires
        0 <= i <= s.len(),
        forall|j: int| i <= j < s.len() ==> is_space(s[j]),
        i > 0 ==> !is_space(s[i - 1]),
    ensures
        trim_back(s) == s.subrange(0, i),
    decreases s.len() - i,
{
    if i == s.len() {
        if s.len() > 0 {
            assert(!is_space(s.last()));
        }
        assert(trim_back(s) == s);
        assert(s =~= s.subrange(0, s.len() as int));
    } else {
        assert(is_space(s.last()));
        let t = s.drop_last();
        lemma_trim_back_range(t, i);
        assert(t.subrange(0, i) =~= s.subrange(0, i));
    }
}

/// Returns `s` with surrounding ASCII whitespace removed.
pub fn trim(s: &str) -> (r: &str)
    ensures
        r@ == spec_trim(s@),
{
    let n: usize = s.unicode_len();
    let mut start: usize = 0;
    while start < n && char_is_space(s.get_char(start))
        invariant
            0 <= start <= n,
            n == s@.len(),
            forall|j: int| 0 <= j < start ==> is_space(s@[j]),
        decreases n - start,
    {
        start = start + 1;
    }
    proof {
        lemma_trim_front_range(s@, start as int);
    }
    let mut end: usize = n;
    while end > start && char_is_space(s.get_char(end - 1))
        invariant
            start <= end <= n,
            n == s@.len(),
            forall|j: int| end <= j < n ==> is_space(s@[j]),
        decreases end,
    {
        end = end - 1;
    }
    let r = s.substring_char(start, end);
    proof {
        let f = trim_front(s@);
        assert(f == s@.subrange(start as int, n as int));
        lemma_trim_back_range(f, end - start);
        assert(f.subrange(0, end - start) =~= s@.subrange(start as int, end as int));
    }
    r
}

/// `s` split on `c`: the pieces between occurrences, in order.  A string
/// without `c` is one piece; each occurrence separates two pieces, so a
/// trailing `c` yields a final empty piece.
pub open spec fn spec_split(s: Seq<char>, c: char) -> Seq<Seq<char>>
    decreases s.len(),
{
    let i = sep_index(s, c);
    if i < 0 || i >= s.len() {
        seq![s]
    } else {
        seq![s.subrange(0, i)] + spec_split(s.subrange(i + 1, s.len() as int), c)
    }
}

/// Appends the pieces of `s` split on `c` to `out`.
fn split_into(s: &str, c: char, out: &mut Vec<String>)
    ensures
        final(out).deep_view() == old(out).deep_view() + spec_split(s@, c),
    decreases s@.len(),
{
    proof {
        lemma_sep_index(s@, c);
    }
    let n: usize = s.unicode_len();
    let i: usize = find_char(s, c);
    if i == n {
        out.push(String::from_str(s));
        proof {
            assert(out.deep_view() =~= old(out).deep_view() + spec_split(s@, c));
        }
    } else {
        let piece = s.substring_char(0, i);
        out.push(String::from_str(piece));
        let rest = s.substring_char(i + 1, n);
        split_into(rest, c, out);
        proof {
            assert(out.deep_view() =~= old(out).deep_view() + spec_split(s@, c));
        }
    }
}

/// Splits `s` on `c` into owned pieces, in order.
pub fn split_str(s: &str, c: char) -> (r: Vec<String>)
    ensures
        r.deep_view() == spec_split(s@, c),
{
    let mut out: Vec<String> = Vec::new();
    split_into(s, c, &mut out);
    proof {
        assert(out.deep_view() =~= spec_split(s@, c));
    }
    out
}

} // verus!
