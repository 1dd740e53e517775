//! The symbol map: brokerage-native base tickers mapped to market-data
//! tickers, loaded from a `key,value` text resource, plus lookup-ticker
//! derivation for a holding.

use vstd::prelude::*;
use vstd::string::*;
use crate::text::{sep_index, lemma_sep_index, spec_trim, spec_split, trim, find_char, split_str};

verus! {

/// An ordered list of `(key, value)` pairs; a later pair with the same key
/// shadows an earlier one, so lookup scans from the end.
pub struct SymbolMap {
    pairs: Vec<(String, String)>,
}

/// The value of the last pair in `entries` whose key is `key`, if any.
pub open spec fn spec_lookup(entries: Seq<(Seq<char>, Seq<char>)>, key: Seq<char>) -> Option<
    Seq<char>,
>
    decreases entries.len(),
{
    if entries.len() == 0 {
        None
    } else if entries.last().0 == key {
        Some(entries.last().1)
    } else {
        spec_lookup(entries.drop_last(), key)
    }
}

/// The `(key, value)` pair a single line contributes: `None` when the line
/// has no comma, otherwise the trimmed text before and after the first comma.
pub open spec fn spec_line_entry(line: Seq<char>) -> Option<(Seq<char>, Seq<char>)> {
    let i = sep_index(line, ',');
    if i < 0 || i >= line.len() {
        None
    } else {
        Some((spec_trim(line.subrange(0, i)), spec_trim(line.subrange(i + 1, line.len() as int))))
    }
}

/// The entries contributed by `lines`, in order, with comma-less lines
/// skipped.
pub open spec fn spec_entries_of_lines(lines: Seq<Seq<char>>) -> Seq<(Seq<char>, Seq<char>)>
    decreases lines.len(),
{
    if lines.len() == 0 {
        Seq::empty()
    } else {
        let rest = spec_entries_of_lines(lines.drop_last());
        match spec_line_entry(lines.last()) {
            Some(e) => rest.push(e),
            None => rest,
        }
    }
}

/// The entries of a whole symbol-map text: its lines' entries in order.
pub open spec fn spec_symbol_entries(text: Seq<char>) -> Seq<(Seq<char>, Seq<char>)> {
    spec_entries_of_lines(spec_split(text, '\n'))
}

/// Whether a line holds a separator and so contributes an entry.
pub open spec fn line_has_separator(line: Seq<char>) -> bool {
    spec_line_entry(line) is Some
}

/// The sublist of `lines` that hold a separator, in order.
pub open spec fn lines_with_separator(lines: Seq<Seq<char>>) -> Seq<Seq<char>>
    decreases lines.len(),
{
    if lines.len() == 0 {
        lines
    } else {
        let rest = lines_with_separator(lines.drop_last());
        if line_has_separator(lines.last()) {
            rest.push(lines.last())
        } else {
            rest
        }
    }
}

/// Lines without a separator are ignored: the entries of `lines` are exactly
/// the entries of the lines that hold a comma, so malformed lines do not
/// affect any other entry.
pub proof fn lemma_malformed_lines_ignored(lines: Seq<Seq<char>>)
    ensures
        spec_entries_of_lines(lines) == spec_entries_of_lines(lines_with_separator(lines)),
    decreases lines.len(),
{
    if lines.len() > 0 {
        lemma_malformed_lines_ignored(lines.drop_last());
        let l = lines.last();
        let rest = lines_with_separator(lines.drop_last());
        if line_has_separator(l) {
            assert(rest.push(l).drop_last() =~= rest);
            assert(rest.push(l).last() == l);
        }
    }
}

impl SymbolMap {
    /// The map's entries as character sequences, in insertion order.
    pub closed spec fn entries(&self) -> Seq<(Seq<char>, Seq<char>)> {
        Seq::new(self.pairs@.len(), |i: int| (self.pairs@[i].0@, self.pairs@[i].1@))
    }

    /// Builds an empty map.
    pub fn new() -> (r: SymbolMap)
        ensures
            r.entries() == Seq::<(Seq<char>, Seq<char>)>::empty(),
    {
        let r = SymbolMap { pairs: Vec::new() };
        proof {
            assert(r.entries() =~= Seq::<(Seq<char>, Seq<char>)>::empty());
        }
        r
    }

    /// Appends a pair; it shadows any earlier pair with the same key.
    pub fn insert(&mut self, key: String, value: String)
        ensures
            final(self).entries() == old(self).entries().push((key@, value@)),
    {
        let ghost k = key@;
        let ghost v = value@;
        self.pairs.push((key, value));
        proof {
            assert(self.entries() =~= old(self).entries().push((k, v)));
        }
    }

    /// Looks the key up, returning the value of the latest matching pair.
    pub fn lookup(&self, key: &String) -> (r: Option<String>)
        ensures
            r is Some <==> spec_lookup(self.entries(), key@) is Some,
            r is Some ==> r->0@ == spec_lookup(self.entries(), key@)->0,
    {
        let n: usize = self.pairs.len();
        let mut i: usize = n;
        proof {
            assert(self.entries().take(n as int) =~= self.entries());
        }
        while i > 0
            invariant
                0 <= i <= n,
                n == self.pairs.len(),
                spec_lookup(self.entries(), key@) == spec_lookup(
                    self.entries().take(i as int),
                    key@,
                ),
            decreases i,
        {
            i = i - 1;
            let ghost pre = self.entries().take(i + 1);
            proof {
                assert(pre.drop_last() =~= self.entries().take(i as int));
                assert(pre.last() == (self.pairs@[i as int].0@, self.pairs@[i as int].1@));
            }
            if self.pairs[i].0 == *key {
                return Some(self.pairs[i].1.clone());
            }
        }
        proof {
            assert(self.entries().take(0) =~= Seq::<(Seq<char>, Seq<char>)>::empty());
        }
        None
    }
}

/// Parses a symbol-map text: one `key,value` pair per line, whitespace
/// around both trimmed, lines without a comma skipped, later keys shadowing
/// earlier ones.
pub fn parse_symbol_map(text: &str) -> (r: SymbolMap)
    ensures
        r.entries() == spec_symbol_entries(text@),
{
    let lines = split_str(text, '\n');
    let mut map = SymbolMap::new();
    let n: usize = lines.len();
    proof {
        assert(lines.deep_view().take(0) =~= Seq::<Seq<char>>::empty());
    }
    let mut i: usize = 0;
    while i < n
        invariant
            0 <= i <= n,
            n == lines.len(),
            lines.deep_view() == spec_split(text@, '\n'),
            map.entries() == spec_entries_of_lines(lines.deep_view().take(i as int)),
        decreases n - i,
    {
        let line: &str = lines[i].as_str();
        proof {
            assert(line@ == lines.deep_view()[i as int]);
            lemma_sep_index(line@, ',');
        }
        let len: usize = line.unicode_len();
        let sep: usize = find_char(line, ',');
        if sep < len {
            let key = trim(line.substring_char(0, sep));
            let value = trim(line.substring_char(sep + 1, len));
            map.insert(String::from_str(key), String::from_str(value));
        }
        proof {
            let pre = lines.deep_view().take(i + 1);
            assert(pre.drop_last() =~= lines.deep_view().take(i as int));
            assert(pre.last() == lines.deep_view()[i as int]);
        }
        i = i + 1;
    }
    proof {
        assert(lines.deep_view().take(n as int) =~= lines.deep_view());
    }
    map
}

/// The ticker before the first `_`, or the whole ticker when it has none.
pub open spec fn spec_base_ticker(t: Seq<char>) -> Seq<char> {
    let i = sep_index(t, '_');
    if 0 <= i <= t.len() {
        t.subrange(0, i)
    } else {
        t
    }
}

/// The key sent to the market-data service for a holding's ticker: the base
/// ticker mapped through the symbol map, or the base ticker itself when the
/// map has no entry for it.
pub open spec fn spec_derive_ticker(t: Seq<char>, entries: Seq<(Seq<char>, Seq<char>)>) -> Seq<
    char,
> {
    match spec_lookup(entries, spec_base_ticker(t)) {
        Some(v) => v,
        None => spec_base_ticker(t),
    }
}

/// Strips the exchange suffix: the text before the first `_`.
pub fn base_ticker(t: &str) -> (r: &str)
    ensures
        r@ == spec_base_ticker(t@),
{
    proof {
        lemma_sep_index(t@, '_');
    }
    let i: usize = find_char(t, '_');
    t.substring_char(0, i)
}

/// Derives the market-data lookup ticker for `t`: the base ticker, mapped
/// through `map` when it has an entry, kept as itself otherwise.
pub fn derive_ticker(t: &str, map: &SymbolMap) -> (r: String)
    ensures
        r@ == spec_derive_ticker(t@, map.entries()),
{
    let base = String::from_str(base_ticker(t));
    match map.lookup(&base) {
        Some(v) => v,
        None => base,
    }
}

} // verus!
