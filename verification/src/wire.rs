//! The key=value row grammar of the query protocol.
//!
//! A response row is a line of space-separated tokens; each token is a
//! key, optionally followed by `=` and an escaped value. Rows of a
//! multi-row result are separated by `|`, and lines by `\n`.

use vstd::prelude::*;
use crate::escape::spec_unescape;
use crate::escape::unescape_chars;
use crate::strutil::chars_eq;
use crate::strutil::is_i64_text;
use crate::strutil::i64_text_val;
use crate::strutil::parse_i64;
use crate::strutil::str_to_chars;

verus! {

/// The index of the first occurrence of `sep` in `s`, or the length of
/// `s` when it does not occur.
pub open spec fn find_char(s: Seq<char>, sep: char) -> nat
    decreases s.len(),
{
    if s.len() == 0 {
        0
    } else if s[0] == sep {
        0
    } else {
        1 + find_char(s.skip(1), sep)
    }
}

pub proof fn lemma_find_char(s: Seq<char>, sep: char)
    ensures
        0 <= find_char(s, sep) <= s.len(),
        find_char(s, sep) < s.len() ==> s[find_char(s, sep) as int] == sep,
        forall|j: int| 0 <= j < find_char(s, sep) ==> s[j] != sep,
    decreases s.len(),
{
    if s.len() > 0 && s[0] != sep {
        lemma_find_char(s.skip(1), sep);
        assert forall|j: int| 0 <= j < find_char(s, sep) implies s[j] != sep by {
            if j > 0 {
                assert(s.skip(1)[j - 1] == s[j]);
            }
        }
        if find_char(s, sep) < s.len() {
            assert(s.skip(1)[find_char(s, sep) - 1] == s[find_char(s, sep) as int]);
        }
    }
}

/// A scan that finds the first separator at `k` (or none before the
/// end) has found `find_char`.
pub proof fn lemma_find_char_at(s: Seq<char>, sep: char, k: int)
    requires
        0 <= k <= s.len(),
        forall|j: int| 0 <= j < k ==> s[j] != sep,
        k < s.len() ==> s[k] == sep,
    ensures
        find_char(s, sep) == k,
    decreases k,
{
    if s.len() == 0 {
    } else if k == 0 {
        if s[0] != sep {
            lemma_find_char(s, sep);
        }
    } else {
        assert(s[0] != sep);
        assert forall|j: int| 0 <= j < k - 1 implies s.skip(1)[j] != sep by {
            assert(s.skip(1)[j] == s[j + 1]);
        }
        if k - 1 < s.skip(1).len() {
            assert(s.skip(1)[k - 1] == s[k]);
        }
        lemma_find_char_at(s.skip(1), sep, k - 1);
    }
}

/// The split of `s` on the separator `sep`: the tokens between the
/// separators, in order. An empty text splits into one empty token.
pub open spec fn spec_split(s: Seq<char>, sep: char) -> Seq<Seq<char>>
    decreases s.len(),
{
    let i = find_char(s, sep);
    if i >= s.len() {
        seq![s]
    } else {
        seq![s.subrange(0, i as int)] + spec_split(s.skip(i as int + 1), sep)
    }
}


/// A split always yields at least one token.
pub proof fn lemma_split_min_len(s: Seq<char>, sep: char)
    ensures
        spec_split(s, sep).len() >= 1,
    decreases s.len(),
{
    lemma_find_char(s, sep);
    let i = find_char(s, sep);
    if i < s.len() {
        lemma_split_min_len(s.skip(i as int + 1), sep);
    }
}

/// The views of a vector of token vectors.
pub open spec fn seq_views(ts: Seq<Vec<char>>) -> Seq<Seq<char>> {
    ts.map_values(|t: Vec<char>| t@)
}

/// Splits a sequence of characters on a separator.
pub fn split_chars(v: &[char], sep: char) -> (r: Vec<Vec<char>>)
    ensures
        seq_views(r@) == spec_split(v@, sep),
{
    let n: usize = v.len();
    let mut r: Vec<Vec<char>> = Vec::new();
    let mut start: usize = 0;
    let mut i: usize = 0;
    proof {
        assert(v@.skip(0) =~= v@);
        assert(seq_views(r@) =~= Seq::<Seq<char>>::empty());
        assert(spec_split(v@, sep) =~= seq_views(r@) + spec_split(v@.skip(0), sep));
    }
    while i < n
        invariant
            start <= i <= n,
            n == v@.len(),
            forall|j: int| start <= j < i ==> v@[j] != sep,
            spec_split(v@, sep) == seq_views(r@) + spec_split(v@.skip(start as int), sep),
        decreases n - i,
    {
        if v[i] == sep {
            let token = vstd::slice::slice_subrange(v, start, i);
            let tv = vstd::slice::slice_to_vec(token);
            proof {
                let rest = v@.skip(start as int);
                assert forall|j: int| 0 <= j < i - start implies rest[j] != sep by {
                    assert(rest[j] == v@[start + j]);
                }
                assert(rest[i - start] == v@[i as int]);
                lemma_find_char_at(rest, sep, i - start);
                assert(rest.subrange(0, i - start) =~= v@.subrange(start as int, i as int));
                assert(rest.skip(i - start + 1) =~= v@.skip(i as int + 1));
                assert(spec_split(rest, sep) == seq![v@.subrange(start as int, i as int)]
                    + spec_split(v@.skip(i as int + 1), sep));
            }
            r.push(tv);
            proof {
                assert(seq_views(r@) =~= seq_views(r@.drop_last()).push(
                    v@.subrange(start as int, i as int),
                ));
                assert(spec_split(v@, sep) =~= seq_views(r@) + spec_split(
                    v@.skip(i as int + 1),
                    sep,
                ));
            }
            start = i + 1;
        }
        i = i + 1;
    }
    let token = vstd::slice::slice_subrange(v, start, n);
    let tv = vstd::slice::slice_to_vec(token);
    proof {
        let rest = v@.skip(start as int);
        assert forall|j: int| 0 <= j < rest.len() implies rest[j] != sep by {
            assert(rest[j] == v@[start + j]);
        }
        lemma_find_char_at(rest, sep, rest.len() as int);
        assert(spec_split(rest, sep) == seq![rest]);
        assert(rest =~= v@.subrange(start as int, n as int));
    }
    r.push(tv);
    proof {
        assert(seq_views(r@) =~= seq_views(r@.drop_last()).push(v@.subrange(start as int, n as int)));
        assert(seq_views(r@) =~= spec_split(v@, sep));
    }
    r
}

/// The key part of a token: what stands before the first `=`.
pub open spec fn token_key(t: Seq<char>) -> Seq<char> {
    let i = find_char(t, '=');
    if i >= t.len() {
        t
    } else {
        t.subrange(0, i as int)
    }
}

/// The value part of a token, unescaped: what stands after the first
/// `=`; a token without `=` carries the empty value.
pub open spec fn token_value(t: Seq<char>) -> Seq<char> {
    let i = find_char(t, '=');
    if i >= t.len() {
        Seq::empty()
    } else {
        spec_unescape(t.skip(i as int + 1))
    }
}

/// The value of the first token whose key is `key`, if any.
pub open spec fn lookup_tokens(toks: Seq<Seq<char>>, key: Seq<char>) -> Option<Seq<char>>
    decreases toks.len(),
{
    if toks.len() == 0 {
        None
    } else if token_key(toks[0]) == key {
        Some(token_value(toks[0]))
    } else {
        lookup_tokens(toks.skip(1), key)
    }
}

/// The unescaped value bound to `key` in a row of space-separated
/// key=value tokens, if the key occurs.
pub open spec fn row_value(row: Seq<char>, key: Seq<char>) -> Option<Seq<char>> {
    lookup_tokens(spec_split(row, ' '), key)
}

/// The value bound to `key`, parsed as a signed 64-bit number:
/// `None` when the key is missing or its value is not such a number.
pub open spec fn row_int(row: Seq<char>, key: Seq<char>) -> Option<int> {
    match row_value(row, key) {
        Option::None => Option::None,
        Option::Some(v) => if is_i64_text(v) {
            Option::Some(i64_text_val(v))
        } else {
            Option::None
        },
    }
}

/// As `row_int`, but a missing key yields the default instead.
pub open spec fn row_int_or(row: Seq<char>, key: Seq<char>, d: int) -> Option<int> {
    match row_value(row, key) {
        Option::None => Option::Some(d),
        Option::Some(v) => if is_i64_text(v) {
            Option::Some(i64_text_val(v))
        } else {
            Option::None
        },
    }
}

/// The string value bound to `key`, the empty text when missing.
pub open spec fn row_str_or(row: Seq<char>, key: Seq<char>) -> Seq<char> {
    match row_value(row, key) {
        Option::None => Seq::empty(),
        Option::Some(v) => v,
    }
}

/// Splits a token at its first `=` and hands back the unescaped value,
/// or the empty value for a bare key.
fn token_split(t: &[char]) -> (r: (Vec<char>, Vec<char>))
    ensures
        r.0@ == token_key(t@),
        r.1@ == token_value(t@),
{
    let n: usize = t.len();
    let mut i: usize = 0;
    while i < n
        invariant
            i <= n,
            n == t@.len(),
            forall|j: int| 0 <= j < i ==> t@[j] != '=',
        decreases n - i,
    {
        if t[i] == '=' {
            proof {
                lemma_find_char_at(t@, '=', i as int);
            }
            let key = vstd::slice::slice_to_vec(vstd::slice::slice_subrange(t, 0, i));
            let raw = vstd::slice::slice_subrange(t, i + 1, n);
            let value = unescape_chars(raw);
            proof {
                assert(t@.subrange(i as int + 1, n as int) =~= t@.skip(i as int + 1));
            }
            return (key, value);
        }
        i = i + 1;
    }
    proof {
        lemma_find_char_at(t@, '=', n as int);
    }
    let key = vstd::slice::slice_to_vec(t);
    proof {
        assert(t@.subrange(0, n as int) =~= t@);
    }
    (key, Vec::new())
}

/// Looks up the unescaped value bound to `key` in a row.
pub fn row_lookup(row: &[char], key: &str) -> (r: Option<Vec<char>>)
    ensures
        match r {
            Option::Some(v) => row_value(row@, key@) == Option::Some(v@),
            Option::None => row_value(row@, key@) is None,
        },
{
    let kv = str_to_chars(key);
    let toks = split_chars(row, ' ');
    let n: usize = toks.len();
    let ghost all = spec_split(row@, ' ');
    let mut i: usize = 0;
    proof {
        assert(all.skip(0) =~= all);
    }
    while i < n
        invariant
            i <= n,
            n == all.len(),
            all == spec_split(row@, ' '),
            seq_views(toks@) == all,
            kv@ == key@,
            lookup_tokens(all, key@) == lookup_tokens(all.skip(i as int), key@),
        decreases n - i,
    {
        let (k, v) = token_split(toks[i].as_slice());
        proof {
            assert(all.skip(i as int)[0] == all[i as int]);
            assert(all[i as int] == toks@[i as int]@);
            assert(all.skip(i as int).skip(1) =~= all.skip(i as int + 1));
        }
        if chars_eq(k.as_slice(), kv.as_slice()) {
            proof {
                assert(token_key(all.skip(i as int)[0]) == key@);
                assert(lookup_tokens(all.skip(i as int), key@) == Some(
                    token_value(all[i as int]),
                ));
                assert(v@ == token_value(all[i as int]));
            }
            return Some(v);
        }
        i = i + 1;
    }
    proof {
        assert(all.skip(i as int) =~= Seq::<Seq<char>>::empty());
    }
    None
}

/// Looks up `key` and parses its value as a signed 64-bit number.
pub fn row_lookup_i64(row: &[char], key: &str) -> (r: Option<i64>)
    ensures
        match r {
            Option::Some(n) => row_int(row@, key@) == Option::Some(n as int),
            Option::None => row_int(row@, key@) is None,
        },
{
    match row_lookup(row, key) {
        Option::Some(v) => parse_i64(v.as_slice()),
        Option::None => None,
    }
}

/// Looks up `key` and parses its value as a number, handing back the
/// default when the key is missing.
pub fn row_lookup_i64_or(row: &[char], key: &str, d: i64) -> (r: Option<i64>)
    ensures
        match r {
            Option::Some(n) => row_int_or(row@, key@, d as int) == Option::Some(n as int),
            Option::None => row_int_or(row@, key@, d as int) is None,
        },
{
    match row_lookup(row, key) {
        Option::Some(v) => parse_i64(v.as_slice()),
        Option::None => Some(d),
    }
}

/// Looks up `key` as a string value, the empty string when missing.
pub fn row_lookup_str_or(row: &[char], key: &str) -> (r: String)
    ensures
        r@ == row_str_or(row@, key@),
{
    match row_lookup(row, key) {
        Option::Some(v) => crate::strutil::chars_to_string(v.as_slice()),
        Option::None => String::new(),
    }
}

/// Looks up `key` as a string value, `None` when the key is missing.
pub fn row_lookup_str(row: &[char], key: &str) -> (r: Option<String>)
    ensures
        match r {
            Option::Some(v) => row_value(row@, key@) == Option::Some(v@),
            Option::None => row_value(row@, key@) is None,
        },
{
    match row_lookup(row, key) {
        Option::Some(v) => Some(crate::strutil::chars_to_string(v.as_slice())),
        Option::None => None,
    }
}

} // verus!
