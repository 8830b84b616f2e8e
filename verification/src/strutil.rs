//! Small verified string utilities: moving between `&str`/`String` and
//! `Vec<char>`, and rendering integers as decimal or hexadecimal text.

use vstd::prelude::*;
use vstd::string::StrSliceExecFns;

verus! {

/// Relies on String::push: appends the given character to the end of
/// the string.
#[verifier::external_body]
pub(crate) fn push_char(s: &mut String, c: char)
    ensures
        final(s)@ == old(s)@.push(c),
{
    s.push(c);
}

/// Collects the characters of a string slice into a vector.
pub fn str_to_chars(s: &str) -> (v: Vec<char>)
    ensures
        v@ == s@,
{
    let n: usize = s.unicode_len();
    let mut v: Vec<char> = Vec::new();
    let mut i: usize = 0;
    while i < n
        invariant
            i <= n,
            n == s@.len(),
            v@ == s@.subrange(0, i as int),
        decreases n - i,
    {
        v.push(s.get_char(i));
        i = i + 1;
        proof {
            assert(v@ =~= s@.subrange(0, i as int));
        }
    }
    proof {
        assert(v@ =~= s@);
    }
    v
}

/// Builds a string out of a sequence of characters.
pub fn chars_to_string(v: &[char]) -> (s: String)
    ensures
        s@ == v@,
{
    let mut s = String::new();
    let mut i: usize = 0;
    while i < v.len()
        invariant
            i <= v@.len(),
            s@ == v@.subrange(0, i as int),
        decreases v@.len() - i,
    {
        push_char(&mut s, v[i]);
        i = i + 1;
        proof {
            assert(s@ =~= v@.subrange(0, i as int));
        }
    }
    proof {
        assert(s@ =~= v@);
    }
    s
}

/// The character for one decimal or hexadecimal digit.
pub open spec fn digit_char(d: int) -> char
    recommends
        0 <= d < 16,
{
    if d < 10 {
        ((d + 48) as u8) as char
    } else {
        ((d + 87) as u8) as char
    }
}

/// The decimal rendering of a natural number, most significant digit first.
pub open spec fn spec_u64_dec(n: nat) -> Seq<char>
    decreases n,
{
    if n < 10 {
        seq![digit_char(n as int)]
    } else {
        spec_u64_dec(n / 10).push(digit_char((n % 10) as int))
    }
}

/// The decimal rendering of an integer, with a leading minus sign when
/// it is negative.
pub open spec fn spec_i64_dec(v: int) -> Seq<char> {
    if v < 0 {
        seq!['-'] + spec_u64_dec((-v) as nat)
    } else {
        spec_u64_dec(v as nat)
    }
}

/// Renders an unsigned integer in decimal.
pub fn u64_to_string(n: u64) -> (r: String)
    ensures
        r@ == spec_u64_dec(n as nat),
    decreases n,
{
    if n < 10 {
        let mut s = String::new();
        push_char(&mut s, (48u8 + n as u8) as char);
        proof {
            assert(s@ =~= spec_u64_dec(n as nat));
        }
        s
    } else {
        let mut s = u64_to_string(n / 10);
        push_char(&mut s, (48u8 + (n % 10) as u8) as char);
        s
    }
}

/// Renders a signed integer in decimal.
pub fn i64_to_string(n: i64) -> (r: String)
    ensures
        r@ == spec_i64_dec(n as int),
{
    if n >= 0 {
        u64_to_string(n as u64)
    } else {
        let mag: u64 = if n == i64::MIN {
            9223372036854775808u64
        } else {
            (-n) as u64
        };
        let mut s = String::new();
        push_char(&mut s, '-');
        let digits = u64_to_string(mag);
        s.append(digits.as_str());
        s
    }
}

/// The hexadecimal rendering of a natural number, lower case, most
/// significant digit first.
pub open spec fn spec_u64_hex(n: nat) -> Seq<char>
    decreases n,
{
    if n < 16 {
        seq![digit_char(n as int)]
    } else {
        spec_u64_hex(n / 16).push(digit_char((n % 16) as int))
    }
}

/// The hexadecimal rendering padded on the left with zeros to at least
/// `width` digits.
pub open spec fn spec_u64_hex_pad(n: nat, width: nat) -> Seq<char>
    decreases width,
{
    if spec_u64_hex(n).len() >= width {
        spec_u64_hex(n)
    } else {
        seq!['0'] + spec_u64_hex_pad(n, (width - 1) as nat)
    }
}

fn hex_digit(d: u64) -> (c: char)
    requires
        d < 16,
    ensures
        c == digit_char(d as int),
{
    if d < 10 {
        (48u8 + d as u8) as char
    } else {
        (87u8 + d as u8) as char
    }
}

/// Renders an unsigned integer in hexadecimal, lower case.
pub fn u64_to_hex(n: u64) -> (r: String)
    ensures
        r@ == spec_u64_hex(n as nat),
    decreases n,
{
    if n < 16 {
        let mut s = String::new();
        push_char(&mut s, hex_digit(n));
        proof {
            assert(s@ =~= spec_u64_hex(n as nat));
        }
        s
    } else {
        let mut s = u64_to_hex(n / 16);
        push_char(&mut s, hex_digit(n % 16));
        s
    }
}

proof fn lemma_hex_len(n: nat)
    ensures
        spec_u64_hex(n).len() >= 1,
    decreases n,
{
    if n >= 16 {
        lemma_hex_len(n / 16);
    }
}

/// Renders an unsigned integer in hexadecimal, padded on the left with
/// zeros to at least `width` digits.
pub fn u64_to_hex_pad(n: u64, width: usize) -> (r: String)
    ensures
        r@ == spec_u64_hex_pad(n as nat, width as nat),
    decreases width,
{
    let digits = u64_to_hex(n);
    proof {
        lemma_hex_len(n as nat);
    }
    if digits.as_str().unicode_len() >= width {
        digits
    } else {
        let mut s = String::new();
        push_char(&mut s, '0');
        let rest = u64_to_hex_pad(n, width - 1);
        s.append(rest.as_str());
        s
    }
}

/// Whether a character is a decimal digit.
pub open spec fn is_digit(c: char) -> bool {
    48 <= c as u32 && c as u32 <= 57
}

/// The value of one decimal digit character.
pub open spec fn digit_val(c: char) -> int {
    c as u32 - 48
}

/// Whether every character of the text is a decimal digit.
pub open spec fn all_digits(s: Seq<char>) -> bool {
    forall|i: int| 0 <= i < s.len() ==> is_digit(#[trigger] s[i])
}

/// The numeric value of a text of decimal digits.
pub open spec fn dec_val(s: Seq<char>) -> int
    decreases s.len(),
{
    if s.len() == 0 {
        0
    } else {
        dec_val(s.drop_last()) * 10 + digit_val(s.last())
    }
}

proof fn lemma_u64_dec_digits(n: nat)
    ensures
        spec_u64_dec(n).len() >= 1,
        all_digits(spec_u64_dec(n)),
        dec_val(spec_u64_dec(n)) == n,
    decreases n,
{
    if n < 10 {
        let s = spec_u64_dec(n);
        assert(s[0] == digit_char(n as int));
        assert(is_digit(digit_char(n as int)));
        assert(s.last() == s[0]);
        assert(digit_val(digit_char(n as int)) == n);
        assert(s.drop_last() =~= Seq::<char>::empty());
        assert(dec_val(s) == dec_val(s.drop_last()) * 10 + digit_val(s.last()));
        assert(dec_val(s) == n);
    } else {
        lemma_u64_dec_digits(n / 10);
        let p = spec_u64_dec(n / 10);
        let s = spec_u64_dec(n);
        assert(s == p.push(digit_char((n % 10) as int)));
        assert(s.drop_last() =~= p);
        assert forall|i: int| 0 <= i < s.len() implies is_digit(#[trigger] s[i]) by {
            if i < p.len() {
                assert(s[i] == p[i]);
            } else {
                assert(s[i] == digit_char((n % 10) as int));
            }
        }
        assert(dec_val(s) == dec_val(p) * 10 + digit_val(s.last()));
        assert(digit_val(digit_char((n % 10) as int)) == n % 10);
        assert((n / 10) * 10 + n % 10 == n) by (nonlinear_arith);
        assert(dec_val(s) == n);
    }
}

/// A decimal rendering of a 64-bit value parses back to that value.
pub proof fn lemma_i64_text_roundtrip(v: int)
    requires
        i64::MIN <= v <= i64::MAX,
    ensures
        is_i64_text(spec_i64_dec(v)),
        i64_text_val(spec_i64_dec(v)) == v,
{
    if v < 0 {
        lemma_u64_dec_digits((-v) as nat);
        let s = spec_i64_dec(v);
        assert(s[0] == '-');
        assert(s.skip(1) =~= spec_u64_dec((-v) as nat));
    } else {
        lemma_u64_dec_digits(v as nat);
        let s = spec_i64_dec(v);
        assert(is_digit(s[0]));
        assert(s[0] as u32 != 45) by {
            assert(48 <= s[0] as u32 <= 57);
        }
        assert(s[0] != '-');
    }
}

/// Whether a text is a decimal rendering of a value that fits in `i64`:
/// an optional leading minus sign, then at least one digit.
pub open spec fn is_i64_text(s: Seq<char>) -> bool {
    if s.len() >= 1 && s[0] == '-' {
        let d = s.skip(1);
        d.len() > 0 && all_digits(d) && -dec_val(d) >= i64::MIN
    } else {
        s.len() > 0 && all_digits(s) && dec_val(s) <= i64::MAX
    }
}

/// The value of a decimal text, signed.
pub open spec fn i64_text_val(s: Seq<char>) -> int {
    if s.len() >= 1 && s[0] == '-' {
        -dec_val(s.skip(1))
    } else {
        dec_val(s)
    }
}

proof fn lemma_dec_val_nonneg(s: Seq<char>)
    requires
        all_digits(s),
    ensures
        dec_val(s) >= 0,
    decreases s.len(),
{
    if s.len() > 0 {
        assert(all_digits(s.drop_last()));
        lemma_dec_val_nonneg(s.drop_last());
    }
}

proof fn lemma_dec_val_step(s: Seq<char>, i: int)
    requires
        0 <= i < s.len(),
    ensures
        dec_val(s.subrange(0, i + 1)) == dec_val(s.subrange(0, i)) * 10 + digit_val(s[i]),
{
    assert(s.subrange(0, i + 1).drop_last() =~= s.subrange(0, i));
    assert(s.subrange(0, i + 1).last() == s[i]);
}

proof fn lemma_dec_val_mono(s: Seq<char>, i: int)
    requires
        all_digits(s),
        0 <= i <= s.len(),
    ensures
        dec_val(s.subrange(0, i)) <= dec_val(s),
    decreases s.len() - i,
{
    if i == s.len() {
        assert(s.subrange(0, i) =~= s);
    } else {
        lemma_dec_val_step(s, i);
        assert(all_digits(s.subrange(0, i)));
        lemma_dec_val_nonneg(s.subrange(0, i));
        lemma_dec_val_mono(s, i + 1);
    }
}

/// Parses a decimal digit text as an unsigned value, refusing anything
/// above 2^63 (the largest magnitude a signed 64-bit value can carry).
fn parse_magnitude(v: &[char], from: usize) -> (r: Option<u64>)
    requires
        from <= v@.len(),
    ensures
        match r {
            Some(m) => {
                &&& all_digits(v@.skip(from as int))
                &&& v@.len() - from > 0
                &&& m == dec_val(v@.skip(from as int))
                &&& m <= 9223372036854775808u64
            },
            None => !(all_digits(v@.skip(from as int)) && v@.len() - from > 0 && dec_val(
                v@.skip(from as int),
            ) <= 9223372036854775808u64),
        },
{
    let ghost digits = v@.skip(from as int);
    if from >= v.len() {
        return None;
    }
    let mut acc: u64 = 0;
    let mut i: usize = from;
    while i < v.len()
        invariant
            from <= i <= v@.len(),
            digits == v@.skip(from as int),
            all_digits(digits.subrange(0, i - from)),
            acc == dec_val(digits.subrange(0, i - from)),
            acc <= 9223372036854775808u64,
        decreases v@.len() - i,
    {
        let c = v[i];
        let cu: u32 = c as u32;
        if !(cu >= 48 && cu <= 57) {
            proof {
                assert(digits[i - from] == v@[i as int]);
                assert(!is_digit(digits[i - from]));
            }
            return None;
        }
        let d: u64 = (cu - 48) as u64;
        proof {
            assert(digits[i - from] == v@[i as int]);
            assert(is_digit(digits[i - from]));
            assert(d == digit_val(digits[i - from]));
            lemma_dec_val_step(digits, i - from);
        }
        if acc > 922337203685477580u64 || (acc == 922337203685477580u64 && d > 8) {
            proof {
                if all_digits(digits) {
                    lemma_dec_val_mono(digits, i - from + 1);
                }
            }
            return None;
        }
        acc = acc * 10 + d;
        i = i + 1;
    }
    proof {
        assert(digits.subrange(0, i - from) =~= digits);
    }
    Some(acc)
}

/// Parses a decimal text, with an optional leading minus sign, as a
/// signed 64-bit value. Returns `None` exactly when the text is not a
/// well-formed decimal or its value does not fit.
pub fn parse_i64(v: &[char]) -> (r: Option<i64>)
    ensures
        r is Some <==> is_i64_text(v@),
        r is Some ==> r->0 as int == i64_text_val(v@),
{
    if v.len() == 0 {
        return None;
    }
    if v[0] == '-' {
        match parse_magnitude(v, 1) {
            None => {
                proof {
                    if all_digits(v@.skip(1)) && v@.len() > 1 {
                        lemma_dec_val_nonneg(v@.skip(1));
                    }
                }
                None
            },
            Some(m) => {
                if m == 9223372036854775808u64 {
                    Some(i64::MIN)
                } else {
                    Some(-(m as i64))
                }
            },
        }
    } else {
        match parse_magnitude(v, 0) {
            None => {
                proof {
                    assert(v@.skip(0) =~= v@);
                }
                None
            },
            Some(m) => {
                proof {
                    assert(v@.skip(0) =~= v@);
                }
                if m <= 9223372036854775807u64 {
                    Some(m as i64)
                } else {
                    None
                }
            },
        }
    }
}

/// Whether `p` is a prefix of `s`.
pub open spec fn has_prefix(s: Seq<char>, p: Seq<char>) -> bool {
    p.len() <= s.len() && s.subrange(0, p.len() as int) == p
}

/// Whether `p` is a suffix of `s`.
pub open spec fn has_suffix(s: Seq<char>, p: Seq<char>) -> bool {
    p.len() <= s.len() && s.subrange(s.len() - p.len(), s.len() as int) == p
}

/// Whether `p` occurs somewhere in `s`.
pub open spec fn contains_seq(s: Seq<char>, p: Seq<char>) -> bool {
    exists|i: int|
        0 <= i && i + p.len() <= s.len() && #[trigger] s.subrange(i, i + p.len()) == p
}

/// Compares two character sequences for equality.
pub fn chars_eq(a: &[char], b: &[char]) -> (r: bool)
    ensures
        r == (a@ == b@),
{
    if a.len() != b.len() {
        proof {
            assert(a@ != b@);
        }
        return false;
    }
    let mut i: usize = 0;
    while i < a.len()
        invariant
            i <= a@.len(),
            a@.len() == b@.len(),
            forall|j: int| 0 <= j < i ==> a@[j] == b@[j],
        decreases a@.len() - i,
    {
        if a[i] != b[i] {
            return false;
        }
        i = i + 1;
    }
    proof {
        assert(a@ =~= b@);
    }
    true
}

/// Whether the characters starting at `at` in `s` equal `p`.
fn matches_at(s: &[char], p: &[char], at: usize) -> (r: bool)
    requires
        at + p@.len() <= s@.len(),
    ensures
        r == (s@.subrange(at as int, at + p@.len()) == p@),
{
    let n: usize = s.len();
    let mut i: usize = 0;
    while i < p.len()
        invariant
            i <= p@.len(),
            at + p@.len() <= s@.len(),
            n == s@.len(),
            forall|j: int| 0 <= j < i ==> s@[at + j] == p@[j],
        decreases p@.len() - i,
    {
        proof {
            assert(at + i < n);
        }
        if s[at + i] != p[i] {
            proof {
                assert(s@.subrange(at as int, at + p@.len())[i as int] == s@[at + i]);
            }
            return false;
        }
        i = i + 1;
    }
    proof {
        assert(s@.subrange(at as int, at + p@.len()) =~= p@);
    }
    true
}

/// Tests whether `p` is a prefix of `s`.
pub fn chars_has_prefix(s: &[char], p: &[char]) -> (r: bool)
    ensures
        r == has_prefix(s@, p@),
{
    if p.len() > s.len() {
        return false;
    }
    matches_at(s, p, 0)
}

/// Tests whether `p` is a suffix of `s`.
pub fn chars_has_suffix(s: &[char], p: &[char]) -> (r: bool)
    ensures
        r == has_suffix(s@, p@),
{
    if p.len() > s.len() {
        return false;
    }
    matches_at(s, p, s.len() - p.len())
}

/// Tests whether `p` occurs somewhere in `s`.
pub fn chars_contains(s: &[char], p: &[char]) -> (r: bool)
    ensures
        r == contains_seq(s@, p@),
{
    if p.len() > s.len() {
        return false;
    }
    if p.len() == 0 {
        proof {
            assert(contains_seq(s@, p@)) by {
                assert(s@.subrange(0, 0 + p@.len() as int) =~= p@);
            }
        }
        return true;
    }
    let last: usize = s.len() - p.len();
    let mut i: usize = 0;
    loop
        invariant
            i <= last,
            last == s@.len() - p@.len(),
            1 <= p@.len() <= s@.len(),
            forall|j: int|
                0 <= j < i ==> #[trigger] s@.subrange(j, j + p@.len()) != p@,
        decreases last - i,
    {
        if matches_at(s, p, i) {
            proof {
                assert(contains_seq(s@, p@)) by {
                    assert(s@.subrange(i as int, i as int + p@.len()) == p@);
                }
            }
            return true;
        }
        if i == last {
            proof {
                assert forall|j: int|
                    0 <= j && j + p@.len() <= s@.len() implies #[trigger] s@.subrange(
                    j,
                    j + p@.len(),
                ) != p@ by {
                    assert(j <= last);
                }
            }
            return false;
        }
        i = i + 1;
    }
}


/// The views of a list of strings.
pub open spec fn string_views(v: Seq<String>) -> Seq<Seq<char>> {
    v.map_values(|s: String| s@)
}

/// Copies a list of strings.
pub fn clone_strings(v: &Vec<String>) -> (r: Vec<String>)
    ensures
        string_views(r@) == string_views(v@),
{
    let mut out: Vec<String> = Vec::new();
    let n: usize = v.len();
    let mut i: usize = 0;
    proof {
        assert(string_views(out@) =~~= string_views(v@).subrange(0, 0));
    }
    while i < n
        invariant
            i <= n,
            n == v@.len(),
            string_views(out@) == string_views(v@).subrange(0, i as int),
        decreases n - i,
    {
        let c = v[i].clone();
        let ghost pre = out@;
        proof {
            assert(string_views(pre).len() == pre.len());
            assert(string_views(v@).subrange(0, i as int).len() == i);
            assert(pre.len() == i);
        }
        out.push(c);
        proof {
            assert(out@ == pre.push(c));
            assert forall|j: int| 0 <= j < i + 1 implies #[trigger] string_views(out@)[j]
                == string_views(v@).subrange(0, i + 1)[j] by {
                if j < i {
                    assert(string_views(pre)[j] == string_views(v@).subrange(0, i as int)[j]);
                    assert(out@[j] == pre[j]);
                } else {
                    assert(out@[j] == c);
                    assert(c@ == v@[j]@);
                }
            }
            assert(string_views(out@) =~= string_views(v@).subrange(0, i + 1));
        }
        i = i + 1;
    }
    proof {
        assert(string_views(out@) =~~= string_views(v@));
    }
    out
}

/// Whether a character is wire whitespace: space, carriage return,
/// newline or tab.
pub open spec fn is_space_char(c: char) -> bool {
    c == ' ' || c == '\r' || c == '\n' || c == '\t'
}

/// The text with leading whitespace removed.
pub open spec fn trim_start_spec(s: Seq<char>) -> Seq<char>
    decreases s.len(),
{
    if s.len() > 0 && is_space_char(s[0]) {
        trim_start_spec(s.skip(1))
    } else {
        s
    }
}

/// The text with trailing whitespace removed.
pub open spec fn trim_end_spec(s: Seq<char>) -> Seq<char>
    decreases s.len(),
{
    if s.len() > 0 && is_space_char(s.last()) {
        trim_end_spec(s.drop_last())
    } else {
        s
    }
}

/// The text with whitespace removed from both ends.
pub open spec fn spec_trim(s: Seq<char>) -> Seq<char> {
    trim_end_spec(trim_start_spec(s))
}

fn is_space(c: char) -> (r: bool)
    ensures
        r == is_space_char(c),
{
    c == ' ' || c == '\r' || c == '\n' || c == '\t'
}

proof fn lemma_trim_start_no_space(s: Seq<char>, a: int)
    requires
        0 <= a <= s.len(),
        forall|j: int| 0 <= j < a ==> is_space_char(s[j]),
        a < s.len() ==> !is_space_char(s[a]),
    ensures
        trim_start_spec(s) == s.skip(a),
    decreases a,
{
    if a == 0 {
        if s.len() > 0 {
        }
        assert(s.skip(0) =~= s);
    } else {
        assert(is_space_char(s[0]));
        assert forall|j: int| 0 <= j < a - 1 implies is_space_char(s.skip(1)[j]) by {
            assert(s.skip(1)[j] == s[j + 1]);
        }
        if a - 1 < s.skip(1).len() {
            assert(s.skip(1)[a - 1] == s[a]);
        }
        lemma_trim_start_no_space(s.skip(1), a - 1);
        assert(s.skip(1).skip(a - 1) =~= s.skip(a));
    }
}

proof fn lemma_trim_end_no_space(s: Seq<char>, b: int)
    requires
        0 <= b <= s.len(),
        forall|j: int| b <= j < s.len() ==> is_space_char(s[j]),
        b > 0 ==> !is_space_char(s[b - 1]),
    ensures
        trim_end_spec(s) == s.subrange(0, b),
    decreases s.len() - b,
{
    if b == s.len() {
        if s.len() > 0 && is_space_char(s.last()) {
            assert(false);
        }
        assert(s.subrange(0, b) =~= s);
    } else {
        assert(is_space_char(s.last()));
        assert forall|j: int| b <= j < s.drop_last().len() implies is_space_char(
            s.drop_last()[j],
        ) by {
            assert(s.drop_last()[j] == s[j]);
        }
        if b > 0 {
            assert(s.drop_last()[b - 1] == s[b - 1]);
        }
        lemma_trim_end_no_space(s.drop_last(), b);
        assert(s.drop_last().subrange(0, b) =~= s.subrange(0, b));
    }
}

/// Removes whitespace from both ends of a sequence of characters.
pub fn trim_chars(v: &[char]) -> (r: Vec<char>)
    ensures
        r@ == spec_trim(v@),
{
    let n: usize = v.len();
    let mut start: usize = 0;
    while start < n && is_space(v[start])
        invariant
            0 <= start <= n,
            n == v@.len(),
            forall|j: int| 0 <= j < start ==> is_space_char(v@[j]),
        decreases n - start,
    {
        start = start + 1;
    }
    proof {
        lemma_trim_start_no_space(v@, start as int);
    }
    let mut end: usize = n;
    while end > start && is_space(v[end - 1])
        invariant
            start <= end <= n,
            n == v@.len(),
            forall|j: int| end <= j < n ==> is_space_char(v@[j]),
        decreases end,
    {
        end = end - 1;
    }
    proof {
        let t = v@.skip(start as int);
        assert forall|j: int| end - start <= j < t.len() implies is_space_char(t[j]) by {
            assert(t[j] == v@[start + j]);
        }
        if end > start {
            assert(t[end - start - 1] == v@[end - 1]);
        }
        lemma_trim_end_no_space(t, end - start);
        assert(t.subrange(0, end - start) =~= v@.subrange(start as int, end as int));
    }
    vstd::slice::slice_to_vec(vstd::slice::slice_subrange(v, start, end))
}

} // verus!
