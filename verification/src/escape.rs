//! Escaping of free-text fields on the wire.
//!
//! Spaces and slashes separate fields in the query protocol, so every
//! outbound free-text value must be escaped: backslash becomes `\\`,
//! space becomes `\s`, and forward slash becomes `\/`. Inbound values
//! are unescaped with the inverse rules; an unknown escape pair is kept
//! as it stands.

use vstd::prelude::*;

verus! {

/// The escaped form of one character.
pub open spec fn esc_char(c: char) -> Seq<char> {
    if c == '\\' {
        seq!['\\', '\\']
    } else if c == ' ' {
        seq!['\\', 's']
    } else if c == '/' {
        seq!['\\', '/']
    } else {
        seq![c]
    }
}

/// The escaped form of a text: each character replaced by its escaped form.
pub open spec fn spec_escape(s: Seq<char>) -> Seq<char>
    decreases s.len(),
{
    if s.len() == 0 {
        Seq::empty()
    } else {
        esc_char(s[0]) + spec_escape(s.skip(1))
    }
}

/// The unescaped form of a wire value: `\\`, `\s` and `\/` turn back
/// into backslash, space and slash; any other pair is kept unchanged.
pub open spec fn spec_unescape(s: Seq<char>) -> Seq<char>
    decreases s.len(),
{
    if s.len() == 0 {
        Seq::empty()
    } else if s[0] == '\\' && s.len() >= 2 {
        let c = s[1];
        if c == '\\' {
            seq!['\\'] + spec_unescape(s.skip(2))
        } else if c == 's' {
            seq![' '] + spec_unescape(s.skip(2))
        } else if c == '/' {
            seq!['/'] + spec_unescape(s.skip(2))
        } else {
            seq![s[0], s[1]] + spec_unescape(s.skip(2))
        }
    } else {
        seq![s[0]] + spec_unescape(s.skip(1))
    }
}

/// Escapes a sequence of characters.
pub fn escape_chars(v: &[char]) -> (r: Vec<char>)
    ensures
        r@ == spec_escape(v@),
{
    let mut out: Vec<char> = Vec::new();
    let mut i: usize = 0;
    proof {
        assert(v@.skip(0) =~= v@);
        assert(spec_escape(v@) =~= out@ + spec_escape(v@.skip(0)));
    }
    while i < v.len()
        invariant
            i <= v@.len(),
            spec_escape(v@) == out@ + spec_escape(v@.skip(i as int)),
        decreases v@.len() - i,
    {
        let c = v[i];
        proof {
            assert(v@.skip(i as int)[0] == c);
            assert(v@.skip(i as int).skip(1) =~= v@.skip(i as int + 1));
        }
        if c == '\\' {
            out.push('\\');
            out.push('\\');
        } else if c == ' ' {
            out.push('\\');
            out.push('s');
        } else if c == '/' {
            out.push('\\');
            out.push('/');
        } else {
            out.push(c);
        }
        i = i + 1;
        proof {
            assert(spec_escape(v@) =~= out@ + spec_escape(v@.skip(i as int)));
        }
    }
    proof {
        assert(v@.skip(i as int) =~= Seq::<char>::empty());
        assert(out@ =~= spec_escape(v@));
    }
    out
}

/// Unescapes a sequence of characters.
pub fn unescape_chars(v: &[char]) -> (r: Vec<char>)
    ensures
        r@ == spec_unescape(v@),
{
    let mut out: Vec<char> = Vec::new();
    let mut i: usize = 0;
    proof {
        assert(v@.skip(0) =~= v@);
        assert(spec_unescape(v@) =~= out@ + spec_unescape(v@.skip(0)));
    }
    while i < v.len()
        invariant
            i <= v@.len(),
            spec_unescape(v@) == out@ + spec_unescape(v@.skip(i as int)),
        decreases v@.len() - i,
    {
        let c = v[i];
        proof {
            assert(v@.skip(i as int)[0] == c);
            assert(v@.skip(i as int).skip(1) =~= v@.skip(i as int + 1));
        }
        if c == '\\' && i + 1 < v.len() {
            let d = v[i + 1];
            proof {
                assert(v@.skip(i as int)[1] == d);
                assert(v@.skip(i as int).skip(2) =~= v@.skip(i as int + 2));
            }
            if d == '\\' {
                out.push('\\');
            } else if d == 's' {
                out.push(' ');
            } else if d == '/' {
                out.push('/');
            } else {
                out.push(c);
                out.push(d);
            }
            i = i + 2;
        } else {
            out.push(c);
            i = i + 1;
        }
        proof {
            assert(spec_unescape(v@) =~= out@ + spec_unescape(v@.skip(i as int)));
        }
    }
    proof {
        assert(v@.skip(i as int) =~= Seq::<char>::empty());
        assert(out@ =~= spec_unescape(v@));
    }
    out
}

/// Escapes a string for use as a wire field.
pub fn escape(s: &str) -> (r: String)
    ensures
        r@ == spec_escape(s@),
{
    let v = crate::strutil::str_to_chars(s);
    let out = escape_chars(v.as_slice());
    crate::strutil::chars_to_string(out.as_slice())
}

/// Unescapes a wire field back into plain text.
pub fn unescape(s: &str) -> (r: String)
    ensures
        r@ == spec_unescape(s@),
{
    let v = crate::strutil::str_to_chars(s);
    let out = unescape_chars(v.as_slice());
    crate::strutil::chars_to_string(out.as_slice())
}

/// Unescaping undoes escaping on every text.
pub proof fn lemma_unescape_escape(x: Seq<char>)
    ensures
        spec_unescape(spec_escape(x)) == x,
    decreases x.len(),
{
    if x.len() == 0 {
        assert(spec_unescape(spec_escape(x)) =~= x);
    } else {
        let c = x[0];
        let rest = x.skip(1);
        lemma_unescape_escape(rest);
        let e = spec_escape(x);
        assert(e == esc_char(c) + spec_escape(rest));
        if c == '\\' || c == ' ' || c == '/' {
            assert(e[0] == '\\');
            assert(e.len() >= 2);
            assert(e.skip(2) =~= spec_escape(rest));
            assert(spec_unescape(e) =~= seq![c] + spec_unescape(spec_escape(rest)));
        } else {
            assert(e[0] == c);
            if spec_escape(rest).len() >= 1 {
                assert(e[1] == spec_escape(rest)[0]);
            }
            assert(e.skip(1) =~= spec_escape(rest));
            assert(spec_unescape(e) =~= seq![c] + spec_unescape(spec_escape(rest)));
        }
        assert(seq![c] + rest =~= x);
    }
}

/// Escaping, unescaping, and escaping again gives the same wire text as
/// escaping once, for every text, in particular one holding spaces,
/// slashes and backslashes.
pub proof fn lemma_escape_round_trip(x: Seq<char>)
    ensures
        spec_escape(spec_unescape(spec_escape(x))) == spec_escape(x),
{
    lemma_unescape_escape(x);
}

} // verus!
