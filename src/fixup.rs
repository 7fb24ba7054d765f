//! Textual post-processing of a rendered string: the `{ms}` placeholder
//! and the colon in a trailing numeric time-zone offset.
use vstd::prelude::*;
use crate::text::{chars_of, string_from_chars};

verus! {

/// The ten decimal digits, in order of value.
pub open spec fn digit_chars() -> Seq<char> {
    seq!['0', '1', '2', '3', '4', '5', '6', '7', '8', '9']
}

/// The decimal representation of `n`, without leading zeros.
pub open spec fn decimal(n: nat) -> Seq<char>
    decreases n,
{
    if n < 10 {
        seq![digit_chars()[n as int]]
    } else {
        decimal(n / 10).push(digit_chars()[(n % 10) as int])
    }
}

/// `n` in decimal, zero-padded on the left to at least three digits.
pub open spec fn ms_text(n: nat) -> Seq<char> {
    if n < 10 {
        seq!['0', '0'] + decimal(n)
    } else if n < 100 {
        seq!['0'] + decimal(n)
    } else {
        decimal(n)
    }
}

/// The literal placeholder text `{ms}`.
pub open spec fn placeholder() -> Seq<char> {
    seq!['{', 'm', 's', '}']
}

/// `s` holds the placeholder somewhere.
pub open spec fn has_placeholder(s: Seq<char>) -> bool {
    exists|i: int| 0 <= i && i + 4 <= s.len() && #[trigger] s.subrange(i, i + 4) == placeholder()
}

/// `s` with every occurrence of the placeholder, read left to right without
/// overlap, replaced by `rep`.
pub open spec fn replace_placeholder(s: Seq<char>, rep: Seq<char>) -> Seq<char>
    decreases s.len(),
{
    if s.len() == 0 {
        s
    } else if s.len() >= 4 && s.subrange(0, 4) == placeholder() {
        rep + replace_placeholder(s.subrange(4, s.len() as int), rep)
    } else {
        seq![s[0]] + replace_placeholder(s.subrange(1, s.len() as int), rep)
    }
}

pub open spec fn is_ascii_digit(c: char) -> bool {
    '0' <= c && c <= '9'
}

/// `s` with a colon inserted two characters before the end, when `s` is
/// longer than five characters and ends in a digit (taken to be a numeric
/// offset such as `+0500` at the very end); otherwise `s` itself.
pub open spec fn with_offset_colon(s: Seq<char>) -> Seq<char> {
    if s.len() > 5 && is_ascii_digit(s.last()) {
        s.subrange(0, s.len() - 2) + seq![':'] + s.subrange(s.len() - 2, s.len() as int)
    } else {
        s
    }
}

fn digit_char(d: u16) -> (c: char)
    requires
        d < 10,
    ensures
        c == digit_chars()[d as int],
{
    let digits: [char; 10] = ['0', '1', '2', '3', '4', '5', '6', '7', '8', '9'];
    digits[d as usize]
}

fn push_decimal(n: u16, out: &mut Vec<char>)
    ensures
        final(out)@ == old(out)@ + decimal(n as nat),
    decreases n,
{
    if n < 10 {
        out.push(digit_char(n));
        assert(final(out)@ =~= old(out)@ + decimal(n as nat));
    } else {
        push_decimal(n / 10, out);
        out.push(digit_char(n % 10));
        assert(final(out)@ =~= old(out)@ + decimal(n as nat));
    }
}

/// The milliseconds as text, zero-padded to three digits.
fn ms_chars(ms: u16) -> (r: Vec<char>)
    ensures
        r@ == ms_text(ms as nat),
{
    let mut out: Vec<char> = Vec::new();
    if ms < 10 {
        out.push('0');
        out.push('0');
    } else if ms < 100 {
        out.push('0');
    }
    push_decimal(ms, &mut out);
    assert(out@ =~= ms_text(ms as nat));
    out
}

fn placeholder_at(v: &Vec<char>, i: usize) -> (r: bool)
    requires
        i <= v.len(),
    ensures
        r == (i + 4 <= v.len() && v@.subrange(i as int, i + 4) == placeholder()),
{
    if v.len() - i < 4 {
        return false;
    }
    let r = v[i] == '{' && v[i + 1] == 'm' && v[i + 2] == 's' && v[i + 3] == '}';
    assert(r ==> v@.subrange(i as int, i + 4) =~= placeholder());
    assert(v@.subrange(i as int, i + 4) == placeholder() ==> {
        &&& v@.subrange(i as int, i + 4)[0] == '{'
        &&& v@.subrange(i as int, i + 4)[1] == 'm'
        &&& v@.subrange(i as int, i + 4)[2] == 's'
        &&& v@.subrange(i as int, i + 4)[3] == '}'
    });
    r
}

fn contains_placeholder(v: &Vec<char>) -> (r: bool)
    ensures
        r == has_placeholder(v@),
{
    let mut i: usize = 0;
    while i < v.len()
        invariant
            i <= v.len(),
            forall|j: int| 0 <= j < i ==> !(j + 4 <= v@.len() && #[trigger] v@.subrange(j, j + 4) == placeholder()),
        decreases v.len() - i,
    {
        if placeholder_at(v, i) {
            return true;
        }
        i += 1;
    }
    proof {
        if has_placeholder(v@) {
            let j = choose|j: int| 0 <= j && j + 4 <= v@.len() && #[trigger] v@.subrange(j, j + 4) == placeholder();
            assert(j < i);
        }
    }
    false
}

/// Replace every `{ms}` of `rendered` by the milliseconds, zero-padded to
/// three digits, when `pattern` (the pattern `rendered` was produced from)
/// holds the placeholder; otherwise return `rendered` as it is.
pub fn substitute_ms(rendered: String, pattern: &str, milliseconds: u16) -> (r: String)
    ensures
        r@ == if has_placeholder(pattern@) {
            replace_placeholder(rendered@, ms_text(milliseconds as nat))
        } else {
            rendered@
        },
{
    let p = chars_of(pattern);
    if !contains_placeholder(&p) {
        return rendered;
    }
    let rep = ms_chars(milliseconds);
    let v = chars_of(rendered.as_str());
    let n = v.len();
    let mut out: Vec<char> = Vec::new();
    let mut i: usize = 0;
    assert(v@.subrange(0, n as int) =~= v@);
    while i < n
        invariant
            n == v.len(),
            i <= n,
            out@ + replace_placeholder(v@.subrange(i as int, n as int), rep@) == replace_placeholder(
                v@,
                rep@,
            ),
        decreases n - i,
    {
        let ghost rest = v@.subrange(i as int, n as int);
        if placeholder_at(&v, i) {
            assert(rest.subrange(0, 4) =~= v@.subrange(i as int, i + 4));
            assert(rest.subrange(4, rest.len() as int) =~= v@.subrange(i + 4, n as int));
            let mut k: usize = 0;
            let ghost start = out@;
            while k < rep.len()
                invariant
                    k <= rep.len(),
                    out@ == start + rep@.subrange(0, k as int),
                decreases rep.len() - k,
            {
                out.push(rep[k]);
                assert(out@ =~= start + rep@.subrange(0, k + 1));
                k += 1;
            }
            assert(rep@.subrange(0, k as int) =~= rep@);
            assert(out@ + replace_placeholder(v@.subrange(i + 4, n as int), rep@) =~= start
                + replace_placeholder(rest, rep@));
            i += 4;
        } else {
            assert(rest.len() >= 4 ==> rest.subrange(0, 4) =~= v@.subrange(i as int, i + 4));
            assert(rest.subrange(1, rest.len() as int) =~= v@.subrange(i + 1, n as int));
            let ghost start = out@;
            out.push(v[i]);
            assert(out@ + replace_placeholder(v@.subrange(i + 1, n as int), rep@) =~= start
                + replace_placeholder(rest, rep@));
            i += 1;
        }
    }
    assert(v@.subrange(n as int, n as int) =~= Seq::<char>::empty());
    assert(out@ =~= replace_placeholder(v@, rep@));
    string_from_chars(out)
}

/// Put a colon into a trailing numeric offset (`+0500` becomes `+05:00`):
/// when `rendered` is longer than five characters and ends in a digit, a
/// colon goes two characters before the end. The offset is assumed to be
/// the last field; any other string ending in a digit is changed the same
/// way.
pub fn insert_offset_colon(rendered: String) -> (r: String)
    ensures
        r@ == with_offset_colon(rendered@),
{
    let v = chars_of(rendered.as_str());
    let n = v.len();
    if n > 5 && '0' <= v[n - 1] && v[n - 1] <= '9' {
        let mut out: Vec<char> = Vec::new();
        let mut i: usize = 0;
        while i < n
            invariant
                n == v.len(),
                n > 5,
                i <= n,
                out@ == if i <= n - 2 {
                    v@.subrange(0, i as int)
                } else {
                    v@.subrange(0, n - 2) + seq![':'] + v@.subrange(n - 2, i as int)
                },
            decreases n - i,
        {
            if i == n - 2 {
                out.push(':');
            }
            out.push(v[i]);
            assert(out@ =~= if i + 1 <= n - 2 {
                v@.subrange(0, i + 1)
            } else {
                v@.subrange(0, n - 2) + seq![':'] + v@.subrange(n - 2, i + 1)
            });
            i += 1;
        }
        assert(out@ =~= with_offset_colon(rendered@));
        string_from_chars(out)
    } else {
        rendered
    }
}

} // verus!
