//! Advisory validation of strftime-style patterns.
use vstd::prelude::*;
use crate::error::Error;
use crate::text::chars_of;

verus! {

/// The characters accepted after a `%`: the standard field letters, the
/// escaped `%` itself, and the `E`, `O` and `+` modifiers.
pub open spec fn is_specifier(c: char) -> bool {
    c == 'a' || c == 'A' || c == 'b' || c == 'B' || c == 'c' || c == 'C' || c == 'd'
        || c == 'D' || c == 'e' || c == 'F' || c == 'g' || c == 'G' || c == 'h' || c == 'H'
        || c == 'I' || c == 'j' || c == 'k' || c == 'l' || c == 'm' || c == 'M' || c == 'n'
        || c == 'p' || c == 'P' || c == 'r' || c == 'R' || c == 's' || c == 'S' || c == 't'
        || c == 'T' || c == 'u' || c == 'U' || c == 'V' || c == 'w' || c == 'W' || c == 'x'
        || c == 'X' || c == 'y' || c == 'Y' || c == 'z' || c == 'Z' || c == '%' || c == 'E'
        || c == 'O' || c == '+'
}

/// Read left to right, every `%` is followed by an accepted specifier, the
/// pair being consumed together (so `%%` is one escaped percent sign).
pub open spec fn directives_well_formed(s: Seq<char>) -> bool
    decreases s.len(),
{
    if s.len() == 0 {
        true
    } else if s[0] == '%' {
        s.len() >= 2 && is_specifier(s[1]) && directives_well_formed(s.subrange(2, s.len() as int))
    } else {
        directives_well_formed(s.subrange(1, s.len() as int))
    }
}

/// How many times `c` occurs in `s`.
pub open spec fn count_char(s: Seq<char>, c: char) -> nat
    decreases s.len(),
{
    if s.len() == 0 {
        0
    } else {
        count_char(s.drop_last(), c) + if s.last() == c { 1nat } else { 0nat }
    }
}

/// The outcome of validating pattern `s`: emptiness first, then null
/// characters, then the `%` directives, then brace balance.
pub open spec fn validation_outcome(s: Seq<char>) -> Result<(), Error> {
    if s.len() == 0 {
        Err(Error::InvalidFormatString)
    } else if s.contains('\0') {
        Err(Error::NullByteError)
    } else if !directives_well_formed(s) {
        Err(Error::InvalidFormatString)
    } else if count_char(s, '{') != count_char(s, '}') {
        Err(Error::InvalidFormatString)
    } else {
        Ok(())
    }
}

fn has_null(v: &Vec<char>) -> (r: bool)
    ensures
        r == v@.contains('\0'),
{
    let mut i: usize = 0;
    while i < v.len()
        invariant
            i <= v.len(),
            forall|j: int| 0 <= j < i ==> v@[j] != '\0',
        decreases v.len() - i,
    {
        if v[i] == '\0' {
            return true;
        }
        i += 1;
    }
    proof {
        if v@.contains('\0') {
            let k = choose|k: int| 0 <= k < v@.len() && v@[k] == '\0';
            assert(v@[k] != '\0');
        }
    }
    false
}

fn directives_ok(v: &Vec<char>) -> (r: bool)
    ensures
        r == directives_well_formed(v@),
{
    let n = v.len();
    let mut i: usize = 0;
    assert(v@.subrange(0, n as int) =~= v@);
    while i < n
        invariant
            n == v.len(),
            i <= n,
            directives_well_formed(v@) == directives_well_formed(v@.subrange(i as int, n as int)),
        decreases n - i,
    {
        let ghost rest = v@.subrange(i as int, n as int);
        if v[i] == '%' {
            if i + 1 >= n {
                return false;
            }
            if !is_specifier_char(v[i + 1]) {
                return false;
            }
            assert(rest.subrange(2, rest.len() as int) =~= v@.subrange(i + 2, n as int));
            i += 2;
        } else {
            assert(rest.subrange(1, rest.len() as int) =~= v@.subrange(i + 1, n as int));
            i += 1;
        }
    }
    assert(v@.subrange(i as int, n as int).len() == 0);
    true
}

fn is_specifier_char(c: char) -> (r: bool)
    ensures
        r == is_specifier(c),
{
    match c {
        'a' | 'A' | 'b' | 'B' | 'c' | 'C' | 'd' | 'D' | 'e' | 'F' | 'g' | 'G' | 'h' | 'H' | 'I'
        | 'j' | 'k' | 'l' | 'm' | 'M' | 'n' | 'p' | 'P' | 'r' | 'R' | 's' | 'S' | 't' | 'T'
        | 'u' | 'U' | 'V' | 'w' | 'W' | 'x' | 'X' | 'y' | 'Y' | 'z' | 'Z' | '%' | 'E' | 'O'
        | '+' => true,
        _ => false,
    }
}

fn count_in(v: &Vec<char>, c: char) -> (r: usize)
    ensures
        r == count_char(v@, c),
{
    let mut i: usize = 0;
    let mut k: usize = 0;
    while i < v.len()
        invariant
            i <= v.len(),
            k == count_char(v@.subrange(0, i as int), c),
            k <= i,
        decreases v.len() - i,
    {
        assert(v@.subrange(0, i + 1).drop_last() =~= v@.subrange(0, i as int));
        if v[i] == c {
            k += 1;
        }
        i += 1;
    }
    assert(v@.subrange(0, i as int) =~= v@);
    k
}

/// Validates a strftime format string for correct syntax.
/// This performs a basic validation to catch common errors.
///
/// Returns Ok(()) if the format appears valid, or an error describing the issue.
pub fn validate_format(format: &str) -> (r: Result<(), Error>)
    ensures
        r == validation_outcome(format@),
{
    let v = chars_of(format);
    if v.len() == 0 {
        return Err(Error::InvalidFormatString);
    }
    if has_null(&v) {
        return Err(Error::NullByteError);
    }
    if !directives_ok(&v) {
        return Err(Error::InvalidFormatString);
    }
    if count_in(&v, '{') != count_in(&v, '}') {
        return Err(Error::InvalidFormatString);
    }
    Ok(())
}

} // verus!
