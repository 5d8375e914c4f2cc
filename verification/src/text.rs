//! Verified text helpers: lower-casing (through the standard library),
//! space-to-hyphen replacement, character search, string equality against a
//! literal, and decimal rendering of non-negative amounts.

use vstd::prelude::*;
use vstd::string::StrSliceExecFns;
use vstd::string::StringExecFns;

verus! {

/// What `str::to_lowercase` returns for a given character sequence: a
/// function of the characters alone.
pub uninterp spec fn lower_of(s: Seq<char>) -> Seq<char>;

/// Relies on `str::to_lowercase`: the result depends on the characters
/// alone, and an empty string stays empty.
#[verifier::external_body]
pub(crate) fn lowercase(s: &str) -> (r: String)
    ensures
        r@ == lower_of(s@),
        s@.len() == 0 ==> r@.len() == 0,
{
    s.to_lowercase()
}

/// Relies on `String::push`: appends one character at the end.
pub assume_specification[ String::push ](s: &mut String, c: char)
    ensures
        final(s)@ == old(s)@.push(c),
;

/// The sequence with each space replaced by a hyphen.
pub open spec fn spec_hyphenate(s: Seq<char>) -> Seq<char> {
    Seq::new(s.len(), |i: int| if s[i] == ' ' { '-' } else { s[i] })
}

/// Replace every space with a hyphen.
pub fn hyphenate(s: &str) -> (r: String)
    ensures
        r@ == spec_hyphenate(s@),
{
    let n = s.unicode_len();
    let mut r = String::new();
    let mut i: usize = 0;
    while i < n
        invariant
            n == s@.len(),
            i <= n,
            r@ == spec_hyphenate(s@).take(i as int),
        decreases n - i,
    {
        let c = s.get_char(i);
        if c == ' ' {
            r.push('-');
        } else {
            r.push(c);
        }
        proof {
            assert(spec_hyphenate(s@).take(i + 1) =~= spec_hyphenate(s@).take(i as int).push(
                spec_hyphenate(s@)[i as int],
            ));
        }
        i = i + 1;
    }
    proof {
        assert(spec_hyphenate(s@).take(n as int) =~= spec_hyphenate(s@));
    }
    r
}

/// Whether the sequence holds the character anywhere.
pub open spec fn spec_contains_char(s: Seq<char>, c: char) -> bool {
    exists|i: int| 0 <= i < s.len() && s[i] == c
}

/// Linear scan for one character.
pub fn contains_char(s: &str, c: char) -> (r: bool)
    ensures
        r == spec_contains_char(s@, c),
{
    let n = s.unicode_len();
    let mut i: usize = 0;
    while i < n
        invariant
            n == s@.len(),
            i <= n,
            forall|j: int| 0 <= j < i ==> s@[j] != c,
        decreases n - i,
    {
        if s.get_char(i) == c {
            return true;
        }
        i = i + 1;
    }
    false
}

/// Whether a string equals the given slice, character for character.
pub fn str_eq(s: &String, t: &str) -> (r: bool)
    ensures
        r == (s@ == t@),
{
    let t_owned = String::from_str(t);
    *s == t_owned
}

/// The character for one decimal digit.
pub open spec fn spec_digit(d: int) -> char
    recommends
        0 <= d < 10,
{
    if d == 0 {
        '0'
    } else if d == 1 {
        '1'
    } else if d == 2 {
        '2'
    } else if d == 3 {
        '3'
    } else if d == 4 {
        '4'
    } else if d == 5 {
        '5'
    } else if d == 6 {
        '6'
    } else if d == 7 {
        '7'
    } else if d == 8 {
        '8'
    } else {
        '9'
    }
}

/// Decimal representation of a non-negative amount, most significant digit
/// first, with no leading zeros (a single `'0'` for zero).
pub open spec fn spec_decimal(n: nat) -> Seq<char>
    decreases n,
{
    if n < 10 {
        seq![spec_digit(n as int)]
    } else {
        spec_decimal(n / 10).push(spec_digit((n % 10) as int))
    }
}

/// Two decimal digits, with a leading zero, for an amount below one hundred.
pub open spec fn spec_two_digits(n: nat) -> Seq<char>
    recommends
        n < 100,
{
    seq![spec_digit(n as int / 10), spec_digit(n as int % 10)]
}

fn digit_char(d: u64) -> (c: char)
    requires
        d < 10,
    ensures
        c == spec_digit(d as int),
{
    if d == 0 {
        '0'
    } else if d == 1 {
        '1'
    } else if d == 2 {
        '2'
    } else if d == 3 {
        '3'
    } else if d == 4 {
        '4'
    } else if d == 5 {
        '5'
    } else if d == 6 {
        '6'
    } else if d == 7 {
        '7'
    } else if d == 8 {
        '8'
    } else {
        '9'
    }
}

proof fn lemma_reverse_push<A>(s: Seq<A>, c: A)
    ensures
        s.push(c).reverse() =~= seq![c] + s.reverse(),
{
    assert forall|i: int| 0 <= i < s.len() + 1 implies s.push(c).reverse()[i] == (seq![c]
        + s.reverse())[i] by {
        if i == 0 {
        } else {
            assert(s.reverse()[i - 1] == s[s.len() - i]);
        }
    }
}

/// Render a non-negative amount in decimal.
pub fn u64_to_decimal(n: u64) -> (r: String)
    ensures
        r@ == spec_decimal(n as nat),
{
    if n == 0 {
        let mut r = String::new();
        r.push('0');
        proof {
            assert(r@ =~= spec_decimal(0));
        }
        return r;
    }
    let mut digits: Vec<char> = Vec::new();
    let mut m: u64 = n;
    while m > 0
        invariant
            m > 0 && digits@.len() == 0 ==> m == n,
            m > 0 && digits@.len() > 0 ==> spec_decimal(n as nat) == spec_decimal(m as nat)
                + digits@.reverse(),
            m == 0 ==> digits@.len() > 0 && spec_decimal(n as nat) == digits@.reverse(),
        decreases m,
    {
        let d = m % 10;
        let next = m / 10;
        proof {
            if next > 0 {
                assert(spec_decimal(m as nat) == spec_decimal(next as nat).push(spec_digit(
                    d as int,
                )));
                assert(spec_decimal(next as nat).push(spec_digit(d as int)) =~= spec_decimal(
                    next as nat,
                ) + seq![spec_digit(d as int)]);
            } else {
                assert(m < 10);
                assert(spec_decimal(m as nat) == seq![spec_digit(d as int)]);
            }
            if digits@.len() == 0 {
                assert(spec_decimal(m as nat) + digits@.reverse() =~= spec_decimal(m as nat));
            }
        }
        let ghost old_digits = digits@;
        digits.push(digit_char(d));
        proof {
            lemma_reverse_push(old_digits, spec_digit(d as int));
            assert(digits@.reverse() =~= seq![spec_digit(d as int)] + old_digits.reverse());
            if next > 0 {
                assert(spec_decimal(n as nat) =~= spec_decimal(next as nat) + digits@.reverse());
            } else {
                assert(spec_decimal(n as nat) =~= digits@.reverse());
            }
        }
        m = next;
    }
    let len = digits.len();
    let mut r = String::new();
    let mut k: usize = 0;
    while k < len
        invariant
            len == digits@.len(),
            0 < len,
            k <= len,
            spec_decimal(n as nat) == digits@.reverse(),
            r@ == digits@.reverse().take(k as int),
        decreases len - k,
    {
        let c = digits[len - 1 - k];
        proof {
            assert(digits@.reverse()[k as int] == digits@[len - 1 - k]);
            assert(digits@.reverse().take(k + 1) =~= digits@.reverse().take(k as int).push(
                digits@.reverse()[k as int],
            ));
        }
        r.push(c);
        k = k + 1;
    }
    proof {
        assert(digits@.reverse().take(len as int) =~= digits@.reverse());
    }
    r
}

/// Render an amount below one hundred as exactly two digits.
pub fn u64_to_two_digits(n: u64) -> (r: String)
    requires
        n < 100,
    ensures
        r@ == spec_two_digits(n as nat),
{
    let mut r = String::new();
    r.push(digit_char(n / 10));
    r.push(digit_char(n % 10));
    proof {
        assert(r@ =~= spec_two_digits(n as nat));
    }
    r
}

} // verus!
