//! Small executable string helpers shared by the rest of the library:
//! appending a single character, character-wise string equality, and
//! formatting a `u64` in decimal.

use vstd::prelude::*;
use vstd::string::*;

verus! {

/// Relies on std's `String::push`: appends exactly the given character.
#[verifier::external_body]
pub(crate) fn push_char(s: &mut String, c: char)
    ensures
        final(s)@ == old(s)@.push(c),
{
    s.push(c);
}

/// Character-wise equality of two string slices.
pub fn str_eq(a: &str, b: &str) -> (r: bool)
    ensures
        r == (a@ == b@),
{
    let a_len = a.unicode_len();
    let b_len = b.unicode_len();
    if a_len != b_len {
        return false;
    }
    let mut i: usize = 0;
    while i < a_len
        invariant
            a_len == a@.len(),
            b_len == b@.len(),
            a_len == b_len,
            i <= a_len,
            forall|j: int| 0 <= j < i ==> a@[j] == b@[j],
        decreases a_len - i,
    {
        if a.get_char(i) != b.get_char(i) {
            return false;
        }
        i += 1;
    }
    proof {
        assert(a@ =~= b@);
    }
    true
}

/// The decimal digit character for `d`, for `0 <= d < 10`.
pub open spec fn spec_digit_char(d: int) -> char {
    if d == 0 {
        '0'
    } else if d == 1 {
        '1'
    } else if d == 2 {
        '2'
    } else if d == 3 {
        '3'
    } else if d == 4 {
        '4'
    } else if d == 5 {
        '5'
    } else if d == 6 {
        '6'
    } else if d == 7 {
        '7'
    } else if d == 8 {
        '8'
    } else {
        '9'
    }
}

/// The decimal representation of a non-negative integer, without leading
/// zeros (except for the single digit of zero itself).
pub open spec fn spec_u64_dec(n: int) -> Seq<char>
    recommends
        n >= 0,
    decreases n,
{
    if n < 10 {
        seq![spec_digit_char(n)]
    } else {
        spec_u64_dec(n / 10).push(spec_digit_char(n % 10))
    }
}

proof fn lemma_reverse_push<A>(s: Seq<A>, a: A)
    ensures
        s.push(a).reverse() =~= seq![a] + s.reverse(),
{
    assert forall|i: int| 0 <= i < s.len() + 1 implies s.push(a).reverse()[i] == (seq![a]
        + s.reverse())[i] by {
        assert(s.push(a).reverse()[i] == s.push(a)[s.len() - i]);
    }
}

fn digit_to_char(d: u64) -> (c: char)
    requires
        d < 10,
    ensures
        c == spec_digit_char(d as int),
{
    if d == 0 {
        '0'
    } else if d == 1 {
        '1'
    } else if d == 2 {
        '2'
    } else if d == 3 {
        '3'
    } else if d == 4 {
        '4'
    } else if d == 5 {
        '5'
    } else if d == 6 {
        '6'
    } else if d == 7 {
        '7'
    } else if d == 8 {
        '8'
    } else {
        '9'
    }
}

/// Format `n` in decimal.
pub fn u64_to_dec(n: u64) -> (r: String)
    ensures
        r@ == spec_u64_dec(n as int),
{
    if n == 0 {
        let r = String::from_str("0");
        proof {
            reveal_strlit("0");
            assert(r@ =~= spec_u64_dec(0));
        }
        return r;
    }
    let mut digits: Vec<char> = Vec::new();
    let mut m: u64 = n;
    while m > 0
        invariant
            m > 0 ==> spec_u64_dec(n as int) == spec_u64_dec(m as int) + digits@.reverse(),
            m == 0 ==> spec_u64_dec(n as int) == digits@.reverse(),
        decreases m,
    {
        let d = m % 10;
        proof {
            lemma_reverse_push(digits@, spec_digit_char(d as int));
            if m >= 10 {
                assert(spec_u64_dec(m as int / 10) + seq![spec_digit_char(m as int % 10)]
                    =~= spec_u64_dec(m as int));
            }
            assert((spec_u64_dec(m as int / 10) + seq![spec_digit_char(m as int % 10)])
                + digits@.reverse() =~= spec_u64_dec(m as int / 10) + (seq![spec_digit_char(
                m as int % 10,
            )] + digits@.reverse()));
        }
        digits.push(digit_to_char(d));
        m = m / 10;
    }
    let mut out = String::new();
    let mut i: usize = digits.len();
    while i > 0
        invariant
            i <= digits@.len(),
            spec_u64_dec(n as int) == digits@.reverse(),
            out@ == digits@.reverse().take(digits@.len() - i),
        decreases i,
    {
        proof {
            let rev = digits@.reverse();
            assert(rev[digits@.len() - i] == digits@[i - 1]);
            assert(rev.take(digits@.len() - (i - 1)) =~= rev.take(digits@.len() - i).push(
                rev[digits@.len() - i],
            ));
        }
        push_char(&mut out, digits[i - 1]);
        i = i - 1;
    }
    proof {
        assert(out@ =~= digits@.reverse());
    }
    out
}

} // verus!
