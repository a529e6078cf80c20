//! Textual rendering of a duration: exactly the decimal digits of the raw
//! count, with a leading minus sign for a negative count and no unit suffix.

use crate::integer::IntTrait;
use vstd::prelude::*;

verus! {

/// The character for one decimal digit.
pub open spec fn digit_char(d: int) -> char
    recommends
        0 <= d <= 9,
{
    ((d + 48) as u8) as char
}

/// The decimal digits of a natural number, most significant first, with no
/// digits at all for zero (the recursion's base case).
pub open spec fn digits_rec(m: nat) -> Seq<char>
    decreases m,
{
    if m == 0 {
        Seq::empty()
    } else {
        digits_rec(m / 10).push(digit_char((m % 10) as int))
    }
}

/// The decimal rendering of a natural number: its digits, most significant
/// first, and the single digit zero for zero.
pub open spec fn spec_digits(m: nat) -> Seq<char> {
    if m == 0 {
        seq!['0']
    } else {
        digits_rec(m)
    }
}

/// The decimal rendering of an integer: a leading minus sign for a negative
/// value, then the digits of its magnitude.
pub open spec fn spec_display(v: int) -> Seq<char> {
    if v < 0 {
        seq!['-'] + spec_digits((-v) as nat)
    } else {
        spec_digits(v as nat)
    }
}

/// Reversing after appending one element puts that element in front.
proof fn lemma_reverse_push(s: Seq<char>, x: char)
    ensures
        s.push(x).reverse() == seq![x] + s.reverse(),
{
    assert(s.push(x).reverse() =~= seq![x] + s.reverse());
}

/// Relies on String::push: it appends the given character to the end of the
/// string.
pub assume_specification[ String::push ](s: &mut String, ch: char)
    ensures
        final(s)@ == old(s)@.push(ch),
;

/// Renders a storage value as its decimal digits, with a leading minus sign
/// when it is negative: exactly `spec_display` of the value.
pub fn display_count<T: IntTrait>(v: T) -> (s: String)
    ensures
        s@ == spec_display(v.as_int()),
{
    let neg = v.is_neg();
    let m0 = v.abs_u64();
    let mut rev: Vec<char> = Vec::new();
    if m0 == 0 {
        rev.push('0');
        proof {
            assert(rev@.reverse() =~= spec_digits(m0 as nat));
        }
    } else {
        let mut m: u64 = m0;
        proof {
            assert(digits_rec(m0 as nat) =~= digits_rec(m as nat) + rev@.reverse());
        }
        while m != 0
            invariant
                digits_rec(m0 as nat) == digits_rec(m as nat) + rev@.reverse(),
                m0 > 0,
            decreases m,
        {
            let d: u8 = (m % 10) as u8;
            let ghost rev_old = rev@;
            let ghost m_old = m as nat;
            rev.push((48 + d) as char);
            m = m / 10;
            proof {
                lemma_reverse_push(rev_old, digit_char((m_old % 10) as int));
                assert(digits_rec(m as nat) + rev@.reverse() =~= digits_rec(m_old)
                    + rev_old.reverse());
            }
        }
        proof {
            assert(digits_rec(m0 as nat) =~= rev@.reverse());
        }
    }
    let mut s = String::new();
    if neg {
        s.push('-');
    }
    let ghost prefix = s@;
    let mut i: usize = rev.len();
    proof {
        assert(rev@.subrange(i as int, rev@.len() as int).reverse() =~= Seq::<char>::empty());
    }
    while i > 0
        invariant
            i <= rev@.len(),
            s@ == prefix + rev@.subrange(i as int, rev@.len() as int).reverse(),
            rev@.reverse() == spec_digits(
                if v.as_int() >= 0 {
                    v.as_int()
                } else {
                    -v.as_int()
                } as nat,
            ),
            prefix == if v.as_int() < 0 {
                seq!['-']
            } else {
                Seq::<char>::empty()
            },
        decreases i,
    {
        i = i - 1;
        let ghost s_old = s@;
        let c = rev[i];
        s.push(c);
        proof {
            assert(rev@.subrange(i as int, rev@.len() as int).reverse() =~= rev@.subrange(
                i + 1,
                rev@.len() as int,
            ).reverse().push(rev@[i as int]));
        }
    }
    proof {
        assert(rev@.subrange(0, rev@.len() as int) =~= rev@);
        assert(s@ =~= spec_display(v.as_int()));
    }
    s
}

} // verus!
