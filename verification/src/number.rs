//! Decimal rendering and parsing of unsigned integers, and character classes.
use vstd::prelude::*;
use crate::text::{chars_of, push_char};

verus! {

/// The ASCII character of the decimal digit `d`.
pub open spec fn digit_char(d: nat) -> char {
    ((d + 48) as u8) as char
}

/// The decimal rendering of `n`, as `Display` gives it for unsigned integers.
pub open spec fn decimal_spec(n: nat) -> Seq<char>
    decreases n,
{
    if n < 10 {
        seq![digit_char(n)]
    } else {
        decimal_spec(n / 10).push(digit_char(n % 10))
    }
}

/// Renders `n` in decimal.
pub fn decimal(n: u64) -> (r: String)
    ensures
        r@ == decimal_spec(n as nat),
{
    let mut digits: Vec<char> = Vec::new();
    let mut m: u64 = n;
    assert(digits@.reverse() =~= Seq::<char>::empty());
    assert(decimal_spec(n as nat) =~= decimal_spec(m as nat) + digits@.reverse());
    while m >= 10
        invariant
            decimal_spec(n as nat) == decimal_spec(m as nat) + digits@.reverse(),
        decreases m,
    {
        let d = (m % 10) as u8;
        let c = (d + 48) as char;
        proof {
            assert(c == digit_char((m % 10) as nat));
            assert(decimal_spec(m as nat) == decimal_spec((m / 10) as nat).push(c));
            assert(digits@.push(c).reverse() =~= seq![c] + digits@.reverse());
            assert(decimal_spec((m / 10) as nat).push(c) + digits@.reverse() =~= decimal_spec(
                (m / 10) as nat,
            ) + (seq![c] + digits@.reverse()));
        }
        digits.push(c);
        m = m / 10;
    }
    let c = ((m as u8) + 48) as char;
    proof {
        assert(decimal_spec(m as nat) == seq![c]);
        assert(digits@.push(c).reverse() =~= seq![c] + digits@.reverse());
    }
    digits.push(c);
    let mut r = String::new();
    let mut i: usize = digits.len();
    while i > 0
        invariant
            i <= digits@.len(),
            r@ == digits@.subrange(i as int, digits@.len() as int).reverse(),
        decreases i,
    {
        i -= 1;
        proof {
            assert(digits@.subrange(i as int, digits@.len() as int).reverse() =~= digits@.subrange(
                i + 1,
                digits@.len() as int,
            ).reverse().push(digits@[i as int]));
        }
        push_char(&mut r, digits[i]);
    }
    assert(digits@.subrange(0, digits@.len() as int) =~= digits@);
    r
}

/// `c` is an ASCII decimal digit.
pub open spec fn is_digit_spec(c: char) -> bool {
    48 <= (c as u32) && (c as u32) <= 57
}

/// The value of a string of ASCII decimal digits.
pub open spec fn digits_value(s: Seq<char>) -> nat
    decreases s.len(),
{
    if s.len() == 0 {
        0
    } else {
        digits_value(s.drop_last()) * 10 + ((s.last() as u32) - 48) as nat
    }
}

/// The digits part of a number: `s` without one leading `+`.
pub open spec fn unsigned_digits(s: Seq<char>) -> Seq<char> {
    if s.len() > 0 && s[0] == '+' {
        s.skip(1)
    } else {
        s
    }
}

/// Every character of `d` is an ASCII digit.
pub open spec fn all_digits(d: Seq<char>) -> bool {
    forall|i: int| 0 <= i < d.len() ==> is_digit_spec(#[trigger] d[i])
}

/// `u32::from_str`: an optional `+`, then one or more ASCII digits whose value fits.
pub open spec fn parse_u32_spec(s: Seq<char>) -> Option<u32> {
    let d = unsigned_digits(s);
    if d.len() == 0 || !all_digits(d) || digits_value(d) > u32::MAX {
        None
    } else {
        Some(digits_value(d) as u32)
    }
}

proof fn lemma_digits_value_monotone(s: Seq<char>, i: int)
    requires
        0 <= i <= s.len(),
        forall|j: int| 0 <= j < s.len() ==> is_digit_spec(#[trigger] s[j]),
    ensures
        digits_value(s.take(i)) <= digits_value(s),
    decreases s.len() - i,
{
    if i < s.len() {
        lemma_digits_value_monotone(s, i + 1);
        assert(s.take(i + 1).drop_last() =~= s.take(i));
    } else {
        assert(s.take(i) =~= s);
    }
}

/// `u32::from_str` on a string.
pub fn parse_u32(s: &str) -> (r: Option<u32>)
    ensures
        r == parse_u32_spec(s@),
{
    let v = chars_of(s);
    let start: usize = if v.len() > 0 && v[0] == '+' {
        1
    } else {
        0
    };
    let ghost d = v@.skip(start as int);
    assert(v@.skip(0) =~= v@);
    if start == v.len() {
        assert(d.len() == 0);
        if start == 1 {
            assert(s@.len() > 0 && s@[0] == '+');
        }
        return None;
    }
    let mut i: usize = start;
    let mut acc: u64 = 0;
    let mut overflow = false;
    while i < v.len()
        invariant
            start <= i <= v@.len(),
            d == v@.skip(start as int),
            v@ == s@,
            d == unsigned_digits(s@),
            forall|j: int| 0 <= j < i - start ==> is_digit_spec(#[trigger] d[j]),
            !overflow ==> acc == digits_value(d.take(i - start)) && acc <= u32::MAX,
            overflow ==> digits_value(d.take(i - start)) > u32::MAX,
        decreases v.len() - i,
    {
        let c = v[i];
        assert(c == d[i - start]);
        if !(48 <= (c as u32) && (c as u32) <= 57) {
            assert(!is_digit_spec(d[i - start]));
            return None;
        }
        proof {
            assert(d.take(i - start + 1).drop_last() =~= d.take(i - start));
            assert(d.take(i - start + 1).last() == c);
        }
        if !overflow {
            let nv = acc * 10 + ((c as u32) - 48) as u64;
            if nv > 4294967295 {
                overflow = true;
            } else {
                acc = nv;
            }
        } else {
            proof {
                let x = digits_value(d.take(i - start));
                assert(x * 10 >= x) by (nonlinear_arith)
                    requires
                        x >= 0,
                ;
            }
        }
        i += 1;
    }
    assert(d.take(i - start) =~= d);
    assert(all_digits(d));
    if overflow {
        None
    } else {
        Some(acc as u32)
    }
}

} // verus!
