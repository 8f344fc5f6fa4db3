//! Fixed-width decimal numerals.

use vstd::prelude::*;

verus! {

/// Number of characters used for every numeral.
pub const NUMBER_WIDTH: usize = 20;

/// `10` raised to `w`.
pub open spec fn pow10(w: nat) -> nat
    decreases w,
{
    if w == 0 {
        1
    } else {
        10 * pow10((w - 1) as nat)
    }
}

/// The character for a decimal digit below ten.
pub open spec fn digit_char(d: nat) -> char {
    if d == 0 {
        '0'
    } else if d == 1 {
        '1'
    } else if d == 2 {
        '2'
    } else if d == 3 {
        '3'
    } else if d == 4 {
        '4'
    } else if d == 5 {
        '5'
    } else if d == 6 {
        '6'
    } else if d == 7 {
        '7'
    } else if d == 8 {
        '8'
    } else {
        '9'
    }
}

/// Whether `c` is one of `0` to `9`.
pub open spec fn is_digit(c: char) -> bool {
    48 <= c as u32 <= 57
}

/// The value of a digit character.
pub open spec fn digit_value(c: char) -> nat {
    (c as u32 - 48) as nat
}

/// Whether every character of `s` is a digit.
pub open spec fn all_digits(s: Seq<char>) -> bool {
    forall|i: int| 0 <= i < s.len() ==> is_digit(#[trigger] s[i])
}

/// The last `w` decimal digits of `n`, most significant first, padded with zeros.
pub open spec fn fixed_digits(n: nat, w: nat) -> Seq<char>
    decreases w,
{
    if w == 0 {
        Seq::empty()
    } else {
        fixed_digits(n / 10, (w - 1) as nat).push(digit_char(n % 10))
    }
}

/// The number that a sequence of digits denotes.
pub open spec fn digits_value(s: Seq<char>) -> nat
    decreases s.len(),
{
    if s.len() == 0 {
        0
    } else {
        digits_value(s.drop_last()) * 10 + digit_value(s.last())
    }
}

/// The largest `u64` has fewer than `NUMBER_WIDTH` digits.
pub proof fn lemma_u64_fits_width()
    ensures
        u64::MAX < pow10(NUMBER_WIDTH as nat),
{
    reveal_with_fuel(pow10, 21);
}

proof fn lemma_digit_char(d: nat)
    requires
        d < 10,
    ensures
        is_digit(digit_char(d)),
        digit_value(digit_char(d)) == d,
{
}

proof fn lemma_char_of_digit(c: char)
    requires
        is_digit(c),
    ensures
        digit_char(digit_value(c)) == c,
{
    let x = c as u32;
    if x == 48 {
        assert(c == '0');
    } else if x == 49 {
        assert(c == '1');
    } else if x == 50 {
        assert(c == '2');
    } else if x == 51 {
        assert(c == '3');
    } else if x == 52 {
        assert(c == '4');
    } else if x == 53 {
        assert(c == '5');
    } else if x == 54 {
        assert(c == '6');
    } else if x == 55 {
        assert(c == '7');
    } else if x == 56 {
        assert(c == '8');
    } else {
        assert(c == '9');
    }
}

/// Writing `n` with `w` digits and reading it back gives `n` when it fits.
pub proof fn lemma_fixed_digits_value(n: nat, w: nat)
    requires
        n < pow10(w),
    ensures
        fixed_digits(n, w).len() == w,
        all_digits(fixed_digits(n, w)),
        digits_value(fixed_digits(n, w)) == n,
    decreases w,
{
    if w > 0 {
        let w1 = (w - 1) as nat;
        assert(n / 10 < pow10(w1));
        lemma_fixed_digits_value(n / 10, w1);
        lemma_digit_char(n % 10);
        let s = fixed_digits(n, w);
        assert(s.drop_last() =~= fixed_digits(n / 10, w1));
        assert forall|i: int| 0 <= i < s.len() implies is_digit(#[trigger] s[i]) by {
            if i < w1 {
                assert(s[i] == fixed_digits(n / 10, w1)[i]);
            }
        }
    }
}

/// A sequence of `w` digits is the fixed-width numeral of its value.
pub proof fn lemma_value_fixed_digits(s: Seq<char>)
    requires
        all_digits(s),
    ensures
        fixed_digits(digits_value(s), s.len()) == s,
        digits_value(s) < pow10(s.len()),
    decreases s.len(),
{
    if s.len() > 0 {
        let p = s.drop_last();
        assert(all_digits(p)) by {
            assert forall|i: int| 0 <= i < p.len() implies is_digit(#[trigger] p[i]) by {
                assert(p[i] == s[i]);
            }
        }
        lemma_value_fixed_digits(p);
        let v = digits_value(s);
        let d = digit_value(s.last());
        assert(is_digit(s[s.len() - 1]));
        assert(d < 10);
        assert(v / 10 == digits_value(p));
        assert(v % 10 == d);
        lemma_char_of_digit(s.last());
        assert(fixed_digits(v, s.len()) =~= s);
    }
}

/// The one-character text of a digit below ten.
pub fn digit_str(d: u64) -> (r: &'static str)
    requires
        d < 10,
    ensures
        r@ == seq![digit_char(d as nat)],
{
    if d == 0 {
        proof { reveal_strlit("0"); }
        "0"
    } else if d == 1 {
        proof { reveal_strlit("1"); }
        "1"
    } else if d == 2 {
        proof { reveal_strlit("2"); }
        "2"
    } else if d == 3 {
        proof { reveal_strlit("3"); }
        "3"
    } else if d == 4 {
        proof { reveal_strlit("4"); }
        "4"
    } else if d == 5 {
        proof { reveal_strlit("5"); }
        "5"
    } else if d == 6 {
        proof { reveal_strlit("6"); }
        "6"
    } else if d == 7 {
        proof { reveal_strlit("7"); }
        "7"
    } else if d == 8 {
        proof { reveal_strlit("8"); }
        "8"
    } else {
        proof { reveal_strlit("9"); }
        "9"
    }
}

/// Appends the `w`-digit numeral of `n` to `out`.
pub fn push_fixed(out: &mut String, n: u64, w: usize)
    ensures
        final(out)@ == old(out)@ + fixed_digits(n as nat, w as nat),
    decreases w,
{
    if w > 0 {
        push_fixed(out, n / 10, w - 1);
        out.append(digit_str(n % 10));
    } else {
        assert(fixed_digits(n as nat, 0) =~= Seq::<char>::empty());
        assert(old(out)@ + Seq::<char>::empty() =~= old(out)@);
    }
}

/// Reads the `NUMBER_WIDTH` characters of `v` from `pos` as a numeral.
/// Gives `None` when they are not all digits, are fewer, or denote a number
/// above `u64::MAX`.
pub fn read_fixed(v: &Vec<char>, pos: usize) -> (r: Option<u64>)
    requires
        pos <= v.len(),
    ensures
        r == number_at(v@, pos as int),
{
    if v.len() - pos < NUMBER_WIDTH {
        return None;
    }
    let ghost s = v@.subrange(pos as int, pos + NUMBER_WIDTH);
    let mut acc: u128 = 0;
    let mut i: usize = 0;
    proof {
        reveal_with_fuel(pow10, 21);
    }
    while i < NUMBER_WIDTH
        invariant
            i <= NUMBER_WIDTH,
            pos + NUMBER_WIDTH <= v.len(),
            s == v@.subrange(pos as int, pos + NUMBER_WIDTH),
            all_digits(s.take(i as int)),
            acc == digits_value(s.take(i as int)),
            acc < pow10(i as nat),
            pow10(NUMBER_WIDTH as nat) == 100000000000000000000,
        decreases NUMBER_WIDTH - i,
    {
        let c = v[pos + i];
        let x = c as u32;
        if x < 48 || x > 57 {
            assert(s[i as int] == c);
            assert(!all_digits(s));
            return None;
        }
        assert(s.take(i + 1).drop_last() =~= s.take(i as int));
        assert(s.take(i + 1).last() == c);
        proof { lemma_pow10_le(i as nat + 1, NUMBER_WIDTH as nat); }
        acc = acc * 10 + (x - 48) as u128;
        i = i + 1;
    }
    assert(s.take(NUMBER_WIDTH as int) =~= s);
    if acc > u64::MAX as u128 {
        None
    } else {
        Some(acc as u64)
    }
}

/// `pow10` grows with its exponent.
pub proof fn lemma_pow10_le(a: nat, b: nat)
    requires
        a <= b,
    ensures
        pow10(a) <= pow10(b),
    decreases b - a,
{
    if a < b {
        lemma_pow10_le(a, (b - 1) as nat);
    }
}

/// The number that the `NUMBER_WIDTH` characters of `s` from `pos` denote,
/// if they are all digits and it fits in a `u64`.
pub open spec fn number_at(s: Seq<char>, pos: int) -> Option<u64> {
    if pos + NUMBER_WIDTH <= s.len() {
        let d = s.subrange(pos, pos + NUMBER_WIDTH);
        if all_digits(d) && digits_value(d) <= u64::MAX {
            Some(digits_value(d) as u64)
        } else {
            None
        }
    } else {
        None
    }
}

} // verus!
