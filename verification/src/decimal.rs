//! Decimal text of integers: zero padded to a width, or with an explicit sign.

use vstd::prelude::*;

verus! {

/// The character of a decimal digit.
pub open spec fn digit_char(d: int) -> char {
    (48 + d) as char
}

/// The decimal digits of `n`, most significant first, without leading zeros.
pub open spec fn digits(n: nat) -> Seq<char>
    decreases n,
{
    if n < 10 {
        seq![digit_char(n as int)]
    } else {
        digits(n / 10).push(digit_char((n % 10) as int))
    }
}

/// `count` zeros.
pub open spec fn zeros(count: nat) -> Seq<char> {
    Seq::new(count, |i: int| '0')
}

/// The digits of `n` with zeros in front, up to `width` characters.
pub open spec fn padded(n: nat, width: nat) -> Seq<char> {
    let d = digits(n);
    if d.len() < width {
        zeros((width - d.len()) as nat) + d
    } else {
        d
    }
}

/// The digits of the magnitude of `n` behind its sign; zero counts as positive.
pub open spec fn signed(n: int) -> Seq<char> {
    if n < 0 {
        seq!['-'] + digits((-n) as nat)
    } else {
        seq!['+'] + digits(n as nat)
    }
}

/// The number that a sequence of digit characters denotes.
pub open spec fn value(s: Seq<char>) -> int
    decreases s.len(),
{
    if s.len() == 0 {
        0
    } else {
        10 * value(s.drop_last()) + (s.last() as int - 48)
    }
}

/// Reading the digits of a number gives the number back.
pub proof fn digits_denote(n: nat)
    ensures
        value(digits(n)) == n,
    decreases n,
{
    reveal_with_fuel(value, 2);
    if n < 10 {
        assert(digits(n).drop_last() =~= Seq::empty());
    } else {
        digits_denote(n / 10);
        assert(digits(n).drop_last() =~= digits(n / 10));
    }
}

/// Zeros in front of a text of digits do not change what it denotes.
proof fn leading_zeros(count: nat, s: Seq<char>)
    ensures
        value(zeros(count) + s) == value(s),
    decreases s.len(), count,
{
    if s.len() == 0 {
        assert(zeros(count) + s =~= zeros(count));
        if count > 0 {
            assert(zeros(count).drop_last() =~= zeros((count - 1) as nat));
            assert(zeros((count - 1) as nat) + s =~= zeros((count - 1) as nat));
            leading_zeros((count - 1) as nat, s);
        }
    } else {
        assert((zeros(count) + s).drop_last() =~= zeros(count) + s.drop_last());
        leading_zeros(count, s.drop_last());
    }
}

/// Reading a padded number gives the number back, and it is never shorter than its width.
pub proof fn padded_denotes(n: nat, width: nat)
    ensures
        value(padded(n, width)) == n,
        padded(n, width).len() >= width,
{
    digits_denote(n);
    if digits(n).len() < width {
        leading_zeros((width - digits(n).len()) as nat, digits(n));
    }
}

/// Numbers that need no more digits than the width fill it exactly, and one more digit is
/// one more character.
pub proof fn padded_fills(n: nat)
    ensures
        n < 100 ==> padded(n, 2).len() == 2,
        n < 1000 ==> padded(n, 3).len() == 3,
        1000 <= n < 10_000 ==> padded(n, 3).len() == 4,
{
    digits_len(n);
}

/// A digit character.
pub open spec fn is_digit(c: char) -> bool {
    '0' <= c <= '9'
}

/// A text of digits denotes ten times what it denotes without its last digit, and that digit.
pub proof fn value_counts_in_tens(s: Seq<char>, c: char)
    ensures
        value(Seq::empty()) == 0,
        value(s.push(c)) == 10 * value(s) + (c as int - '0' as int),
{
    assert(s.push(c).drop_last() =~= s);
}

/// The text of a number is made of digits alone, and has no zero in front unless it is the
/// number zero, whose text is one zero.
pub proof fn digits_are_plain(n: nat)
    ensures
        digits(n).len() > 0,
        forall|i: int| 0 <= i < digits(n).len() ==> is_digit(#[trigger] digits(n)[i]),
        digits(n)[0] == '0' <==> n == 0,
        n == 0 ==> digits(n).len() == 1,
    decreases n,
{
    if n >= 10 {
        digits_are_plain(n / 10);
        assert(digits(n)[0] == digits(n / 10)[0]);
    }
}

/// A padded number is made of digits alone. It is as long as its width, or as its digits where
/// they are more, and it ends with its digits.
pub proof fn padded_is_plain(n: nat, width: nat)
    ensures
        forall|i: int| 0 <= i < padded(n, width).len() ==> is_digit(#[trigger] padded(n, width)[i]),
        padded(n, width).len() == (if digits(n).len() < width { width } else { digits(n).len() }),
        padded(n, width).skip(padded(n, width).len() - digits(n).len()) == digits(n),
{
    digits_are_plain(n);
    let p = padded(n, width);
    assert(p.skip(p.len() - digits(n).len()) =~= digits(n));
}

/// A signed text gives its number back: the sign in front, the magnitude behind it.
pub proof fn signed_denotes(n: int)
    ensures
        signed(n).first() == (if n < 0 { '-' } else { '+' }),
        signed(n).drop_first() == digits((if n < 0 { -n } else { n }) as nat),
        value(signed(n).drop_first()) == (if n < 0 { -n } else { n }),
{
    let m: nat = (if n < 0 { -n } else { n }) as nat;
    digits_denote(m);
    assert(signed(n).drop_first() =~= digits(m));
}

/// How many digits the numbers below ten thousand have.
proof fn digits_len(n: nat)
    ensures
        digits(n).len() >= 1,
        n < 10 ==> digits(n).len() == 1,
        10 <= n < 100 ==> digits(n).len() == 2,
        100 <= n < 1000 ==> digits(n).len() == 3,
        1000 <= n < 10_000 ==> digits(n).len() == 4,
    decreases n,
{
    if n >= 10 {
        digits_len(n / 10);
    }
}

fn digit_text(d: u64) -> (text: &'static str)
    requires
        d < 10,
    ensures
        text@ == seq![digit_char(d as int)],
{
    proof {
        reveal_strlit("0");
        reveal_strlit("1");
        reveal_strlit("2");
        reveal_strlit("3");
        reveal_strlit("4");
        reveal_strlit("5");
        reveal_strlit("6");
        reveal_strlit("7");
        reveal_strlit("8");
        reveal_strlit("9");
    }
    if d == 0 {
        "0"
    } else if d == 1 {
        "1"
    } else if d == 2 {
        "2"
    } else if d == 3 {
        "3"
    } else if d == 4 {
        "4"
    } else if d == 5 {
        "5"
    } else if d == 6 {
        "6"
    } else if d == 7 {
        "7"
    } else if d == 8 {
        "8"
    } else {
        "9"
    }
}

/// Appends the digits of `n`.
pub fn push_digits(out: &mut String, n: u64)
    ensures
        final(out)@ == old(out)@ + digits(n as nat),
    decreases n,
{
    if n >= 10 {
        push_digits(out, n / 10);
    }
    out.append(digit_text(n % 10));
}

/// Padding by one position less and then writing the last digit.
proof fn padded_step(n: nat, width: nat)
    requires
        n >= 10 || width > 1,
    ensures
        padded(n, width) == padded(n / 10, if width == 0 { 0 } else { (width - 1) as nat }).push(
            digit_char((n % 10) as int),
        ),
{
    digits_len(n);
    digits_len(n / 10);
    let shorter: nat = if width == 0 { 0 } else { (width - 1) as nat };
    assert(padded(n, width) =~= padded(n / 10, shorter).push(digit_char((n % 10) as int)));
}

/// Appends `n` in decimal, padded with zeros to `width` characters.
pub fn push_padded(out: &mut String, n: u64, width: usize)
    ensures
        final(out)@ == old(out)@ + padded(n as nat, width as nat),
    decreases n + width,
{
    if n >= 10 || width > 1 {
        proof {
            padded_step(n as nat, width as nat);
        }
        let shorter: usize = if width == 0 { 0 } else { width - 1 };
        push_padded(out, n / 10, shorter);
    } else {
        proof {
            digits_len(n as nat);
        }
    }
    out.append(digit_text(n % 10));
}

/// Appends `n` in decimal with its sign in front.
pub fn push_signed(out: &mut String, n: i64)
    ensures
        final(out)@ == old(out)@ + signed(n as int),
{
    proof {
        reveal_strlit("-");
        reveal_strlit("+");
    }
    if n < 0 {
        out.append("-");
        let magnitude: i128 = -(n as i128);
        push_digits(out, magnitude as u64);
    } else {
        out.append("+");
        push_digits(out, n as u64);
    }
}

} // verus!
