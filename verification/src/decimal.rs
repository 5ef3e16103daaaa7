use vstd::prelude::*;

verus! {

/// The one-character text of a decimal digit.
pub open spec fn digit_text(d: nat) -> &'static str {
    if d == 0 { "0" }
    else if d == 1 { "1" }
    else if d == 2 { "2" }
    else if d == 3 { "3" }
    else if d == 4 { "4" }
    else if d == 5 { "5" }
    else if d == 6 { "6" }
    else if d == 7 { "7" }
    else if d == 8 { "8" }
    else { "9" }
}

/// The decimal digits of `n`, most significant first, with no leading zero.
pub open spec fn decimal_digits(n: nat) -> Seq<char>
    decreases n,
{
    if n < 10 {
        digit_text(n)@
    } else {
        decimal_digits(n / 10) + digit_text(n % 10)@
    }
}

/// The text that `{}` formatting gives for an `i32`: a `-` before the digits of a negative number.
pub open spec fn decimal_text(x: i32) -> Seq<char> {
    if x < 0 {
        "-"@ + decimal_digits((-x) as nat)
    } else {
        decimal_digits(x as nat)
    }
}

fn digit_str(d: u32) -> (r: &'static str)
    requires
        d < 10,
    ensures
        r == digit_text(d as nat),
{
    match d {
        0 => "0",
        1 => "1",
        2 => "2",
        3 => "3",
        4 => "4",
        5 => "5",
        6 => "6",
        7 => "7",
        8 => "8",
        _ => "9",
    }
}

fn push_digits(s: &mut String, n: u32)
    ensures
        final(s)@ == old(s)@ + decimal_digits(n as nat),
    decreases n,
{
    if n >= 10 {
        push_digits(s, n / 10);
    }
    s.append(digit_str(n % 10));
    proof {
        if n >= 10 {
            assert(final(s)@ =~= old(s)@ + decimal_digits(n as nat));
        }
    }
}

/// Appends the decimal text of `x` to `s`.
pub fn push_decimal(s: &mut String, x: i32)
    ensures
        final(s)@ == old(s)@ + decimal_text(x),
{
    if x < 0 {
        s.append("-");
        let m: u32 = if x == i32::MIN { 2147483648u32 } else { (-x) as u32 };
        push_digits(s, m);
        assert(final(s)@ =~= old(s)@ + decimal_text(x));
    } else {
        push_digits(s, x as u32);
    }
}

/// The number that a string of decimal digits stands for, the last digit being the units.
pub open spec fn digits_value(s: Seq<char>) -> int
    decreases s.len(),
{
    if s.len() == 0 {
        0
    } else {
        digits_value(s.drop_last()) * 10 + (s.last() as int - 48)
    }
}

/// Each digit text is the one character of that digit, `'0'` to `'9'`.
pub proof fn law_digit_text(d: nat)
    requires
        d < 10,
    ensures
        digit_text(d)@ == seq![(48 + d) as char],
{
    reveal_strlit("0");
    reveal_strlit("1");
    reveal_strlit("2");
    reveal_strlit("3");
    reveal_strlit("4");
    reveal_strlit("5");
    reveal_strlit("6");
    reveal_strlit("7");
    reveal_strlit("8");
    reveal_strlit("9");
    assert(digit_text(d)@ =~= seq![(48 + d) as char]);
}

/// The decimal digits of a number are characters `'0'` to `'9'`, with no leading zero
/// (but for zero itself), that read back as the number.
pub proof fn law_decimal_digits(n: nat)
    ensures
        digits_value(decimal_digits(n)) == n,
        decimal_digits(n).len() >= 1,
        forall|i: int|
            0 <= i < decimal_digits(n).len() ==> '0' <= #[trigger] decimal_digits(n)[i] <= '9',
        n >= 1 ==> decimal_digits(n)[0] != '0',
    decreases n,
{
    if n < 10 {
        law_digit_text(n);
        assert(decimal_digits(n).drop_last() =~= Seq::<char>::empty());
        assert(((48 + n) as char) as int == 48 + n);
        assert(digits_value(decimal_digits(n)) == digits_value(decimal_digits(n).drop_last()) * 10
            + (decimal_digits(n).last() as int - 48));
    } else {
        law_decimal_digits(n / 10);
        law_digit_text(n % 10);
        let s = decimal_digits(n);
        let head = decimal_digits(n / 10);
        assert(s =~= head + seq![(48 + n % 10) as char]);
        assert(s.drop_last() =~= head);
        assert(((48 + n % 10) as char) as int == 48 + n % 10);
        assert(s.last() == (48 + n % 10) as char);
        assert(digits_value(s) == digits_value(head) * 10 + (s.last() as int - 48));
        assert((n / 10) * 10 + n % 10 == n) by (nonlinear_arith);
        assert forall|i: int| 0 <= i < s.len() implies '0' <= #[trigger] s[i] <= '9' by {
            if i < head.len() {
                assert(s[i] == head[i]);
            }
        }
        assert(s[0] == head[0]);
    }
}

/// The text of a negative number is a minus sign followed by the digits of its size; that of
/// any other number is its digits.
pub proof fn law_decimal_text(x: i32)
    ensures
        x < 0 ==> decimal_text(x)[0] == '-' && decimal_text(x).drop_first() == decimal_digits(
            (-x) as nat,
        ) && digits_value(decimal_text(x).drop_first()) == -x,
        x >= 0 ==> decimal_text(x) == decimal_digits(x as nat) && digits_value(decimal_text(x)) == x,
{
    reveal_strlit("-");
    if x < 0 {
        law_decimal_digits((-x) as nat);
        assert(decimal_text(x).drop_first() =~= decimal_digits((-x) as nat));
    } else {
        law_decimal_digits(x as nat);
    }
}

} // verus!
