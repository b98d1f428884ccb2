//! Decimal numbers as they stand in option text.
//!
//! Written form: the shortest run of decimal digits, with a leading `-` for a
//! negative number. Read form: one or more decimal digits after an optional
//! `+` (and, for a signed number, an optional `-`); leading zeros are read.

use vstd::prelude::*;

verus! {

/// The character of the digit `d`.
pub open spec fn digit_char(d: int) -> char {
    if d == 0 {
        '0'
    } else if d == 1 {
        '1'
    } else if d == 2 {
        '2'
    } else if d == 3 {
        '3'
    } else if d == 4 {
        '4'
    } else if d == 5 {
        '5'
    } else if d == 6 {
        '6'
    } else if d == 7 {
        '7'
    } else if d == 8 {
        '8'
    } else {
        '9'
    }
}

/// The digit that `c` stands for, if it is a decimal digit.
pub open spec fn digit_value(c: char) -> Option<int> {
    if c == '0' {
        Some(0)
    } else if c == '1' {
        Some(1)
    } else if c == '2' {
        Some(2)
    } else if c == '3' {
        Some(3)
    } else if c == '4' {
        Some(4)
    } else if c == '5' {
        Some(5)
    } else if c == '6' {
        Some(6)
    } else if c == '7' {
        Some(7)
    } else if c == '8' {
        Some(8)
    } else if c == '9' {
        Some(9)
    } else {
        None
    }
}

/// The written form of `n`.
pub open spec fn decimal(n: nat) -> Seq<char>
    decreases n,
{
    if n < 10 {
        seq![digit_char(n as int)]
    } else {
        decimal(n / 10).push(digit_char((n % 10) as int))
    }
}

/// The written form of `n`, with its sign when negative.
pub open spec fn signed_decimal(n: int) -> Seq<char> {
    if n < 0 {
        seq!['-'] + decimal((-n) as nat)
    } else {
        decimal(n as nat)
    }
}

/// The number that a non-empty run of decimal digits stands for.
pub open spec fn digits_value(s: Seq<char>) -> Option<nat>
    decreases s.len(),
{
    if s.len() == 0 {
        None
    } else if s.len() == 1 {
        match digit_value(s[0]) {
            Some(d) => Some(d as nat),
            None => None,
        }
    } else {
        match (digits_value(s.drop_last()), digit_value(s.last())) {
            (Some(a), Some(d)) => Some((10 * a + d) as nat),
            _ => None,
        }
    }
}

/// The number that `s` stands for when read without a sign of its own: digits
/// after an optional `+`.
pub open spec fn natural_value(s: Seq<char>) -> Option<nat> {
    if s.len() > 0 && s[0] == '+' {
        digits_value(s.skip(1))
    } else {
        digits_value(s)
    }
}

/// The number that `s` stands for when read with a sign: digits after an
/// optional `+` or `-`.
pub open spec fn integer_value(s: Seq<char>) -> Option<int> {
    if s.len() > 0 && s[0] == '-' {
        match digits_value(s.skip(1)) {
            Some(n) => Some(-(n as int)),
            None => None,
        }
    } else {
        match natural_value(s) {
            Some(n) => Some(n as int),
            None => None,
        }
    }
}

/// What reading `s` as a `usize` gives: its value where that fits.
pub open spec fn usize_value(s: Seq<char>) -> Option<usize> {
    match natural_value(s) {
        Some(n) => if n <= usize::MAX {
            Some(n as usize)
        } else {
            None
        },
        None => None,
    }
}

/// What reading `s` as an `isize` gives: its value where that fits.
pub open spec fn isize_value(s: Seq<char>) -> Option<isize> {
    match integer_value(s) {
        Some(n) => if isize::MIN <= n <= isize::MAX {
            Some(n as isize)
        } else {
            None
        },
        None => None,
    }
}

/// A digit's character stands for that digit.
pub proof fn lemma_digit_round_trip(d: int)
    requires
        0 <= d < 10,
    ensures
        digit_value(digit_char(d)) == Some(d),
        digit_char(d) != '+',
        digit_char(d) != '-',
{
}

/// The written form of a number is a non-empty run of digits that stands for
/// that number and begins with no sign.
pub proof fn lemma_decimal_round_trip(n: nat)
    ensures
        decimal(n).len() > 0,
        digits_value(decimal(n)) == Some(n),
        decimal(n)[0] != '+',
        decimal(n)[0] != '-',
    decreases n,
{
    if n < 10 {
        lemma_digit_round_trip(n as int);
    } else {
        lemma_decimal_round_trip(n / 10);
        lemma_digit_round_trip((n % 10) as int);
        let head = decimal(n / 10);
        let whole = decimal(n);
        assert(whole.drop_last() =~= head);
        assert(whole[0] == head[0]);
    }
}

/// Reading the written form of a `usize` gives the number back.
pub proof fn lemma_usize_round_trip(n: usize)
    ensures
        usize_value(decimal(n as nat)) == Some(n),
{
    lemma_decimal_round_trip(n as nat);
}

/// Reading the written form of an `isize` gives the number back.
pub proof fn lemma_isize_round_trip(n: isize)
    ensures
        isize_value(signed_decimal(n as int)) == Some(n),
{
    if n < 0 {
        let m = (-(n as int)) as nat;
        lemma_decimal_round_trip(m);
        assert(signed_decimal(n as int).skip(1) =~= decimal(m));
    } else {
        lemma_decimal_round_trip(n as nat);
    }
}

/// A run of digits stands for at least what any of its non-empty beginnings
/// stands for, and stands for nothing where a beginning does not.
pub proof fn lemma_digits_prefix(s: Seq<char>, k: int)
    requires
        1 <= k <= s.len(),
    ensures
        digits_value(s) is Some ==> digits_value(s.subrange(0, k)) is Some && digits_value(
            s.subrange(0, k),
        )->0 <= digits_value(s)->0,
    decreases s.len(),
{
    if k == s.len() {
        assert(s.subrange(0, k) =~= s);
    } else {
        let head = s.drop_last();
        lemma_digits_prefix(head, k);
        assert(head.subrange(0, k) =~= s.subrange(0, k));
    }
}

/// The digit that `c` stands for.
pub fn digit_of(c: char) -> (r: Option<u8>)
    ensures
        match digit_value(c) {
            Some(d) => r == Some(d as u8),
            None => r is None,
        },
{
    if c == '0' {
        Some(0)
    } else if c == '1' {
        Some(1)
    } else if c == '2' {
        Some(2)
    } else if c == '3' {
        Some(3)
    } else if c == '4' {
        Some(4)
    } else if c == '5' {
        Some(5)
    } else if c == '6' {
        Some(6)
    } else if c == '7' {
        Some(7)
    } else if c == '8' {
        Some(8)
    } else if c == '9' {
        Some(9)
    } else {
        None
    }
}

/// The text of the digit `d`.
pub(crate) fn digit_text(d: u8) -> (r: &'static str)
    requires
        d < 10,
    ensures
        r@ == seq![digit_char(d as int)],
{
    proof {
        reveal_strlit("0");
        reveal_strlit("1");
        reveal_strlit("2");
        reveal_strlit("3");
        reveal_strlit("4");
        reveal_strlit("5");
        reveal_strlit("6");
        reveal_strlit("7");
        reveal_strlit("8");
        reveal_strlit("9");
    }
    let r = if d == 0 {
        "0"
    } else if d == 1 {
        "1"
    } else if d == 2 {
        "2"
    } else if d == 3 {
        "3"
    } else if d == 4 {
        "4"
    } else if d == 5 {
        "5"
    } else if d == 6 {
        "6"
    } else if d == 7 {
        "7"
    } else if d == 8 {
        "8"
    } else {
        "9"
    };
    assert(r@ =~= seq![digit_char(d as int)]);
    r
}

/// Appends the written form of `n` to `out`.
pub fn push_usize(out: &mut String, n: usize)
    ensures
        final(out)@ == old(out)@ + decimal(n as nat),
    decreases n,
{
    if n >= 10 {
        push_usize(out, n / 10);
    }
    let d: u8 = (n % 10) as u8;
    out.append(digit_text(d));
    proof {
        if n >= 10 {
            assert(out@ =~= old(out)@ + decimal(n as nat / 10).push(digit_char(d as int)));
        } else {
            assert(out@ =~= old(out)@ + seq![digit_char(d as int)]);
        }
    }
}

/// Appends the written form of `n` to `out`.
pub fn push_isize(out: &mut String, n: isize)
    ensures
        final(out)@ == old(out)@ + signed_decimal(n as int),
{
    if n < 0 {
        out.append("-");
        let below: usize = (-(n + 1)) as usize;
        let magnitude: usize = below + 1;
        push_usize(out, magnitude);
        proof {
            reveal_strlit("-");
            assert("-"@ =~= seq!['-']);
            assert(out@ =~= old(out)@ + (seq!['-'] + decimal(magnitude as nat)));
        }
    } else {
        push_usize(out, n as usize);
    }
}

/// The number that the digits of `t` from `from` on stand for, where there is
/// at least one, all are digits, and the number fits.
pub(crate) fn read_digits(t: &Vec<char>, from: usize) -> (r: Option<usize>)
    requires
        from <= t.len(),
    ensures
        match digits_value(t@.skip(from as int)) {
            Some(n) => if n <= usize::MAX {
                r == Some(n as usize)
            } else {
                r is None
            },
            None => r is None,
        },
{
    let ghost s = t@.skip(from as int);
    if from >= t.len() {
        return None;
    }
    let mut acc: usize = 0;
    let mut i: usize = from;
    while i < t.len()
        invariant
            from <= i <= t.len(),
            s == t@.skip(from as int),
            i == from ==> acc == 0,
            i > from ==> digits_value(s.subrange(0, i - from)) == Some(acc as nat),
        decreases t.len() - i,
    {
        let ghost upto = s.subrange(0, i - from);
        let ghost next = s.subrange(0, i - from + 1);
        proof {
            assert(next.drop_last() =~= upto);
            assert(next.last() == t@[i as int]);
            lemma_digits_prefix(s, i - from + 1);
        }
        match digit_of(t[i]) {
            None => {
                return None;
            },
            Some(d) => {
                if acc > (usize::MAX - d as usize) / 10 {
                    assert(10 * acc + d > usize::MAX);
                    return None;
                }
                acc = acc * 10 + d as usize;
            },
        }
        i = i + 1;
    }
    proof {
        assert(s.subrange(0, i - from) =~= s);
    }
    Some(acc)
}

/// Reads `t` from `from` on as a `usize`.
pub(crate) fn read_usize(t: &Vec<char>, from: usize) -> (r: Option<usize>)
    requires
        from <= t.len(),
    ensures
        r == usize_value(t@.skip(from as int)),
{
    let ghost s = t@.skip(from as int);
    if from < t.len() && t[from] == '+' {
        proof {
            assert(s.skip(1) =~= t@.skip(from + 1));
        }
        read_digits(t, from + 1)
    } else {
        read_digits(t, from)
    }
}

/// Reads `t` from `from` on as an `isize`.
pub(crate) fn read_isize(t: &Vec<char>, from: usize) -> (r: Option<isize>)
    requires
        from <= t.len(),
    ensures
        r == isize_value(t@.skip(from as int)),
{
    let ghost s = t@.skip(from as int);
    if from < t.len() && t[from] == '-' {
        proof {
            assert(s.skip(1) =~= t@.skip(from + 1));
        }
        match read_digits(t, from + 1) {
            Some(m) => {
                if m <= isize::MAX as usize {
                    Some(-(m as isize))
                } else if m - 1 == isize::MAX as usize {
                    Some(isize::MIN)
                } else {
                    None
                }
            },
            None => None,
        }
    } else {
        match read_usize(t, from) {
            Some(m) => {
                if m <= isize::MAX as usize {
                    Some(m as isize)
                } else {
                    None
                }
            },
            None => None,
        }
    }
}

} // verus!
