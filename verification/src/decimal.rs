//! Decimal text of integers, plain and padded with zeros to a given width.

use vstd::prelude::*;
use vstd::string::*;

verus! {

/// `String::push` of std: the character is added at the end and nothing else
/// changes.
pub assume_specification[ String::push ](s: &mut String, c: char)
    ensures
        final(s)@ == old(s)@.push(c),
;

/// The character that stands for the digit `d`, for `d` from 0 to 9.
pub open spec fn digit_char(d: nat) -> char {
    ((48 + d) as u8) as char
}

/// The decimal digits of `n`, most significant first, without leading zeros;
/// zero is the single digit `0`.
pub open spec fn nat_text(n: nat) -> Seq<char>
    decreases n,
{
    if n < 10 {
        seq![digit_char(n)]
    } else {
        nat_text(n / 10).push(digit_char(n % 10))
    }
}

/// The decimal text of `n`, with a leading minus sign when `n` is negative.
pub open spec fn int_text(n: int) -> Seq<char> {
    if n < 0 {
        seq!['-'] + nat_text((-n) as nat)
    } else {
        nat_text(n as nat)
    }
}

/// `k` zeros.
pub open spec fn zeros(k: nat) -> Seq<char> {
    Seq::new(k, |i: int| '0')
}

/// The decimal digits of `n`, with zeros in front to reach `width`
/// characters; a number with more digits than that is written in full.
pub open spec fn zero_padded(n: nat, width: nat) -> Seq<char> {
    let digits = nat_text(n);
    if digits.len() >= width {
        digits
    } else {
        zeros((width - digits.len()) as nat) + digits
    }
}

/// As `zero_padded`, for a number with a sign: the minus sign comes first
/// and counts towards `width`, the zeros follow it.
pub open spec fn zero_padded_int(n: int, width: nat) -> Seq<char> {
    if n < 0 {
        seq!['-'] + zero_padded((-n) as nat, if width >= 1 { (width - 1) as nat } else { 0 })
    } else {
        zero_padded(n as nat, width)
    }
}

/// How many digits `nat_text` writes for `n`: one for every power of ten up to `n`.
pub proof fn lemma_nat_text_len(n: nat)
    ensures
        nat_text(n).len() >= 1,
        n < 10 <==> nat_text(n).len() == 1,
        n >= 10 ==> nat_text(n).len() == nat_text(n / 10).len() + 1,
    decreases n,
{
    if n >= 10 {
        lemma_nat_text_len(n / 10);
    }
}

/// A number below a hundred, padded to two characters, is its tens digit
/// followed by its units digit.
pub proof fn lemma_two_digits(n: nat)
    requires
        n < 100,
    ensures
        zero_padded(n, 2) == seq![digit_char(n / 10), digit_char(n % 10)],
{
    lemma_nat_text_len(n);
    if n >= 10 {
        lemma_nat_text_len(n / 10);
        assert(nat_text(n) =~= seq![digit_char(n / 10), digit_char(n % 10)]);
    } else {
        assert(zeros(1) + nat_text(n) =~= seq![digit_char(0), digit_char(n)]);
    }
}

/// A number below ten thousand, padded to four characters, is its four
/// digits from the thousands down to the units.
pub proof fn lemma_four_digits(n: nat)
    requires
        n < 10000,
    ensures
        zero_padded(n, 4) == seq![
            digit_char(n / 1000),
            digit_char((n / 100) % 10),
            digit_char((n / 10) % 10),
            digit_char(n % 10),
        ],
{
    let shown = seq![
        digit_char(n / 1000),
        digit_char((n / 100) % 10),
        digit_char((n / 10) % 10),
        digit_char(n % 10),
    ];
    reveal_with_fuel(nat_text, 5);
    if n < 10 {
        assert(zeros(3) + nat_text(n) =~= shown);
    } else if n < 100 {
        assert(zeros(2) + nat_text(n) =~= shown);
    } else if n < 1000 {
        assert(zeros(1) + nat_text(n) =~= shown);
    } else {
        assert(nat_text(n) =~= shown);
    }
}

/// The character of a single digit.
pub fn digit(d: u8) -> (c: char)
    requires
        d < 10,
    ensures
        c == digit_char(d as nat),
{
    (48u8 + d) as char
}

/// Appends the decimal digits of `n` to `out`.
pub fn push_decimal(out: &mut String, n: u64)
    ensures
        final(out)@ == old(out)@ + nat_text(n as nat),
    decreases n,
{
    if n >= 10 {
        push_decimal(out, n / 10);
    }
    let last: u8 = (n % 10) as u8;
    out.push(digit(last));
    proof {
        if n >= 10 {
            assert(old(out)@ + nat_text(n as nat) =~= (old(out)@ + nat_text((n / 10) as nat)).push(
                digit_char((n % 10) as nat),
            ));
        } else {
            assert(old(out)@ + nat_text(n as nat) =~= old(out)@.push(digit_char(n as nat)));
        }
    }
}

/// Appends `k` zeros to `out`.
pub fn push_zeros(out: &mut String, k: usize)
    ensures
        final(out)@ == old(out)@ + zeros(k as nat),
{
    let mut i: usize = 0;
    while i < k
        invariant
            i <= k,
            out@ == old(out)@ + zeros(i as nat),
        decreases k - i,
    {
        out.push('0');
        assert(zeros(i as nat).push('0') =~= zeros((i + 1) as nat));
        assert(out@ =~= old(out)@ + zeros((i + 1) as nat));
        i += 1;
    }
}

/// Appends the decimal digits of `n` to `out`, with zeros in front to reach
/// `width` characters.
pub fn push_zero_padded(out: &mut String, n: u64, width: usize)
    ensures
        final(out)@ == old(out)@ + zero_padded(n as nat, width as nat),
    decreases n,
{
    let narrower: usize = if width >= 1 {
        width - 1
    } else {
        0
    };
    if n >= 10 {
        push_zero_padded(out, n / 10, narrower);
    } else {
        push_zeros(out, narrower);
    }
    let last: u8 = (n % 10) as u8;
    out.push(digit(last));
    proof {
        lemma_nat_text_len(n as nat);
        lemma_nat_text_len((n / 10) as nat);
        let d = digit_char((n % 10) as nat);
        if n >= 10 {
            assert(zero_padded((n / 10) as nat, narrower as nat).push(d) =~= zero_padded(
                n as nat,
                width as nat,
            ));
        } else {
            assert(zeros(narrower as nat).push(d) =~= zero_padded(n as nat, width as nat));
        }
        assert(out@ =~= old(out)@ + zero_padded(n as nat, width as nat));
    }
}

/// The size of `n` without its sign.
pub fn magnitude(n: i64) -> (m: u64)
    ensures
        m == if n < 0 { -(n as int) } else { n as int },
{
    if n < 0 {
        let above: i64 = n + 1;
        let below: u64 = (-above) as u64;
        below + 1
    } else {
        n as u64
    }
}

/// Appends the decimal text of `n` to `out`, with a minus sign in front when
/// `n` is negative.
pub fn push_signed(out: &mut String, n: i64)
    ensures
        final(out)@ == old(out)@ + int_text(n as int),
{
    if n < 0 {
        out.push('-');
    }
    push_decimal(out, magnitude(n));
    proof {
        if n < 0 {
            assert(out@ =~= old(out)@ + (seq!['-'] + nat_text((-(n as int)) as nat)));
        }
    }
}

/// Appends the decimal text of `n` to `out`, padded with zeros to `width`
/// characters; the minus sign of a negative `n` comes first and counts
/// towards the width.
pub fn push_zero_padded_signed(out: &mut String, n: i64, width: usize)
    ensures
        final(out)@ == old(out)@ + zero_padded_int(n as int, width as nat),
{
    if n < 0 {
        out.push('-');
        let narrower: usize = if width >= 1 {
            width - 1
        } else {
            0
        };
        push_zero_padded(out, magnitude(n), narrower);
        proof {
            assert(out@ =~= old(out)@ + (seq!['-'] + zero_padded(
                (-(n as int)) as nat,
                narrower as nat,
            )));
        }
    } else {
        push_zero_padded(out, magnitude(n), width);
    }
}

} // verus!
