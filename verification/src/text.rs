//! Numbers written out as text.

use vstd::prelude::*;

verus! {

/// The digit for `d`, which is below sixteen: `0` to `9`, and `a` to `f` from ten on.
pub open spec fn digit(d: nat) -> char {
    "0123456789abcdef"@[d as int]
}

/// `n` in base `base`, most significant digit first, without leading zeros.
pub open spec fn digits(n: nat, base: nat) -> Seq<char>
    recommends
        2 <= base <= 16,
    decreases n,
    when base >= 2
{
    proof {
        if n >= base {
            assert(n / base < n) by (nonlinear_arith)
                requires
                    base >= 2,
                    n >= base,
            ;
        }
    }
    if n < base {
        seq![digit(n)]
    } else {
        digits(n / base, base).push(digit(n % base))
    }
}

/// `i` in decimal, with a leading `-` when it is negative.
pub open spec fn decimal(i: int) -> Seq<char> {
    if i < 0 {
        seq!['-'] + digits((-i) as nat, 10)
    } else {
        digits(i as nat, 10)
    }
}

/// A byte as exactly two hexadecimal digits.
pub open spec fn hex_byte(b: u8) -> Seq<char> {
    seq![digit((b / 16) as nat), digit((b % 16) as nat)]
}

/// Appends the digit for `d`.
fn append_digit(text: &mut String, d: u64)
    requires
        d < 16,
    ensures
        final(text)@ == old(text)@.push(digit(d as nat)),
{
    let all = "0123456789abcdef";
    proof {
        reveal_strlit("0123456789abcdef");
    }
    let one = all.substring_ascii(d as usize, d as usize + 1);
    text.append(one);
    assert(text@ =~= old(text)@.push(digit(d as nat)));
}

/// Appends `n` in base `base`.
pub(crate) fn append_digits(text: &mut String, n: u64, base: u64)
    requires
        2 <= base <= 16,
    ensures
        final(text)@ == old(text)@ + digits(n as nat, base as nat),
    decreases n,
{
    if n >= base {
        assert(n / base < n) by (nonlinear_arith)
            requires
                base >= 2,
                n >= base,
        ;
        append_digits(text, n / base, base);
    }
    assert(n % base < base);
    append_digit(text, n % base);
    proof {
        if n < base {
            assert(n % base == n) by (nonlinear_arith)
                requires
                    n < base,
            ;
            assert(digits(n as nat, base as nat) =~= seq![digit(n as nat)]);
        } else {
            assert(digits(n as nat, base as nat) =~= digits((n / base) as nat, base as nat).push(
                digit((n % base) as nat),
            ));
        }
    }
    assert(text@ =~= old(text)@ + digits(n as nat, base as nat));
}

/// Appends `i` in decimal.
pub(crate) fn append_decimal(text: &mut String, i: i32)
    ensures
        final(text)@ == old(text)@ + decimal(i as int),
{
    if i < 0 {
        proof {
            reveal_strlit("-");
        }
        text.append("-");
        let size: i64 = -(i as i64);
        append_digits(text, size as u64, 10);
        assert(text@ =~= old(text)@ + decimal(i as int));
    } else {
        append_digits(text, i as u64, 10);
    }
}

/// Appends `b` as two hexadecimal digits.
pub(crate) fn append_hex_byte(text: &mut String, b: u8)
    ensures
        final(text)@ == old(text)@ + hex_byte(b),
{
    append_digit(text, (b / 16) as u64);
    append_digit(text, (b % 16) as u64);
    assert(text@ =~= old(text)@ + hex_byte(b));
}

} // verus!
