//! What the digits of a number say, read one after another, and that the text
//! which is written out for a number says that number.

use vstd::arithmetic::div_mod::lemma_fundamental_div_mod;
use vstd::prelude::*;

use crate::text;

verus! {

/// The value of a character as a digit; one that is no digit has a value that
/// no digit has.
pub open spec fn digit_value(c: char) -> nat {
    if '0' <= c && c <= '9' {
        (c as int - '0' as int) as nat
    } else if 'a' <= c && c <= 'f' {
        (c as int - 'a' as int + 10) as nat
    } else {
        99
    }
}

/// The number that the digits give in base `base`, the last one counting least.
pub open spec fn value(s: Seq<char>, base: nat) -> nat
    decreases s.len(),
{
    if s.len() == 0 {
        0
    } else {
        value(s.drop_last(), base) * base + digit_value(s.last())
    }
}

/// `s` is the number `n` in base `base`: digits of that base, at least one, that
/// give `n`, and no zero in front of others.
pub open spec fn spells_natural(s: Seq<char>, n: nat, base: nat) -> bool {
    &&& s.len() > 0
    &&& forall|k: int| 0 <= k < s.len() ==> digit_value(#[trigger] s[k]) < base
    &&& value(s, base) == n
    &&& s.len() > 1 ==> s[0] != '0'
}

/// `s` is the integer `i` in decimal, a negative one with a `-` in front.
pub open spec fn spells(s: Seq<char>, i: int) -> bool {
    if i < 0 {
        &&& s.len() > 1
        &&& s[0] == '-'
        &&& spells_natural(s.skip(1), (-i) as nat, 10)
    } else {
        spells_natural(s, i as nat, 10)
    }
}

/// Each digit has the value for which it stands.
proof fn digits_have_their_values(d: nat)
    requires
        d < 16,
    ensures
        digit_value(text::digit(d)) == d,
        d > 0 ==> text::digit(d) != '0',
{
    reveal_strlit("0123456789abcdef");
    assert(d == 0 || d == 1 || d == 2 || d == 3 || d == 4 || d == 5 || d == 6 || d == 7 || d == 8
        || d == 9 || d == 10 || d == 11 || d == 12 || d == 13 || d == 14 || d == 15);
}

/// What is written out for a natural number, in any base up to sixteen, is that
/// number in that base.
pub proof fn digits_spell_their_number(n: nat, base: nat)
    requires
        2 <= base <= 16,
    ensures
        spells_natural(text::digits(n, base), n, base),
        n > 0 ==> text::digits(n, base)[0] != '0',
    decreases n,
{
    let s = text::digits(n, base);
    if n < base {
        digits_have_their_values(n);
        assert(s.drop_last() =~= Seq::<char>::empty());
        assert(value(s.drop_last(), base) == 0);
        assert(0 * base == 0) by (nonlinear_arith);
    } else {
        let upper = n / base;
        let lower = n % base;
        assert(0 < upper < n && lower < base) by (nonlinear_arith)
            requires
                base >= 2,
                n >= base,
                upper == n / base,
                lower == n % base,
        ;
        digits_spell_their_number(upper, base);
        digits_have_their_values(lower);
        lemma_fundamental_div_mod(n as int, base as int);
        assert(upper * base == base * upper) by (nonlinear_arith);
        let front = text::digits(upper, base);
        assert(s =~= front.push(text::digit(lower)));
        assert(s.drop_last() =~= front);
        assert forall|k: int| 0 <= k < s.len() implies digit_value(#[trigger] s[k]) < base by {
            if k < front.len() {
                assert(s[k] == front[k]);
            }
        }
        assert(s[0] == front[0]);
    }
}

/// What is written out for an integer is that integer in decimal.
pub proof fn decimals_spell_their_number(i: int)
    ensures
        spells(text::decimal(i), i),
{
    if i < 0 {
        digits_spell_their_number((-i) as nat, 10);
        assert(text::decimal(i).skip(1) =~= text::digits((-i) as nat, 10));
    } else {
        digits_spell_their_number(i as nat, 10);
    }
}

/// A text is the decimal of at most one integer, and has no space in it.
pub proof fn a_text_spells_one_number(s: Seq<char>, i: int, j: int)
    requires
        spells(s, i),
        spells(s, j),
    ensures
        i == j,
        forall|k: int| 0 <= k < s.len() ==> #[trigger] s[k] != ' ',
{
    if i < 0 {
        assert forall|k: int| 0 <= k < s.len() implies #[trigger] s[k] != ' ' by {
            if k > 0 {
                assert(s.skip(1)[k - 1] == s[k]);
            }
        }
    }
    if (i < 0) != (j < 0) {
        assert(digit_value(s[0]) == 99);
    }
}

/// A byte is written out as two digits that give the byte.
pub proof fn hex_bytes_spell_their_byte(b: u8)
    ensures
        text::hex_byte(b).len() == 2,
        digit_value(text::hex_byte(b)[0]) < 16,
        digit_value(text::hex_byte(b)[1]) < 16,
        digit_value(text::hex_byte(b)[0]) * 16 + digit_value(text::hex_byte(b)[1]) == b,
{
    digits_have_their_values((b / 16) as nat);
    digits_have_their_values((b % 16) as nat);
}

} // verus!
