//! Hexadecimal text: a number as a fixed count of lowercase digits, most
//! significant first, and back.
use vstd::prelude::*;
use vstd::arithmetic::div_mod::lemma_mod_breakdown;

verus! {

pub open spec fn pow16(n: nat) -> nat
    decreases n,
{
    if n == 0 {
        1
    } else {
        16 * pow16((n - 1) as nat)
    }
}

/// The lowercase digit of a value below sixteen.
pub open spec fn hex_digit(d: nat) -> char {
    if d < 10 {
        (d + 48) as char
    } else {
        (d + 87) as char
    }
}

/// `0`-`9`, `a`-`f` or `A`-`F`.
pub open spec fn is_hex_digit(c: char) -> bool {
    let x = c as int;
    (48 <= x <= 57) || (97 <= x <= 102) || (65 <= x <= 70)
}

pub open spec fn hex_digit_value(c: char) -> nat {
    let x = c as int;
    if 48 <= x <= 57 {
        (x - 48) as nat
    } else if 97 <= x <= 102 {
        (x - 87) as nat
    } else if 65 <= x <= 70 {
        (x - 55) as nat
    } else {
        0
    }
}

pub open spec fn all_hex_digits(s: Seq<char>) -> bool {
    forall|i: int| 0 <= i < s.len() ==> is_hex_digit(#[trigger] s[i])
}

/// The number that a string of hex digits writes, most significant first.
pub open spec fn hex_value(s: Seq<char>) -> nat
    decreases s.len(),
{
    if s.len() == 0 {
        0
    } else {
        16 * hex_value(s.drop_last()) + hex_digit_value(s.last())
    }
}

/// The low `n` hex digits of `v`, zero-padded, most significant first.
pub open spec fn hex_text(v: nat, n: nat) -> Seq<char>
    decreases n,
{
    if n == 0 {
        Seq::empty()
    } else {
        hex_text(v / 16, (n - 1) as nat).push(hex_digit(v % 16))
    }
}

pub proof fn lemma_pow16_32()
    ensures
        pow16(32) == 0x1_0000_0000_0000_0000_0000_0000_0000_0000,
{
    reveal_with_fuel(pow16, 33);
}

pub proof fn lemma_pow16_monotonic(a: nat, b: nat)
    requires
        a <= b,
    ensures
        pow16(a) <= pow16(b),
    decreases b,
{
    if a < b {
        lemma_pow16_monotonic(a, (b - 1) as nat);
    }
}

/// The text of `n` digits is `n` hex digits long and writes `v` modulo `16^n`.
pub proof fn lemma_hex_text_value(v: nat, n: nat)
    ensures
        hex_text(v, n).len() == n,
        all_hex_digits(hex_text(v, n)),
        hex_value(hex_text(v, n)) == v % pow16(n),
    decreases n,
{
    if n > 0 {
        let m = (n - 1) as nat;
        lemma_hex_text_value(v / 16, m);
        let t = hex_text(v, n);
        assert(t.drop_last() == hex_text(v / 16, m));
        lemma_pow16_monotonic(0, m);
        lemma_mod_breakdown(v as int, 16, pow16(m) as int);
        assert(is_hex_digit(hex_digit(v % 16)));
    }
}

/// Every `u128` is written in full by 32 hex digits.
pub proof fn lemma_hex_text_u128(v: u128)
    ensures
        hex_text(v as nat, 32).len() == 32,
        all_hex_digits(hex_text(v as nat, 32)),
        hex_value(hex_text(v as nat, 32)) == v,
{
    lemma_hex_text_value(v as nat, 32);
    lemma_pow16_32();
}

/// Relies on `String::push`: appends one character.
#[verifier::external_body]
fn push_char(s: &mut String, c: char)
    ensures
        final(s)@ == old(s)@.push(c),
{
    s.push(c);
}

fn digit_char(d: u8) -> (c: char)
    requires
        d < 16,
    ensures
        c == hex_digit(d as nat),
{
    if d < 10 {
        (d + 48) as char
    } else {
        (d + 87) as char
    }
}

fn digit_value(c: char) -> (r: Option<u8>)
    ensures
        r == (if is_hex_digit(c) {
            Some(hex_digit_value(c) as u8)
        } else {
            None::<u8>
        }),
{
    let x = c as u32;
    if 48 <= x && x <= 57 {
        Some((x - 48) as u8)
    } else if 97 <= x && x <= 102 {
        Some((x - 87) as u8)
    } else if 65 <= x && x <= 70 {
        Some((x - 55) as u8)
    } else {
        None
    }
}

/// Appends the low `n` hex digits of `v` to `s`.
pub fn push_hex(s: &mut String, v: u128, n: u32)
    ensures
        final(s)@ == old(s)@ + hex_text(v as nat, n as nat),
    decreases n,
{
    if n > 0 {
        push_hex(s, v / 16, n - 1);
        push_char(s, digit_char((v % 16) as u8));
        assert(final(s)@ =~= old(s)@ + hex_text(v as nat, n as nat));
    } else {
        assert(final(s)@ =~= old(s)@ + hex_text(v as nat, n as nat));
    }
}

/// The number that `s` writes in hex, if every character of it is a hex
/// digit.
pub fn parse_hex(s: &str) -> (r: Option<u128>)
    requires
        s@.len() <= 32,
    ensures
        r == (if all_hex_digits(s@) {
            Some(hex_value(s@) as u128)
        } else {
            None::<u128>
        }),
{
    let n = s.unicode_len();
    let mut acc: u128 = 0;
    let mut i: usize = 0;
    proof {
        lemma_pow16_32();
        assert(s@.subrange(0, 0) =~= Seq::<char>::empty());
    }
    while i < n
        invariant
            n == s@.len(),
            n <= 32,
            i <= n,
            pow16(32) == 0x1_0000_0000_0000_0000_0000_0000_0000_0000,
            all_hex_digits(s@.subrange(0, i as int)),
            acc as nat == hex_value(s@.subrange(0, i as int)),
            acc < pow16(i as nat),
        decreases n - i,
    {
        let c = s.get_char(i);
        match digit_value(c) {
            None => {
                proof {
                    assert(!all_hex_digits(s@));
                }
                return None;
            },
            Some(d) => {
                proof {
                    lemma_pow16_monotonic((i + 1) as nat, 32);
                    let t = s@.subrange(0, i + 1);
                    assert(t.drop_last() =~= s@.subrange(0, i as int));
                    assert(t.last() == c);
                }
                acc = acc * 16 + d as u128;
                i = i + 1;
            },
        }
    }
    proof {
        assert(s@.subrange(0, n as int) =~= s@);
    }
    Some(acc)
}

} // verus!
