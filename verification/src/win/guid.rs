//! Adapter identifiers and their textual form.

use vstd::prelude::*;
use vstd::string::*;
use crate::util::hex::upper_digit;

verus! {

/// A 128-bit identifier of an adapter. Two adapters are the same exactly when
/// their identifiers are equal.
#[derive(Debug, Clone, Copy, PartialEq, Eq, Hash, Structural)]
pub struct Guid {
    pub value: u128,
}

/// The upper-case hexadecimal digit for a value below sixteen.
pub open spec fn digit(n: u128) -> char {
    upper_digit(n as int)
}

/// The `k`-th group of four bits of `value`, counted from the most significant.
pub open spec fn nibble(value: u128, k: int) -> u128 {
    (value >> ((124 - 4 * k) as u128)) & 0xf
}

/// The digits of the nibbles `from..to` of `value`, most significant first.
pub open spec fn hex_run(value: u128, from: int, to: int) -> Seq<char>
    decreases to - from,
{
    if from >= to {
        Seq::empty()
    } else {
        hex_run(value, from, to - 1).push(digit(nibble(value, to - 1)))
    }
}

/// The textual form of an identifier: thirty-two upper-case hexadecimal digits,
/// most significant first, in groups of 8, 4, 4, 4 and 12 separated by hyphens,
/// the whole in braces.
pub open spec fn text(guid: Guid) -> Seq<char> {
    seq!['{'] + hex_run(guid.value, 0, 8) + seq!['-'] + hex_run(guid.value, 8, 12) + seq!['-']
        + hex_run(guid.value, 12, 16) + seq!['-'] + hex_run(guid.value, 16, 20) + seq!['-']
        + hex_run(guid.value, 20, 32) + seq!['}']
}

/// The digits of a run of nibbles, one by one.
pub proof fn lemma_hex_run(value: u128, from: int, to: int)
    requires
        from <= to,
    ensures
        hex_run(value, from, to).len() == to - from,
        forall|i: int|
            0 <= i < to - from ==> #[trigger] hex_run(value, from, to)[i] == digit(
                nibble(value, from + i),
            ),
    decreases to - from,
{
    if from < to {
        lemma_hex_run(value, from, to - 1);
    }
}

/// The character at each place of the textual form that holds a digit.
proof fn lemma_text_digits(guid: Guid)
    ensures
        text(guid).len() == 38,
        forall|k: int| 0 <= k < 8 ==> text(guid)[1 + k] == digit(nibble(guid.value, k)),
        forall|k: int| 8 <= k < 12 ==> text(guid)[2 + k] == digit(nibble(guid.value, k)),
        forall|k: int| 12 <= k < 16 ==> text(guid)[3 + k] == digit(nibble(guid.value, k)),
        forall|k: int| 16 <= k < 20 ==> text(guid)[4 + k] == digit(nibble(guid.value, k)),
        forall|k: int| 20 <= k < 32 ==> text(guid)[5 + k] == digit(nibble(guid.value, k)),
{
    let v = guid.value;
    lemma_hex_run(v, 0, 8);
    lemma_hex_run(v, 8, 12);
    lemma_hex_run(v, 12, 16);
    lemma_hex_run(v, 16, 20);
    lemma_hex_run(v, 20, 32);
    assert forall|k: int| 0 <= k < 8 implies text(guid)[1 + k] == digit(nibble(v, k)) by {
        assert(text(guid)[1 + k] == hex_run(v, 0, 8)[k]);
    }
    assert forall|k: int| 8 <= k < 12 implies text(guid)[2 + k] == digit(nibble(v, k)) by {
        assert(text(guid)[2 + k] == hex_run(v, 8, 12)[k - 8]);
    }
    assert forall|k: int| 12 <= k < 16 implies text(guid)[3 + k] == digit(nibble(v, k)) by {
        assert(text(guid)[3 + k] == hex_run(v, 12, 16)[k - 12]);
    }
    assert forall|k: int| 16 <= k < 20 implies text(guid)[4 + k] == digit(nibble(v, k)) by {
        assert(text(guid)[4 + k] == hex_run(v, 16, 20)[k - 16]);
    }
    assert forall|k: int| 20 <= k < 32 implies text(guid)[5 + k] == digit(nibble(v, k)) by {
        assert(text(guid)[5 + k] == hex_run(v, 20, 32)[k - 20]);
    }
}

/// The place of the `k`-th digit in the textual form.
spec fn place(k: int) -> int {
    if k < 8 {
        1 + k
    } else if k < 12 {
        2 + k
    } else if k < 16 {
        3 + k
    } else if k < 20 {
        4 + k
    } else {
        5 + k
    }
}

proof fn lemma_same_nibble(a: Guid, b: Guid, k: int)
    requires
        text(a) == text(b),
        0 <= k < 32,
    ensures
        nibble(a.value, k) == nibble(b.value, k),
{
    lemma_text_digits(a);
    lemma_text_digits(b);
    let x = nibble(a.value, k);
    let y = nibble(b.value, k);
    let shift = (124 - 4 * k) as u128;
    let (av, bv) = (a.value, b.value);
    assert(x < 16) by (bit_vector)
        requires
            x == (av >> shift) & 0xf,
    ;
    assert(y < 16) by (bit_vector)
        requires
            y == (bv >> shift) & 0xf,
    ;
    assert(text(a)[place(k)] == digit(x));
    assert(text(b)[place(k)] == digit(y));
    assert(digit(x) == digit(y));
}

/// Two identifiers are written alike exactly when they are the same.
pub proof fn lemma_text_tells_apart(a: Guid, b: Guid)
    ensures
        text(a) == text(b) <==> a == b,
{
    if text(a) == text(b) {
        lemma_same_nibble(a, b, 0);
        lemma_same_nibble(a, b, 1);
        lemma_same_nibble(a, b, 2);
        lemma_same_nibble(a, b, 3);
        lemma_same_nibble(a, b, 4);
        lemma_same_nibble(a, b, 5);
        lemma_same_nibble(a, b, 6);
        lemma_same_nibble(a, b, 7);
        lemma_same_nibble(a, b, 8);
        lemma_same_nibble(a, b, 9);
        lemma_same_nibble(a, b, 10);
        lemma_same_nibble(a, b, 11);
        lemma_same_nibble(a, b, 12);
        lemma_same_nibble(a, b, 13);
        lemma_same_nibble(a, b, 14);
        lemma_same_nibble(a, b, 15);
        lemma_same_nibble(a, b, 16);
        lemma_same_nibble(a, b, 17);
        lemma_same_nibble(a, b, 18);
        lemma_same_nibble(a, b, 19);
        lemma_same_nibble(a, b, 20);
        lemma_same_nibble(a, b, 21);
        lemma_same_nibble(a, b, 22);
        lemma_same_nibble(a, b, 23);
        lemma_same_nibble(a, b, 24);
        lemma_same_nibble(a, b, 25);
        lemma_same_nibble(a, b, 26);
        lemma_same_nibble(a, b, 27);
        lemma_same_nibble(a, b, 28);
        lemma_same_nibble(a, b, 29);
        lemma_same_nibble(a, b, 30);
        lemma_same_nibble(a, b, 31);
        let (a, b) = (a.value, b.value);
        assert(a == b) by (bit_vector)
            requires
                (a >> 124) & 0xf == (b >> 124) & 0xf,
                (a >> 120) & 0xf == (b >> 120) & 0xf,
                (a >> 116) & 0xf == (b >> 116) & 0xf,
                (a >> 112) & 0xf == (b >> 112) & 0xf,
                (a >> 108) & 0xf == (b >> 108) & 0xf,
                (a >> 104) & 0xf == (b >> 104) & 0xf,
                (a >> 100) & 0xf == (b >> 100) & 0xf,
                (a >> 96) & 0xf == (b >> 96) & 0xf,
                (a >> 92) & 0xf == (b >> 92) & 0xf,
                (a >> 88) & 0xf == (b >> 88) & 0xf,
                (a >> 84) & 0xf == (b >> 84) & 0xf,
                (a >> 80) & 0xf == (b >> 80) & 0xf,
                (a >> 76) & 0xf == (b >> 76) & 0xf,
                (a >> 72) & 0xf == (b >> 72) & 0xf,
                (a >> 68) & 0xf == (b >> 68) & 0xf,
                (a >> 64) & 0xf == (b >> 64) & 0xf,
                (a >> 60) & 0xf == (b >> 60) & 0xf,
                (a >> 56) & 0xf == (b >> 56) & 0xf,
                (a >> 52) & 0xf == (b >> 52) & 0xf,
                (a >> 48) & 0xf == (b >> 48) & 0xf,
                (a >> 44) & 0xf == (b >> 44) & 0xf,
                (a >> 40) & 0xf == (b >> 40) & 0xf,
                (a >> 36) & 0xf == (b >> 36) & 0xf,
                (a >> 32) & 0xf == (b >> 32) & 0xf,
                (a >> 28) & 0xf == (b >> 28) & 0xf,
                (a >> 24) & 0xf == (b >> 24) & 0xf,
                (a >> 20) & 0xf == (b >> 20) & 0xf,
                (a >> 16) & 0xf == (b >> 16) & 0xf,
                (a >> 12) & 0xf == (b >> 12) & 0xf,
                (a >> 8) & 0xf == (b >> 8) & 0xf,
                (a >> 4) & 0xf == (b >> 4) & 0xf,
                (a >> 0) & 0xf == (b >> 0) & 0xf,
        ;
    }
}

fn digit_str(n: u128) -> (s: &'static str)
    requires
        n < 16,
    ensures
        s@ == seq![digit(n)],
{
    proof {
        reveal_strlit("0");
        reveal_strlit("1");
        reveal_strlit("2");
        reveal_strlit("3");
        reveal_strlit("4");
        reveal_strlit("5");
        reveal_strlit("6");
        reveal_strlit("7");
        reveal_strlit("8");
        reveal_strlit("9");
        reveal_strlit("A");
        reveal_strlit("B");
        reveal_strlit("C");
        reveal_strlit("D");
        reveal_strlit("E");
        reveal_strlit("F");
    }
    let s = match n {
        0 => "0",
        1 => "1",
        2 => "2",
        3 => "3",
        4 => "4",
        5 => "5",
        6 => "6",
        7 => "7",
        8 => "8",
        9 => "9",
        10 => "A",
        11 => "B",
        12 => "C",
        13 => "D",
        14 => "E",
        _ => "F",
    };
    assert(s@ =~= seq![digit(n)]);
    s
}

fn push_hex(out: &mut String, value: u128, from: u8, to: u8)
    requires
        from <= to <= 32,
    ensures
        final(out)@ == old(out)@ + hex_run(value, from as int, to as int),
{
    let mut k: u8 = from;
    assert(old(out)@ + hex_run(value, from as int, from as int) =~= old(out)@);
    while k < to
        invariant
            from <= k <= to <= 32,
            out@ == old(out)@ + hex_run(value, from as int, k as int),
        decreases to - k,
    {
        let shift: u128 = 124 - 4 * (k as u128);
        let n: u128 = (value >> shift) & 0xf;
        assert(n < 16) by (bit_vector)
            requires
                n == (value >> shift) & 0xf,
        ;
        let ghost before = out@;
        out.append(digit_str(n));
        proof {
            assert(n == nibble(value, k as int));
            assert(hex_run(value, from as int, k + 1) == hex_run(value, from as int, k as int).push(
                digit(n),
            ));
            assert(out@ =~= old(out)@ + hex_run(value, from as int, k + 1));
        }
        k = k + 1;
    }
}

/// Writes an identifier in its textual form.
pub fn to_string(guid: &Guid) -> (s: String)
    ensures
        s@ == text(*guid),
{
    proof {
        reveal_strlit("{");
        reveal_strlit("-");
        reveal_strlit("}");
    }
    let mut s = String::new();
    s.append("{");
    assert(s@ =~= seq!['{']);
    push_hex(&mut s, guid.value, 0, 8);
    s.append("-");
    push_hex(&mut s, guid.value, 8, 12);
    s.append("-");
    push_hex(&mut s, guid.value, 12, 16);
    s.append("-");
    push_hex(&mut s, guid.value, 16, 20);
    s.append("-");
    push_hex(&mut s, guid.value, 20, 32);
    s.append("}");
    assert(s@ =~= text(*guid));
    s
}

} // verus!
