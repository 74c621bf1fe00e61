//! Values drawn at random, of which nothing is claimed beyond their range,
//! and the text of an identifier.

use vstd::prelude::*;
use vstd::string::StringExecFns;

verus! {

/// Calls `uuid::Uuid::new_v4` and gives the identifier as its 128-bit value.
/// The value is random: nothing is claimed of it.
#[verifier::external_body]
pub(crate) fn fresh_id() -> u128 {
    uuid::Uuid::new_v4().as_u128()
}

/// The lower-case hexadecimal digit of a value below 16.
pub open spec fn lower_hex_char(value: int) -> char {
    if value < 10 {
        ((48 + value) as u8) as char
    } else {
        ((87 + value) as u8) as char
    }
}

/// The hexadecimal digit of a 128-bit value at place `k`, the highest
/// digit at place 0 and the lowest at place 31.
pub open spec fn nibble(id: u128, k: int) -> u128 {
    (id >> ((4 * (31 - k)) as u128)) & 0xf
}

/// The hexadecimal digits of a 128-bit value from place `from` up to, but
/// without, place `to`.
pub open spec fn hex_digits(id: u128, from: int, to: int) -> Seq<char>
    decreases to - from,
{
    if from >= to {
        Seq::empty()
    } else {
        hex_digits(id, from, to - 1).push(lower_hex_char(nibble(id, to - 1) as int))
    }
}

/// The hyphenated text of a 128-bit identifier: its 32 lower-case
/// hexadecimal digits, the highest first, in groups of 8, 4, 4, 4 and 12
/// with a hyphen between one group and the next.
pub open spec fn uuid_text_of(id: u128) -> Seq<char> {
    hex_digits(id, 0, 8) + seq!['-'] + hex_digits(id, 8, 12) + seq!['-'] + hex_digits(id, 12, 16)
        + seq!['-'] + hex_digits(id, 16, 20) + seq!['-'] + hex_digits(id, 20, 32)
}

/// The text of one lower-case hexadecimal digit.
fn lower_hex_str(value: u128) -> (s: &'static str)
    requires
        value < 16,
    ensures
        s@ == seq![lower_hex_char(value as int)],
{
    proof {
        reveal_strlit("0");
        reveal_strlit("1");
        reveal_strlit("2");
        reveal_strlit("3");
        reveal_strlit("4");
        reveal_strlit("5");
        reveal_strlit("6");
        reveal_strlit("7");
        reveal_strlit("8");
        reveal_strlit("9");
        reveal_strlit("a");
        reveal_strlit("b");
        reveal_strlit("c");
        reveal_strlit("d");
        reveal_strlit("e");
        reveal_strlit("f");
    }
    let s = match value {
        0 => "0",
        1 => "1",
        2 => "2",
        3 => "3",
        4 => "4",
        5 => "5",
        6 => "6",
        7 => "7",
        8 => "8",
        9 => "9",
        10 => "a",
        11 => "b",
        12 => "c",
        13 => "d",
        14 => "e",
        _ => "f",
    };
    assert(s@ =~= seq![lower_hex_char(value as int)]);
    s
}

/// Appends the hexadecimal digits of `id` from place `from` up to, but
/// without, place `to`.
fn push_hex_digits(text: &mut String, id: u128, from: u32, to: u32)
    requires
        from <= to <= 32,
    ensures
        final(text)@ == old(text)@ + hex_digits(id, from as int, to as int),
{
    let mut k: u32 = from;
    assert(old(text)@ + hex_digits(id, from as int, from as int) =~= old(text)@);
    while k < to
        invariant
            from <= k <= to <= 32,
            text@ == old(text)@ + hex_digits(id, from as int, k as int),
        decreases to - k,
    {
        let shift: u128 = 4 * (31 - k as u128);
        let shifted: u128 = id >> shift;
        let value: u128 = shifted & 0xf;
        assert(value < 16) by (bit_vector)
            requires
                value == shifted & 0xf,
        ;
        assert(value == nibble(id, k as int));
        let ghost before = text@;
        text.append(lower_hex_str(value));
        assert(text@ =~= old(text)@ + hex_digits(id, from as int, k + 1)) by {
            assert(hex_digits(id, from as int, k + 1) == hex_digits(id, from as int, k as int).push(
                lower_hex_char(nibble(id, k as int) as int),
            ));
            assert(text@ =~= before + seq![lower_hex_char(value as int)]);
        }
        k += 1;
    }
}

/// Writes a 128-bit identifier in its hyphenated form.
pub fn uuid_text(id: u128) -> (text: String)
    ensures
        text@ == uuid_text_of(id),
        text@.len() == 36,
{
    proof {
        reveal_strlit("-");
    }
    let mut text = String::new();
    push_hex_digits(&mut text, id, 0, 8);
    text.append("-");
    push_hex_digits(&mut text, id, 8, 12);
    text.append("-");
    push_hex_digits(&mut text, id, 12, 16);
    text.append("-");
    push_hex_digits(&mut text, id, 16, 20);
    text.append("-");
    push_hex_digits(&mut text, id, 20, 32);
    proof {
        assert("-"@ =~= seq!['-']);
        assert(text@ =~= uuid_text_of(id));
        lemma_hex_digits_len(id, 0, 8);
        lemma_hex_digits_len(id, 8, 12);
        lemma_hex_digits_len(id, 12, 16);
        lemma_hex_digits_len(id, 16, 20);
        lemma_hex_digits_len(id, 20, 32);
    }
    text
}

/// There are as many digits as places.
proof fn lemma_hex_digits_len(id: u128, from: int, to: int)
    requires
        from <= to,
    ensures
        hex_digits(id, from, to).len() == to - from,
    decreases to - from,
{
    if from < to {
        lemma_hex_digits_len(id, from, to - 1);
    }
}

/// Calls `rand::Rng::gen_range` on the thread's generator with the inclusive
/// range `low..=high`. The value is random; it lies in the range. The call
/// panics on an empty range, which `requires` leaves out.
#[verifier::external_body]
pub(crate) fn random_in(low: u32, high: u32) -> (n: u32)
    requires
        low <= high,
    ensures
        low <= n <= high,
{
    rand::Rng::gen_range(&mut rand::thread_rng(), low..=high)
}

/// Calls `ring::rand::SecureRandom::fill` on the system generator for four
/// bytes; `None` where the generator fails. The bytes are random: nothing
/// is claimed of them.
#[verifier::external_body]
pub(crate) fn system_random_bytes() -> Option<[u8; 4]> {
    let mut bytes = [0u8; 4];
    ring::rand::SecureRandom::fill(&ring::rand::SystemRandom::new(), &mut bytes).ok()?;
    Some(bytes)
}

} // verus!
