//! Paste identifiers: 128-bit values, drawn at random at creation and
//! rendered in the canonical hyphenated hexadecimal form for URLs.

use vstd::prelude::*;
use vstd::string::StringExecFns;

verus! {

/// The lower-case hexadecimal digit character for `x`.
pub open spec fn hex_digit(x: int) -> char {
    if x == 0 {
        '0'
    } else if x == 1 {
        '1'
    } else if x == 2 {
        '2'
    } else if x == 3 {
        '3'
    } else if x == 4 {
        '4'
    } else if x == 5 {
        '5'
    } else if x == 6 {
        '6'
    } else if x == 7 {
        '7'
    } else if x == 8 {
        '8'
    } else if x == 9 {
        '9'
    } else if x == 10 {
        'a'
    } else if x == 11 {
        'b'
    } else if x == 12 {
        'c'
    } else if x == 13 {
        'd'
    } else if x == 14 {
        'e'
    } else {
        'f'
    }
}

/// The `i`-th nibble of `id`, counting from the most significant.
pub open spec fn nibble(id: u128, i: int) -> int
    recommends
        0 <= i < 32,
{
    ((id >> (((31 - i) * 4) as u128)) % 16) as int
}

/// The nibbles of `id` from position `a` (inclusive) to `b` (exclusive), as
/// hexadecimal digit characters.
pub open spec fn hex_seq(id: u128, a: int, b: int) -> Seq<char>
    decreases b - a,
{
    if a >= b {
        Seq::empty()
    } else {
        seq![hex_digit(nibble(id, a))] + hex_seq(id, a + 1, b)
    }
}

/// The canonical hyphenated form of `id`: 32 hexadecimal digits in groups of
/// 8, 4, 4, 4 and 12, separated by hyphens.
pub open spec fn uuid_seq(id: u128) -> Seq<char> {
    hex_seq(id, 0, 8) + seq!['-'] + hex_seq(id, 8, 12) + seq!['-'] + hex_seq(id, 12, 16)
        + seq!['-'] + hex_seq(id, 16, 20) + seq!['-'] + hex_seq(id, 20, 32)
}

proof fn lemma_hex_seq_snoc(id: u128, a: int, b: int)
    requires
        a <= b,
    ensures
        hex_seq(id, a, b + 1) == hex_seq(id, a, b) + seq![hex_digit(nibble(id, b))],
    decreases b - a,
{
    if a == b {
        assert(hex_seq(id, b + 1, b + 1) =~= Seq::<char>::empty());
        assert(hex_seq(id, a, b + 1) =~= seq![hex_digit(nibble(id, a))] + hex_seq(id, b + 1, b + 1));
        assert(hex_seq(id, a, b) =~= Seq::<char>::empty());
        assert(hex_seq(id, a, b + 1) =~= hex_seq(id, a, b) + seq![hex_digit(nibble(id, b))]);
    } else {
        lemma_hex_seq_snoc(id, a + 1, b);
        assert(hex_seq(id, a, b + 1) =~= seq![hex_digit(nibble(id, a))] + hex_seq(id, a + 1, b + 1));
        assert(hex_seq(id, a, b + 1) =~= hex_seq(id, a, b) + seq![hex_digit(nibble(id, b))]);
    }
}

/// The single-character string for the hexadecimal digit `x`.
fn hex_str(x: u128) -> (r: &'static str)
    requires
        x < 16,
    ensures
        r@ =~= seq![hex_digit(x as int)],
{
    proof {
        reveal_strlit("0");
        reveal_strlit("1");
        reveal_strlit("2");
        reveal_strlit("3");
        reveal_strlit("4");
        reveal_strlit("5");
        reveal_strlit("6");
        reveal_strlit("7");
        reveal_strlit("8");
        reveal_strlit("9");
        reveal_strlit("a");
        reveal_strlit("b");
        reveal_strlit("c");
        reveal_strlit("d");
        reveal_strlit("e");
        reveal_strlit("f");
    }
    match x {
        0 => "0",
        1 => "1",
        2 => "2",
        3 => "3",
        4 => "4",
        5 => "5",
        6 => "6",
        7 => "7",
        8 => "8",
        9 => "9",
        10 => "a",
        11 => "b",
        12 => "c",
        13 => "d",
        14 => "e",
        _ => "f",
    }
}

/// Append the hexadecimal digits of the nibbles `a..b` of `id` to `out`.
fn push_hex(out: &mut String, id: u128, a: usize, b: usize)
    requires
        a <= b <= 32,
    ensures
        final(out)@ == old(out)@ + hex_seq(id, a as int, b as int),
{
    let mut i: usize = a;
    assert(out@ =~= old(out)@ + hex_seq(id, a as int, a as int));
    while i < b
        invariant
            a <= i <= b <= 32,
            out@ == old(out)@ + hex_seq(id, a as int, i as int),
        decreases b - i,
    {
        let sh: u128 = ((31 - i) * 4) as u128;
        let nib: u128 = (id >> sh) % 16;
        assert(nib == nibble(id, i as int));
        let d = hex_str(nib);
        out.append(d);
        proof {
            lemma_hex_seq_snoc(id, a as int, i as int);
            assert(out@ =~= old(out)@ + hex_seq(id, a as int, i + 1));
        }
        i += 1;
    }
}

/// Render `id` in the canonical hyphenated hexadecimal form.
pub fn uuid_string(id: u128) -> (r: String)
    ensures
        r@ == uuid_seq(id),
{
    proof {
        reveal_strlit("-");
    }
    let mut out = String::new();
    push_hex(&mut out, id, 0, 8);
    out.append("-");
    push_hex(&mut out, id, 8, 12);
    out.append("-");
    push_hex(&mut out, id, 12, 16);
    out.append("-");
    push_hex(&mut out, id, 16, 20);
    out.append("-");
    push_hex(&mut out, id, 20, 32);
    proof {
        assert(out@ =~= uuid_seq(id));
    }
    out
}

/// Relies on `uuid::Uuid::new_v4` (and `as_u128`): a freshly drawn random
/// identifier. Nothing is promised of the value.
#[verifier::external_body]
pub(crate) fn random_id() -> u128 {
    uuid::Uuid::new_v4().as_u128()
}

} // verus!
