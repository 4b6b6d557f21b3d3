//! Textual codecs used by the record file: six-digit hexadecimal RGB colors
//! and the decimal selection index stored in the header row.

use vstd::prelude::*;

verus! {

/// The value of one hexadecimal digit, case-insensitive; `None` for any
/// other character.
pub open spec fn hex_digit_val(c: char) -> Option<u32> {
    match c {
        '0' => Some(0u32),
        '1' => Some(1u32),
        '2' => Some(2u32),
        '3' => Some(3u32),
        '4' => Some(4u32),
        '5' => Some(5u32),
        '6' => Some(6u32),
        '7' => Some(7u32),
        '8' => Some(8u32),
        '9' => Some(9u32),
        'a' => Some(10u32),
        'b' => Some(11u32),
        'c' => Some(12u32),
        'd' => Some(13u32),
        'e' => Some(14u32),
        'f' => Some(15u32),
        'A' => Some(10u32),
        'B' => Some(11u32),
        'C' => Some(12u32),
        'D' => Some(13u32),
        'E' => Some(14u32),
        'F' => Some(15u32),
        _ => None,
    }
}

/// The RGB value denoted by a color field: exactly six hexadecimal digits,
/// case-insensitive, most significant first; `None` for any other text.
pub open spec fn color_of_hex(s: Seq<char>) -> Option<u32> {
    if s.len() == 6 && (forall|i: int| 0 <= i < 6 ==> hex_digit_val(#[trigger] s[i]) is Some) {
        Some(
            (hex_digit_val(s[0])->Some_0 * 0x100000 + hex_digit_val(s[1])->Some_0 * 0x10000
                + hex_digit_val(s[2])->Some_0 * 0x1000 + hex_digit_val(s[3])->Some_0 * 0x100
                + hex_digit_val(s[4])->Some_0 * 0x10 + hex_digit_val(s[5])->Some_0) as u32,
        )
    } else {
        None
    }
}

/// The canonical (upper-case) character for one hexadecimal digit.
pub open spec fn hex_digit_char(d: u32) -> char {
    if d == 0 {
        '0'
    } else if d == 1 {
        '1'
    } else if d == 2 {
        '2'
    } else if d == 3 {
        '3'
    } else if d == 4 {
        '4'
    } else if d == 5 {
        '5'
    } else if d == 6 {
        '6'
    } else if d == 7 {
        '7'
    } else if d == 8 {
        '8'
    } else if d == 9 {
        '9'
    } else if d == 10 {
        'A'
    } else if d == 11 {
        'B'
    } else if d == 12 {
        'C'
    } else if d == 13 {
        'D'
    } else if d == 14 {
        'E'
    } else {
        'F'
    }
}

/// The canonical six-digit upper-case hexadecimal text of an RGB value.
pub open spec fn hex_of_color(v: u32) -> Seq<char> {
    seq![
        hex_digit_char((v / 0x100000 % 16) as u32),
        hex_digit_char((v / 0x10000 % 16) as u32),
        hex_digit_char((v / 0x1000 % 16) as u32),
        hex_digit_char((v / 0x100 % 16) as u32),
        hex_digit_char((v / 0x10 % 16) as u32),
        hex_digit_char((v % 16) as u32),
    ]
}

fn hex_digit(c: char) -> (r: Option<u32>)
    ensures
        r == hex_digit_val(c),
{
    match c {
        '0' => Some(0),
        '1' => Some(1),
        '2' => Some(2),
        '3' => Some(3),
        '4' => Some(4),
        '5' => Some(5),
        '6' => Some(6),
        '7' => Some(7),
        '8' => Some(8),
        '9' => Some(9),
        'a' => Some(10),
        'b' => Some(11),
        'c' => Some(12),
        'd' => Some(13),
        'e' => Some(14),
        'f' => Some(15),
        'A' => Some(10),
        'B' => Some(11),
        'C' => Some(12),
        'D' => Some(13),
        'E' => Some(14),
        'F' => Some(15),
        _ => None,
    }
}

fn hex_digit_str(d: u32) -> (r: &'static str)
    requires
        d < 16,
    ensures
        r@ == seq![hex_digit_char(d)],
{
    let r: &'static str = if d == 0 {
        "0"
    } else if d == 1 {
        "1"
    } else if d == 2 {
        "2"
    } else if d == 3 {
        "3"
    } else if d == 4 {
        "4"
    } else if d == 5 {
        "5"
    } else if d == 6 {
        "6"
    } else if d == 7 {
        "7"
    } else if d == 8 {
        "8"
    } else if d == 9 {
        "9"
    } else if d == 10 {
        "A"
    } else if d == 11 {
        "B"
    } else if d == 12 {
        "C"
    } else if d == 13 {
        "D"
    } else if d == 14 {
        "E"
    } else {
        "F"
    };
    proof {
        reveal_strlit("0");
        reveal_strlit("1");
        reveal_strlit("2");
        reveal_strlit("3");
        reveal_strlit("4");
        reveal_strlit("5");
        reveal_strlit("6");
        reveal_strlit("7");
        reveal_strlit("8");
        reveal_strlit("9");
        reveal_strlit("A");
        reveal_strlit("B");
        reveal_strlit("C");
        reveal_strlit("D");
        reveal_strlit("E");
        reveal_strlit("F");
        assert(r@ =~= seq![hex_digit_char(d)]);
    }
    r
}

/// Parses a six-digit hexadecimal color field, case-insensitive.
pub fn parse_hex_color(s: &str) -> (r: Option<u32>)
    ensures
        r == color_of_hex(s@),
{
    let n = s.unicode_len();
    if n != 6 {
        return None;
    }
    let d0 = match hex_digit(s.get_char(0)) {
        Some(d) => d,
        None => {
            return None;
        },
    };
    let d1 = match hex_digit(s.get_char(1)) {
        Some(d) => d,
        None => {
            return None;
        },
    };
    let d2 = match hex_digit(s.get_char(2)) {
        Some(d) => d,
        None => {
            return None;
        },
    };
    let d3 = match hex_digit(s.get_char(3)) {
        Some(d) => d,
        None => {
            return None;
        },
    };
    let d4 = match hex_digit(s.get_char(4)) {
        Some(d) => d,
        None => {
            return None;
        },
    };
    let d5 = match hex_digit(s.get_char(5)) {
        Some(d) => d,
        None => {
            return None;
        },
    };
    Some(d0 * 0x100000 + d1 * 0x10000 + d2 * 0x1000 + d3 * 0x100 + d4 * 0x10 + d5)
}

/// Writes an RGB value as its canonical six-digit upper-case hexadecimal text.
pub fn format_hex_color(v: u32) -> (r: String)
    requires
        v < 0x1000000,
    ensures
        r@ == hex_of_color(v),
{
    let mut out = String::new();
    out.append(hex_digit_str(v / 0x100000 % 16));
    out.append(hex_digit_str(v / 0x10000 % 16));
    out.append(hex_digit_str(v / 0x1000 % 16));
    out.append(hex_digit_str(v / 0x100 % 16));
    out.append(hex_digit_str(v / 0x10 % 16));
    out.append(hex_digit_str(v % 16));
    proof {
        assert(out@ =~= hex_of_color(v));
    }
    out
}

/// The value of one decimal digit; `None` for any other character.
pub open spec fn dec_digit_val(c: char) -> Option<u32> {
    match c {
        '0' => Some(0u32),
        '1' => Some(1u32),
        '2' => Some(2u32),
        '3' => Some(3u32),
        '4' => Some(4u32),
        '5' => Some(5u32),
        '6' => Some(6u32),
        '7' => Some(7u32),
        '8' => Some(8u32),
        '9' => Some(9u32),
        _ => None,
    }
}

pub open spec fn all_dec_digits(s: Seq<char>) -> bool {
    forall|i: int| 0 <= i < s.len() ==> dec_digit_val(#[trigger] s[i]) is Some
}

/// The number denoted by a sequence of decimal digits, most significant
/// first (meaningful only where all characters are digits).
pub open spec fn dec_num(s: Seq<char>) -> nat
    decreases s.len(),
{
    if s.len() == 0 {
        0
    } else {
        dec_num(s.drop_last()) * 10 + dec_digit_val(s.last())->Some_0 as nat
    }
}

/// The non-negative integer denoted by an index field: one or more decimal
/// digits and nothing else; `None` for any other text.
pub open spec fn index_of_text(s: Seq<char>) -> Option<nat> {
    if s.len() > 0 && all_dec_digits(s) {
        Some(dec_num(s))
    } else {
        None
    }
}

/// The character for one decimal digit.
pub open spec fn dec_digit_char(d: nat) -> char {
    if d == 0 {
        '0'
    } else if d == 1 {
        '1'
    } else if d == 2 {
        '2'
    } else if d == 3 {
        '3'
    } else if d == 4 {
        '4'
    } else if d == 5 {
        '5'
    } else if d == 6 {
        '6'
    } else if d == 7 {
        '7'
    } else if d == 8 {
        '8'
    } else {
        '9'
    }
}

/// The canonical decimal text of a non-negative integer (no leading zeros,
/// except for the number zero itself).
pub open spec fn text_of_index(n: nat) -> Seq<char>
    decreases n,
{
    if n < 10 {
        seq![dec_digit_char(n)]
    } else {
        text_of_index(n / 10).push(dec_digit_char(n % 10))
    }
}

fn dec_digit(c: char) -> (r: Option<u32>)
    ensures
        r == dec_digit_val(c),
{
    match c {
        '0' => Some(0),
        '1' => Some(1),
        '2' => Some(2),
        '3' => Some(3),
        '4' => Some(4),
        '5' => Some(5),
        '6' => Some(6),
        '7' => Some(7),
        '8' => Some(8),
        '9' => Some(9),
        _ => None,
    }
}

fn dec_digit_str(d: usize) -> (r: &'static str)
    requires
        d < 10,
    ensures
        r@ == seq![dec_digit_char(d as nat)],
{
    let r: &'static str = if d == 0 {
        "0"
    } else if d == 1 {
        "1"
    } else if d == 2 {
        "2"
    } else if d == 3 {
        "3"
    } else if d == 4 {
        "4"
    } else if d == 5 {
        "5"
    } else if d == 6 {
        "6"
    } else if d == 7 {
        "7"
    } else if d == 8 {
        "8"
    } else {
        "9"
    };
    proof {
        reveal_strlit("0");
        reveal_strlit("1");
        reveal_strlit("2");
        reveal_strlit("3");
        reveal_strlit("4");
        reveal_strlit("5");
        reveal_strlit("6");
        reveal_strlit("7");
        reveal_strlit("8");
        reveal_strlit("9");
        assert(r@ =~= seq![dec_digit_char(d as nat)]);
    }
    r
}

/// A digit sequence never denotes less than any of its prefixes.
proof fn lemma_dec_num_prefix(s: Seq<char>, j: int)
    requires
        0 <= j <= s.len(),
    ensures
        dec_num(s.take(j)) <= dec_num(s),
    decreases s.len() - j,
{
    if j == s.len() {
        assert(s.take(j) =~= s);
    } else {
        lemma_dec_num_prefix(s, j + 1);
        assert(s.take(j + 1).drop_last() =~= s.take(j));
        assert(dec_num(s.take(j)) <= dec_num(s.take(j + 1)));
    }
}

/// Writes a non-negative integer as its canonical decimal text.
pub fn format_index(n: usize) -> (r: String)
    ensures
        r@ == text_of_index(n as nat),
    decreases n,
{
    if n < 10 {
        let mut out = String::new();
        out.append(dec_digit_str(n));
        proof {
            assert(out@ =~= text_of_index(n as nat));
        }
        out
    } else {
        let mut out = format_index(n / 10);
        out.append(dec_digit_str(n % 10));
        proof {
            assert(out@ =~= text_of_index(n as nat));
        }
        out
    }
}

/// Parses an index field: one or more decimal digits denoting a value that
/// fits in `usize`; `None` for any other text or on overflow.
pub fn parse_index(s: &str) -> (r: Option<usize>)
    ensures
        match index_of_text(s@) {
            Some(v) => if v <= usize::MAX { r == Some(v as usize) } else { r is None },
            None => r is None,
        },
{
    let n = s.unicode_len();
    if n == 0 {
        return None;
    }
    let mut acc: usize = 0;
    let mut i: usize = 0;
    while i < n
        invariant
            0 < n == s@.len(),
            0 <= i <= n,
            all_dec_digits(s@.take(i as int)),
            acc as nat == dec_num(s@.take(i as int)),
        decreases n - i,
    {
        let c = s.get_char(i);
        let d = match dec_digit(c) {
            Some(d) => d,
            None => {
                return None;
            },
        };
        proof {
            assert(s@.take(i + 1).drop_last() =~= s@.take(i as int));
            assert(s@.take(i + 1).last() == s@[i as int]);
        }
        if acc > (usize::MAX - d as usize) / 10 {
            proof {
                lemma_dec_num_prefix(s@, i + 1);
                assert(acc as nat * 10 + d as nat > usize::MAX) by (nonlinear_arith)
                    requires
                        acc as nat > ((usize::MAX - d as usize) as nat) / 10,
                        d < 10,
                ;
            }
            return None;
        }
        acc = acc * 10 + d as usize;
        i = i + 1;
        proof {
            assert(all_dec_digits(s@.take(i as int)));
        }
    }
    proof {
        assert(s@.take(n as int) =~= s@);
    }
    Some(acc)
}

/// Writing an index and reading it back yields the same value: the canonical
/// decimal text of any non-negative integer parses to that integer.
pub proof fn lemma_index_round_trip(n: nat)
    ensures
        index_of_text(text_of_index(n)) == Some(n),
    decreases n,
{
    if n < 10 {
        let t = text_of_index(n);
        assert(t =~= seq![dec_digit_char(n)]);
        assert(t.len() == 1 && t.last() == dec_digit_char(n));
        assert(dec_digit_val(dec_digit_char(n)) == Some(n as u32));
        assert(t.drop_last() =~= Seq::<char>::empty());
        assert(dec_num(t.drop_last()) == 0);
        assert(dec_num(t) == dec_num(t.drop_last()) * 10 + dec_digit_val(t.last())->Some_0 as nat);
        assert(dec_num(t) == n);
    } else {
        lemma_index_round_trip(n / 10);
        let t = text_of_index(n);
        let t0 = text_of_index(n / 10);
        assert(t.drop_last() =~= t0);
        assert(t.last() == dec_digit_char(n % 10));
        assert(dec_digit_val(dec_digit_char(n % 10)) == Some((n % 10) as u32));
        assert(all_dec_digits(t0));
        assert forall|i: int| 0 <= i < t.len() implies dec_digit_val(#[trigger] t[i]) is Some by {
            if i < t0.len() {
                assert(t[i] == t0[i]);
            }
        }
        assert(dec_num(t) == dec_num(t0) * 10 + n % 10);
        assert(dec_num(t0) == n / 10);
        assert(n / 10 * 10 + n % 10 == n) by {
            vstd::arithmetic::div_mod::lemma_fundamental_div_mod(n as int, 10);
        }
    }
}

/// A parsed color always fits six hexadecimal digits.
pub proof fn lemma_color_of_hex_bound(s: Seq<char>)
    ensures
        color_of_hex(s) is Some ==> color_of_hex(s)->Some_0 < 0x1000000,
{
    if color_of_hex(s) is Some {
        assert(hex_digit_val(s[0])->Some_0 <= 15);
        assert(hex_digit_val(s[1])->Some_0 <= 15);
        assert(hex_digit_val(s[2])->Some_0 <= 15);
        assert(hex_digit_val(s[3])->Some_0 <= 15);
        assert(hex_digit_val(s[4])->Some_0 <= 15);
        assert(hex_digit_val(s[5])->Some_0 <= 15);
    }
}

/// Writing a color and reading it back yields the same value: the canonical
/// hexadecimal text of any RGB value parses to that value.
pub proof fn lemma_hex_color_round_trip(v: u32)
    requires
        v < 0x1000000,
    ensures
        color_of_hex(hex_of_color(v)) == Some(v),
{
    let s = hex_of_color(v);
    assert forall|d: u32| d < 16 implies hex_digit_val(hex_digit_char(d)) == Some(d) by {}
    assert(v == (v / 0x100000 % 16) * 0x100000 + (v / 0x10000 % 16) * 0x10000 + (v / 0x1000 % 16)
        * 0x1000 + (v / 0x100 % 16) * 0x100 + (v / 0x10 % 16) * 0x10 + (v % 16)) by (bit_vector)
        requires
            v < 0x1000000,
    ;
}

} // verus!
