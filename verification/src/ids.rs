//! Store-generated document identifiers and their text form.
//!
//! An identifier is a 96-bit value, written on the wire as exactly 24
//! hexadecimal digits (big-endian, lowercase when produced by this crate).
//! The parser accepts both digit cases and rejects every other string, so a
//! malformed identifier never reaches a collection lookup.

use vstd::prelude::*;

verus! {

/// A store-generated identifier: 96 bits split into a high and a low word.
/// Identifiers are assigned by the store on insert and never change.
#[derive(Clone, Copy, PartialEq, Eq, Structural, Debug, Hash)]
pub struct Id {
    pub hi: u32,
    pub lo: u64,
}

/// The character is one of `0-9`, `a-f` or `A-F`.
pub open spec fn is_hex_digit(c: char) -> bool {
    (48 <= c as int && c as int <= 57) || (97 <= c as int && c as int <= 102) || (65 <= c as int
        && c as int <= 70)
}

/// Numeric value of a hexadecimal digit character.
pub open spec fn hex_digit_value(c: char) -> int {
    if 48 <= c as int && c as int <= 57 {
        c as int - 48
    } else if 97 <= c as int && c as int <= 102 {
        c as int - 87
    } else {
        c as int - 55
    }
}

/// Lowercase hexadecimal digit character for a value in `0..16`.
pub open spec fn hex_char(d: int) -> char {
    if d == 0 {
        '0'
    } else if d == 1 {
        '1'
    } else if d == 2 {
        '2'
    } else if d == 3 {
        '3'
    } else if d == 4 {
        '4'
    } else if d == 5 {
        '5'
    } else if d == 6 {
        '6'
    } else if d == 7 {
        '7'
    } else if d == 8 {
        '8'
    } else if d == 9 {
        '9'
    } else if d == 10 {
        'a'
    } else if d == 11 {
        'b'
    } else if d == 12 {
        'c'
    } else if d == 13 {
        'd'
    } else if d == 14 {
        'e'
    } else {
        'f'
    }
}

/// A well-formed identifier string: exactly 24 hexadecimal digits.
pub open spec fn valid_id_str(s: Seq<char>) -> bool {
    s.len() == 24 && forall|i: int| 0 <= i < 24 ==> is_hex_digit(#[trigger] s[i])
}

/// Big-endian numeric value of a digit sequence.
pub open spec fn hex_value(s: Seq<char>) -> int
    decreases s.len(),
{
    if s.len() == 0 {
        0
    } else {
        hex_value(s.drop_last()) * 16 + hex_digit_value(s.last())
    }
}

/// Sixteen to the given power.
pub open spec fn pow16(n: nat) -> int
    decreases n,
{
    if n == 0 {
        1
    } else {
        16 * pow16((n - 1) as nat)
    }
}

/// The last `digits` hexadecimal digits of `v`, most significant first.
pub open spec fn hex_chars(v: int, digits: nat) -> Seq<char>
    decreases digits,
{
    if digits == 0 {
        Seq::empty()
    } else {
        hex_chars(v / 16, (digits - 1) as nat).push(hex_char(v % 16))
    }
}

/// The 24-digit text form of an identifier.
pub open spec fn id_str(id: Id) -> Seq<char> {
    hex_chars(id.hi as int, 8) + hex_chars(id.lo as int, 16)
}

/// What parsing an identifier string yields: the value of the digits when the
/// string is well formed, nothing otherwise.
pub open spec fn parse_id_str(s: Seq<char>) -> Option<Id> {
    if valid_id_str(s) {
        Some(
            Id {
                hi: hex_value(s.subrange(0, 8)) as u32,
                lo: hex_value(s.subrange(8, 24)) as u64,
            },
        )
    } else {
        None
    }
}

proof fn lemma_pow16_values()
    ensures
        pow16(8) == 0x1_0000_0000,
        pow16(15) == 0x1000_0000_0000_0000,
        pow16(16) == 0x1_0000_0000_0000_0000,
{
    assert(pow16(0) == 1);
    assert(pow16(1) == 16);
    assert(pow16(2) == 0x100);
    assert(pow16(3) == 0x1000);
    assert(pow16(4) == 0x1_0000);
    assert(pow16(5) == 0x10_0000);
    assert(pow16(6) == 0x100_0000);
    assert(pow16(7) == 0x1000_0000);
    assert(pow16(8) == 0x1_0000_0000);
    assert(pow16(9) == 0x10_0000_0000);
    assert(pow16(10) == 0x100_0000_0000);
    assert(pow16(11) == 0x1000_0000_0000);
    assert(pow16(12) == 0x1_0000_0000_0000);
    assert(pow16(13) == 0x10_0000_0000_0000);
    assert(pow16(14) == 0x100_0000_0000_0000);
    assert(pow16(15) == 0x1000_0000_0000_0000);
    assert(pow16(16) == 0x1_0000_0000_0000_0000);
}

proof fn lemma_pow16_pos(n: nat)
    ensures
        pow16(n) >= 1,
    decreases n,
{
    if n > 0 {
        lemma_pow16_pos((n - 1) as nat);
    }
}

proof fn lemma_pow16_mono(a: nat, b: nat)
    requires
        a <= b,
    ensures
        pow16(a) <= pow16(b),
    decreases b,
{
    if a < b {
        lemma_pow16_mono(a, (b - 1) as nat);
        lemma_pow16_pos((b - 1) as nat);
    }
}

/// The value of a digit sequence is bounded by sixteen to its length.
proof fn lemma_hex_value_bound(s: Seq<char>)
    requires
        forall|i: int| 0 <= i < s.len() ==> is_hex_digit(#[trigger] s[i]),
    ensures
        0 <= hex_value(s) < pow16(s.len()),
    decreases s.len(),
{
    if s.len() > 0 {
        assert(forall|i: int|
            0 <= i < s.drop_last().len() ==> is_hex_digit(#[trigger] s.drop_last()[i]));
        lemma_hex_value_bound(s.drop_last());
    }
}

/// Parse up to sixteen digits of `s`, from index `from` (inclusive) to `to`
/// (exclusive).
fn parse_seg(s: &str, from: usize, to: usize) -> (r: Option<u64>)
    requires
        from <= to <= s@.len(),
        to - from <= 16,
    ensures
        match r {
            Some(v) => (forall|i: int| from <= i < to ==> is_hex_digit(#[trigger] s@[i])) && v
                == hex_value(s@.subrange(from as int, to as int)),
            None => exists|i: int| from <= i < to && !is_hex_digit(#[trigger] s@[i]),
        },
{
    let mut acc: u64 = 0;
    let mut i: usize = from;
    proof {
        assert(s@.subrange(from as int, from as int) =~= Seq::<char>::empty());
    }
    while i < to
        invariant
            from <= i <= to <= s@.len(),
            to - from <= 16,
            forall|j: int| from <= j < i ==> is_hex_digit(#[trigger] s@[j]),
            acc == hex_value(s@.subrange(from as int, i as int)),
        decreases to - i,
    {
        let c = s.get_char(i);
        let u = c as u32;
        let d: u8 = if 48 <= u && u <= 57 {
            (u - 48) as u8
        } else if 97 <= u && u <= 102 {
            (u - 87) as u8
        } else if 65 <= u && u <= 70 {
            (u - 55) as u8
        } else {
            return None;
        };
        proof {
            lemma_hex_value_bound(s@.subrange(from as int, i as int));
            lemma_pow16_mono((i - from) as nat, 15);
            lemma_pow16_values();
            assert(s@.subrange(from as int, i + 1).drop_last() =~= s@.subrange(
                from as int,
                i as int,
            ));
            assert(s@.subrange(from as int, i + 1).last() == s@[i as int]);
        }
        acc = acc * 16 + (d as u64);
        i = i + 1;
    }
    Some(acc)
}

/// Parse a 24-digit hexadecimal identifier string; any other string yields
/// nothing.
pub fn parse_id(s: &str) -> (r: Option<Id>)
    ensures
        r == parse_id_str(s@),
{
    let n = s.unicode_len();
    if n != 24 {
        return None;
    }
    let hi64 = match parse_seg(s, 0, 8) {
        Some(v) => v,
        None => {
            return None;
        },
    };
    let lo = match parse_seg(s, 8, 24) {
        Some(v) => v,
        None => {
            return None;
        },
    };
    proof {
        lemma_hex_value_bound(s@.subrange(0, 8));
        lemma_pow16_values();
        assert(valid_id_str(s@));
    }
    Some(Id { hi: hi64 as u32, lo })
}

/// One-character string for a hexadecimal digit value.
fn hex_digit_str(d: u8) -> (r: &'static str)
    requires
        d < 16,
    ensures
        r@ == seq![hex_char(d as int)],
{
    if d == 0 {
        proof {
            reveal_strlit("0");
            assert("0"@ =~= seq![hex_char(d as int)]);
        }
        "0"
    } else if d == 1 {
        proof {
            reveal_strlit("1");
            assert("1"@ =~= seq![hex_char(d as int)]);
        }
        "1"
    } else if d == 2 {
        proof {
            reveal_strlit("2");
            assert("2"@ =~= seq![hex_char(d as int)]);
        }
        "2"
    } else if d == 3 {
        proof {
            reveal_strlit("3");
            assert("3"@ =~= seq![hex_char(d as int)]);
        }
        "3"
    } else if d == 4 {
        proof {
            reveal_strlit("4");
            assert("4"@ =~= seq![hex_char(d as int)]);
        }
        "4"
    } else if d == 5 {
        proof {
            reveal_strlit("5");
            assert("5"@ =~= seq![hex_char(d as int)]);
        }
        "5"
    } else if d == 6 {
        proof {
            reveal_strlit("6");
            assert("6"@ =~= seq![hex_char(d as int)]);
        }
        "6"
    } else if d == 7 {
        proof {
            reveal_strlit("7");
            assert("7"@ =~= seq![hex_char(d as int)]);
        }
        "7"
    } else if d == 8 {
        proof {
            reveal_strlit("8");
            assert("8"@ =~= seq![hex_char(d as int)]);
        }
        "8"
    } else if d == 9 {
        proof {
            reveal_strlit("9");
            assert("9"@ =~= seq![hex_char(d as int)]);
        }
        "9"
    } else if d == 10 {
        proof {
            reveal_strlit("a");
            assert("a"@ =~= seq![hex_char(d as int)]);
        }
        "a"
    } else if d == 11 {
        proof {
            reveal_strlit("b");
            assert("b"@ =~= seq![hex_char(d as int)]);
        }
        "b"
    } else if d == 12 {
        proof {
            reveal_strlit("c");
            assert("c"@ =~= seq![hex_char(d as int)]);
        }
        "c"
    } else if d == 13 {
        proof {
            reveal_strlit("d");
            assert("d"@ =~= seq![hex_char(d as int)]);
        }
        "d"
    } else if d == 14 {
        proof {
            reveal_strlit("e");
            assert("e"@ =~= seq![hex_char(d as int)]);
        }
        "e"
    } else {
        proof {
            reveal_strlit("f");
            assert("f"@ =~= seq![hex_char(d as int)]);
        }
        "f"
    }
}

/// Append the last `digits` hexadecimal digits of `v` to `out`, most
/// significant first.
fn push_hex(out: &mut String, v: u64, digits: usize)
    requires
        digits <= 16,
    ensures
        final(out)@ == old(out)@ + hex_chars(v as int, digits as nat),
    decreases digits,
{
    if digits == 0 {
        proof {
            assert(old(out)@ + hex_chars(v as int, 0) =~= old(out)@);
        }
    } else {
        push_hex(out, v / 16, digits - 1);
        let d: u8 = (v % 16) as u8;
        let ghost mid = out@;
        out.append(hex_digit_str(d));
        proof {
            assert(out@ =~= old(out)@ + hex_chars(v as int, digits as nat));
        }
    }
}

/// The 24-digit lowercase text form of an identifier.
pub fn id_to_hex(id: &Id) -> (r: String)
    ensures
        r@ == id_str(*id),
{
    let mut out = String::new();
    push_hex(&mut out, id.hi as u64, 8);
    push_hex(&mut out, id.lo, 16);
    proof {
        assert(out@ =~= id_str(*id));
    }
    out
}

/// Every digit the formatter writes is a hexadecimal digit, and the written
/// digits evaluate back to the formatted value.
proof fn lemma_hex_chars_value(v: int, digits: nat)
    requires
        0 <= v < pow16(digits),
    ensures
        hex_chars(v, digits).len() == digits,
        forall|i: int| 0 <= i < digits ==> is_hex_digit(#[trigger] hex_chars(v, digits)[i]),
        hex_value(hex_chars(v, digits)) == v,
    decreases digits,
{
    if digits > 0 {
        let rest = hex_chars(v / 16, (digits - 1) as nat);
        assert(0 <= v / 16 && v / 16 < pow16((digits - 1) as nat)) by {
            assert(pow16(digits) == 16 * pow16((digits - 1) as nat));
        };
        lemma_hex_chars_value(v / 16, (digits - 1) as nat);
        assert(rest.push(hex_char(v % 16)).drop_last() =~= rest);
        assert(hex_value(hex_chars(v, digits)) == hex_value(rest) * 16 + hex_digit_value(
            hex_char(v % 16),
        ));
        assert(hex_digit_value(hex_char(v % 16)) == v % 16);
        assert(hex_value(rest) * 16 + v % 16 == v);
    }
}

/// The string is made of lowercase hexadecimal digits only.
pub open spec fn lowercase_hex(s: Seq<char>) -> bool {
    forall|i: int|
        0 <= i < s.len() ==> ((48 <= (#[trigger] s[i]) as int && s[i] as int <= 57) || (97 <= s[i]
            as int && s[i] as int <= 102))
}

proof fn lemma_hex_chars_of_value(s: Seq<char>)
    requires
        lowercase_hex(s),
    ensures
        hex_chars(hex_value(s), s.len()) == s,
    decreases s.len(),
{
    if s.len() > 0 {
        let v = hex_value(s);
        let d = hex_digit_value(s.last());
        assert(forall|i: int|
            0 <= i < s.drop_last().len() ==> ((48 <= (#[trigger] s.drop_last()[i]) as int
                && s.drop_last()[i] as int <= 57) || (97 <= s.drop_last()[i] as int
                && s.drop_last()[i] as int <= 102)));
        lemma_hex_chars_of_value(s.drop_last());
        assert(v == hex_value(s.drop_last()) * 16 + d);
        assert(0 <= d < 16);
        assert(v / 16 == hex_value(s.drop_last()) && v % 16 == d) by (nonlinear_arith)
            requires
                v == hex_value(s.drop_last()) * 16 + d,
                0 <= d < 16,
        ;
        assert(hex_char(d) == s.last());
        assert(hex_chars(v, s.len()) =~= s);
    }
}

/// Parsing canonical (lowercase) identifier text and formatting the result
/// gives the text back unchanged.
pub proof fn lemma_id_text_canonical(s: Seq<char>)
    requires
        valid_id_str(s),
        lowercase_hex(s),
    ensures
        parse_id_str(s) matches Some(id) && id_str(id) == s,
{
    let his = s.subrange(0, 8);
    let los = s.subrange(8, 24);
    assert(lowercase_hex(his));
    assert(lowercase_hex(los));
    assert(forall|i: int| 0 <= i < his.len() ==> is_hex_digit(#[trigger] his[i]));
    assert(forall|i: int| 0 <= i < los.len() ==> is_hex_digit(#[trigger] los[i]));
    lemma_hex_value_bound(his);
    lemma_hex_value_bound(los);
    lemma_pow16_values();
    lemma_hex_chars_of_value(his);
    lemma_hex_chars_of_value(los);
    let id = parse_id_str(s).unwrap();
    assert(id.hi as int == hex_value(his));
    assert(id.lo as int == hex_value(los));
    assert(id_str(id) =~= s);
}

/// Formatting an identifier and parsing the result gives the identifier back:
/// the text form is faithful.
pub proof fn lemma_id_text_round_trip(id: Id)
    ensures
        parse_id_str(id_str(id)) == Some(id),
{
    lemma_pow16_values();
    let his = hex_chars(id.hi as int, 8);
    let los = hex_chars(id.lo as int, 16);
    lemma_hex_chars_value(id.hi as int, 8);
    lemma_hex_chars_value(id.lo as int, 16);
    let s = id_str(id);
    assert(s.subrange(0, 8) =~= his);
    assert(s.subrange(8, 24) =~= los);
    assert(valid_id_str(s));
}

} // verus!
