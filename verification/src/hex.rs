//! Bytes in hexadecimal notation, and addresses of six of them.

use vstd::prelude::*;
use crate::text::digit_char;

verus! {

/// The two hexadecimal digits of a byte, in capitals.
pub open spec fn hex_pair(b: u8) -> Seq<char> {
    seq![digit_char(b as int / 16), digit_char(b as int % 16)]
}

/// Six bytes in colon-hexadecimal notation, such as `AA:BB:CC:00:11:22`.
pub open spec fn colon_hex(a: Seq<u8>) -> Seq<char> {
    hex_pair(a[0]) + seq![':'] + hex_pair(a[1]) + seq![':'] + hex_pair(a[2]) + seq![':'] + hex_pair(
        a[3],
    ) + seq![':'] + hex_pair(a[4]) + seq![':'] + hex_pair(a[5])
}

/// The value of a hexadecimal digit, in capitals or not.
pub open spec fn hex_digit(c: char) -> Option<int> {
    if '0' <= c <= '9' {
        Some(c as int - '0' as int)
    } else if 'a' <= c <= 'f' {
        Some(c as int - 'a' as int + 10)
    } else if 'A' <= c <= 'F' {
        Some(c as int - 'A' as int + 10)
    } else {
        None
    }
}

/// The number that a sequence of hexadecimal digits denotes; zero for the empty one.
pub open spec fn hex_number(s: Seq<char>) -> Option<int>
    decreases s.len(),
{
    if s.len() == 0 {
        Some(0)
    } else {
        match (hex_number(s.drop_last()), hex_digit(s.last())) {
            (Some(n), Some(d)) => Some(16 * n + d),
            _ => None,
        }
    }
}

/// The byte that a text denotes in base sixteen: one or more digits, with a plus sign in front of
/// them or without.
pub open spec fn hex_byte(s: Seq<char>) -> Option<u8> {
    let digits = if s.len() > 0 && s[0] == '+' {
        s.skip(1)
    } else {
        s
    };
    match hex_number(digits) {
        Some(n) if digits.len() > 0 && n <= 255 => Some(n as u8),
        _ => None,
    }
}

/// Whether a character separates the fields of an address. A hyphen does so only where it may.
pub open spec fn separates(c: char, hyphen: bool) -> bool {
    c == ':' || (hyphen && c == '-')
}

/// The number of characters in front of the first separator.
pub open spec fn field_length(s: Seq<char>, hyphen: bool) -> nat
    decreases s.len(),
{
    if s.len() > 0 && !separates(s[0], hyphen) {
        1 + field_length(s.skip(1), hyphen)
    } else {
        0
    }
}

/// What stands between the separators of a text, in order.
pub open spec fn fields(s: Seq<char>, hyphen: bool) -> Seq<Seq<char>>
    decreases s.len(),
{
    let n = field_length(s, hyphen) as int;
    if n < s.len() {
        seq![s.take(n)] + fields(s.skip(n + 1), hyphen)
    } else {
        seq![s]
    }
}

/// Whether each of the first `n` fields denotes a byte.
pub open spec fn all_bytes(f: Seq<Seq<char>>, n: int) -> bool {
    forall|i: int| 0 <= i < n ==> hex_byte(#[trigger] f[i]) is Some
}

/// The Bluetooth address that a text denotes: six fields with colons between them.
pub open spec fn bluetooth_address(text: Seq<char>) -> Option<Seq<u8>> {
    let f = fields(text, false);
    if f.len() == 6 && all_bytes(f, 6) {
        Some(Seq::new(6, |i: int| hex_byte(f[i])->0))
    } else {
        None
    }
}

/// The fields of a hardware address: with separators in a text of seventeen characters, and
/// otherwise pairs of characters.
pub open spec fn mac_fields(text: Seq<char>) -> Seq<Seq<char>> {
    if text.len() == 17 {
        fields(text, true)
    } else {
        Seq::new(6, |i: int| text.subrange(2 * i, 2 * i + 2))
    }
}

/// The hardware address that a text denotes: seventeen ASCII characters with separators among
/// them, or twelve without. Fields beyond the sixth are passed over, and bytes without a field are
/// zero.
pub open spec fn hardware_address(text: Seq<char>) -> Option<Seq<u8>> {
    let f = mac_fields(text);
    let n = if f.len() < 6 {
        f.len() as int
    } else {
        6
    };
    if (text.len() == 17 || text.len() == 12) && all_bytes(f, n) && (forall|i: int|
        0 <= i < text.len() ==> (#[trigger] text[i]) as u32 <= 127) {
        Some(
            Seq::new(
                6,
                |i: int|
                    if i < n {
                        hex_byte(f[i])->0
                    } else {
                        0u8
                    },
            ),
        )
    } else {
        None
    }
}

proof fn lemma_digit_reads_back(d: int)
    requires
        0 <= d < 16,
    ensures
        hex_digit(digit_char(d)) == Some(d),
        !separates(digit_char(d), true),
        digit_char(d) != '+',
        digit_char(d) as u32 <= 127,
{
}

proof fn lemma_pair_reads_back(b: u8)
    ensures
        hex_byte(hex_pair(b)) == Some(b),
        field_length(hex_pair(b), true) == 2,
        field_length(hex_pair(b), false) == 2,
{
    let s = hex_pair(b);
    lemma_digit_reads_back(b as int / 16);
    lemma_digit_reads_back(b as int % 16);
    reveal_with_fuel(hex_number, 3);
    reveal_with_fuel(field_length, 3);
    assert(s.drop_last() =~= seq![s[0]]);
    assert(s.drop_last().drop_last() =~= Seq::<char>::empty());
    assert(s.skip(1) =~= seq![s[1]]);
    assert(s.skip(1).skip(1) =~= Seq::<char>::empty());
}

proof fn lemma_first_field(b: u8, rest: Seq<char>, hyphen: bool)
    ensures
        fields(hex_pair(b) + seq![':'] + rest, hyphen) == seq![hex_pair(b)] + fields(rest, hyphen),
{
    let s = hex_pair(b) + seq![':'] + rest;
    lemma_digit_reads_back(b as int / 16);
    lemma_digit_reads_back(b as int % 16);
    reveal_with_fuel(field_length, 4);
    assert(s.skip(1).skip(1)[0] == ':');
    assert(field_length(s, hyphen) == 2);
    assert(s.take(2) =~= hex_pair(b));
    assert(s.skip(3) =~= rest);
}

proof fn lemma_fields_of_address(a: Seq<u8>, hyphen: bool)
    requires
        a.len() == 6,
    ensures
        fields(colon_hex(a), hyphen) == Seq::new(6, |i: int| hex_pair(a[i])),
{
    let c = seq![':'];
    let t5 = hex_pair(a[5]);
    let t4 = hex_pair(a[4]) + c + t5;
    let t3 = hex_pair(a[3]) + c + t4;
    let t2 = hex_pair(a[2]) + c + t3;
    let t1 = hex_pair(a[1]) + c + t2;
    let t0 = hex_pair(a[0]) + c + t1;
    assert(colon_hex(a) =~= t0);
    lemma_first_field(a[0], t1, hyphen);
    lemma_first_field(a[1], t2, hyphen);
    lemma_first_field(a[2], t3, hyphen);
    lemma_first_field(a[3], t4, hyphen);
    lemma_first_field(a[4], t5, hyphen);
    lemma_pair_reads_back(a[5]);
    assert(fields(t5, hyphen) =~= seq![t5]);
    assert(fields(colon_hex(a), hyphen) =~= Seq::new(6, |i: int| hex_pair(a[i])));
}

/// Six bytes in colon-hexadecimal notation denote the Bluetooth address of these bytes, and the
/// hardware address of these bytes.
pub proof fn law_addresses_read_back(a: Seq<u8>)
    requires
        a.len() == 6,
    ensures
        bluetooth_address(colon_hex(a)) == Some(a),
        hardware_address(colon_hex(a)) == Some(a),
{
    let s = colon_hex(a);
    lemma_fields_of_address(a, false);
    lemma_fields_of_address(a, true);
    assert forall|i: int| 0 <= i < 6 implies hex_byte(#[trigger] hex_pair(a[i])) == Some(a[i]) by {
        lemma_pair_reads_back(a[i]);
    }
    assert forall|b: u8, i: int| 0 <= i < 2 implies (#[trigger] hex_pair(b)[i]) as u32 <= 127 by {
        lemma_digit_reads_back(b as int / 16);
        lemma_digit_reads_back(b as int % 16);
    }
    assert(s.len() == 17);
    assert(bluetooth_address(s)->0 =~= a);
    assert(hardware_address(s)->0 =~= a);
}

} // verus!
