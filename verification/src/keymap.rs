//! The layout of the keys: which bit of a scan belongs to which key, and what
//! each key is called.
//!
//! A scan is a bitmask with one bit for each of the twelve keys. The key in row
//! `r` (0 to 3, top to bottom) and column `c` (0 to 2, left to right) has bit
//! `r + 4 * c`. The face of the keypad is
//!
//! ```text
//!          column 0  column 1  column 2
//!   row 0      1         2         3
//!   row 1      4         5         6
//!   row 2      7         8         9
//!   row 3      *         0         #
//! ```
//!
//! A key has a code, which is the digit it shows or [`STAR`] or [`HASH`], and a
//! character.

use vstd::prelude::*;

verus! {

/// Code of the `*` key.
pub const STAR: i16 = -1;

/// Code of the `#` key.
pub const HASH: i16 = -2;

/// Code of a bitmask that is not exactly one key.
pub const NO_SINGLE_KEY: i16 = -10;

/// Character of a scan in which no key is down.
pub const NO_KEY: char = ' ';

/// Character of a scan that is neither empty nor exactly one key.
pub const SEVERAL_KEYS: char = '?';

/// The number of the bit that belongs to the key at `row` and `column`.
pub open spec fn key_bit(row: u16, column: u16) -> u16
    recommends
        row < 4,
        column < 3,
{
    (row + 4 * column) as u16
}

/// The bitmask in which the key at `row` and `column` is down and no other.
pub open spec fn single_key(row: u16, column: u16) -> u16
    recommends
        row < 4,
        column < 3,
{
    1u16 << key_bit(row, column)
}

/// Whether bit number `bit` is set in `raw`: whether the key that the bit
/// belongs to is down.
pub open spec fn key_down(raw: u16, bit: u16) -> bool
    recommends
        bit < 16,
{
    raw & (1u16 << bit) != 0
}

/// Whether two bits or more are set in `raw`.
pub open spec fn several_bits_set(raw: u16) -> bool {
    exists|one: u16, other: u16|
        one < other < 16 && #[trigger] key_down(raw, one) && #[trigger] key_down(raw, other)
}

/// The code on the face of the keypad at `row` and `column`.
pub open spec fn face(row: u16, column: u16) -> i16
    recommends
        row < 4,
        column < 3,
{
    if row < 3 {
        (3 * row + column + 1) as i16
    } else if column == 0 {
        STAR
    } else if column == 1 {
        0
    } else {
        HASH
    }
}

/// The code of the one key that is down in `raw`, or [`NO_SINGLE_KEY`] when
/// `raw` is anything but one of the twelve single keys.
pub open spec fn decode(raw: u16) -> i16 {
    if raw == 0x001 {
        1
    } else if raw == 0x002 {
        4
    } else if raw == 0x004 {
        7
    } else if raw == 0x008 {
        STAR
    } else if raw == 0x010 {
        2
    } else if raw == 0x020 {
        5
    } else if raw == 0x040 {
        8
    } else if raw == 0x080 {
        0
    } else if raw == 0x100 {
        3
    } else if raw == 0x200 {
        6
    } else if raw == 0x400 {
        9
    } else if raw == 0x800 {
        HASH
    } else {
        NO_SINGLE_KEY
    }
}

/// The character of the key with the given code.
pub open spec fn label(code: i16) -> char
    recommends
        code == STAR || code == HASH || 0 <= code <= 9,
{
    if code == STAR {
        '*'
    } else if code == HASH {
        '#'
    } else {
        ('0' as i16 + code) as char
    }
}

/// The character that a scan stands for: [`NO_KEY`] when no key is down, the
/// key's own character when exactly one is, and [`SEVERAL_KEYS`] otherwise.
pub open spec fn key_char(raw: u16) -> char {
    if raw == 0 {
        NO_KEY
    } else if decode(raw) == NO_SINGLE_KEY {
        SEVERAL_KEYS
    } else {
        label(decode(raw))
    }
}

/// Each of the twelve keys, down alone, decodes to the code that the face of
/// the keypad shows at its place.
pub proof fn lemma_decode_single_key(row: u16, column: u16)
    requires
        row < 4,
        column < 3,
    ensures
        decode(single_key(row, column)) == face(row, column),
        face(row, column) != NO_SINGLE_KEY,
{
    assert(decode(single_key(row, column)) == face(row, column) && face(row, column)
        != NO_SINGLE_KEY) by (bit_vector)
        requires
            row < 4,
            column < 3,
    ;
}

/// A bitmask in which two bits or more are set decodes to no key, and its
/// character is [`SEVERAL_KEYS`].
pub proof fn lemma_decode_several_keys(raw: u16)
    requires
        several_bits_set(raw),
    ensures
        decode(raw) == NO_SINGLE_KEY,
        key_char(raw) == SEVERAL_KEYS,
{
    let (one, other) = choose|one: u16, other: u16|
        one < other < 16 && key_down(raw, one) && key_down(raw, other);
    assert(decode(raw) == NO_SINGLE_KEY && raw != 0) by (bit_vector)
        requires
            one < other,
            other < 16,
            key_down(raw, one),
            key_down(raw, other),
    ;
}

/// In the bitmask of a single key, that key is down and none of the others.
pub proof fn lemma_single_key_is_down_alone(row: u16, column: u16, bit: u16)
    requires
        row < 4,
        column < 3,
        bit < 16,
    ensures
        single_key(row, column) <= 0xFFF,
        key_down(single_key(row, column), bit) <==> bit == key_bit(row, column),
{
    assert(single_key(row, column) <= 0xFFF && (key_down(single_key(row, column), bit) <==> bit
        == key_bit(row, column))) by (bit_vector)
        requires
            row < 4,
            column < 3,
            bit < 16,
    ;
}

/// A scan has the character of a key exactly if that key is down in it and no
/// other. So no two keys share a character, and neither [`NO_KEY`] nor
/// [`SEVERAL_KEYS`] is the character of a key.
pub proof fn lemma_key_char_tells_keys_apart(raw: u16, row: u16, column: u16)
    requires
        row < 4,
        column < 3,
    ensures
        key_char(raw) == label(face(row, column)) <==> raw == single_key(row, column),
        label(face(row, column)) != NO_KEY,
        label(face(row, column)) != SEVERAL_KEYS,
{
    lemma_decode_single_key(row, column);
    let key = single_key(row, column);
    assert(key == 0x001 || key == 0x002 || key == 0x004 || key == 0x008 || key == 0x010 || key
        == 0x020 || key == 0x040 || key == 0x080 || key == 0x100 || key == 0x200 || key == 0x400
        || key == 0x800) by (bit_vector)
        requires
            row < 4,
            column < 3,
            key == single_key(row, column),
    ;
}

/// A scan of the twelve keys has the character of a key exactly if that key is
/// down in it and every other key is up.
pub proof fn lemma_key_char_of_one_key_down(raw: u16, row: u16, column: u16)
    requires
        raw <= 0xFFF,
        row < 4,
        column < 3,
    ensures
        key_char(raw) == label(face(row, column)) <==> (forall|r: u16, c: u16|
            r < 4 && c < 3 ==> (key_down(raw, #[trigger] key_bit(r, c)) <==> r == row && c
                == column)),
{
    lemma_key_char_tells_keys_apart(raw, row, column);
    let here = key_bit(row, column);
    if raw == single_key(row, column) {
        assert forall|r: u16, c: u16| r < 4 && c < 3 implies (key_down(
            raw,
            #[trigger] key_bit(r, c),
        ) <==> r == row && c == column) by {
            lemma_single_key_is_down_alone(row, column, key_bit(r, c));
        }
    }
    if forall|r: u16, c: u16|
        r < 4 && c < 3 ==> (key_down(raw, #[trigger] key_bit(r, c)) <==> r == row && c == column) {
        assert(key_down(raw, key_bit(0, 0)) <==> here == 0);
        assert(key_down(raw, key_bit(1, 0)) <==> here == 1);
        assert(key_down(raw, key_bit(2, 0)) <==> here == 2);
        assert(key_down(raw, key_bit(3, 0)) <==> here == 3);
        assert(key_down(raw, key_bit(0, 1)) <==> here == 4);
        assert(key_down(raw, key_bit(1, 1)) <==> here == 5);
        assert(key_down(raw, key_bit(2, 1)) <==> here == 6);
        assert(key_down(raw, key_bit(3, 1)) <==> here == 7);
        assert(key_down(raw, key_bit(0, 2)) <==> here == 8);
        assert(key_down(raw, key_bit(1, 2)) <==> here == 9);
        assert(key_down(raw, key_bit(2, 2)) <==> here == 10);
        assert(key_down(raw, key_bit(3, 2)) <==> here == 11);
        assert(raw == 1u16 << here) by (bit_vector)
            requires
                raw <= 0xFFF,
                here < 12,
                key_down(raw, 0) <==> here == 0,
                key_down(raw, 1) <==> here == 1,
                key_down(raw, 2) <==> here == 2,
                key_down(raw, 3) <==> here == 3,
                key_down(raw, 4) <==> here == 4,
                key_down(raw, 5) <==> here == 5,
                key_down(raw, 6) <==> here == 6,
                key_down(raw, 7) <==> here == 7,
                key_down(raw, 8) <==> here == 8,
                key_down(raw, 9) <==> here == 9,
                key_down(raw, 10) <==> here == 10,
                key_down(raw, 11) <==> here == 11,
        ;
    }
}

/// A scan has the character [`NO_KEY`] exactly if no bit is set in it. For a
/// scan of the twelve keys, that is: exactly if every key is up.
pub proof fn lemma_no_key_is_the_empty_scan(raw: u16)
    ensures
        key_char(raw) == NO_KEY <==> raw == 0,
        raw <= 0xFFF ==> (raw == 0 <==> (forall|r: u16, c: u16|
            r < 4 && c < 3 ==> !key_down(raw, #[trigger] key_bit(r, c)))),
{
    if raw == 0 {
        assert forall|r: u16, c: u16| r < 4 && c < 3 implies !key_down(
            raw,
            #[trigger] key_bit(r, c),
        ) by {
            let bit = key_bit(r, c);
            assert(!key_down(0u16, bit)) by (bit_vector);
        }
    }
    if raw <= 0xFFF && (forall|r: u16, c: u16|
        r < 4 && c < 3 ==> !key_down(raw, #[trigger] key_bit(r, c))) {
        assert(!key_down(raw, key_bit(0, 0)));
        assert(!key_down(raw, key_bit(1, 0)));
        assert(!key_down(raw, key_bit(2, 0)));
        assert(!key_down(raw, key_bit(3, 0)));
        assert(!key_down(raw, key_bit(0, 1)));
        assert(!key_down(raw, key_bit(1, 1)));
        assert(!key_down(raw, key_bit(2, 1)));
        assert(!key_down(raw, key_bit(3, 1)));
        assert(!key_down(raw, key_bit(0, 2)));
        assert(!key_down(raw, key_bit(1, 2)));
        assert(!key_down(raw, key_bit(2, 2)));
        assert(!key_down(raw, key_bit(3, 2)));
        assert(raw == 0) by (bit_vector)
            requires
                raw <= 0xFFF,
                !key_down(raw, 0),
                !key_down(raw, 1),
                !key_down(raw, 2),
                !key_down(raw, 3),
                !key_down(raw, 4),
                !key_down(raw, 5),
                !key_down(raw, 6),
                !key_down(raw, 7),
                !key_down(raw, 8),
                !key_down(raw, 9),
                !key_down(raw, 10),
                !key_down(raw, 11),
        ;
    }
}

} // verus!
