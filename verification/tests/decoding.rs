//! Tests of the key layout: codes and characters of bitmasks.

use embedded_hal::digital::v2::{InputPin, OutputPin};
use numeric_keypad::keymap::{HASH, NO_KEY, NO_SINGLE_KEY, SEVERAL_KEYS, STAR};
use numeric_keypad::Keypad;

/// A row pin on which no key is ever down.
struct IdleRow;

impl InputPin for IdleRow {
    type Error = ();

    fn is_high(&self) -> Result<bool, ()> {
        Ok(true)
    }

    fn is_low(&self) -> Result<bool, ()> {
        Ok(false)
    }
}

/// A column pin that takes every level.
struct IdleColumn;

impl OutputPin for IdleColumn {
    type Error = ();

    fn set_low(&mut self) -> Result<(), ()> {
        Ok(())
    }

    fn set_high(&mut self) -> Result<(), ()> {
        Ok(())
    }
}

type IdleKeypad = Keypad<IdleRow, IdleRow, IdleRow, IdleRow, IdleColumn, IdleColumn, IdleColumn>;

fn idle_keypad() -> IdleKeypad {
    Keypad::new(
        (IdleRow, IdleRow, IdleRow, IdleRow),
        (IdleColumn, IdleColumn, IdleColumn),
    )
}

/// The face of the keypad, `FACE[row][column]`.
const FACE: [[(i16, char); 3]; 4] = [
    [(1, '1'), (2, '2'), (3, '3')],
    [(4, '4'), (5, '5'), (6, '6')],
    [(7, '7'), (8, '8'), (9, '9')],
    [(-1, '*'), (0, '0'), (-2, '#')],
];

#[test]
fn codes_have_their_values() {
    assert_eq!(STAR, -1);
    assert_eq!(HASH, -2);
    assert_eq!(NO_SINGLE_KEY, -10);
    assert_eq!(NO_KEY, ' ');
    assert_eq!(SEVERAL_KEYS, '?');
}

#[test]
fn convert_gives_the_code_of_each_bit() {
    let keypad = idle_keypad();
    assert_eq!(keypad.convert(1 << 0), 1);
    assert_eq!(keypad.convert(1 << 1), 4);
    assert_eq!(keypad.convert(1 << 2), 7);
    assert_eq!(keypad.convert(1 << 3), -1);
    assert_eq!(keypad.convert(1 << 4), 2);
    assert_eq!(keypad.convert(1 << 5), 5);
    assert_eq!(keypad.convert(1 << 6), 8);
    assert_eq!(keypad.convert(1 << 7), 0);
    assert_eq!(keypad.convert(1 << 8), 3);
    assert_eq!(keypad.convert(1 << 9), 6);
    assert_eq!(keypad.convert(1 << 10), 9);
    assert_eq!(keypad.convert(1 << 11), -2);
}

#[test]
fn convert_follows_the_face_of_the_keypad() {
    let keypad = idle_keypad();
    for row in 0..4 {
        for column in 0..3 {
            let raw = 1u16 << (row + 4 * column);
            assert_eq!(keypad.convert(raw), FACE[row][column].0);
        }
    }
    assert_eq!(keypad.convert(1 << (0 + 4 * 0)), 1);
    assert_eq!(keypad.convert(1 << (3 + 4 * 2)), -2);
}

#[test]
fn convert_of_nothing_is_no_single_key() {
    assert_eq!(idle_keypad().convert(0), -10);
}

#[test]
fn convert_of_two_bits_is_no_single_key() {
    let keypad = idle_keypad();
    assert_eq!(keypad.convert(0b11), -10);
    assert_eq!(keypad.convert((1 << 5) | (1 << 6)), -10);
    assert_eq!(keypad.convert((1 << 0) | (1 << 11)), -10);
    assert_eq!(keypad.convert(0xFFF), -10);
    assert_eq!(keypad.convert(0xFFFF), -10);
    assert_eq!(keypad.convert((1 << 5) | (1 << 12)), -10);
}

#[test]
fn convert_of_every_bitmask_with_several_bits_is_no_single_key() {
    let keypad = idle_keypad();
    for raw in 0..=u16::MAX {
        if raw.count_ones() >= 2 {
            assert_eq!(keypad.convert(raw), -10, "raw {raw:#06x}");
        }
    }
}

#[test]
fn convert_of_a_bit_above_the_keys_is_no_single_key() {
    let keypad = idle_keypad();
    for bit in 12..16 {
        assert_eq!(keypad.convert(1 << bit), -10);
    }
}

#[test]
fn convert_knows_twelve_bitmasks_and_no_more() {
    let keypad = idle_keypad();
    let known = (0..=u16::MAX).filter(|raw| keypad.convert(*raw) != -10).count();
    assert_eq!(known, 12);
}

#[test]
fn get_char_gives_the_character_of_each_key() {
    let keypad = idle_keypad();
    for row in 0..4 {
        for column in 0..3 {
            let raw = 1u16 << (row + 4 * column);
            assert_eq!(keypad.get_char(raw), FACE[row][column].1);
        }
    }
    assert_eq!(keypad.get_char(1 << 3), '*');
    assert_eq!(keypad.get_char(1 << 7), '0');
    assert_eq!(keypad.get_char(1 << 10), '9');
    assert_eq!(keypad.get_char(1 << 11), '#');
}

#[test]
fn key_char_of_nothing_is_a_space() {
    assert_eq!(idle_keypad().key_char(0), ' ');
}

#[test]
fn key_char_of_one_key_is_its_character() {
    let keypad = idle_keypad();
    for row in 0..4 {
        for column in 0..3 {
            let raw = 1u16 << (row + 4 * column);
            assert_eq!(keypad.key_char(raw), FACE[row][column].1);
        }
    }
}

#[test]
fn key_char_of_several_keys_is_a_question_mark() {
    let keypad = idle_keypad();
    assert_eq!(keypad.key_char(0b11), '?');
    assert_eq!(keypad.key_char((1 << 5) | (1 << 9)), '?');
    assert_eq!(keypad.key_char(0xFFF), '?');
    assert_eq!(keypad.key_char(1 << 12), '?');
}

#[test]
fn key_char_is_five_for_one_bitmask_only() {
    let keypad = idle_keypad();
    for raw in 0..=u16::MAX {
        assert_eq!(keypad.key_char(raw) == '5', raw == 1 << 5, "raw {raw:#06x}");
    }
}

#[test]
fn key_char_tells_the_keys_apart() {
    let keypad = idle_keypad();
    for row in 0..4 {
        for column in 0..3 {
            let key = FACE[row][column].1;
            assert_ne!(key, ' ');
            assert_ne!(key, '?');
            for raw in 0..=0xFFFu16 {
                assert_eq!(keypad.key_char(raw) == key, raw == 1 << (row + 4 * column));
            }
        }
    }
}

#[test]
fn key_char_is_a_key_a_space_or_a_question_mark() {
    let keypad = idle_keypad();
    for raw in 0..=u16::MAX {
        let key = keypad.key_char(raw);
        assert!(key.is_ascii_digit() || key == '*' || key == '#' || key == ' ' || key == '?');
        assert_eq!(key == ' ', raw == 0);
        assert_eq!(key == '?', raw != 0 && raw.count_ones() != 1 || raw >= 1 << 12);
    }
}
