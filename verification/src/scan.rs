//! What a scan does at the pins, and how the levels it reads make a bitmask.
//!
//! A scan takes the three columns in turn. For each it drives the column low,
//! waits for it to settle, reads the four rows and drives the column high
//! again. A row that reads low while a column is low is a key that is down:
//! the scan sets the bit of that key in its bitmask.
//!
//! The first half of this module packs levels into bitmasks. The second half
//! writes a scan down as a sequence of [`PinEvent`]s, in which the contracts
//! of the keypad say what it did, and states what holds of every scan.

use crate::keymap::{key_bit, key_char, key_down};
use vstd::prelude::*;

verus! {

/// Time that a column is given to settle before its rows are read, in
/// milliseconds.
pub const SETTLE_MS: u16 = 1;

/// The bitmask of one column: row `r` that read low counts two to the power
/// of `r`, which is to say that it sets bit `r`.
pub open spec fn column_mask(low0: bool, low1: bool, low2: bool, low3: bool) -> u16 {
    ((if low0 { 1int } else { 0 }) + (if low1 { 2int } else { 0 }) + (if low2 { 4int } else { 0 })
        + (if low3 { 8int } else { 0 })) as u16
}

/// The bitmask of a scan, made of those of its three columns: column `c` takes
/// bits `4 * c` to `4 * c + 3`.
pub open spec fn scan_mask(column0: u16, column1: u16, column2: u16) -> u16 {
    column0 | (column1 << 4) | (column2 << 8)
}

/// The part of a scan's bitmask that belongs to `column`, moved down to bits 0
/// to 3.
pub open spec fn column_bits(raw: u16, column: u16) -> u16
    recommends
        column < 3,
{
    (raw >> (4 * column) as u16) & 0xF
}

/// Whether a reading of a row pin counts as low. A read that failed counts as
/// high, as if the key were up.
pub fn reads_low(reading: Option<bool>) -> (low: bool)
    ensures
        low == (reading == Some(true)),
{
    match reading {
        Some(level) => level,
        None => false,
    }
}

/// Makes the bitmask of one column of the levels of its four rows.
pub fn pack_column(low0: bool, low1: bool, low2: bool, low3: bool) -> (bits: u16)
    ensures
        bits == column_mask(low0, low1, low2, low3),
{
    let mut bits: u16 = 0;
    if low0 {
        bits |= 1 << 0;
    }
    let ghost after0 = bits;
    if low1 {
        bits |= 1 << 1;
    }
    let ghost after1 = bits;
    if low2 {
        bits |= 1 << 2;
    }
    let ghost after2 = bits;
    if low3 {
        bits |= 1 << 3;
    }
    proof {
        assert(bits == column_mask(low0, low1, low2, low3)) by (bit_vector)
            requires
                after0 == (if low0 { 0u16 | (1u16 << 0) } else { 0u16 }),
                after1 == (if low1 { after0 | (1u16 << 1) } else { after0 }),
                after2 == (if low2 { after1 | (1u16 << 2) } else { after1 }),
                bits == (if low3 { after2 | (1u16 << 3) } else { after2 }),
        ;
    }
    bits
}

/// Makes the bitmask of a scan of those of its three columns. Where each
/// column has its four bits and no more, the columns do not meet and the
/// bitmask is their sum, each in its own place.
pub fn merge_columns(column0: u16, column1: u16, column2: u16) -> (raw: u16)
    ensures
        raw == scan_mask(column0, column1, column2),
        column0 <= 0xF && column1 <= 0xF && column2 <= 0xF ==> raw == column0 + 16 * column1 + 256
            * column2,
{
    let mut raw: u16 = 0;
    raw |= column0 << 0;
    raw |= column1 << 4;
    raw |= column2 << 8;
    proof {
        assert(raw == scan_mask(column0, column1, column2)) by (bit_vector)
            requires
                raw == ((0u16 | (column0 << 0)) | (column1 << 4)) | (column2 << 8),
        ;
        if column0 <= 0xF && column1 <= 0xF && column2 <= 0xF {
            lemma_scan_mask_holds_the_columns(column0, column1, column2);
        }
    }
    raw
}

/// The bitmask of one column has four bits, and bit `r` is the level of row
/// `r`.
pub proof fn lemma_column_mask_holds_the_levels(low0: bool, low1: bool, low2: bool, low3: bool)
    ensures
        column_mask(low0, low1, low2, low3) <= 0xF,
        key_down(column_mask(low0, low1, low2, low3), 0) == low0,
        key_down(column_mask(low0, low1, low2, low3), 1) == low1,
        key_down(column_mask(low0, low1, low2, low3), 2) == low2,
        key_down(column_mask(low0, low1, low2, low3), 3) == low3,
{
    let bits = column_mask(low0, low1, low2, low3);
    assert(bits <= 0xF && key_down(bits, 0) == low0 && key_down(bits, 1) == low1 && key_down(
        bits,
        2,
    ) == low2 && key_down(bits, 3) == low3) by (bit_vector)
        requires
            bits == column_mask(low0, low1, low2, low3),
    ;
}

/// The bitmask of a scan has twelve bits, and each column finds its own four
/// bits in it again.
pub proof fn lemma_scan_mask_holds_the_columns(column0: u16, column1: u16, column2: u16)
    requires
        column0 <= 0xF,
        column1 <= 0xF,
        column2 <= 0xF,
    ensures
        scan_mask(column0, column1, column2) <= 0xFFF,
        scan_mask(column0, column1, column2) == column0 + 16 * column1 + 256 * column2,
        column_bits(scan_mask(column0, column1, column2), 0) == column0,
        column_bits(scan_mask(column0, column1, column2), 1) == column1,
        column_bits(scan_mask(column0, column1, column2), 2) == column2,
{
    let raw = scan_mask(column0, column1, column2);
    assert(raw <= 0xFFF && raw == column0 + 16 * column1 + 256 * column2 && column_bits(raw, 0)
        == column0 && column_bits(raw, 1) == column1 && column_bits(raw, 2) == column2)
        by (bit_vector)
        requires
            column0 <= 0xF,
            column1 <= 0xF,
            column2 <= 0xF,
            raw == scan_mask(column0, column1, column2),
    ;
}

/// One thing that a keypad does at its pins.
pub enum PinEvent {
    /// Column `column` was told to go low, which makes it the active one.
    ColumnLow { column: u16 },
    /// Column `column` was told to go high again.
    ColumnHigh { column: u16 },
    /// The keypad waited for `ms` milliseconds.
    Settle { ms: u16 },
    /// Row `row` was read, and `low` says whether it counted as low.
    RowRead { row: u16, low: bool },
}

/// What reading one column does at the pins: it waits for the column to
/// settle, then reads the rows from the top one down. Bit `r` of `bits` says
/// whether row `r` read low.
pub open spec fn sample_events(bits: u16) -> Seq<PinEvent> {
    seq![
        PinEvent::Settle { ms: SETTLE_MS },
        PinEvent::RowRead { row: 0, low: key_down(bits, 0) },
        PinEvent::RowRead { row: 1, low: key_down(bits, 1) },
        PinEvent::RowRead { row: 2, low: key_down(bits, 2) },
        PinEvent::RowRead { row: 3, low: key_down(bits, 3) },
    ]
}

/// What a scan does at the pins for one column: it drives the column low,
/// reads it, and drives it high again.
pub open spec fn column_events(raw: u16, column: u16) -> Seq<PinEvent>
    recommends
        column < 3,
{
    seq![PinEvent::ColumnLow { column }] + sample_events(column_bits(raw, column))
        + seq![PinEvent::ColumnHigh { column }]
}

/// What a scan that gives the bitmask `raw` does at the pins: the three
/// columns in turn, from the left one to the right one.
pub open spec fn scan_events(raw: u16) -> Seq<PinEvent> {
    column_events(raw, 0) + column_events(raw, 1) + column_events(raw, 2)
}

/// Whether an event is the keypad driving a column.
pub open spec fn is_column_move(event: PinEvent) -> bool {
    event is ColumnLow || event is ColumnHigh
}

/// The events in which the keypad drives a column, in their order.
pub open spec fn column_moves(events: Seq<PinEvent>) -> Seq<PinEvent> {
    events.filter(|event: PinEvent| is_column_move(event))
}

/// Whatever keys are down, a scan drives the columns in one order: the left
/// one low and high again, then the middle one, then the right one. It drives
/// no column but these six times.
pub proof fn lemma_scan_drives_columns_in_order(raw: u16)
    ensures
        column_moves(scan_events(raw)) == seq![
            PinEvent::ColumnLow { column: 0 },
            PinEvent::ColumnHigh { column: 0 },
            PinEvent::ColumnLow { column: 1 },
            PinEvent::ColumnHigh { column: 1 },
            PinEvent::ColumnLow { column: 2 },
            PinEvent::ColumnHigh { column: 2 },
        ],
{
    lemma_column_moves_of_column(raw, 0);
    lemma_column_moves_of_column(raw, 1);
    lemma_column_moves_of_column(raw, 2);
    let moved = |event: PinEvent| is_column_move(event);
    Seq::filter_distributes_over_add(column_events(raw, 0), column_events(raw, 1), moved);
    Seq::filter_distributes_over_add(
        column_events(raw, 0) + column_events(raw, 1),
        column_events(raw, 2),
        moved,
    );
}

/// The part of a scan that belongs to one column drives that column low at
/// its start and high at its end, and drives nothing in between.
proof fn lemma_column_moves_of_column(raw: u16, column: u16)
    ensures
        column_moves(column_events(raw, column)) == seq![
            PinEvent::ColumnLow { column },
            PinEvent::ColumnHigh { column },
        ],
{
    let moved = |event: PinEvent| is_column_move(event);
    let low = seq![PinEvent::ColumnLow { column }];
    let reads = sample_events(column_bits(raw, column));
    let high = seq![PinEvent::ColumnHigh { column }];
    reveal_with_fuel(Seq::filter, 6);
    assert(low.filter(moved) == low);
    assert(high.filter(moved) == high);
    assert(reads.filter(moved) == Seq::<PinEvent>::empty());
    Seq::filter_distributes_over_add(low, reads, moved);
    Seq::filter_distributes_over_add(low + reads, high, moved);
}

/// A scan is twenty-one events long, seven for each column. In the part that
/// belongs to `column`, the column is low while the rows are read, and what
/// row `row` read then is the bit of the key at `row` and `column`.
pub proof fn lemma_scan_reads_each_key(raw: u16, row: u16, column: u16)
    requires
        row < 4,
        column < 3,
    ensures
        scan_events(raw).len() == 21,
        scan_events(raw)[7 * column] == (PinEvent::ColumnLow { column }),
        scan_events(raw)[7 * column + 1] == (PinEvent::Settle { ms: SETTLE_MS }),
        scan_events(raw)[7 * column + 2 + row] == (PinEvent::RowRead {
            row,
            low: key_down(raw, key_bit(row, column)),
        }),
        scan_events(raw)[7 * column + 6] == (PinEvent::ColumnHigh { column }),
{
    assert(key_down(column_bits(raw, column), row) == key_down(raw, key_bit(row, column)))
        by (bit_vector)
        requires
            row < 4,
            column < 3,
    ;
}

/// Two scans that read the same levels give the same bitmask, and so the same
/// character: what a scan gives depends on nothing but what it reads.
pub proof fn lemma_same_readings_same_key(first: u16, second: u16)
    requires
        first <= 0xFFF,
        second <= 0xFFF,
        scan_events(first) == scan_events(second),
    ensures
        first == second,
        key_char(first) == key_char(second),
{
    lemma_same_reading_same_bit(first, second, 0, 0);
    lemma_same_reading_same_bit(first, second, 1, 0);
    lemma_same_reading_same_bit(first, second, 2, 0);
    lemma_same_reading_same_bit(first, second, 3, 0);
    lemma_same_reading_same_bit(first, second, 0, 1);
    lemma_same_reading_same_bit(first, second, 1, 1);
    lemma_same_reading_same_bit(first, second, 2, 1);
    lemma_same_reading_same_bit(first, second, 3, 1);
    lemma_same_reading_same_bit(first, second, 0, 2);
    lemma_same_reading_same_bit(first, second, 1, 2);
    lemma_same_reading_same_bit(first, second, 2, 2);
    lemma_same_reading_same_bit(first, second, 3, 2);
    assert(first == second) by (bit_vector)
        requires
            first <= 0xFFF,
            second <= 0xFFF,
            key_down(first, 0) == key_down(second, 0),
            key_down(first, 1) == key_down(second, 1),
            key_down(first, 2) == key_down(second, 2),
            key_down(first, 3) == key_down(second, 3),
            key_down(first, 4) == key_down(second, 4),
            key_down(first, 5) == key_down(second, 5),
            key_down(first, 6) == key_down(second, 6),
            key_down(first, 7) == key_down(second, 7),
            key_down(first, 8) == key_down(second, 8),
            key_down(first, 9) == key_down(second, 9),
            key_down(first, 10) == key_down(second, 10),
            key_down(first, 11) == key_down(second, 11),
    ;
}

/// Two scans that read the same levels agree on the bit of each key.
proof fn lemma_same_reading_same_bit(first: u16, second: u16, row: u16, column: u16)
    requires
        row < 4,
        column < 3,
        scan_events(first) == scan_events(second),
    ensures
        key_down(first, key_bit(row, column)) == key_down(second, key_bit(row, column)),
{
    lemma_scan_reads_each_key(first, row, column);
    lemma_scan_reads_each_key(second, row, column);
}

} // verus!
