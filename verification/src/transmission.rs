//! The transmission as a sequence of frequencies, one for each output sample,
//! and what holds of it at every rate and for every picture.
//!
//! A transmission is the header that announces the mode, followed by one
//! line for each row of the picture, from the top. Rows are counted from
//! zero. The line of an even row carries the red-difference chroma of that
//! row, the line of an odd row the blue-difference chroma of that row, and
//! the tone of the separator says which of the two a line is.

use crate::frequency::{hertz, level_frequency, Frequency};
use crate::image::{picture_of, yuv_of, Picture, IMAGE_HEIGHT, IMAGE_WIDTH};
use crate::rgb2yuv::transform_in_video_range;
use crate::timing::{
    ticks_of, ticks_within_rate, HORIZONTAL_SYNC_MICROS, PORCH_MICROS, SEPARATOR_MICROS,
    SYNC_PORCH_MICROS, UV_MICROS, Y_MICROS,
};
use vstd::prelude::*;

verus! {

/// A tone held for `count` samples.
pub open spec fn tone(frequency: Frequency, count: int) -> Seq<Frequency> {
    Seq::new(count as nat, |tick: int| frequency)
}

/// The header: each entry is a frequency in hertz and the time in
/// microseconds for which it is held. A leader of silence comes first, then
/// the calibration tones, a start bit, the seven bits of the mode number with
/// the lowest first, the parity bit and a stop bit.
pub open spec fn vis_table() -> Seq<(u16, u64)> {
    seq![
        (0u16, 300_000u64),
        (1900u16, 300_000u64),
        (1200u16, 10_000u64),
        (1900u16, 300_000u64),
        (1200u16, 30_000u64),
        (1300u16, 30_000u64),
        (1300u16, 30_000u64),
        (1300u16, 30_000u64),
        (1100u16, 30_000u64),
        (1300u16, 30_000u64),
        (1300u16, 30_000u64),
        (1300u16, 30_000u64),
        (1100u16, 30_000u64),
        (1200u16, 30_000u64),
    ]
}

/// The tones of a table, one after the other, at `rate` samples per second.
pub open spec fn tones(table: Seq<(u16, u64)>, rate: int) -> Seq<Frequency>
    decreases table.len(),
{
    if table.len() == 0 {
        Seq::empty()
    } else {
        tones(table.drop_last(), rate) + tone(
            hertz(table.last().0 as int),
            ticks_of(rate, table.last().1 as int),
        )
    }
}

/// The header at `rate` samples per second.
pub open spec fn vis_header_of(rate: int) -> Seq<Frequency> {
    tones(vis_table(), rate)
}

/// The column that sample number `tick` of a scan of `ticks` samples reads:
/// the scan sweeps evenly from the first column towards the last.
pub open spec fn column_at(tick: int, ticks: int) -> int {
    (IMAGE_WIDTH - 1) * tick / ticks
}

/// The column to the right of `column`, or the last column itself.
pub open spec fn right_of(column: int) -> int {
    if column + 1 < IMAGE_WIDTH - 1 {
        column + 1
    } else {
        IMAGE_WIDTH - 1
    }
}

/// The luma scan of one row.
pub open spec fn y_scan(picture: Picture, row: int, rate: int) -> Seq<Frequency> {
    let ticks: int = ticks_of(rate, Y_MICROS as int);
    Seq::new(
        ticks as nat,
        |tick: int| level_frequency(picture[row][column_at(tick, ticks)].0 as int),
    )
}

/// The blue-difference chroma scan of one row: each sample is the mean,
/// rounded down, of the pixel under the scan and its right neighbour.
pub open spec fn u_scan(picture: Picture, row: int, rate: int) -> Seq<Frequency> {
    let ticks: int = ticks_of(rate, UV_MICROS as int);
    Seq::new(
        ticks as nat,
        |tick: int|
            level_frequency(
                (picture[row][column_at(tick, ticks)].1 + picture[row][right_of(
                    column_at(tick, ticks),
                )].1) / 2,
            ),
    )
}

/// The red-difference chroma scan of one row: each sample is the mean,
/// rounded down, of the pixel under the scan and its right neighbour.
pub open spec fn v_scan(picture: Picture, row: int, rate: int) -> Seq<Frequency> {
    let ticks: int = ticks_of(rate, UV_MICROS as int);
    Seq::new(
        ticks as nat,
        |tick: int|
            level_frequency(
                (picture[row][column_at(tick, ticks)].2 + picture[row][right_of(
                    column_at(tick, ticks),
                )].2) / 2,
            ),
    )
}

/// Sync pulse and porch, which open every line.
pub open spec fn line_start(rate: int) -> Seq<Frequency> {
    tone(hertz(1200), ticks_of(rate, HORIZONTAL_SYNC_MICROS as int)) + tone(
        hertz(1500),
        ticks_of(rate, SYNC_PORCH_MICROS as int),
    )
}

/// The frequency in hertz of the separator in the line of a row: 1500 for
/// an even row, 2300 for an odd one.
pub open spec fn separator_of(row: int) -> int {
    if row % 2 == 0 {
        1500
    } else {
        2300
    }
}

/// Separator and porch, which stand between the luma scan of a line and its
/// chroma scan.
pub open spec fn line_middle(row: int, rate: int) -> Seq<Frequency> {
    tone(hertz(separator_of(row)), ticks_of(rate, SEPARATOR_MICROS as int)) + tone(
        hertz(1900),
        ticks_of(rate, PORCH_MICROS as int),
    )
}

/// The chroma scan in the line of a row: red-difference for an even row,
/// blue-difference for an odd one.
pub open spec fn chroma_scan(picture: Picture, row: int, rate: int) -> Seq<Frequency> {
    if row % 2 == 0 {
        v_scan(picture, row, rate)
    } else {
        u_scan(picture, row, rate)
    }
}

/// The line that sends one row: sync pulse, porch, the luma scan of the
/// row, separator, porch and the chroma scan of the row.
pub open spec fn line(picture: Picture, row: int, rate: int) -> Seq<Frequency> {
    line_start(rate) + y_scan(picture, row, rate) + line_middle(row, rate) + chroma_scan(
        picture,
        row,
        rate,
    )
}

/// The two lines that send rows `row` and `row + 1`.
pub open spec fn line_pair(picture: Picture, row: int, rate: int) -> Seq<Frequency> {
    line(picture, row, rate) + line(picture, row + 1, rate)
}

/// The first `pairs` pairs of lines of a picture, from the top.
pub open spec fn codificated_rows(picture: Picture, rate: int, pairs: nat) -> Seq<Frequency>
    decreases pairs,
{
    if pairs == 0 {
        Seq::empty()
    } else {
        codificated_rows(picture, rate, (pairs - 1) as nat) + line_pair(
            picture,
            2 * (pairs - 1),
            rate,
        )
    }
}

/// The whole transmission of a picture at `rate` samples per second: the
/// header, then all 120 pairs of lines.
pub open spec fn signal_of(picture: Picture, rate: int) -> Seq<Frequency> {
    vis_header_of(rate) + codificated_rows(picture, rate, (IMAGE_HEIGHT / 2) as nat)
}

/// The number of samples that the header lasts: three tones of 300 ms, one
/// of 10 ms and ten of 30 ms.
pub open spec fn header_length(rate: int) -> int {
    3 * ticks_of(rate, 300_000) + ticks_of(rate, 10_000) + 10 * ticks_of(rate, 30_000)
}

/// How many samples into a line its separator begins.
pub open spec fn separator_start(rate: int) -> int {
    ticks_of(rate, HORIZONTAL_SYNC_MICROS as int) + ticks_of(rate, SYNC_PORCH_MICROS as int)
        + ticks_of(rate, Y_MICROS as int)
}

/// How many samples into a line its chroma scan begins.
pub open spec fn chroma_start(rate: int) -> int {
    separator_start(rate) + ticks_of(rate, SEPARATOR_MICROS as int) + ticks_of(
        rate,
        PORCH_MICROS as int,
    )
}

/// The number of samples that one line lasts.
pub open spec fn line_length(rate: int) -> int {
    chroma_start(rate) + ticks_of(rate, UV_MICROS as int)
}

/// The number of samples that a pair of lines lasts.
pub open spec fn pair_length(rate: int) -> int {
    2 * line_length(rate)
}

/// No count of samples of the protocol is negative, and none exceeds the
/// number of samples in a second.
pub proof fn segments_within_rate(rate: int)
    requires
        0 <= rate,
    ensures
        0 <= ticks_of(rate, HORIZONTAL_SYNC_MICROS as int) <= rate,
        0 <= ticks_of(rate, SYNC_PORCH_MICROS as int) <= rate,
        0 <= ticks_of(rate, Y_MICROS as int) <= rate,
        0 <= ticks_of(rate, SEPARATOR_MICROS as int) <= rate,
        0 <= ticks_of(rate, PORCH_MICROS as int) <= rate,
        0 <= ticks_of(rate, UV_MICROS as int) <= rate,
        0 <= header_length(rate) <= 14 * rate,
        0 <= line_length(rate) <= 6 * rate,
{
    ticks_within_rate(rate, HORIZONTAL_SYNC_MICROS as int);
    ticks_within_rate(rate, SYNC_PORCH_MICROS as int);
    ticks_within_rate(rate, Y_MICROS as int);
    ticks_within_rate(rate, SEPARATOR_MICROS as int);
    ticks_within_rate(rate, PORCH_MICROS as int);
    ticks_within_rate(rate, UV_MICROS as int);
    ticks_within_rate(rate, 300_000);
    ticks_within_rate(rate, 10_000);
    ticks_within_rate(rate, 30_000);
}

/// The header lasts `header_length` samples.
pub proof fn vis_header_length(rate: int)
    requires
        0 <= rate,
    ensures
        vis_header_of(rate).len() == header_length(rate),
{
    ticks_within_rate(rate, 300_000);
    ticks_within_rate(rate, 10_000);
    ticks_within_rate(rate, 30_000);
    reveal_with_fuel(tones, 15);
}

/// A line lasts `line_length` samples, whatever the row shows.
pub proof fn line_has_length(picture: Picture, row: int, rate: int)
    requires
        0 <= rate,
    ensures
        line(picture, row, rate).len() == line_length(rate),
        line_pair(picture, row, rate).len() == pair_length(rate),
{
    segments_within_rate(rate);
}

/// The first `pairs` pairs of lines last `pairs` times `pair_length` samples.
pub proof fn codificated_rows_length(picture: Picture, rate: int, pairs: nat)
    requires
        0 <= rate,
    ensures
        codificated_rows(picture, rate, pairs).len() == pairs * pair_length(rate),
    decreases pairs,
{
    let length = pair_length(rate);
    if pairs > 0 {
        codificated_rows_length(picture, rate, (pairs - 1) as nat);
        line_has_length(picture, 2 * (pairs - 1), rate);
        assert(pairs * length == (pairs - 1) * length + length) by (nonlinear_arith);
    } else {
        assert(pairs * length == 0) by (nonlinear_arith)
            requires
                pairs == 0,
        ;
    }
}

/// A transmission lasts as many samples as its header and 120 pairs of
/// lines, whatever the picture shows.
pub proof fn signal_length(picture: Picture, rate: int)
    requires
        0 <= rate,
    ensures
        signal_of(picture, rate).len() == header_length(rate) + 120 * pair_length(rate),
{
    vis_header_length(rate);
    codificated_rows_length(picture, rate, 120);
}

/// Where the header stands: the transmission begins with it.
pub proof fn header_position(picture: Picture, rate: int, index: int)
    requires
        0 <= rate,
        0 <= index < header_length(rate),
    ensures
        index < signal_of(picture, rate).len(),
        signal_of(picture, rate)[index] == vis_header_of(rate)[index],
{
    vis_header_length(rate);
}

/// Where each line stands: the line of row `row` begins `row` line lengths
/// after the header.
pub proof fn line_position(picture: Picture, rate: int, row: int, offset: int)
    requires
        0 <= rate,
        0 <= row < IMAGE_HEIGHT,
        0 <= offset < line_length(rate),
    ensures
        header_length(rate) + row * line_length(rate) + offset < signal_of(picture, rate).len(),
        signal_of(picture, rate)[header_length(rate) + row * line_length(rate) + offset] == line(
            picture,
            row,
            rate,
        )[offset],
{
    let length = line_length(rate);
    let pair = row / 2;
    vis_header_length(rate);
    signal_length(picture, rate);
    codificated_rows_length(picture, rate, 120);
    line_has_length(picture, 2 * pair, rate);
    line_has_length(picture, 2 * pair + 1, rate);
    if row % 2 == 0 {
        codificated_rows_position(picture, rate, 120, pair, offset);
        assert(row * length + offset == pair * (2 * length) + offset < 120 * (2 * length))
            by (nonlinear_arith)
            requires
                row == 2 * pair,
                0 <= pair < 120,
                0 <= offset < length,
        ;
    } else {
        codificated_rows_position(picture, rate, 120, pair, length + offset);
        assert(row * length + offset == pair * (2 * length) + (length + offset) < 120 * (2
            * length)) by (nonlinear_arith)
            requires
                row == 2 * pair + 1,
                0 <= pair < 120,
                0 <= offset < length,
        ;
    }
}

proof fn codificated_rows_position(
    picture: Picture,
    rate: int,
    pairs: nat,
    pair: int,
    offset: int,
)
    requires
        0 <= rate,
        0 <= pair < pairs,
        0 <= offset < pair_length(rate),
    ensures
        codificated_rows(picture, rate, pairs)[pair * pair_length(rate) + offset] == line_pair(
            picture,
            2 * pair,
            rate,
        )[offset],
    decreases pairs,
{
    let length = pair_length(rate);
    let before = (pairs - 1) as nat;
    codificated_rows_length(picture, rate, before);
    line_has_length(picture, 2 * (pairs - 1), rate);
    if pair == before {
    } else {
        codificated_rows_position(picture, rate, before, pair, offset);
        assert(pair * length + offset < before * length) by (nonlinear_arith)
            requires
                0 <= pair < before,
                0 <= offset < length,
        ;
    }
}

/// The separator tells the lines of even and odd rows apart: in the line of
/// an even row it is held at 1500 Hz, in the line of an odd row at 2300 Hz.
pub proof fn separator_tones(picture: Picture, row: int, rate: int, tick: int)
    requires
        0 <= rate,
        0 <= tick < ticks_of(rate, SEPARATOR_MICROS as int),
    ensures
        row % 2 == 0 ==> line(picture, row, rate)[separator_start(rate) + tick] == hertz(1500),
        row % 2 != 0 ==> line(picture, row, rate)[separator_start(rate) + tick] == hertz(2300),
        line_pair(picture, row, rate)[separator_start(rate) + tick] == hertz(separator_of(row)),
        line_pair(picture, row, rate)[line_length(rate) + separator_start(rate) + tick] == hertz(
            separator_of(row + 1),
        ),
{
    segments_within_rate(rate);
}

/// A scan of a picture that was built from RGB pixels stays strictly inside
/// the band from 1500 Hz to 2300 Hz: luma is sent between the frequencies of
/// the levels 16 and 235, chroma between those of the levels 16 and 240.
pub proof fn scans_in_band(pixels: Seq<(u8, u8, u8)>, row: int, rate: int, tick: int)
    requires
        0 <= rate,
        0 <= row < IMAGE_HEIGHT,
        0 <= tick,
    ensures
        hertz(1500).numerator < level_frequency(16).numerator,
        level_frequency(240).numerator < hertz(2300).numerator,
        tick < y_scan(picture_of(pixels), row, rate).len() ==> level_frequency(16).numerator
            <= y_scan(picture_of(pixels), row, rate)[tick].numerator <= level_frequency(
            235,
        ).numerator,
        tick < u_scan(picture_of(pixels), row, rate).len() ==> level_frequency(16).numerator
            <= u_scan(picture_of(pixels), row, rate)[tick].numerator <= level_frequency(
            240,
        ).numerator,
        tick < v_scan(picture_of(pixels), row, rate).len() ==> level_frequency(16).numerator
            <= v_scan(picture_of(pixels), row, rate)[tick].numerator <= level_frequency(
            240,
        ).numerator,
{
    segments_within_rate(rate);
    let picture = picture_of(pixels);
    let y_ticks = ticks_of(rate, Y_MICROS as int);
    if tick < y_ticks {
        let x = column_at(tick, y_ticks);
        column_in_row(tick, y_ticks);
        let rgb = pixels[row * IMAGE_WIDTH + x];
        transform_in_video_range(rgb.0, rgb.1, rgb.2);
        assert(picture[row][x] == yuv_of(rgb));
    }
    let uv_ticks = ticks_of(rate, UV_MICROS as int);
    if tick < uv_ticks {
        let x0 = column_at(tick, uv_ticks);
        column_in_row(tick, uv_ticks);
        let x1 = right_of(x0);
        let left = pixels[row * IMAGE_WIDTH + x0];
        let right = pixels[row * IMAGE_WIDTH + x1];
        transform_in_video_range(left.0, left.1, left.2);
        transform_in_video_range(right.0, right.1, right.2);
        assert(picture[row][x0] == yuv_of(left));
        assert(picture[row][x1] == yuv_of(right));
    }
}

/// A scan reads columns of the picture only, and never its last column.
pub proof fn column_in_row(tick: int, ticks: int)
    requires
        0 <= tick < ticks,
    ensures
        0 <= column_at(tick, ticks) < IMAGE_WIDTH - 1,
        0 < right_of(column_at(tick, ticks)) <= IMAGE_WIDTH - 1,
{
    assert(0 <= 319 * tick / ticks < 319) by (nonlinear_arith)
        requires
            0 <= tick < ticks,
    ;
}

/// The tones of the first `count` entries of a table are the beginning of
/// the tones of the whole table.
pub proof fn tones_prefix(table: Seq<(u16, u64)>, rate: int, count: int)
    requires
        0 <= count <= table.len(),
    ensures
        tones(table.take(count), rate).len() <= tones(table, rate).len(),
        forall|i: int|
            0 <= i < tones(table.take(count), rate).len() ==> tones(table, rate)[i] == tones(
                table.take(count),
                rate,
            )[i],
    decreases table.len(),
{
    if count == table.len() {
        assert(table.take(count) == table);
    } else {
        let shorter = table.drop_last();
        tones_prefix(shorter, rate, count);
        assert(shorter.take(count) == table.take(count));
    }
}

/// No entry of the header lasts longer than a second.
pub proof fn vis_table_durations(index: int)
    requires
        0 <= index < vis_table().len(),
    ensures
        vis_table()[index].1 <= 1_000_000,
{
}

} // verus!
