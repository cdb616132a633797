//! The protocol sequencer: it walks the header and the picture in the order
//! of transmission and gives the frequency of every output sample, either
//! all at once or one sample at a time.

use crate::frequency::{hertz, Frequency};
use crate::image::{Picture, Robot36Image, IMAGE_HEIGHT, IMAGE_WIDTH};
use crate::timing::{
    ticks, ticks_of, ticks_within_rate, HORIZONTAL_SYNC_MICROS, PORCH_MICROS, SEPARATOR_MICROS,
    SYNC_PORCH_MICROS, UV_MICROS, Y_MICROS,
};
use crate::transmission::{
    chroma_scan, codificated_rows, column_at, column_in_row, header_length, header_position, line,
    line_length, line_middle, line_pair, line_position, line_start, pair_length,
    segments_within_rate, separator_of, signal_length, signal_of, tone, tones, tones_prefix,
    u_scan, v_scan, vis_header_length, vis_header_of, vis_table, vis_table_durations, y_scan,
};
use vstd::arithmetic::div_mod::lemma_fundamental_div_mod;
use vstd::arithmetic::mul::lemma_mul_is_commutative;
use vstd::prelude::*;
use vstd::seq_lib::lemma_concat_associative;

verus! {

/// Appends `number_of_ticks` samples of one frequency.
fn add_signal(buffer: &mut Vec<Frequency>, number_of_ticks: u64, frequency: Frequency)
    ensures
        final(buffer)@ == old(buffer)@ + tone(frequency, number_of_ticks as int),
{
    let ghost before = buffer@;
    let mut tick: u64 = 0;
    while tick < number_of_ticks
        invariant
            tick <= number_of_ticks,
            buffer@ == before + tone(frequency, tick as int),
        decreases number_of_ticks - tick,
    {
        buffer.push(frequency);
        tick += 1;
    }
}

/// The header as a table of frequencies in hertz and times in microseconds.
fn header_frequencies() -> (table: Vec<(u16, u64)>)
    ensures
        table@ == vis_table(),
{
    let table: Vec<(u16, u64)> = vec![
        (0, 300_000),
        (1900, 300_000),
        (1200, 10_000),
        (1900, 300_000),
        (1200, 30_000),
        (1300, 30_000),
        (1300, 30_000),
        (1300, 30_000),
        (1100, 30_000),
        (1300, 30_000),
        (1300, 30_000),
        (1300, 30_000),
        (1100, 30_000),
        (1200, 30_000),
    ];
    assert(table@ == vis_table());
    table
}

/// Encodes one picture at one sampling rate.
pub struct Encoder {
    image: Robot36Image,
    rate: u64,
    y_ticks: u64,
    uv_ticks: u64,
    sync_porch_ticks: u64,
    porch_ticks: u64,
    horizontal_sync_ticks: u64,
    separator_ticks: u64,
}

impl Encoder {
    #[verifier::type_invariant]
    closed spec fn well_formed(&self) -> bool {
        &&& self.y_ticks == ticks_of(self.rate as int, Y_MICROS as int)
        &&& self.uv_ticks == ticks_of(self.rate as int, UV_MICROS as int)
        &&& self.sync_porch_ticks == ticks_of(self.rate as int, SYNC_PORCH_MICROS as int)
        &&& self.porch_ticks == ticks_of(self.rate as int, PORCH_MICROS as int)
        &&& self.horizontal_sync_ticks == ticks_of(self.rate as int, HORIZONTAL_SYNC_MICROS as int)
        &&& self.separator_ticks == ticks_of(self.rate as int, SEPARATOR_MICROS as int)
    }

    /// The picture that is encoded.
    pub closed spec fn picture(&self) -> Picture {
        self.image@
    }

    /// The number of output samples per second.
    pub closed spec fn sampling_rate(&self) -> u64 {
        self.rate
    }

    /// The transmission that this encoder produces.
    pub open spec fn signal(&self) -> Seq<Frequency> {
        signal_of(self.picture(), self.sampling_rate() as int)
    }

    /// Creates an encoder for `image` whose output has `rate` samples per
    /// second.
    pub fn new(image: Robot36Image, rate: u64) -> (encoder: Self)
        ensures
            encoder.picture() == image@,
            encoder.sampling_rate() == rate,
    {
        proof {
            segments_within_rate(rate as int);
        }
        Encoder {
            image,
            rate,
            y_ticks: ticks(rate, Y_MICROS),
            uv_ticks: ticks(rate, UV_MICROS),
            sync_porch_ticks: ticks(rate, SYNC_PORCH_MICROS),
            porch_ticks: ticks(rate, PORCH_MICROS),
            horizontal_sync_ticks: ticks(rate, HORIZONTAL_SYNC_MICROS),
            separator_ticks: ticks(rate, SEPARATOR_MICROS),
        }
    }

    /// The number of output samples per second.
    pub fn rate(&self) -> (rate: u64)
        ensures
            rate == self.sampling_rate(),
    {
        self.rate
    }

    /// Produces the whole transmission, one frequency for each output
    /// sample, in the order in which the samples are sent.
    pub fn encode(&self) -> (frequencies: Vec<Frequency>)
        ensures
            frequencies@ == self.signal(),
            frequencies@.len() == header_length(self.sampling_rate() as int) + 120 * pair_length(
                self.sampling_rate() as int,
            ),
    {
        proof {
            signal_length(self.picture(), self.sampling_rate() as int);
        }
        let mut buffer: Vec<Frequency> = Vec::new();
        self.vis_header(&mut buffer);
        self.codificated_image(&mut buffer);
        buffer
    }

    /// The frequency of output sample number `index` of the transmission,
    /// or `None` where the transmission has no such sample.
    pub fn frequency_at(&self, index: u128) -> (frequency: Option<Frequency>)
        ensures
            index < self.signal().len() ==> frequency == Some(self.signal()[index as int]),
            index >= self.signal().len() ==> frequency is None,
    {
        let ghost rate = self.sampling_rate() as int;
        let ghost picture = self.picture();
        proof {
            segments_within_rate(rate);
            vis_header_length(rate);
            signal_length(picture, rate);
        }
        let table = header_frequencies();
        let mut start: u128 = 0;
        let mut i: usize = 0;
        while i < table.len()
            invariant
                i <= table@.len(),
                table@ == vis_table(),
                rate == self.sampling_rate(),
                start == tones(vis_table().take(i as int), rate).len(),
                start <= index,
                start <= i * 0xffff_ffff_ffff_ffff,
                vis_header_of(rate).len() == header_length(rate),
            decreases table@.len() - i,
        {
            let entry = table[i];
            proof {
                vis_table_durations(i as int);
                ticks_within_rate(rate, entry.1 as int);
                assert(vis_table().take(i + 1).drop_last() == vis_table().take(i as int));
                tones_prefix(vis_table(), rate, i + 1);
            }
            let count: u128 = ticks(self.rate, entry.1) as u128;
            if index - start < count {
                proof {
                    header_position(picture, rate, index as int);
                }
                return Some(Frequency::from_hz(entry.0));
            }
            start = start + count;
            i += 1;
        }
        assert(vis_table().take(i as int) == vis_table());
        let length: u128 = self.line_ticks();
        if length == 0 {
            return None;
        }
        let past: u128 = index - start;
        let row: u128 = past / length;
        let offset: u128 = past % length;
        proof {
            lemma_fundamental_div_mod(past as int, length as int);
            lemma_mul_is_commutative(length as int, row as int);
        }
        if row >= 240 {
            assert(row * length >= 240 * length) by (nonlinear_arith)
                requires
                    row >= 240,
                    length >= 0,
            ;
            return None;
        }
        proof {
            line_position(picture, rate, row as int, offset as int);
        }
        Some(self.line_at(row as usize, offset))
    }

    /// The number of samples that one line lasts.
    fn line_ticks(&self) -> (count: u128)
        ensures
            count == line_length(self.sampling_rate() as int),
    {
        proof {
            use_type_invariant(self);
        }
        self.horizontal_sync_ticks as u128 + self.sync_porch_ticks as u128 + self.y_ticks as u128
            + self.separator_ticks as u128 + self.porch_ticks as u128 + self.uv_ticks as u128
    }

    /// The frequency of sample number `offset` of the line that sends row
    /// `y`.
    fn line_at(&self, y: usize, offset: u128) -> (frequency: Frequency)
        requires
            y < IMAGE_HEIGHT,
            offset < line_length(self.sampling_rate() as int),
        ensures
            frequency == line(self.picture(), y as int, self.sampling_rate() as int)[offset as int],
    {
        proof {
            use_type_invariant(self);
        }
        let luma_start: u128 = self.horizontal_sync_ticks as u128 + self.sync_porch_ticks as u128;
        let separator_start: u128 = luma_start + self.y_ticks as u128;
        let porch_start: u128 = separator_start + self.separator_ticks as u128;
        let chroma_start: u128 = porch_start + self.porch_ticks as u128;
        if offset < self.horizontal_sync_ticks as u128 {
            Frequency::from_hz(1200)
        } else if offset < luma_start {
            Frequency::from_hz(1500)
        } else if offset < separator_start {
            self.y_sample(y, (offset - luma_start) as u64)
        } else if offset < porch_start {
            if y % 2 == 0 {
                Frequency::from_hz(1500)
            } else {
                Frequency::from_hz(2300)
            }
        } else if offset < chroma_start {
            Frequency::from_hz(1900)
        } else if y % 2 == 0 {
            self.v_sample(y, (offset - chroma_start) as u64)
        } else {
            self.u_sample(y, (offset - chroma_start) as u64)
        }
    }

    fn vis_header(&self, buffer: &mut Vec<Frequency>)
        ensures
            final(buffer)@ == old(buffer)@ + vis_header_of(self.sampling_rate() as int),
    {
        let header_frequencies = header_frequencies();
        let ghost before = buffer@;
        let mut i: usize = 0;
        while i < header_frequencies.len()
            invariant
                i <= header_frequencies@.len(),
                header_frequencies@ == vis_table(),
                buffer@ == before + tones(vis_table().take(i as int), self.sampling_rate() as int),
            decreases header_frequencies@.len() - i,
        {
            let frequency = header_frequencies[i];
            proof {
                vis_table_durations(i as int);
                ticks_within_rate(self.rate as int, frequency.1 as int);
                assert(vis_table().take(i + 1).drop_last() == vis_table().take(i as int));
            }
            add_signal(buffer, ticks(self.rate, frequency.1), Frequency::from_hz(frequency.0));
            i += 1;
        }
        assert(vis_table().take(i as int) == vis_table());
    }

    fn codificated_image(&self, buffer: &mut Vec<Frequency>)
        ensures
            final(buffer)@ == old(buffer)@ + codificated_rows(
                self.picture(),
                self.sampling_rate() as int,
                (IMAGE_HEIGHT / 2) as nat,
            ),
    {
        let ghost before = buffer@;
        let ghost picture = self.picture();
        let ghost rate = self.sampling_rate() as int;
        let mut y: usize = 0;
        while y < self.image.get_height()
            invariant
                y <= IMAGE_HEIGHT,
                y % 2 == 0,
                picture == self.picture(),
                rate == self.sampling_rate() as int,
                buffer@ == before + codificated_rows(picture, rate, (y / 2) as nat),
            decreases IMAGE_HEIGHT - y,
        {
            let ghost sent = codificated_rows(picture, rate, (y / 2) as nat);
            self.add_line(buffer, y);
            self.add_line(buffer, y + 1);
            proof {
                lemma_concat_associative(
                    before + sent,
                    line(picture, y as int, rate),
                    line(picture, y + 1, rate),
                );
                lemma_concat_associative(before, sent, line_pair(picture, y as int, rate));
                assert(codificated_rows(picture, rate, (y / 2 + 1) as nat) == sent + line_pair(
                    picture,
                    y as int,
                    rate,
                ));
            }
            y += 2;
        }
    }

    /// Appends the line that sends row `y`.
    fn add_line(&self, buffer: &mut Vec<Frequency>, y: usize)
        requires
            y < IMAGE_HEIGHT,
        ensures
            final(buffer)@ == old(buffer)@ + line(
                self.picture(),
                y as int,
                self.sampling_rate() as int,
            ),
    {
        proof {
            use_type_invariant(self);
        }
        let ghost before = buffer@;
        let ghost picture = self.picture();
        let ghost rate = self.sampling_rate() as int;
        let separator: u16 = if y % 2 == 0 {
            1500
        } else {
            2300
        };
        add_signal(buffer, self.horizontal_sync_ticks, Frequency::from_hz(1200));
        add_signal(buffer, self.sync_porch_ticks, Frequency::from_hz(1500));
        proof {
            lemma_concat_associative(
                before,
                tone(hertz(1200), self.horizontal_sync_ticks as int),
                tone(hertz(1500), self.sync_porch_ticks as int),
            );
        }
        self.add_y_scan(buffer, y);
        let ghost luma_sent = line_start(rate) + y_scan(picture, y as int, rate);
        proof {
            lemma_concat_associative(before, line_start(rate), y_scan(picture, y as int, rate));
        }
        let ghost at_separator = buffer@;
        add_signal(buffer, self.separator_ticks, Frequency::from_hz(separator));
        add_signal(buffer, self.porch_ticks, Frequency::from_hz(1900));
        proof {
            lemma_concat_associative(
                at_separator,
                tone(hertz(separator as int), self.separator_ticks as int),
                tone(hertz(1900), self.porch_ticks as int),
            );
            lemma_concat_associative(before, luma_sent, line_middle(y as int, rate));
        }
        if y % 2 == 0 {
            self.add_v_scan(buffer, y);
        } else {
            self.add_u_scan(buffer, y);
        }
        proof {
            lemma_concat_associative(
                before,
                luma_sent + line_middle(y as int, rate),
                chroma_scan(picture, y as int, rate),
            );
        }
    }

    fn add_y_scan(&self, buffer: &mut Vec<Frequency>, y: usize)
        requires
            y < IMAGE_HEIGHT,
        ensures
            final(buffer)@ == old(buffer)@ + y_scan(
                self.picture(),
                y as int,
                self.sampling_rate() as int,
            ),
    {
        proof {
            use_type_invariant(self);
        }
        let ghost before = buffer@;
        let ghost scan = y_scan(self.picture(), y as int, self.sampling_rate() as int);
        let mut tick: u64 = 0;
        while tick < self.y_ticks
            invariant
                y < IMAGE_HEIGHT,
                tick <= self.y_ticks,
                self.y_ticks == ticks_of(self.sampling_rate() as int, Y_MICROS as int),
                scan == y_scan(self.picture(), y as int, self.sampling_rate() as int),
                buffer@ == before + scan.subrange(0, tick as int),
            decreases self.y_ticks - tick,
        {
            buffer.push(self.y_sample(y, tick));
            tick += 1;
        }
        assert(scan.subrange(0, tick as int) == scan);
    }

    fn add_v_scan(&self, buffer: &mut Vec<Frequency>, y: usize)
        requires
            y < IMAGE_HEIGHT,
        ensures
            final(buffer)@ == old(buffer)@ + v_scan(
                self.picture(),
                y as int,
                self.sampling_rate() as int,
            ),
    {
        proof {
            use_type_invariant(self);
        }
        let ghost before = buffer@;
        let ghost scan = v_scan(self.picture(), y as int, self.sampling_rate() as int);
        let mut tick: u64 = 0;
        while tick < self.uv_ticks
            invariant
                y < IMAGE_HEIGHT,
                tick <= self.uv_ticks,
                self.uv_ticks == ticks_of(self.sampling_rate() as int, UV_MICROS as int),
                scan == v_scan(self.picture(), y as int, self.sampling_rate() as int),
                buffer@ == before + scan.subrange(0, tick as int),
            decreases self.uv_ticks - tick,
        {
            buffer.push(self.v_sample(y, tick));
            tick += 1;
        }
        assert(scan.subrange(0, tick as int) == scan);
    }

    fn add_u_scan(&self, buffer: &mut Vec<Frequency>, y: usize)
        requires
            y < IMAGE_HEIGHT,
        ensures
            final(buffer)@ == old(buffer)@ + u_scan(
                self.picture(),
                y as int,
                self.sampling_rate() as int,
            ),
    {
        proof {
            use_type_invariant(self);
        }
        let ghost before = buffer@;
        let ghost scan = u_scan(self.picture(), y as int, self.sampling_rate() as int);
        let mut tick: u64 = 0;
        while tick < self.uv_ticks
            invariant
                y < IMAGE_HEIGHT,
                tick <= self.uv_ticks,
                self.uv_ticks == ticks_of(self.sampling_rate() as int, UV_MICROS as int),
                scan == u_scan(self.picture(), y as int, self.sampling_rate() as int),
                buffer@ == before + scan.subrange(0, tick as int),
            decreases self.uv_ticks - tick,
        {
            buffer.push(self.u_sample(y, tick));
            tick += 1;
        }
        assert(scan.subrange(0, tick as int) == scan);
    }

    /// The frequency of sample number `tick` of the luma scan of row `y`.
    fn y_sample(&self, y: usize, tick: u64) -> (frequency: Frequency)
        requires
            y < IMAGE_HEIGHT,
            tick < ticks_of(self.sampling_rate() as int, Y_MICROS as int),
        ensures
            frequency == y_scan(self.picture(), y as int, self.sampling_rate() as int)[tick as int],
    {
        proof {
            use_type_invariant(self);
        }
        let x: usize = self.get_x_position(tick, self.y_ticks);
        let level: u16 = u16::from(self.image.get_y(x, y));
        Frequency::from_level(level as u8)
    }

    /// The frequency of sample number `tick` of the red-difference chroma
    /// scan of row `y`.
    fn v_sample(&self, y: usize, tick: u64) -> (frequency: Frequency)
        requires
            y < IMAGE_HEIGHT,
            tick < ticks_of(self.sampling_rate() as int, UV_MICROS as int),
        ensures
            frequency == v_scan(self.picture(), y as int, self.sampling_rate() as int)[tick as int],
    {
        proof {
            use_type_invariant(self);
        }
        let x0: usize = self.get_x_position(tick, self.uv_ticks);
        let x1: usize = if x0 + 1 < IMAGE_WIDTH - 1 {
            x0 + 1
        } else {
            IMAGE_WIDTH - 1
        };
        let yuv_v: u16 = (u16::from(self.image.get_v(x0, y)) + u16::from(
            self.image.get_v(x1, y),
        )) / 2;
        Frequency::from_level(yuv_v as u8)
    }

    /// The frequency of sample number `tick` of the blue-difference chroma
    /// scan of row `y`.
    fn u_sample(&self, y: usize, tick: u64) -> (frequency: Frequency)
        requires
            y < IMAGE_HEIGHT,
            tick < ticks_of(self.sampling_rate() as int, UV_MICROS as int),
        ensures
            frequency == u_scan(self.picture(), y as int, self.sampling_rate() as int)[tick as int],
    {
        proof {
            use_type_invariant(self);
        }
        let x0: usize = self.get_x_position(tick, self.uv_ticks);
        let x1: usize = if x0 + 1 < IMAGE_WIDTH - 1 {
            x0 + 1
        } else {
            IMAGE_WIDTH - 1
        };
        let yuv_u: u16 = (u16::from(self.image.get_u(x0, y)) + u16::from(
            self.image.get_u(x1, y),
        )) / 2;
        Frequency::from_level(yuv_u as u8)
    }

    /// The column that sample number `tick` of a scan of `ticks` samples
    /// reads.
    fn get_x_position(&self, tick: u64, ticks: u64) -> (x: usize)
        requires
            tick < ticks,
        ensures
            x == column_at(tick as int, ticks as int),
            x < IMAGE_WIDTH - 1,
    {
        proof {
            column_in_row(tick as int, ticks as int);
        }
        (319 * (tick as u128) / (ticks as u128)) as usize
    }
}

/// A walk through a transmission from its first sample to its last, one
/// frequency at a time. Nothing of the transmission is stored.
pub struct Signal<'a> {
    encoder: &'a Encoder,
    position: u128,
}

impl<'a> Signal<'a> {
    /// The transmission that is walked through.
    pub closed spec fn frequencies(&self) -> Seq<Frequency> {
        self.encoder.signal()
    }

    /// The number of samples that were handed out.
    pub closed spec fn position(&self) -> nat {
        self.position as nat
    }

    /// Starts at the first sample of the encoder's transmission.
    pub fn new(encoder: &'a Encoder) -> (signal: Self)
        ensures
            signal.frequencies() == encoder.signal(),
            signal.position() == 0,
    {
        Signal { encoder, position: 0 }
    }

    /// Hands out the frequency of the next sample and moves on, or hands
    /// out `None`, and stays, once the transmission is over.
    pub fn next(&mut self) -> (frequency: Option<Frequency>)
        ensures
            final(self).frequencies() == old(self).frequencies(),
            old(self).position() < old(self).frequencies().len() ==> frequency == Some(
                old(self).frequencies()[old(self).position() as int],
            ) && final(self).position() == old(self).position() + 1,
            old(self).position() >= old(self).frequencies().len() ==> frequency is None
                && final(self).position() == old(self).position(),
    {
        let frequency = self.encoder.frequency_at(self.position);
        if frequency.is_some() {
            proof {
                let rate = self.encoder.sampling_rate() as int;
                signal_length(self.encoder.picture(), rate);
                segments_within_rate(rate);
            }
            self.position = self.position + 1;
        }
        frequency
    }
}

} // verus!
