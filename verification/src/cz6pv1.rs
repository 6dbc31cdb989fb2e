//! The decoder of the planar protocol: after one command byte, a page of
//! fixed size comes as three planes of intensities, one byte per pixel, row
//! by row.
//!
//! Like the escape-code decoder it asks for its input one read at a time:
//! one byte for the command, then one row after the other. `Stage` says what
//! each read does, `Stage::run` what a whole stream does, and `Cz6pv1` is the
//! executable decoder.

use vstd::prelude::*;
use vstd::slice::slice_subrange;

use crate::printer::{read_view, Notice, Printer};
use crate::raster::{
    buffer_from_pixel, buffer_get_pixel, buffer_put_pixel, uniform_pixels, Color, Raster,
    RasterImage,
};

verus! {

/// The command byte that announces a page.
pub const PAGE_COMMAND: u8 = 0xC0;

/// The rows above this one are scaled by the first rule, the others by the
/// second.
pub const SECOND_HALF: u32 = 512;

/// The channel that a plane fills. The planes come in this order.
#[derive(Clone, Copy, Debug, PartialEq, Eq, Structural)]
pub enum Channel {
    Blue,
    Green,
    Red,
}

impl Channel {
    /// The number of the plane that fills this channel: 0, 1, 2.
    pub open spec fn spec_index(self) -> u32 {
        match self {
            Channel::Blue => 0,
            Channel::Green => 1,
            Channel::Red => 2,
        }
    }

    #[verifier::when_used_as_spec(spec_index)]
    pub fn index(self) -> (i: u32)
        ensures
            i == self.spec_index(),
    {
        match self {
            Channel::Blue => 0,
            Channel::Green => 1,
            Channel::Red => 2,
        }
    }

    /// The colour `under` with this channel set to `value`.
    pub open spec fn spec_set(self, under: Color, value: u8) -> Color {
        match self {
            Channel::Blue => Color { r: under.r, g: under.g, b: value },
            Channel::Green => Color { r: under.r, g: value, b: under.b },
            Channel::Red => Color { r: value, g: under.g, b: under.b },
        }
    }

    #[verifier::when_used_as_spec(spec_set)]
    pub fn set(self, under: Color, value: u8) -> (c: Color)
        ensures
            c == self.spec_set(under, value),
    {
        match self {
            Channel::Blue => Color { r: under.r, g: under.g, b: value },
            Channel::Green => Color { r: under.r, g: value, b: under.b },
            Channel::Red => Color { r: value, g: under.g, b: under.b },
        }
    }
}

/// The intensity that the byte `sample` stands for in the row `row`. Its low
/// six bits are the sample `v`. In the first half of the page the intensity
/// is `4 v`. In the second half it is four and a half times `v - 7`, rounded
/// down, and 0 where `v` is below 7.
pub open spec fn intensity(row: nat, sample: u8) -> u8 {
    let v = sample & 0x3F;
    if row < SECOND_HALF {
        (4 * v) as u8
    } else if v >= 7 {
        (9 * (v - 7) / 2) as u8
    } else {
        0
    }
}

/// Whether the first `cols` bytes of a row written at `row` set the pixel `k`.
pub open spec fn line_writes(row: int, cols: int, k: (int, int)) -> bool {
    k.1 == row && 0 <= k.0 < cols
}

/// The pixels of `page` after the first `cols` bytes of `line` were written
/// to `channel` in the row `row`. Pixels off the page are not written.
pub open spec fn paint_line(
    page: Raster,
    channel: Channel,
    row: int,
    line: Seq<u8>,
    cols: int,
) -> Map<(int, int), Color> {
    Map::new(
        |k: (int, int)| page.pixels.dom().contains(k),
        |k: (int, int)|
            if line_writes(row, cols, k) {
                channel.spec_set(page.pixels[k], intensity(row as nat, line[k.0]))
            } else {
                page.pixels[k]
            },
    )
}

/// The number of rows that a page sends: `PAGE_HEIGHT` for each of the three
/// planes.
pub open spec fn page_lines() -> int {
    3 * Cz6pv1::PAGE_HEIGHT
}

/// The number of a row in the stream: the rows of the blue plane come first,
/// then those of the green one, then those of the red one.
pub open spec fn line_number(channel: Channel, row: int) -> int {
    channel.spec_index() * Cz6pv1::PAGE_HEIGHT + row
}

/// The number of rows that the decoder reads from `input`: none where the
/// first byte is not the command of a page, else as many as the input holds
/// in full, and not more than a page has.
pub open spec fn lines_read(input: Seq<u8>) -> int {
    if input.len() == 0 || input[0] != PAGE_COMMAND {
        0
    } else if (input.len() - 1) / (Cz6pv1::PAGE_WIDTH as int) < page_lines() {
        (input.len() - 1) / (Cz6pv1::PAGE_WIDTH as int)
    } else {
        page_lines()
    }
}

/// The value of `channel` at the pixel `k` after the first `lines` rows of
/// the stream were written, where it was `under` before: the intensity of
/// the byte that the stream holds for this pixel and this channel, if its
/// row was among them.
pub open spec fn channel_after(
    under: u8,
    input: Seq<u8>,
    lines: int,
    channel: Channel,
    k: (int, int),
) -> u8 {
    if 0 <= k.0 < Cz6pv1::PAGE_WIDTH && 0 <= k.1 < Cz6pv1::PAGE_HEIGHT && line_number(
        channel,
        k.1,
    ) < lines {
        intensity(k.1 as nat, input[1 + Cz6pv1::PAGE_WIDTH * line_number(channel, k.1) + k.0])
    } else {
        under
    }
}

/// The pixels of `page` after the first `lines` rows of the stream `input`
/// were written.
pub open spec fn page_after(page: Raster, input: Seq<u8>, lines: int) -> Map<(int, int), Color> {
    Map::new(
        |k: (int, int)| page.pixels.dom().contains(k),
        |k: (int, int)|
            Color {
                r: channel_after(page.pixels[k].r, input, lines, Channel::Red, k),
                g: channel_after(page.pixels[k].g, input, lines, Channel::Green, k),
                b: channel_after(page.pixels[k].b, input, lines, Channel::Blue, k),
            },
    )
}

/// Where in the stream the decoder stands.
#[derive(Clone, Copy, Debug, PartialEq, Eq, Structural)]
pub enum Stage {
    /// At the start of a job: the next byte is the command.
    Command,
    /// In the page: the bytes of the row `row` of the plane of `channel`
    /// follow.
    Line { channel: Channel, row: u32 },
    /// The job has ended without a page: the command was not that of a
    /// page, or the input ran out.
    Nothing,
    /// The job has ended with the whole page decoded.
    Page,
}

impl Stage {
    /// The number of bytes that the next read asks for; 0 when the job has
    /// ended.
    pub open spec fn wanted(self) -> nat {
        match self {
            Stage::Command => 1,
            Stage::Line { .. } => Cz6pv1::PAGE_WIDTH as nat,
            _ => 0,
        }
    }

    /// Whether the job has ended.
    pub open spec fn ended(self) -> bool {
        self == Stage::Nothing || self == Stage::Page
    }

    /// What is covered: the whole page once it is decoded, and nothing
    /// before.
    pub open spec fn covered(self) -> (nat, nat) {
        if self == Stage::Page {
            (Cz6pv1::PAGE_WIDTH as nat, Cz6pv1::PAGE_HEIGHT as nat)
        } else {
            (0, 0)
        }
    }

    /// After the row `row` of the plane of `channel`: the next row, the
    /// first row of the next plane, or the end of the page.
    pub open spec fn after_line(channel: Channel, row: u32) -> Stage {
        if row + 1 < Cz6pv1::PAGE_HEIGHT {
            Stage::Line { channel, row: (row + 1) as u32 }
        } else {
            match channel {
                Channel::Blue => Stage::Line { channel: Channel::Green, row: 0 },
                Channel::Green => Stage::Line { channel: Channel::Red, row: 0 },
                Channel::Red => Stage::Page,
            }
        }
    }

    /// The stage after one read. `read` holds the bytes that were asked for,
    /// or is `None` where the read failed, which ends the job.
    pub open spec fn next(self, read: Option<Seq<u8>>) -> Stage {
        match self {
            Stage::Command => match read {
                Some(bytes) => if bytes[0] == PAGE_COMMAND {
                    Stage::Line { channel: Channel::Blue, row: 0 }
                } else {
                    Stage::Nothing
                },
                None => Stage::Nothing,
            },
            Stage::Line { channel, row } => match read {
                Some(_) => Stage::after_line(channel, row),
                None => Stage::Nothing,
            },
            _ => self,
        }
    }

    /// What the decoder tells of one read: that the job did not start with
    /// the command of a page, or that the input ended within the page.
    pub open spec fn notice(self, read: Option<Seq<u8>>) -> Option<Notice> {
        match (self, read) {
            (Stage::Command, Some(bytes)) => if bytes[0] == PAGE_COMMAND {
                None
            } else {
                Some(Notice::UnknownCommand)
            },
            (Stage::Line { .. }, None) => Some(Notice::NotEnoughData),
            _ => None,
        }
    }

    /// The pixels after one read: only a row that was read changes them.
    pub open spec fn paint(self, page: Raster, read: Option<Seq<u8>>) -> Map<(int, int), Color> {
        match (self, read) {
            (Stage::Line { channel, row }, Some(line)) => paint_line(
                page,
                channel,
                row as int,
                line,
                Cz6pv1::PAGE_WIDTH as int,
            ),
            _ => page.pixels,
        }
    }

    /// The read that the decoder makes at `pos` in `input`: the bytes it asks
    /// for, or `None` where fewer are left.
    pub open spec fn read_at(self, input: Seq<u8>, pos: int) -> Option<Seq<u8>> {
        if pos + self.wanted() <= input.len() {
            Some(input.subrange(pos, pos + self.wanted()))
        } else {
            None
        }
    }

    /// The stage and the page after the job that reads `input` from `pos` to
    /// its end.
    pub open spec fn run(self, page: Raster, input: Seq<u8>, pos: int) -> (Stage, Raster)
        decreases input.len() - pos,
    {
        if self.ended() || pos < 0 || pos > input.len() {
            (self, page)
        } else {
            let read = self.read_at(input, pos);
            if read is None {
                (self.next(read), page)
            } else {
                self.next(read).run(
                    page.with_pixels(self.paint(page, read)),
                    input,
                    pos + self.wanted(),
                )
            }
        }
    }
}

/// The stage in which a job ends that has read `lines` rows.
pub open spec fn stage_after(lines: int) -> Stage {
    if lines == page_lines() {
        Stage::Page
    } else {
        Stage::Nothing
    }
}

/// The decoder. Nothing of a job stays for the next one.
pub struct Cz6pv1 {
    stage: Stage,
}

impl View for Cz6pv1 {
    type V = Stage;

    closed spec fn view(&self) -> Stage {
        self.stage
    }
}

impl Default for Cz6pv1 {
    /// A decoder that has decoded nothing.
    fn default() -> (p: Cz6pv1)
        ensures
            p@ == Stage::Nothing,
    {
        Cz6pv1 { stage: Stage::Nothing }
    }
}

/// The intensity that the byte `sample` stands for in the row `row`.
pub fn scale(row: u32, sample: u8) -> (value: u8)
    ensures
        value == intensity(row as nat, sample),
{
    let v = sample & 0x3F;
    assert(sample & 0x3F <= 63) by (bit_vector);
    if row < SECOND_HALF {
        4 * v
    } else if v >= 7 {
        (9 * ((v - 7) as u32) / 2) as u8
    } else {
        0
    }
}

impl Cz6pv1 {
    /// The width of the page, and the number of bytes in a row of a plane.
    pub const PAGE_WIDTH: u32 = 0x200;

    /// The height of the page, and the number of rows in a plane.
    pub const PAGE_HEIGHT: u32 = 992;

    /// Starts a job: the next byte is the command.
    pub fn begin(&mut self)
        ensures
            final(self)@ == Stage::Command,
    {
        self.stage = Stage::Command;
    }

    /// The number of bytes to read next; 0 when the job has ended.
    pub fn wanted(&self) -> (n: usize)
        ensures
            n == self@.wanted(),
    {
        match self.stage {
            Stage::Command => 1,
            Stage::Line { .. } => Cz6pv1::PAGE_WIDTH as usize,
            _ => 0,
        }
    }

    /// What the next read is for, or how the job has ended.
    pub fn stage(&self) -> (s: Stage)
        ensures
            s == self@,
    {
        self.stage
    }

    /// What is covered: the whole page once it is decoded, and nothing
    /// before.
    pub fn covered(&self) -> (c: (u32, u32))
        ensures
            (c.0 as nat, c.1 as nat) == self@.covered(),
    {
        match self.stage {
            Stage::Page => (Cz6pv1::PAGE_WIDTH, Cz6pv1::PAGE_HEIGHT),
            _ => (0, 0),
        }
    }

    /// Writes the row `line` of a plane to `channel` in the row `row`.
    fn write_line(channel: Channel, row: u32, line: &[u8], img: &mut RasterImage)
        requires
            line@.len() == Cz6pv1::PAGE_WIDTH,
        ensures
            final(img)@ == old(img)@.with_pixels(
                paint_line(old(img)@, channel, row as int, line@, Cz6pv1::PAGE_WIDTH as int),
            ),
    {
        let ghost page = img@;
        let width = img.width();
        let height = img.height();
        assert(paint_line(page, channel, row as int, line@, 0) =~= page.pixels);
        let mut x: u32 = 0;
        while x < Cz6pv1::PAGE_WIDTH
            invariant
                x <= Cz6pv1::PAGE_WIDTH,
                line@.len() == Cz6pv1::PAGE_WIDTH,
                page.wf(),
                width == page.width,
                height == page.height,
                img@ == page.with_pixels(paint_line(page, channel, row as int, line@, x as int)),
            decreases Cz6pv1::PAGE_WIDTH - x,
        {
            let ghost k = (x as int, row as int);
            let ghost before = paint_line(page, channel, row as int, line@, x as int);
            let ghost after = paint_line(page, channel, row as int, line@, x + 1);
            if x < width && row < height {
                let under = buffer_get_pixel(img, x, row);
                let c = channel.set(under, scale(row, line[x as usize]));
                buffer_put_pixel(img, x, row, c);
                proof {
                    assert(under == before[k]);
                    assert(img@.pixels =~= before.insert(k, c));
                    assert(before.insert(k, c) =~= after);
                }
            } else {
                assert(before =~= after);
            }
            x = x + 1;
        }
    }

    /// Takes the outcome of the read that the decoder asked for: the bytes,
    /// `wanted()` of them, or `None` where the read failed. A row is written
    /// to `img`. Returns what there is to tell of the read.
    pub fn feed(&mut self, read: Option<&[u8]>, img: &mut RasterImage) -> (notice: Option<Notice>)
        requires
            read matches Some(bytes) ==> bytes@.len() == old(self)@.wanted(),
        ensures
            final(self)@ == old(self)@.next(read_view(read)),
            final(img)@ == old(img)@.with_pixels(old(self)@.paint(old(img)@, read_view(read))),
            notice == old(self)@.notice(read_view(read)),
    {
        let mut notice: Option<Notice> = None;
        match self.stage {
            Stage::Command => {
                match read {
                    Some(bytes) => {
                        if bytes[0] == PAGE_COMMAND {
                            self.stage = Stage::Line { channel: Channel::Blue, row: 0 };
                        } else {
                            self.stage = Stage::Nothing;
                            notice = Some(Notice::UnknownCommand);
                        }
                    },
                    None => {
                        self.stage = Stage::Nothing;
                    },
                }
            },
            Stage::Line { channel, row } => {
                match read {
                    Some(line) => {
                        Cz6pv1::write_line(channel, row, line, img);
                        if row < u32::MAX && row + 1 < Cz6pv1::PAGE_HEIGHT {
                            self.stage = Stage::Line { channel, row: row + 1 };
                        } else {
                            self.stage = match channel {
                                Channel::Blue => Stage::Line { channel: Channel::Green, row: 0 },
                                Channel::Green => Stage::Line { channel: Channel::Red, row: 0 },
                                Channel::Red => Stage::Page,
                            };
                        }
                    },
                    None => {
                        self.stage = Stage::Nothing;
                        notice = Some(Notice::NotEnoughData);
                    },
                }
            },
            _ => {},
        }
        notice
    }
}

impl Printer for Cz6pv1 {
    open spec fn page_width(&self) -> nat {
        Cz6pv1::PAGE_WIDTH as nat
    }

    open spec fn page_height(&self) -> nat {
        Cz6pv1::PAGE_HEIGHT as nat
    }

    open spec fn decoded_page(&self, page: Raster, input: Seq<u8>) -> Raster {
        page.with_pixels(page_after(page, input, lines_read(input)))
    }

    open spec fn decoded_cover(&self, page: Raster, input: Seq<u8>) -> (nat, nat) {
        stage_after(lines_read(input)).covered()
    }

    fn create_image(&self) -> (img: RasterImage) {
        let img = buffer_from_pixel(Cz6pv1::PAGE_WIDTH, Cz6pv1::PAGE_HEIGHT, Color::white());
        assert(img@.pixels =~= uniform_pixels(
            Cz6pv1::PAGE_WIDTH as nat,
            Cz6pv1::PAGE_HEIGHT as nat,
            Color::spec_white(),
        ));
        img
    }

    /// Decodes the job `input`: reads the command and then the page, row by
    /// row, until the page is whole or the input is used up. This is the job
    /// that `Stage::run` describes read by read.
    fn decode(&mut self, input: &[u8], img: &mut RasterImage) -> (covered: (u32, u32))
        ensures
            final(self)@ == stage_after(lines_read(input@)),
            lines_read(input@) == 0 ==> final(img)@ == old(img)@,
            (final(self)@, final(img)@) == Stage::Command.run(old(img)@, input@, 0),
    {
        proof {
            crate::cz6pv1_proofs::lemma_job(img@, input@);
        }
        self.begin();
        let mut pos: usize = 0;
        loop
            invariant
                pos <= input@.len(),
                self@.run(img@, input@, pos as int) == Stage::Command.run(old(img)@, input@, 0),
            ensures
                self@.ended(),
            decreases input@.len() - pos,
        {
            let n = self.wanted();
            if n == 0 {
                break ;
            }
            if n <= input.len() - pos {
                let bytes = slice_subrange(input, pos, pos + n);
                let _ = self.feed(Some(bytes), img);
                pos = pos + n;
            } else {
                let _ = self.feed(None, img);
                break ;
            }
        }
        self.covered()
    }
}

} // verus!
