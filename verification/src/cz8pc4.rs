//! The decoder of the escape-code protocol: a print head that moves over the
//! page and writes columns of 48 dots, in black or in one of three inks that
//! are printed over each other.
//!
//! The decoder is a machine that asks for its input one read at a time: one
//! byte for a command, a few for its operands, six for a column of dots. A
//! read either delivers exactly the bytes asked for or fails. `Machine` says
//! what each read does to the print head and to the page, `Machine::run` what
//! a whole stream does, and `Cz8pc4` is the executable decoder.

use vstd::prelude::*;
use vstd::slice::slice_subrange;

use crate::printer::{read_view, Notice, Printer};
use crate::raster::{
    buffer_from_pixel, buffer_get_pixel, buffer_put_pixel, uniform_pixels, Color, Raster,
    RasterImage,
};

verus! {

/// The byte that starts an escape sequence.
pub const ESCAPE: u8 = 0x1B;

/// The command byte of a line feed.
pub const LINE_FEED: u8 = 0x0A;

/// The command byte of a carriage return.
pub const CARRIAGE_RETURN: u8 = 0x0D;

/// The sub-command that selects a mode. It has no operands and no effect.
pub const SELECT_MODE: u8 = 0x63;

/// A sub-command of unknown meaning, with one byte of operands.
pub const UNKNOWN_1: u8 = 0x23;

/// The sub-command that sets the line spacing, with two bytes of operands.
/// The line spacing is not applied.
pub const LINE_SPACING: u8 = 0x25;

/// The sub-command that starts printing in the three inks, with yellow.
pub const USE_INKS: u8 = 0x19;

/// A sub-command of unknown meaning, with three bytes of operands.
pub const UNKNOWN_3: u8 = 0x4C;

/// The sub-command of a block of columns: two bytes of count, then the
/// columns.
pub const COLUMNS: u8 = 0x4D;

/// The distance by which a line feed moves the head down, and the number of
/// dots in a column.
pub const LINE_PITCH: u32 = 48;

/// The number of bytes that hold one column of dots.
pub const COLUMN_BYTES: usize = 6;

/// The ink that the head prints with.
#[derive(Clone, Copy, Debug, PartialEq, Eq, Structural)]
pub enum ColorPlane {
    /// One pass: every dot of a column overwrites its pixel.
    Black,
    Yellow,
    Magenta,
    Cyan,
}

impl ColorPlane {
    /// The plane after a carriage return: the three inks follow each other in
    /// a circle, and black stays black.
    pub open spec fn spec_next(self) -> ColorPlane {
        match self {
            ColorPlane::Black => ColorPlane::Black,
            ColorPlane::Yellow => ColorPlane::Magenta,
            ColorPlane::Magenta => ColorPlane::Cyan,
            ColorPlane::Cyan => ColorPlane::Yellow,
        }
    }

    #[verifier::when_used_as_spec(spec_next)]
    pub fn next(self) -> (p: ColorPlane)
        ensures
            p == self.spec_next(),
    {
        match self {
            ColorPlane::Black => ColorPlane::Black,
            ColorPlane::Yellow => ColorPlane::Magenta,
            ColorPlane::Magenta => ColorPlane::Cyan,
            ColorPlane::Cyan => ColorPlane::Yellow,
        }
    }

    /// The number of the plane: 0 for black, then 1, 2, 3.
    pub open spec fn spec_index(self) -> u32 {
        match self {
            ColorPlane::Black => 0,
            ColorPlane::Yellow => 1,
            ColorPlane::Magenta => 2,
            ColorPlane::Cyan => 3,
        }
    }

    #[verifier::when_used_as_spec(spec_index)]
    pub fn index(self) -> (i: u32)
        ensures
            i == self.spec_index(),
    {
        match self {
            ColorPlane::Black => 0,
            ColorPlane::Yellow => 1,
            ColorPlane::Magenta => 2,
            ColorPlane::Cyan => 3,
        }
    }

    /// Whether a dot of this plane writes its pixel: in black every dot does,
    /// in the inks only a set one.
    pub open spec fn spec_writes(self, dot: bool) -> bool {
        self == ColorPlane::Black || dot
    }

    #[verifier::when_used_as_spec(spec_writes)]
    pub fn writes(self, dot: bool) -> (w: bool)
        ensures
            w == self.spec_writes(dot),
    {
        match self {
            ColorPlane::Black => true,
            _ => dot,
        }
    }

    /// The colour that a dot of this plane leaves on a pixel that held
    /// `under`. A black dot is black when set and white when clear. An ink
    /// takes away the channel that it absorbs: yellow the blue one, magenta
    /// the green one, cyan the red one.
    pub open spec fn spec_ink(self, under: Color, dot: bool) -> Color {
        match self {
            ColorPlane::Black => if dot {
                Color::spec_black()
            } else {
                Color::spec_white()
            },
            ColorPlane::Yellow => Color { r: under.r, g: under.g, b: 0 },
            ColorPlane::Magenta => Color { r: under.r, g: 0, b: under.b },
            ColorPlane::Cyan => Color { r: 0, g: under.g, b: under.b },
        }
    }

    #[verifier::when_used_as_spec(spec_ink)]
    pub fn ink(self, under: Color, dot: bool) -> (c: Color)
        ensures
            c == self.spec_ink(under, dot),
    {
        match self {
            ColorPlane::Black => if dot {
                Color::black()
            } else {
                Color::white()
            },
            ColorPlane::Yellow => Color { r: under.r, g: under.g, b: 0 },
            ColorPlane::Magenta => Color { r: under.r, g: 0, b: under.b },
            ColorPlane::Cyan => Color { r: 0, g: under.g, b: under.b },
        }
    }
}

/// Where in the stream the decoder stands: what its next read is for.
#[derive(Clone, Copy, Debug, PartialEq, Eq, Structural)]
pub enum Phase {
    /// Between commands: the next byte is a command.
    Command,
    /// After the escape byte: the next byte selects the sub-command.
    Escape,
    /// After the sub-command `UNKNOWN_1`: one byte follows.
    Unknown1,
    /// After the sub-command `LINE_SPACING`: the two bytes of the line
    /// spacing follow.
    LineSpacing,
    /// After the sub-command `UNKNOWN_3`: three bytes follow.
    Unknown3,
    /// After the sub-command `COLUMNS`: the two bytes of the column count
    /// follow.
    ColumnCount,
    /// In a block of `count` columns: the six bytes of column `index` follow.
    Column { index: u32, count: u32 },
    /// The job has ended: nothing more is read.
    Ended,
}

/// The number of bytes that the next read asks for; 0 when the job has ended.
pub open spec fn wanted(phase: Phase) -> nat {
    match phase {
        Phase::Command => 1,
        Phase::Escape => 1,
        Phase::Unknown1 => 1,
        Phase::LineSpacing => 2,
        Phase::Unknown3 => 3,
        Phase::ColumnCount => 2,
        Phase::Column { .. } => 6,
        Phase::Ended => 0,
    }
}

/// A bound on the number of reads that can still fail before the job ends.
pub open spec fn patience(phase: Phase) -> nat {
    match phase {
        Phase::Ended => 0,
        Phase::Column { index, count } => if index < count {
            (count - index + 1) as nat
        } else {
            2
        },
        _ => 1,
    }
}

/// A position of the head: it stops at the largest number that 32 bits hold,
/// far off every page.
pub open spec fn saturating(n: nat) -> nat {
    if n > u32::MAX {
        u32::MAX as nat
    } else {
        n
    }
}

/// The larger of two numbers.
pub open spec fn larger(a: nat, b: nat) -> nat {
    if a >= b {
        a
    } else {
        b
    }
}

/// The smaller of two numbers.
pub open spec fn smaller(a: nat, b: nat) -> nat {
    if a <= b {
        a
    } else {
        b
    }
}

/// Whether `b` is a sub-command of an escape sequence that the decoder knows.
pub open spec fn known_escape(b: u8) -> bool {
    b == SELECT_MODE || b == UNKNOWN_1 || b == LINE_SPACING || b == USE_INKS || b == UNKNOWN_3
        || b == COLUMNS
}

/// The number of columns of a block whose count bytes are `hi` and `lo`: the
/// big-endian count, and no more than the page is wide.
pub open spec fn column_count(hi: u8, lo: u8) -> nat {
    if hi * 256 + lo > Cz8pc4::PAGE_WIDTH {
        Cz8pc4::PAGE_WIDTH as nat
    } else {
        (hi * 256 + lo) as nat
    }
}

/// Dot `j` of a column, counted from the top: the bytes of a column follow
/// each other downwards, and in each byte the most significant bit is the
/// topmost dot.
pub open spec fn dot(col: Seq<u8>, j: int) -> bool {
    (col[j / 8] >> ((7 - j % 8) as u32)) & 1 == 1
}

/// Whether the first `dots` dots of the column `col`, printed in `plane` with
/// its top at `(x, top)`, write the pixel `k`: a dot off the page writes
/// nothing.
pub open spec fn column_writes(
    page: Raster,
    plane: ColorPlane,
    x: int,
    top: int,
    col: Seq<u8>,
    dots: int,
    k: (int, int),
) -> bool {
    &&& k.0 == x
    &&& top <= k.1 < top + dots
    &&& page.contains(k.0, k.1)
    &&& plane.spec_writes(dot(col, k.1 - top))
}

/// The pixels of `page` after the first `dots` dots of the column `col` were
/// printed in `plane` with its top at `(x, top)`.
pub open spec fn paint_column(
    page: Raster,
    plane: ColorPlane,
    x: int,
    top: int,
    col: Seq<u8>,
    dots: int,
) -> Map<(int, int), Color> {
    Map::new(
        |k: (int, int)| page.pixels.dom().contains(k),
        |k: (int, int)|
            if column_writes(page, plane, x, top, col, dots, k) {
                plane.spec_ink(page.pixels[k], dot(col, k.1 - top))
            } else {
                page.pixels[k]
            },
    )
}

/// The lowest row covered so far, after the first `dots` dots of a column:
/// `covered` before the column, and the row of each dot that was written.
pub open spec fn column_cover(
    covered: nat,
    page: Raster,
    plane: ColorPlane,
    x: int,
    top: int,
    col: Seq<u8>,
    dots: int,
) -> nat
    decreases dots,
{
    if dots <= 0 {
        covered
    } else {
        let before = column_cover(covered, page, plane, x, top, col, dots - 1);
        if column_writes(page, plane, x, top, col, dots, (x, top + dots - 1)) {
            larger(before, (top + dots - 1) as nat)
        } else {
            before
        }
    }
}

/// The state of the decoder.
pub struct Machine {
    /// The column of the head; a block of columns starts here.
    pub head_x: nat,
    /// The row of the head; the top of each column.
    pub head_y: nat,
    /// The furthest column that the head has reached at the end of a block,
    /// as far as the page goes: where the head stood past the right edge,
    /// the edge.
    pub covered_x: nat,
    /// The lowest row in which a pixel was written.
    pub covered_y: nat,
    pub plane: ColorPlane,
    pub phase: Phase,
}

impl Machine {
    /// A decoder before its first job.
    pub open spec fn fresh() -> Machine {
        Machine {
            head_x: 0,
            head_y: 0,
            covered_x: 0,
            covered_y: 0,
            plane: ColorPlane::Black,
            phase: Phase::Ended,
        }
    }

    /// The start of a job: the head returns to the left margin and the next
    /// byte is a command. The row, the plane and what is covered stay.
    pub open spec fn begin(self) -> Machine {
        Machine { head_x: 0, phase: Phase::Command, ..self }
    }

    /// What is covered: the furthest column, as far as the page goes, and
    /// the lowest row.
    pub open spec fn covered(self) -> (nat, nat) {
        (self.covered_x, self.covered_y)
    }

    /// After the command byte `b`.
    pub open spec fn after_command(self, b: u8) -> Machine {
        if b == ESCAPE {
            Machine { phase: Phase::Escape, ..self }
        } else if b == LINE_FEED {
            Machine { head_x: 0, head_y: saturating(self.head_y + LINE_PITCH as nat), ..self }
        } else if b == CARRIAGE_RETURN {
            Machine { head_x: 0, plane: self.plane.spec_next(), ..self }
        } else {
            self
        }
    }

    /// After the sub-command byte `b` of an escape sequence. An unknown
    /// sub-command has no operands: the next byte is a command again.
    pub open spec fn after_escape(self, b: u8) -> Machine {
        if b == SELECT_MODE {
            Machine { phase: Phase::Command, ..self }
        } else if b == UNKNOWN_1 {
            Machine { phase: Phase::Unknown1, ..self }
        } else if b == LINE_SPACING {
            Machine { phase: Phase::LineSpacing, ..self }
        } else if b == USE_INKS {
            Machine { plane: ColorPlane::Yellow, phase: Phase::Command, ..self }
        } else if b == UNKNOWN_3 {
            Machine { phase: Phase::Unknown3, ..self }
        } else if b == COLUMNS {
            Machine { phase: Phase::ColumnCount, ..self }
        } else {
            Machine { phase: Phase::Command, ..self }
        }
    }

    /// After a block of `count` columns on a page of the width `width`: the
    /// head has moved right by the whole block, whatever became of its
    /// columns, and may stand past the right edge of the page. What is
    /// covered reaches as far as the head, but not off the page.
    pub open spec fn after_block(self, count: nat, width: nat) -> Machine {
        let head_x = saturating(self.head_x + count);
        Machine {
            head_x,
            covered_x: larger(self.covered_x, smaller(head_x, width)),
            phase: Phase::Command,
            ..self
        }
    }

    /// After the two bytes of a column count, on a page of the width
    /// `width`.
    pub open spec fn after_count(self, hi: u8, lo: u8, width: nat) -> Machine {
        let count = column_count(hi, lo);
        if count == 0 {
            self.after_block(0, width)
        } else {
            Machine { phase: Phase::Column { index: 0, count: count as u32 }, ..self }
        }
    }

    /// After column `index` of a block of `count`, read or not, on a page of
    /// the width `width`: the next column, or the end of the block.
    pub open spec fn after_column(self, index: u32, count: u32, width: nat) -> Machine {
        if index + 1 < count {
            Machine { phase: Phase::Column { index: (index + 1) as u32, count }, ..self }
        } else {
            self.after_block(count as nat, width)
        }
    }

    /// The state after one read. `read` holds the bytes that were asked for,
    /// or is `None` where the read failed. A column that could not be read is
    /// passed over and the block goes on; any other failed read ends the job.
    pub open spec fn next(self, page: Raster, read: Option<Seq<u8>>) -> Machine {
        match self.phase {
            Phase::Ended => self,
            Phase::Column { index, count } => match read {
                Some(col) => Machine {
                    covered_y: column_cover(
                        self.covered_y,
                        page,
                        self.plane,
                        self.head_x + index,
                        self.head_y as int,
                        col,
                        LINE_PITCH as int,
                    ),
                    ..self
                }.after_column(index, count, page.width),
                None => self.after_column(index, count, page.width),
            },
            _ => match read {
                None => Machine { phase: Phase::Ended, ..self },
                Some(bytes) => match self.phase {
                    Phase::Command => self.after_command(bytes[0]),
                    Phase::Escape => self.after_escape(bytes[0]),
                    Phase::ColumnCount => self.after_count(bytes[0], bytes[1], page.width),
                    _ => Machine { phase: Phase::Command, ..self },
                },
            },
        }
    }

    /// What the decoder tells of one read: that it passed over an escape
    /// sequence whose sub-command it does not know.
    pub open spec fn notice(self, read: Option<Seq<u8>>) -> Option<Notice> {
        match (self.phase, read) {
            (Phase::Escape, Some(bytes)) => if known_escape(bytes[0]) {
                None
            } else {
                Some(Notice::UnsupportedEscape(bytes[0]))
            },
            _ => None,
        }
    }

    /// The pixels after one read: only a column that was read changes them.
    pub open spec fn paint(self, page: Raster, read: Option<Seq<u8>>) -> Map<(int, int), Color> {
        match (self.phase, read) {
            (Phase::Column { index, count }, Some(col)) => paint_column(
                page,
                self.plane,
                self.head_x + index,
                self.head_y as int,
                col,
                LINE_PITCH as int,
            ),
            _ => page.pixels,
        }
    }

    /// The read that the decoder makes at `pos` in `input`: the bytes it asks
    /// for, or `None` where fewer are left.
    pub open spec fn read_at(self, input: Seq<u8>, pos: int) -> Option<Seq<u8>> {
        if pos + wanted(self.phase) <= input.len() {
            Some(input.subrange(pos, pos + wanted(self.phase)))
        } else {
            None
        }
    }

    /// Where the input stands after that read: a read that fails uses up
    /// what was left.
    pub open spec fn pos_after(self, input: Seq<u8>, pos: int) -> int {
        if pos + wanted(self.phase) <= input.len() {
            pos + wanted(self.phase)
        } else {
            input.len() as int
        }
    }

    /// The decoder and the page after the job that reads `input` from `pos`
    /// to its end.
    pub open spec fn run(self, page: Raster, input: Seq<u8>, pos: int) -> (Machine, Raster)
        decreases input.len() - pos, patience(self.phase),
    {
        if self.phase == Phase::Ended || pos < 0 || pos > input.len() {
            (self, page)
        } else {
            let read = self.read_at(input, pos);
            self.next(page, read).run(
                page.with_pixels(self.paint(page, read)),
                input,
                self.pos_after(input, pos),
            )
        }
    }
}

/// The decoder. It keeps the row of the head, the plane and what is covered
/// from one job to the next.
pub struct Cz8pc4 {
    head_x: u32,
    head_y: u32,
    covered_x: u32,
    covered_y: u32,
    color: ColorPlane,
    phase: Phase,
}

impl View for Cz8pc4 {
    type V = Machine;

    closed spec fn view(&self) -> Machine {
        Machine {
            head_x: self.head_x as nat,
            head_y: self.head_y as nat,
            covered_x: self.covered_x as nat,
            covered_y: self.covered_y as nat,
            plane: self.color,
            phase: self.phase,
        }
    }
}

impl Default for Cz8pc4 {
    /// A decoder before its first job: the head at the top, black, nothing
    /// covered.
    fn default() -> (p: Cz8pc4)
        ensures
            p@ == Machine::fresh(),
    {
        Cz8pc4 {
            head_x: 0,
            head_y: 0,
            covered_x: 0,
            covered_y: 0,
            color: ColorPlane::Black,
            phase: Phase::Ended,
        }
    }
}

impl Cz8pc4 {
    /// The width of the page, and the largest number of columns in one
    /// block.
    pub const PAGE_WIDTH: u32 = 2988;

    /// The height of the page.
    pub const PAGE_HEIGHT: u32 = 2000;

    /// Starts a job: the head returns to the left margin, and the next byte
    /// is a command.
    pub fn begin(&mut self)
        ensures
            final(self)@ == old(self)@.begin(),
    {
        self.head_x = 0;
        self.phase = Phase::Command;
    }

    /// The number of bytes to read next; 0 when the job has ended.
    pub fn wanted(&self) -> (n: usize)
        ensures
            n == wanted(self@.phase),
    {
        match self.phase {
            Phase::Command => 1,
            Phase::Escape => 1,
            Phase::Unknown1 => 1,
            Phase::LineSpacing => 2,
            Phase::Unknown3 => 3,
            Phase::ColumnCount => 2,
            Phase::Column { .. } => COLUMN_BYTES,
            Phase::Ended => 0,
        }
    }

    /// What is covered: the furthest column, as far as the pages of the
    /// jobs went, and the lowest row.
    pub fn covered(&self) -> (c: (u32, u32))
        ensures
            (c.0 as nat, c.1 as nat) == self@.covered(),
    {
        (self.covered_x, self.covered_y)
    }

    /// Where the head stands: its column and its row.
    pub fn head(&self) -> (h: (u32, u32))
        ensures
            h.0 == self@.head_x,
            h.1 == self@.head_y,
    {
        (self.head_x, self.head_y)
    }

    /// The ink that the head prints with.
    pub fn plane(&self) -> (p: ColorPlane)
        ensures
            p == self@.plane,
    {
        self.color
    }

    /// What the next read is for.
    pub fn phase(&self) -> (p: Phase)
        ensures
            p == self@.phase,
    {
        self.phase
    }

    /// Makes the decoder ready for a new page: the head goes back to the
    /// top, the plane to black, and nothing is covered.
    pub fn reset(&mut self)
        ensures
            final(self)@ == Machine::fresh(),
    {
        self.head_x = 0;
        self.head_y = 0;
        self.covered_x = 0;
        self.covered_y = 0;
        self.color = ColorPlane::Black;
        self.phase = Phase::Ended;
    }

    /// Prints the column `col` of 48 dots with its top at the head, `index`
    /// columns to the right of it.
    fn print_column(&mut self, index: u32, col: &[u8], img: &mut RasterImage)
        requires
            col@.len() == COLUMN_BYTES,
        ensures
            final(self)@ == (Machine {
                covered_y: column_cover(
                    old(self)@.covered_y,
                    old(img)@,
                    old(self)@.plane,
                    old(self)@.head_x + index,
                    old(self)@.head_y as int,
                    col@,
                    LINE_PITCH as int,
                ),
                ..old(self)@
            }),
            final(img)@ == old(img)@.with_pixels(
                paint_column(
                    old(img)@,
                    old(self)@.plane,
                    old(self)@.head_x + index,
                    old(self)@.head_y as int,
                    col@,
                    LINE_PITCH as int,
                ),
            ),
    {
        let ghost page = img@;
        let ghost start = self@;
        let ghost top = start.head_y as int;
        let x: u64 = self.head_x as u64 + index as u64;
        let width = img.width();
        let height = img.height();
        assert(paint_column(page, start.plane, x as int, top, col@, 0) =~= page.pixels);
        let mut j: u32 = 0;
        while j < LINE_PITCH
            invariant
                j <= LINE_PITCH,
                col@.len() == COLUMN_BYTES,
                x == start.head_x + index,
                top == start.head_y,
                page.wf(),
                width == page.width,
                height == page.height,
                self@ == (Machine {
                    covered_y: column_cover(
                        start.covered_y,
                        page,
                        start.plane,
                        x as int,
                        top,
                        col@,
                        j as int,
                    ),
                    ..start
                }),
                img@ == page.with_pixels(
                    paint_column(page, start.plane, x as int, top, col@, j as int),
                ),
            decreases LINE_PITCH - j,
        {
            let byte = col[(j / 8) as usize];
            let set = (byte >> (7 - j % 8)) & 1 == 1;
            let y: u64 = self.head_y as u64 + j as u64;
            let ghost k = (x as int, y as int);
            let ghost before = paint_column(page, start.plane, x as int, top, col@, j as int);
            let ghost after = paint_column(page, start.plane, x as int, top, col@, j + 1);
            if x < width as u64 && y < height as u64 && self.color.writes(set) {
                let under = buffer_get_pixel(img, x as u32, y as u32);
                let c = self.color.ink(under, set);
                buffer_put_pixel(img, x as u32, y as u32, c);
                if y as u32 > self.covered_y {
                    self.covered_y = y as u32;
                }
                proof {
                    assert(under == before[k]);
                    assert(img@.pixels =~= before.insert(k, c));
                    assert(before.insert(k, c) =~= after);
                }
            } else {
                assert(before =~= after);
            }
            j = j + 1;
        }
    }

    /// After a block of `count` columns on a page of the width `width`.
    fn end_block(&mut self, count: u32, width: u32)
        ensures
            final(self)@ == old(self)@.after_block(count as nat, width as nat),
    {
        self.head_x = self.head_x.saturating_add(count);
        let reached = if self.head_x > width {
            width
        } else {
            self.head_x
        };
        if reached > self.covered_x {
            self.covered_x = reached;
        }
        self.phase = Phase::Command;
    }

    /// After column `index` of a block of `count` on a page of the width
    /// `width`.
    fn end_column(&mut self, index: u32, count: u32, width: u32)
        ensures
            final(self)@ == old(self)@.after_column(index, count, width as nat),
    {
        if index < u32::MAX && index + 1 < count {
            self.phase = Phase::Column { index: index + 1, count };
        } else {
            self.end_block(count, width);
        }
    }

    /// Takes the outcome of the read that the decoder asked for: the bytes,
    /// `wanted()` of them, or `None` where the read failed. A column is
    /// printed on `img`; everything else moves the head or changes what the
    /// decoder reads next. Returns what there is to tell of the read.
    pub fn feed(&mut self, read: Option<&[u8]>, img: &mut RasterImage) -> (notice: Option<Notice>)
        requires
            read matches Some(bytes) ==> bytes@.len() == wanted(old(self)@.phase),
        ensures
            final(self)@ == old(self)@.next(old(img)@, read_view(read)),
            final(img)@ == old(img)@.with_pixels(old(self)@.paint(old(img)@, read_view(read))),
            notice == old(self)@.notice(read_view(read)),
    {
        let mut notice: Option<Notice> = None;
        match self.phase {
            Phase::Ended => {},
            Phase::Column { index, count } => {
                match read {
                    Some(col) => {
                        self.print_column(index, col, img);
                    },
                    None => {},
                }
                self.end_column(index, count, img.width());
            },
            phase => {
                match read {
                    None => {
                        self.phase = Phase::Ended;
                    },
                    Some(bytes) => {
                        match phase {
                            Phase::Command => {
                                let b = bytes[0];
                                if b == ESCAPE {
                                    self.phase = Phase::Escape;
                                } else if b == LINE_FEED {
                                    self.head_x = 0;
                                    self.head_y = self.head_y.saturating_add(LINE_PITCH);
                                } else if b == CARRIAGE_RETURN {
                                    self.head_x = 0;
                                    self.color = self.color.next();
                                }
                            },
                            Phase::Escape => {
                                let b = bytes[0];
                                if b == SELECT_MODE {
                                    self.phase = Phase::Command;
                                } else if b == UNKNOWN_1 {
                                    self.phase = Phase::Unknown1;
                                } else if b == LINE_SPACING {
                                    self.phase = Phase::LineSpacing;
                                } else if b == USE_INKS {
                                    self.color = ColorPlane::Yellow;
                                    self.phase = Phase::Command;
                                } else if b == UNKNOWN_3 {
                                    self.phase = Phase::Unknown3;
                                } else if b == COLUMNS {
                                    self.phase = Phase::ColumnCount;
                                } else {
                                    self.phase = Phase::Command;
                                    notice = Some(Notice::UnsupportedEscape(b));
                                }
                            },
                            Phase::ColumnCount => {
                                let sent: u32 = (bytes[0] as u32) * 256 + bytes[1] as u32;
                                let count: u32 = if sent > Cz8pc4::PAGE_WIDTH {
                                    Cz8pc4::PAGE_WIDTH
                                } else {
                                    sent
                                };
                                if count == 0 {
                                    self.end_block(0, img.width());
                                } else {
                                    self.phase = Phase::Column { index: 0, count };
                                }
                            },
                            _ => {
                                self.phase = Phase::Command;
                            },
                        }
                    },
                }
            },
        }
        notice
    }
}

impl Printer for Cz8pc4 {
    open spec fn page_width(&self) -> nat {
        Cz8pc4::PAGE_WIDTH as nat
    }

    open spec fn page_height(&self) -> nat {
        Cz8pc4::PAGE_HEIGHT as nat
    }

    open spec fn decoded_page(&self, page: Raster, input: Seq<u8>) -> Raster {
        self@.begin().run(page, input, 0).1
    }

    open spec fn decoded_cover(&self, page: Raster, input: Seq<u8>) -> (nat, nat) {
        self@.begin().run(page, input, 0).0.covered()
    }

    fn create_image(&self) -> (img: RasterImage) {
        let img = buffer_from_pixel(Cz8pc4::PAGE_WIDTH, Cz8pc4::PAGE_HEIGHT, Color::white());
        assert(img@.pixels =~= uniform_pixels(
            Cz8pc4::PAGE_WIDTH as nat,
            Cz8pc4::PAGE_HEIGHT as nat,
            Color::spec_white(),
        ));
        img
    }

    /// Decodes the job `input`: starts at the left margin, reads until the
    /// input is used up, and leaves the decoder as the job left it. What is
    /// covered never shrinks, and where it lay on the page before the job it
    /// lies on the page after it.
    fn decode(&mut self, input: &[u8], img: &mut RasterImage) -> (covered: (u32, u32))
        ensures
            final(self)@ == old(self)@.begin().run(old(img)@, input@, 0).0,
            covered.0 >= old(self)@.covered_x,
            covered.1 >= old(self)@.covered_y,
            old(self)@.covered_x <= old(img)@.width ==> covered.0 <= old(img)@.width,
            old(self)@.covered_y <= old(img)@.height ==> covered.1 <= old(img)@.height,
    {
        proof {
            let start = self@.begin();
            crate::cz8pc4_proofs::lemma_job_keeps_page(start, img@, input@, 0);
            crate::cz8pc4_proofs::lemma_job_keeps_cover(start, img@, input@, 0);
            crate::cz8pc4_proofs::lemma_covered_row_on_page(start, img@, input@, 0);
            if start.covered_x <= img@.width {
                crate::cz8pc4_proofs::lemma_covered_column_on_page(start, img@, input@, 0);
            }
        }
        self.begin();
        let mut pos: usize = 0;
        loop
            invariant
                pos <= input@.len(),
                self@.run(img@, input@, pos as int) == old(self)@.begin().run(
                    old(img)@,
                    input@,
                    0,
                ),
            ensures
                self@.phase == Phase::Ended,
            decreases input@.len() - pos, patience(self@.phase),
        {
            let n = self.wanted();
            if n == 0 {
                break ;
            }
            if n <= input.len() - pos {
                let bytes = slice_subrange(input, pos, pos + n);
                let _ = self.feed(Some(bytes), img);
                pos = pos + n;
            } else {
                let _ = self.feed(None, img);
                pos = input.len();
            }
        }
        self.covered()
    }
}

} // verus!
