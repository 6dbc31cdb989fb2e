//! What holds of every job of the escape-code decoder.

use vstd::prelude::*;

use crate::cz8pc4::{
    column_count, column_cover, column_writes, dot, larger, patience, saturating, smaller,
    ColorPlane, Cz8pc4, Machine, Phase, CARRIAGE_RETURN, COLUMNS, ESCAPE, LINE_FEED, LINE_PITCH,
    SELECT_MODE, USE_INKS,
};
use crate::printer::Printer;
use crate::raster::{Color, Raster};

verus! {

/// No read changes the size of the page, and none writes a pixel off it.
pub proof fn lemma_read_keeps_page(m: Machine, page: Raster, read: Option<Seq<u8>>)
    requires
        page.wf(),
    ensures
        page.with_pixels(m.paint(page, read)).width == page.width,
        page.with_pixels(m.paint(page, read)).height == page.height,
        page.with_pixels(m.paint(page, read)).wf(),
        m.paint(page, read).dom() == page.pixels.dom(),
{
}

/// No job changes the size of the page, and none writes a pixel off it: the
/// page holds a colour at each of its coordinates and nowhere else, before
/// the job and after it.
pub proof fn lemma_job_keeps_page(m: Machine, page: Raster, input: Seq<u8>, pos: int)
    requires
        page.wf(),
    ensures
        m.run(page, input, pos).1.width == page.width,
        m.run(page, input, pos).1.height == page.height,
        m.run(page, input, pos).1.wf(),
    decreases input.len() - pos, patience(m.phase),
{
    if m.phase == Phase::Ended || pos < 0 || pos > input.len() {
    } else {
        let read = m.read_at(input, pos);
        lemma_read_keeps_page(m, page, read);
        lemma_job_keeps_page(
            m.next(page, read),
            page.with_pixels(m.paint(page, read)),
            input,
            m.pos_after(input, pos),
        );
    }
}

/// A column never lowers what is covered, and what it adds is a row of the
/// page.
pub proof fn lemma_column_cover(
    covered: nat,
    page: Raster,
    plane: ColorPlane,
    x: int,
    top: int,
    col: Seq<u8>,
    dots: int,
)
    ensures
        column_cover(covered, page, plane, x, top, col, dots) >= covered,
        column_cover(covered, page, plane, x, top, col, dots) == covered || column_cover(
            covered,
            page,
            plane,
            x,
            top,
            col,
            dots,
        ) < page.height,
    decreases dots,
{
    if dots > 0 {
        lemma_column_cover(covered, page, plane, x, top, col, dots - 1);
    }
}

/// No read lowers what is covered.
pub proof fn lemma_read_keeps_cover(m: Machine, page: Raster, read: Option<Seq<u8>>)
    ensures
        m.next(page, read).covered_x >= m.covered_x,
        m.next(page, read).covered_y >= m.covered_y,
{
    match m.phase {
        Phase::Column { index, count } => {
            if let Some(col) = read {
                lemma_column_cover(
                    m.covered_y,
                    page,
                    m.plane,
                    m.head_x + index,
                    m.head_y as int,
                    col,
                    LINE_PITCH as int,
                );
            }
        },
        _ => {},
    }
}

/// No job lowers what is covered: the furthest column and the lowest row at
/// its end are at least those at its start.
pub proof fn lemma_job_keeps_cover(m: Machine, page: Raster, input: Seq<u8>, pos: int)
    ensures
        m.run(page, input, pos).0.covered_x >= m.covered_x,
        m.run(page, input, pos).0.covered_y >= m.covered_y,
    decreases input.len() - pos, patience(m.phase),
{
    if m.phase == Phase::Ended || pos < 0 || pos > input.len() {
    } else {
        let read = m.read_at(input, pos);
        lemma_read_keeps_cover(m, page, read);
        lemma_job_keeps_cover(
            m.next(page, read),
            page.with_pixels(m.paint(page, read)),
            input,
            m.pos_after(input, pos),
        );
    }
}

/// The lowest row covered never lies below the page: a job leaves it as it
/// was or moves it to a row of the page.
pub proof fn lemma_covered_row_on_page(m: Machine, page: Raster, input: Seq<u8>, pos: int)
    ensures
        m.run(page, input, pos).0.covered_y == m.covered_y || m.run(
            page,
            input,
            pos,
        ).0.covered_y < page.height,
        m.covered_y <= page.height ==> m.run(page, input, pos).0.covered_y <= page.height,
    decreases input.len() - pos, patience(m.phase),
{
    if m.phase == Phase::Ended || pos < 0 || pos > input.len() {
    } else {
        let read = m.read_at(input, pos);
        match m.phase {
            Phase::Column { index, count } => {
                if let Some(col) = read {
                    lemma_column_cover(
                        m.covered_y,
                        page,
                        m.plane,
                        m.head_x + index,
                        m.head_y as int,
                        col,
                        LINE_PITCH as int,
                    );
                }
            },
            _ => {},
        }
        lemma_covered_row_on_page(
            m.next(page, read),
            page.with_pixels(m.paint(page, read)),
            input,
            m.pos_after(input, pos),
        );
    }
}

/// No read takes the furthest column covered off the page: a block covers
/// as far as the head goes, but not past the right edge.
pub proof fn lemma_read_keeps_covered_column_on_page(
    m: Machine,
    page: Raster,
    read: Option<Seq<u8>>,
)
    requires
        m.covered_x <= page.width,
    ensures
        m.next(page, read).covered_x <= page.width,
{
}

/// The furthest column covered never lies off the page, whatever the job
/// and however far its blocks take the head past the right edge.
pub proof fn lemma_covered_column_on_page(m: Machine, page: Raster, input: Seq<u8>, pos: int)
    requires
        m.covered_x <= page.width,
    ensures
        m.run(page, input, pos).0.covered_x <= page.width,
    decreases input.len() - pos, patience(m.phase),
{
    if m.phase == Phase::Ended || pos < 0 || pos > input.len() {
    } else {
        let read = m.read_at(input, pos);
        lemma_read_keeps_covered_column_on_page(m, page, read);
        lemma_covered_column_on_page(
            m.next(page, read),
            page.with_pixels(m.paint(page, read)),
            input,
            m.pos_after(input, pos),
        );
    }
}

/// Whether `b` is one of the two bytes of a mode selection or a line feed.
pub open spec fn mode_or_line_feed(b: u8) -> bool {
    b == ESCAPE || b == SELECT_MODE || b == LINE_FEED
}

/// A job that holds only mode selections and line feeds prints nothing: the
/// page and what is covered are at its end as they were at its start, and so
/// is the plane.
pub proof fn lemma_no_block_no_ink(m: Machine, page: Raster, input: Seq<u8>, pos: int)
    requires
        m.phase == Phase::Command || m.phase == Phase::Escape || m.phase == Phase::Ended,
        forall|i: int| pos <= i < input.len() ==> mode_or_line_feed(#[trigger] input[i]),
    ensures
        m.run(page, input, pos).1 == page,
        m.run(page, input, pos).0.covered() == m.covered(),
        m.run(page, input, pos).0.plane == m.plane,
    decreases input.len() - pos, patience(m.phase),
{
    if m.phase == Phase::Ended || pos < 0 || pos > input.len() {
    } else {
        let read = m.read_at(input, pos);
        lemma_no_block_no_ink(m.next(page, read), page, input, m.pos_after(input, pos));
    }
}

/// The bytes of column `i` of a block whose columns start at `base` in
/// `input`.
pub open spec fn block_column(input: Seq<u8>, base: int, i: int) -> Seq<u8> {
    input.subrange(base + 6 * i, base + 6 * i + 6)
}

/// Whether the columns `from` to `to - 1` of a block write the pixel `k`.
/// The block is printed in `plane` with its left end at `x0` and its top at
/// `top`, and its columns start at `base` in `input`.
pub open spec fn block_writes(
    page: Raster,
    plane: ColorPlane,
    x0: int,
    top: int,
    input: Seq<u8>,
    base: int,
    from: int,
    to: int,
    k: (int, int),
) -> bool {
    &&& x0 + from <= k.0 < x0 + to
    &&& column_writes(
        page,
        plane,
        k.0,
        top,
        block_column(input, base, k.0 - x0),
        LINE_PITCH as int,
        k,
    )
}

/// The pixels of `page` after the columns `from` to `to - 1` of a block were
/// printed: each column stands one pixel to the right of the one before.
pub open spec fn paint_block(
    page: Raster,
    plane: ColorPlane,
    x0: int,
    top: int,
    input: Seq<u8>,
    base: int,
    from: int,
    to: int,
) -> Map<(int, int), Color> {
    Map::new(
        |k: (int, int)| page.pixels.dom().contains(k),
        |k: (int, int)|
            if block_writes(page, plane, x0, top, input, base, from, to, k) {
                plane.spec_ink(
                    page.pixels[k],
                    dot(block_column(input, base, k.0 - x0), k.1 - top),
                )
            } else {
                page.pixels[k]
            },
    )
}

/// The lowest row covered after the columns `from` to `to - 1` of a block,
/// where it was `covered` before them.
pub open spec fn block_cover(
    covered: nat,
    page: Raster,
    plane: ColorPlane,
    x0: int,
    top: int,
    input: Seq<u8>,
    base: int,
    from: int,
    to: int,
) -> nat
    decreases to - from,
{
    if from >= to {
        covered
    } else {
        block_cover(
            column_cover(
                covered,
                page,
                plane,
                x0 + from,
                top,
                block_column(input, base, from),
                LINE_PITCH as int,
            ),
            page,
            plane,
            x0,
            top,
            input,
            base,
            from + 1,
            to,
        )
    }
}

/// The number of columns that can be read whole where `columns` are still to
/// come and `bytes` bytes are left.
pub open spec fn whole_columns(columns: int, bytes: int) -> int {
    if bytes / 6 < columns {
        bytes / 6
    } else {
        columns
    }
}

/// What a column covers depends on the page by its size alone.
proof fn lemma_column_cover_by_size(
    covered: nat,
    a: Raster,
    b: Raster,
    plane: ColorPlane,
    x: int,
    top: int,
    col: Seq<u8>,
    dots: int,
)
    requires
        a.width == b.width,
        a.height == b.height,
    ensures
        column_cover(covered, a, plane, x, top, col, dots) == column_cover(
            covered,
            b,
            plane,
            x,
            top,
            col,
            dots,
        ),
    decreases dots,
{
    if dots > 0 {
        lemma_column_cover_by_size(covered, a, b, plane, x, top, col, dots - 1);
    }
}

/// What a block covers depends on the page by its size alone.
proof fn lemma_block_cover_by_size(
    covered: nat,
    a: Raster,
    b: Raster,
    plane: ColorPlane,
    x0: int,
    top: int,
    input: Seq<u8>,
    base: int,
    from: int,
    to: int,
)
    requires
        a.width == b.width,
        a.height == b.height,
    ensures
        block_cover(covered, a, plane, x0, top, input, base, from, to) == block_cover(
            covered,
            b,
            plane,
            x0,
            top,
            input,
            base,
            from,
            to,
        ),
    decreases to - from,
{
    if from < to {
        let col = block_column(input, base, from);
        lemma_column_cover_by_size(covered, a, b, plane, x0 + from, top, col, LINE_PITCH as int);
        lemma_block_cover_by_size(
            column_cover(covered, a, plane, x0 + from, top, col, LINE_PITCH as int),
            a,
            b,
            plane,
            x0,
            top,
            input,
            base,
            from + 1,
            to,
        );
    }
}

/// The decoder and the page after the columns of a block that are still to
/// come, `index` to `count - 1`. The columns that can be read whole are
/// printed side by side. Where the input ends before the block does, the
/// columns that are left print nothing, but the block is not cut short: the
/// head moves right by all `count` columns, and the job goes on from there.
pub proof fn lemma_rest_of_block(
    m: Machine,
    page: Raster,
    input: Seq<u8>,
    pos: int,
    index: u32,
    count: u32,
)
    requires
        page.wf(),
        m.phase == (Phase::Column { index, count }),
        index < count,
        0 <= pos <= input.len(),
    ensures
        ({
            let base = pos - 6 * index;
            let to = index + whole_columns(count - index, input.len() - pos);
            m.run(page, input, pos) == (Machine {
                covered_y: block_cover(
                    m.covered_y,
                    page,
                    m.plane,
                    m.head_x as int,
                    m.head_y as int,
                    input,
                    base,
                    index as int,
                    to,
                ),
                ..m
            }).after_block(count as nat, page.width).run(
                page.with_pixels(
                    paint_block(
                        page,
                        m.plane,
                        m.head_x as int,
                        m.head_y as int,
                        input,
                        base,
                        index as int,
                        to,
                    ),
                ),
                input,
                if to == count {
                    base + 6 * count
                } else {
                    input.len() as int
                },
            )
        }),
    decreases count - index,
{
    let base = pos - 6 * index;
    let x0 = m.head_x as int;
    let top = m.head_y as int;
    let to = index + whole_columns(count - index, input.len() - pos);
    let read = m.read_at(input, pos);
    let m1 = m.next(page, read);
    let page1 = page.with_pixels(m.paint(page, read));
    let pos1 = m.pos_after(input, pos);
    let pixels = paint_block(page, m.plane, x0, top, input, base, index as int, to);
    if pos + 6 <= input.len() {
        // The column is read. The columns behind it find the page as this
        // one left it, and none of them stands where this one does.
        let col = block_column(input, base, index as int);
        let c1 = column_cover(m.covered_y, page, m.plane, x0 + index, top, col, LINE_PITCH as int);
        lemma_block_cover_by_size(c1, page, page1, m.plane, x0, top, input, base, index + 1, to);
        assert(paint_block(page1, m.plane, x0, top, input, base, index + 1, to) =~= pixels);
        if index + 1 < count {
            lemma_rest_of_block(m1, page1, input, pos1, (index + 1) as u32, count);
        } else {
            assert(page1.pixels =~= pixels);
        }
    } else {
        // The column is short. Its read uses up the input, so no column
        // behind it is read either.
        assert(pixels =~= page.pixels);
        if index + 1 < count {
            lemma_rest_of_block(m1, page, input, pos1, (index + 1) as u32, count);
            let base1 = pos1 - 6 * (index + 1);
            assert(paint_block(page, m.plane, x0, top, input, base1, index + 1, index + 1)
                =~= page.pixels);
        }
    }
}

/// Whether a block of columns starts at `pos` in `input`: the escape byte,
/// the sub-command and the two bytes of the count.
pub open spec fn block_starts_at(input: Seq<u8>, pos: int) -> bool {
    &&& 0 <= pos
    &&& pos + 4 <= input.len()
    &&& input[pos] == ESCAPE
    &&& input[pos + 1] == COLUMNS
}

/// The number of columns of the block that starts at `pos` in `input`.
pub open spec fn block_count(input: Seq<u8>, pos: int) -> nat {
    column_count(input[pos + 2], input[pos + 3])
}

/// The decoder and the page after a block of columns. The columns that can be
/// read whole are printed side by side from the head to the right, and the
/// head moves right by the number of columns that the block announced. The
/// job goes on behind the block, or at the end of the input where that came
/// first.
pub proof fn lemma_block(m: Machine, page: Raster, input: Seq<u8>, pos: int)
    requires
        page.wf(),
        m.phase == Phase::Command,
        block_starts_at(input, pos),
    ensures
        ({
            let count = block_count(input, pos);
            let whole = whole_columns(count as int, input.len() - (pos + 4));
            m.run(page, input, pos) == (Machine {
                covered_y: block_cover(
                    m.covered_y,
                    page,
                    m.plane,
                    m.head_x as int,
                    m.head_y as int,
                    input,
                    pos + 4,
                    0,
                    whole,
                ),
                ..m
            }).after_block(count, page.width).run(
                page.with_pixels(
                    paint_block(
                        page,
                        m.plane,
                        m.head_x as int,
                        m.head_y as int,
                        input,
                        pos + 4,
                        0,
                        whole,
                    ),
                ),
                input,
                if whole == count {
                    pos + 4 + 6 * count
                } else {
                    input.len() as int
                },
            )
        }),
{
    // Three reads take the decoder to the first column: the escape byte, the
    // sub-command and the count.
    let count = block_count(input, pos);
    let escape = Machine { phase: Phase::Escape, ..m };
    let counting = Machine { phase: Phase::ColumnCount, ..m };
    assert(escape.run(page, input, pos + 1) == counting.run(page, input, pos + 2));
    let counted = counting.next(page, Some(input.subrange(pos + 2, pos + 4)));
    if count == 0 {
        assert(paint_block(page, m.plane, m.head_x as int, m.head_y as int, input, pos + 4, 0, 0)
            =~= page.pixels);
    } else {
        lemma_rest_of_block(counted, page, input, pos + 4, 0, count as u32);
    }
}

/// A column that could not be read is passed over: the page stays as it was,
/// nothing more is covered, and the job does not end. The decoder goes on to
/// the next column of the block, or behind the block where this was its last
/// column, and the head moves as if the column had been there.
pub proof fn lemma_column_not_read(m: Machine, page: Raster, index: u32, count: u32)
    requires
        m.phase == (Phase::Column { index, count }),
    ensures
        m.paint(page, None) == page.pixels,
        m.next(page, None) == m.after_column(index, count, page.width),
        m.next(page, None).phase != Phase::Ended,
        m.next(page, None).covered_y == m.covered_y,
        index + 1 < count ==> m.next(page, None) == (Machine {
            phase: Phase::Column { index: (index + 1) as u32, count },
            ..m
        }),
        index + 1 >= count ==> m.next(page, None) == m.after_block(count as nat, page.width),
{
}

/// A block whose columns the input does not hold in full. The columns that
/// are whole are printed. The column that is short, be it by one byte, and
/// those behind it leave their pixels as they were. The block counts in
/// full all the same: the head stands `count` columns to the right, and the
/// job ends only because the input has.
pub proof fn lemma_short_block(m: Machine, page: Raster, input: Seq<u8>, pos: int)
    requires
        page.wf(),
        m.phase == Phase::Command,
        block_starts_at(input, pos),
        input.len() - (pos + 4) < 6 * block_count(input, pos),
    ensures
        ({
            let count = block_count(input, pos);
            let whole = (input.len() - (pos + 4)) / 6;
            let out = m.run(page, input, pos);
            &&& out.1 == page.with_pixels(
                paint_block(
                    page,
                    m.plane,
                    m.head_x as int,
                    m.head_y as int,
                    input,
                    pos + 4,
                    0,
                    whole,
                ),
            )
            &&& forall|k: (int, int)|
                page.contains(k.0, k.1) && k.0 >= m.head_x + whole ==> #[trigger] out.1.pixels[k]
                    == page.pixels[k]
            &&& out.0.head_x == saturating(m.head_x + count)
            &&& out.0.covered_x == larger(
                m.covered_x,
                smaller(saturating(m.head_x + count), page.width),
            )
            &&& out.0.plane == m.plane
            &&& out.0.phase == Phase::Ended
        }),
{
    let count = block_count(input, pos);
    let whole = (input.len() - (pos + 4)) / 6;
    lemma_block(m, page, input, pos);
    let cover = block_cover(
        m.covered_y,
        page,
        m.plane,
        m.head_x as int,
        m.head_y as int,
        input,
        pos + 4,
        0,
        whole,
    );
    let after = (Machine { covered_y: cover, ..m }).after_block(count, page.width);
    let painted = page.with_pixels(
        paint_block(page, m.plane, m.head_x as int, m.head_y as int, input, pos + 4, 0, whole),
    );
    lemma_job_ends_with_input(after, painted, input);
}

/// Where nothing is left to read, the job ends at once: only the phase
/// changes.
pub proof fn lemma_job_ends_with_input(m: Machine, page: Raster, input: Seq<u8>)
    requires
        m.phase == Phase::Command,
    ensures
        m.run(page, input, input.len() as int) == (Machine { phase: Phase::Ended, ..m }, page),
{
    let ended = Machine { phase: Phase::Ended, ..m };
    let at = input.len() as int;
    assert(m.run(page, input, at) == ended.run(page, input, at));
}

/// A set dot: every bit of the byte `0xFF` is set.
proof fn lemma_all_bits_set(s: u32)
    requires
        s < 8,
    ensures
        (0xFFu8 >> s) & 1 == 1,
{
    assert((0xFFu8 >> s) & 1 == 1) by (bit_vector)
        requires
            s < 8,
    ;
}

/// The lowest row that a black block with its top at `top` reaches on a page
/// of the height `height`: its last row, 47 below the top, or the last row of
/// the page where the block runs over it.
pub open spec fn black_reach(top: int, height: nat) -> nat {
    if top + LINE_PITCH <= height {
        (top + LINE_PITCH - 1) as nat
    } else {
        (height - 1) as nat
    }
}

/// In black every dot of a column writes its pixel, set or clear, so a
/// column covers the page as far down as it reaches.
proof fn lemma_black_column_cover(
    covered: nat,
    page: Raster,
    x: int,
    top: int,
    col: Seq<u8>,
    dots: int,
)
    requires
        0 <= top,
        0 <= dots,
    ensures
        column_cover(covered, page, ColorPlane::Black, x, top, col, dots) == if 0 <= x
            < page.width && top < page.height && dots > 0 {
            larger(
                covered,
                if top + dots <= page.height {
                    (top + dots - 1) as nat
                } else {
                    (page.height - 1) as nat
                },
            )
        } else {
            covered
        },
    decreases dots,
{
    if dots > 0 {
        lemma_black_column_cover(covered, page, x, top, col, dots - 1);
    }
}

/// A black block covers the page as far down as it reaches, if one of its
/// columns lies on the page.
proof fn lemma_black_block_cover(
    covered: nat,
    page: Raster,
    x0: int,
    top: int,
    input: Seq<u8>,
    base: int,
    from: int,
    to: int,
)
    requires
        0 <= top,
        0 <= x0,
        0 <= from,
    ensures
        block_cover(covered, page, ColorPlane::Black, x0, top, input, base, from, to) == if from
            < to && x0 + from < page.width && top < page.height {
            larger(covered, black_reach(top, page.height))
        } else {
            covered
        },
    decreases to - from,
{
    if from < to {
        let col = block_column(input, base, from);
        lemma_black_column_cover(covered, page, x0 + from, top, col, LINE_PITCH as int);
        let c1 = column_cover(
            covered,
            page,
            ColorPlane::Black,
            x0 + from,
            top,
            col,
            LINE_PITCH as int,
        );
        lemma_black_block_cover(c1, page, x0, top, input, base, from + 1, to);
    }
}

/// A block of `count` columns in which every dot is set, printed in black
/// and held in full by the input, which ends behind it. It leaves a black
/// rectangle `count` pixels wide and 48 high with its top left corner at the
/// head, as far as that lies on the page, and changes no other pixel. The
/// head stands `count` columns to the right, and the rectangle is covered.
pub proof fn lemma_solid_block(m: Machine, page: Raster, input: Seq<u8>, pos: int)
    requires
        page.wf(),
        m.phase == Phase::Command,
        m.plane == ColorPlane::Black,
        block_starts_at(input, pos),
        input.len() == pos + 4 + 6 * block_count(input, pos),
        forall|i: int| pos + 4 <= i < input.len() ==> #[trigger] input[i] == 0xFF,
    ensures
        ({
            let count = block_count(input, pos);
            let out = m.run(page, input, pos);
            &&& out.1.width == page.width
            &&& out.1.height == page.height
            &&& out.1.wf()
            &&& forall|k: (int, int)|
                page.contains(k.0, k.1) ==> #[trigger] out.1.pixels[k] == if m.head_x <= k.0
                    < m.head_x + count && m.head_y <= k.1 < m.head_y + LINE_PITCH {
                    Color::spec_black()
                } else {
                    page.pixels[k]
                }
            &&& out.0.head_x == saturating(m.head_x + count)
            &&& out.0.head_y == m.head_y
            &&& out.0.covered_x == larger(
                m.covered_x,
                smaller(saturating(m.head_x + count), page.width),
            )
            &&& out.0.covered_y == if count > 0 && page.contains(m.head_x as int, m.head_y as int) {
                larger(m.covered_y, black_reach(m.head_y as int, page.height))
            } else {
                m.covered_y
            }
            &&& out.0.plane == m.plane
            &&& out.0.phase == Phase::Ended
        }),
{
    let count = block_count(input, pos);
    let x0 = m.head_x as int;
    let top = m.head_y as int;
    lemma_block(m, page, input, pos);
    lemma_black_block_cover(m.covered_y, page, x0, top, input, pos + 4, 0, count as int);
    let cover = block_cover(m.covered_y, page, m.plane, x0, top, input, pos + 4, 0, count as int);
    let after = (Machine { covered_y: cover, ..m }).after_block(count, page.width);
    let pixels = paint_block(page, m.plane, x0, top, input, pos + 4, 0, count as int);
    lemma_job_ends_with_input(after, page.with_pixels(pixels), input);
    assert forall|k: (int, int)| page.contains(k.0, k.1) implies #[trigger] pixels[k] == if x0
        <= k.0 < x0 + count && top <= k.1 < top + LINE_PITCH {
        Color::spec_black()
    } else {
        page.pixels[k]
    } by {
        if x0 <= k.0 < x0 + count && top <= k.1 < top + LINE_PITCH {
            lemma_all_bits_set((7 - (k.1 - top) % 8) as u32);
        }
    }
}

/// A block printed in one of the inks takes the channel of that ink away
/// from each pixel under a set dot and leaves every other pixel as it was: a
/// clear dot does not take away what an earlier pass has printed.
pub proof fn lemma_ink_block(
    page: Raster,
    plane: ColorPlane,
    x0: int,
    top: int,
    input: Seq<u8>,
    base: int,
    from: int,
    to: int,
    k: (int, int),
)
    requires
        plane != ColorPlane::Black,
        page.pixels.dom().contains(k),
    ensures
        paint_block(page, plane, x0, top, input, base, from, to)[k] == if block_writes(
            page,
            plane,
            x0,
            top,
            input,
            base,
            from,
            to,
            k,
        ) {
            plane.spec_ink(page.pixels[k], true)
        } else {
            page.pixels[k]
        },
        block_writes(page, plane, x0, top, input, base, from, to, k) ==> dot(
            block_column(input, base, k.0 - x0),
            k.1 - top,
        ),
{
}

/// After three carriage returns an ink is in use again, and the inks follow
/// each other as yellow, magenta, cyan. Black never gives way to an ink, nor
/// an ink to black.
pub proof fn lemma_plane_cycle(plane: ColorPlane)
    ensures
        plane.spec_next().spec_next().spec_next() == plane,
        ColorPlane::Yellow.spec_next() == ColorPlane::Magenta,
        ColorPlane::Magenta.spec_next() == ColorPlane::Cyan,
        ColorPlane::Cyan.spec_next() == ColorPlane::Yellow,
        plane.spec_next() == ColorPlane::Black <==> plane == ColorPlane::Black,
{
}

/// The escape sequence `USE_INKS` takes the decoder to the yellow plane,
/// whatever plane it was in, and a carriage return takes it to the plane
/// that follows and the head back to the left margin.
pub proof fn lemma_plane_commands(m: Machine)
    ensures
        m.after_escape(USE_INKS).plane == ColorPlane::Yellow,
        m.after_command(CARRIAGE_RETURN).plane == m.plane.spec_next(),
        m.after_command(CARRIAGE_RETURN).head_x == 0,
{
}

/// An ink takes one channel away and leaves the other two: yellow on white
/// paper leaves red and green at full strength.
pub proof fn lemma_one_ink(under: Color)
    ensures
        ColorPlane::Yellow.spec_ink(under, true) == (Color { r: under.r, g: under.g, b: 0 }),
        ColorPlane::Magenta.spec_ink(under, true) == (Color { r: under.r, g: 0, b: under.b }),
        ColorPlane::Cyan.spec_ink(under, true) == (Color { r: 0, g: under.g, b: under.b }),
        ColorPlane::Yellow.spec_ink(Color::spec_white(), true) == (Color { r: 255, g: 255, b: 0 }),
{
}

/// The order in which two inks are printed over each other makes no
/// difference, and an ink printed twice is as good as printed once.
pub proof fn lemma_inks_commute(first: ColorPlane, second: ColorPlane, under: Color)
    requires
        first != ColorPlane::Black,
        second != ColorPlane::Black,
    ensures
        second.spec_ink(first.spec_ink(under, true), true) == first.spec_ink(
            second.spec_ink(under, true),
            true,
        ),
        first.spec_ink(first.spec_ink(under, true), true) == first.spec_ink(under, true),
{
}

/// A pixel that all three inks were printed on is black, whatever it held
/// before.
pub proof fn lemma_three_inks_make_black(under: Color)
    ensures
        ColorPlane::Cyan.spec_ink(
            ColorPlane::Magenta.spec_ink(ColorPlane::Yellow.spec_ink(under, true), true),
            true,
        ) == Color::spec_black(),
{
}

/// Two decoders in the same state that decode the same job onto equal pages
/// leave equal pages, byte for byte, and report the same as covered.
pub proof fn lemma_same_job_same_page(
    first: Cz8pc4,
    second: Cz8pc4,
    page: Raster,
    again: Raster,
    input: Seq<u8>,
)
    requires
        first@ == second@,
        page == again,
    ensures
        first.decoded_page(page, input) == second.decoded_page(again, input),
        first.decoded_page(page, input).bytes() == second.decoded_page(again, input).bytes(),
        first.decoded_cover(page, input) == second.decoded_cover(again, input),
{
}

} // verus!
