//! The planar decoder, read by read, leaves on the page what `page_after`
//! says at once for the whole stream.

use vstd::prelude::*;

use crate::cz6pv1::{
    line_number, lines_read, page_after, page_lines, paint_line, stage_after, Channel, Cz6pv1,
    Stage, PAGE_COMMAND,
};
use crate::printer::Printer;
use crate::raster::Raster;

verus! {

/// The rest of a job that stands before the row `row` of the plane of
/// `channel`, where the rows before it were written to `start`.
proof fn lemma_rest_of_page(start: Raster, input: Seq<u8>, channel: Channel, row: u32)
    requires
        start.wf(),
        row < Cz6pv1::PAGE_HEIGHT,
        input.len() > 0,
        input[0] == PAGE_COMMAND,
        1 + Cz6pv1::PAGE_WIDTH * line_number(channel, row as int) <= input.len(),
    ensures
        (Stage::Line { channel, row }).run(
            start.with_pixels(page_after(start, input, line_number(channel, row as int))),
            input,
            1 + Cz6pv1::PAGE_WIDTH * line_number(channel, row as int),
        ) == (
            stage_after(lines_read(input)),
            start.with_pixels(page_after(start, input, lines_read(input))),
        ),
    decreases page_lines() - line_number(channel, row as int),
{
    let stage = Stage::Line { channel, row };
    let lines = line_number(channel, row as int);
    let pos = 1 + Cz6pv1::PAGE_WIDTH * lines;
    let page = start.with_pixels(page_after(start, input, lines));
    if pos + Cz6pv1::PAGE_WIDTH <= input.len() {
        // The row is read: it sets its channel in its row of the page, and
        // the rows before it have left the other channels of that row.
        let line = input.subrange(pos, pos + Cz6pv1::PAGE_WIDTH);
        let painted = paint_line(page, channel, row as int, line, Cz6pv1::PAGE_WIDTH as int);
        assert(painted =~= page_after(start, input, lines + 1));
        let next = Stage::after_line(channel, row);
        assert(stage.run(page, input, pos) == next.run(
            page.with_pixels(painted),
            input,
            pos + Cz6pv1::PAGE_WIDTH,
        ));
        if let Stage::Line { channel: c, row: r } = next {
            lemma_rest_of_page(start, input, c, r);
        }
    }
}

/// The stage and the page at the end of a job, said at once. The decoder
/// reads the rows that the input holds in full, and each byte of such a row
/// sets one channel of one pixel. The job ends with the page only if all its
/// rows were read. A stream that does not start with the command of a page
/// leaves the page as it was.
pub proof fn lemma_job(page: Raster, input: Seq<u8>)
    requires
        page.wf(),
    ensures
        Stage::Command.run(page, input, 0) == (
            stage_after(lines_read(input)),
            page.with_pixels(page_after(page, input, lines_read(input))),
        ),
        lines_read(input) == 0 ==> page.with_pixels(page_after(page, input, lines_read(input)))
            == page,
{
    assert(page_after(page, input, 0) =~= page.pixels);
    if input.len() > 0 {
        if input[0] == PAGE_COMMAND {
            lemma_rest_of_page(page, input, Channel::Blue, 0);
        } else {
            assert(Stage::Command.run(page, input, 0) == Stage::Nothing.run(page, input, 1));
        }
    }
}

/// What a job reports as covered: the whole page if the stream starts with
/// the command of a page and holds all its rows, three planes of
/// `PAGE_HEIGHT` rows of `PAGE_WIDTH` bytes, and nothing else. A stream that
/// does not start with that command leaves the page as it was.
pub proof fn lemma_job_cover(page: Raster, input: Seq<u8>)
    requires
        page.wf(),
    ensures
        Stage::Command.run(page, input, 0).0.covered() == if input.len() >= 1 + Cz6pv1::PAGE_WIDTH
            * page_lines() && input[0] == PAGE_COMMAND {
            (Cz6pv1::PAGE_WIDTH as nat, Cz6pv1::PAGE_HEIGHT as nat)
        } else {
            (0nat, 0nat)
        },
        input.len() == 0 || input[0] != PAGE_COMMAND ==> Stage::Command.run(page, input, 0).1
            == page,
{
    lemma_job(page, input);
}

/// No job changes the size of the page, and none writes a pixel off it.
pub proof fn lemma_job_keeps_page(page: Raster, input: Seq<u8>)
    requires
        page.wf(),
    ensures
        Stage::Command.run(page, input, 0).1.width == page.width,
        Stage::Command.run(page, input, 0).1.height == page.height,
        Stage::Command.run(page, input, 0).1.wf(),
{
    lemma_job(page, input);
}

/// Two decoders that decode the same job onto equal pages leave equal pages,
/// byte for byte, and report the same as covered.
pub proof fn lemma_same_job_same_page(
    first: Cz6pv1,
    second: Cz6pv1,
    page: Raster,
    again: Raster,
    input: Seq<u8>,
)
    requires
        page == again,
    ensures
        first.decoded_page(page, input) == second.decoded_page(again, input),
        first.decoded_page(page, input).bytes() == second.decoded_page(again, input).bytes(),
        first.decoded_cover(page, input) == second.decoded_cover(again, input),
{
}

} // verus!
