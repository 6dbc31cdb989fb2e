//! The choice between the supported printers, by name.

use vstd::prelude::*;

use crate::cz6pv1::{Cz6pv1, Stage};
use crate::cz8pc4::Cz8pc4;
use crate::printer::{read_view, Notice, Printer};
use crate::raster::{Raster, RasterImage};

verus! {

/// The name of the escape-code printer.
pub const CZ8PC4: &'static str = "cz-8pc4";

/// The name of the planar printer.
pub const CZ6PV1: &'static str = "cz-6pv1";

/// One of the supported printers.
pub enum AnyPrinter {
    Cz8pc4(Cz8pc4),
    Cz6pv1(Cz6pv1),
}

impl AnyPrinter {
    /// A new decoder for the printer of the given name; `None` where the
    /// name is that of no supported printer.
    pub fn by_name(name: &str) -> (r: Option<AnyPrinter>)
        ensures
            match r {
                Some(AnyPrinter::Cz8pc4(p)) => name@ == CZ8PC4@ && p@
                    == crate::cz8pc4::Machine::fresh(),
                Some(AnyPrinter::Cz6pv1(p)) => name@ == CZ6PV1@ && name@ != CZ8PC4@ && p@
                    == Stage::Nothing,
                None => name@ != CZ8PC4@ && name@ != CZ6PV1@,
            },
    {
        let given = name.to_owned();
        if given == CZ8PC4.to_owned() {
            Some(AnyPrinter::Cz8pc4(Cz8pc4::default()))
        } else if given == CZ6PV1.to_owned() {
            Some(AnyPrinter::Cz6pv1(Cz6pv1::default()))
        } else {
            None
        }
    }

    /// The name of the printer.
    pub fn name(&self) -> (n: &'static str)
        ensures
            n@ == match self {
                AnyPrinter::Cz8pc4(_) => CZ8PC4@,
                AnyPrinter::Cz6pv1(_) => CZ6PV1@,
            },
    {
        match self {
            AnyPrinter::Cz8pc4(_) => CZ8PC4,
            AnyPrinter::Cz6pv1(_) => CZ6PV1,
        }
    }

    /// The number of bytes that the decoder of the printer asks for next.
    pub open spec fn spec_wanted(&self) -> nat {
        match self {
            AnyPrinter::Cz8pc4(p) => crate::cz8pc4::wanted(p@.phase),
            AnyPrinter::Cz6pv1(p) => p@.wanted(),
        }
    }

    /// Starts a job.
    pub fn begin(&mut self)
        ensures
            match (*old(self), *final(self)) {
                (AnyPrinter::Cz8pc4(before), AnyPrinter::Cz8pc4(after)) => after@
                    == before@.begin(),
                (AnyPrinter::Cz6pv1(_), AnyPrinter::Cz6pv1(after)) => after@ == Stage::Command,
                _ => false,
            },
    {
        match self {
            AnyPrinter::Cz8pc4(p) => p.begin(),
            AnyPrinter::Cz6pv1(p) => p.begin(),
        }
    }

    /// The number of bytes to read next; 0 when the job has ended.
    pub fn wanted(&self) -> (n: usize)
        ensures
            n == self.spec_wanted(),
    {
        match self {
            AnyPrinter::Cz8pc4(p) => p.wanted(),
            AnyPrinter::Cz6pv1(p) => p.wanted(),
        }
    }

    /// Takes the outcome of the read that the decoder asked for: the bytes,
    /// `wanted()` of them, or `None` where the read failed. Returns what
    /// there is to tell of the read.
    pub fn feed(&mut self, read: Option<&[u8]>, img: &mut RasterImage) -> (notice: Option<Notice>)
        requires
            read matches Some(bytes) ==> bytes@.len() == old(self).spec_wanted(),
        ensures
            match (*old(self), *final(self)) {
                (AnyPrinter::Cz8pc4(before), AnyPrinter::Cz8pc4(after)) => {
                    &&& after@ == before@.next(old(img)@, read_view(read))
                    &&& final(img)@ == old(img)@.with_pixels(
                        before@.paint(old(img)@, read_view(read)),
                    )
                    &&& notice == before@.notice(read_view(read))
                },
                (AnyPrinter::Cz6pv1(before), AnyPrinter::Cz6pv1(after)) => {
                    &&& after@ == before@.next(read_view(read))
                    &&& final(img)@ == old(img)@.with_pixels(
                        before@.paint(old(img)@, read_view(read)),
                    )
                    &&& notice == before@.notice(read_view(read))
                },
                _ => false,
            },
    {
        match self {
            AnyPrinter::Cz8pc4(p) => p.feed(read, img),
            AnyPrinter::Cz6pv1(p) => p.feed(read, img),
        }
    }

    /// What is covered: the furthest column and the lowest row.
    pub fn covered(&self) -> (c: (u32, u32))
        ensures
            (c.0 as nat, c.1 as nat) == match self {
                AnyPrinter::Cz8pc4(p) => p@.covered(),
                AnyPrinter::Cz6pv1(p) => p@.covered(),
            },
    {
        match self {
            AnyPrinter::Cz8pc4(p) => p.covered(),
            AnyPrinter::Cz6pv1(p) => p.covered(),
        }
    }
}

impl Printer for AnyPrinter {
    open spec fn page_width(&self) -> nat {
        match self {
            AnyPrinter::Cz8pc4(p) => p.page_width(),
            AnyPrinter::Cz6pv1(p) => p.page_width(),
        }
    }

    open spec fn page_height(&self) -> nat {
        match self {
            AnyPrinter::Cz8pc4(p) => p.page_height(),
            AnyPrinter::Cz6pv1(p) => p.page_height(),
        }
    }

    open spec fn decoded_page(&self, page: Raster, input: Seq<u8>) -> Raster {
        match self {
            AnyPrinter::Cz8pc4(p) => p.decoded_page(page, input),
            AnyPrinter::Cz6pv1(p) => p.decoded_page(page, input),
        }
    }

    open spec fn decoded_cover(&self, page: Raster, input: Seq<u8>) -> (nat, nat) {
        match self {
            AnyPrinter::Cz8pc4(p) => p.decoded_cover(page, input),
            AnyPrinter::Cz6pv1(p) => p.decoded_cover(page, input),
        }
    }

    fn create_image(&self) -> (img: RasterImage) {
        match self {
            AnyPrinter::Cz8pc4(p) => p.create_image(),
            AnyPrinter::Cz6pv1(p) => p.create_image(),
        }
    }

    /// Decodes the job `input` with the decoder of the printer, which stays
    /// the decoder of that printer. What the escape-code decoder has covered
    /// never shrinks and stays on the page.
    fn decode(&mut self, input: &[u8], img: &mut RasterImage) -> (covered: (u32, u32))
        ensures
            match (*old(self), *final(self)) {
                (AnyPrinter::Cz8pc4(before), AnyPrinter::Cz8pc4(after)) => {
                    &&& after@ == before@.begin().run(old(img)@, input@, 0).0
                    &&& covered.0 >= before@.covered_x
                    &&& covered.1 >= before@.covered_y
                    &&& before@.covered_x <= old(img)@.width ==> covered.0 <= old(img)@.width
                    &&& before@.covered_y <= old(img)@.height ==> covered.1 <= old(img)@.height
                },
                (AnyPrinter::Cz6pv1(_), AnyPrinter::Cz6pv1(after)) => after@
                    == crate::cz6pv1::stage_after(crate::cz6pv1::lines_read(input@)),
                _ => false,
            },
    {
        match self {
            AnyPrinter::Cz8pc4(p) => p.decode(input, img),
            AnyPrinter::Cz6pv1(p) => p.decode(input, img),
        }
    }
}

} // verus!
