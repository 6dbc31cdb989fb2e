//! What every supported printer offers: a blank page of its size, and the
//! decoding of a job onto a page.

use vstd::prelude::*;

use crate::raster::{Color, Raster, RasterImage};

verus! {

/// What a decoder tells of a read that it could not use.
#[derive(Clone, Copy, Debug, PartialEq, Eq, Structural)]
pub enum Notice {
    /// An escape sequence whose sub-command, the byte given, the decoder
    /// does not know. It was passed over.
    UnsupportedEscape(u8),
    /// The job did not start with the command that the decoder knows. Nothing
    /// was decoded.
    UnknownCommand,
    /// The input ended within the page. The job was given up.
    NotEnoughData,
}

/// The outcome of a read as the proofs see it: the bytes that were read, or
/// `None` where the read failed.
pub open spec fn read_view(read: Option<&[u8]>) -> Option<Seq<u8>> {
    match read {
        Some(bytes) => Some(bytes@),
        None => None,
    }
}

pub trait Printer {
    /// The width of the printer's page.
    spec fn page_width(&self) -> nat;

    /// The height of the printer's page.
    spec fn page_height(&self) -> nat;

    /// The page after the job `input` was decoded onto `page`.
    spec fn decoded_page(&self, page: Raster, input: Seq<u8>) -> Raster;

    /// What the job `input`, decoded onto `page`, reports as covered.
    spec fn decoded_cover(&self, page: Raster, input: Seq<u8>) -> (nat, nat);

    /// A white page of the printer's size.
    fn create_image(&self) -> (img: RasterImage)
        ensures
            img@ == Raster::uniform(self.page_width(), self.page_height(), Color::spec_white()),
    ;

    /// Decodes the job `input` onto `img` and returns what is covered: the
    /// furthest column and the lowest row. The page keeps its size.
    fn decode(&mut self, input: &[u8], img: &mut RasterImage) -> (covered: (u32, u32))
        ensures
            final(img)@ == old(self).decoded_page(old(img)@, input@),
            final(img)@.width == old(img)@.width,
            final(img)@.height == old(img)@.height,
            (covered.0 as nat, covered.1 as nat) == old(self).decoded_cover(old(img)@, input@),
    ;
}

} // verus!
