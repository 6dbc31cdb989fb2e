//! Decoders for the byte streams that two printer engines receive: a job
//! goes in as bytes, and what the printer would have put on paper comes out
//! as a page of pixels.
//!
//! - `raster`: the page.
//! - `printer`: what the decoders have in common.
//! - `cz8pc4`: the escape-code protocol, with what holds of all its jobs in
//!   `cz8pc4_proofs`.
//! - `cz6pv1`: the planar protocol, with `cz6pv1_proofs`.
//! - `select`: the choice between the printers, by name.
//! - `crop`: the part of a page that was printed.

pub mod crop;
pub mod cz6pv1;
pub mod cz6pv1_proofs;
pub mod cz8pc4;
pub mod cz8pc4_proofs;
pub mod printer;
pub mod raster;
pub mod select;
