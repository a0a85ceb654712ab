//! Conversion between ASCII art and grayscale images.
//!
//! The submodules hold the symbol table, the dimension scaler, the raster
//! type and the two conversion directions. [`ConvertError`] is shared by all
//! of them.

use vstd::prelude::*;

pub mod ascii;
pub mod codec;
pub mod dimension;
pub mod raster;
pub mod sampler;
pub mod symbol_map;

verus! {

/// The ways a conversion can fail.
#[derive(Debug, Clone, Copy, PartialEq, Eq, Structural)]
pub enum ConvertError {
    /// The image codec could not tell what format the input bytes are in.
    ReadError,
    /// The image codec failed to write the final PNG data.
    WriteError,
    /// The image codec recognised the format but could not parse the image.
    DecodeError,
    /// The ASCII text holds a character that is not in the symbol table.
    UnknownASCIISymbol(char),
}

} // verus!
