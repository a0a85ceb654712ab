//! Image to ASCII art.
//!
//! The image is decoded to luma, scaled down to a bounded text grid whose
//! columns are doubled because fonts draw characters taller than wide, and
//! each sample becomes the character of the symbol table for its brightness.

use vstd::prelude::*;
use crate::converter::codec::{
    decode_gray,
    decoded_height,
    decoded_width,
    decodes,
    has_image_signature,
    resize_triangle,
    triangle_resize,
};
use crate::converter::dimension::{scaled_down, Dimension};
use crate::converter::raster::Raster;
use crate::converter::symbol_map::{spec_symbol_for_brightness, symbol_for_brightness};
use crate::converter::ConvertError;
use crate::strings::push_char;

verus! {

/// The largest number of rows, and of samples per row before doubling, of
/// the text grid.
pub const MAX_ASCII_DIMENSION: u32 = 100;

/// The characters of row `y` of a raster `width` samples wide.
pub open spec fn row_text(pixels: Seq<u8>, width: nat, y: nat) -> Seq<char> {
    Seq::new(width, |x: int| spec_symbol_for_brightness(pixels[y * width + x]))
}

/// The first `rows` rows of a raster as text, each row ended by `\n`.
pub open spec fn raster_text(pixels: Seq<u8>, width: nat, rows: nat) -> Seq<char>
    decreases rows,
{
    if rows == 0 {
        Seq::empty()
    } else {
        raster_text(pixels, width, (rows - 1) as nat) + row_text(pixels, width, (rows - 1) as nat).push('\n')
    }
}

/// The size of the text grid for a `width` by `height` image: scaled down
/// to the bound, with the number of columns doubled (and capped at `u32::MAX`).
pub open spec fn grid_size(width: u32, height: u32) -> (u32, u32) {
    let (w, h) = scaled_down(width, height, MAX_ASCII_DIMENSION);
    (if 2 * w > u32::MAX { u32::MAX } else { (2 * w) as u32 }, h)
}

/// Whether the buffers that resampling a `width` by `height` image to its
/// text grid needs fit in memory.
pub open spec fn sampling_fits(width: u32, height: u32) -> bool {
    let (w, h) = grid_size(width, height);
    &&& width * h <= usize::MAX / 4
    &&& w * h <= usize::MAX / 4
}

/// The text for a decoded luma image (width, height, samples).
pub open spec fn text_of_gray(image: (u32, u32, Seq<u8>)) -> Seq<char> {
    let (width, height, pixels) = image;
    let (w, h) = grid_size(width, height);
    raster_text(triangle_resize(pixels, width, height, w, h), w as nat, h as nat)
}

/// What converting a decoded `width` by `height` luma raster to text gives.
pub open spec fn spec_ascii_from_gray(width: u32, height: u32, pixels: Seq<u8>) -> Result<
    Seq<char>,
    ConvertError,
> {
    if sampling_fits(width, height) {
        Ok(text_of_gray((width, height, pixels)))
    } else {
        Err(ConvertError::DecodeError)
    }
}

/// What converting the image file `bytes` to text gives: a read error
/// exactly when no format signature is recognised; a decode error when the
/// codec cannot decode the file or its text grid cannot be sampled in
/// memory; otherwise the text of a raster of the decoded size.
pub open spec fn converted_text(bytes: Seq<u8>, r: Result<String, ConvertError>) -> bool {
    let w = decoded_width(bytes);
    let h = decoded_height(bytes);
    if !has_image_signature(bytes) {
        r == Err::<String, ConvertError>(ConvertError::ReadError)
    } else if !decodes(bytes) || !sampling_fits(w, h) {
        r == Err::<String, ConvertError>(ConvertError::DecodeError)
    } else {
        r matches Ok(s) && exists|p: Seq<u8>| p.len() == w * h && #[trigger] text_of_gray((w, h, p)) == s@
    }
}

/// Converting an image file fails only with a read or a decode error, and
/// an empty file gives a read error.
pub proof fn lemma_image_errors(bytes: Seq<u8>, r: Result<String, ConvertError>)
    requires
        converted_text(bytes, r),
    ensures
        r is Err ==> r == Err::<String, ConvertError>(ConvertError::ReadError) || r == Err::<
            String,
            ConvertError,
        >(ConvertError::DecodeError),
        bytes.len() == 0 ==> r == Err::<String, ConvertError>(ConvertError::ReadError),
{
}

/// Write a raster as text: one line per row, ended by `\n`, and for each
/// sample the character of the symbol table for its brightness.
pub fn ascii_from_raster(raster: &Raster) -> (r: String)
    requires
        raster.wf(),
    ensures
        r@ == raster_text(raster.pixels@, raster.width as nat, raster.height as nat),
{
    let width = raster.width;
    let height = raster.height;
    let cells: usize = raster.pixels.len();
    let mut text = String::new();
    let mut y: u32 = 0;
    let mut row_start: usize = 0;
    while y < height
        invariant
            raster.wf(),
            cells == width * height,
            width == raster.width,
            height == raster.height,
            y <= height,
            row_start == y * width,
            text@ == raster_text(raster.pixels@, width as nat, y as nat),
        decreases height - y,
    {
        let ghost before = text@;
        let mut x: u32 = 0;
        while x < width
            invariant
                raster.wf(),
                cells == width * height,
                width == raster.width,
                height == raster.height,
                y < height,
                x <= width,
                row_start == y * width,
                text@ == before + row_text(raster.pixels@, width as nat, y as nat).take(x as int),
            decreases width - x,
        {
            proof {
                assert(y * width + x < width * height) by (nonlinear_arith)
                    requires
                        y < height,
                        x < width,
                ;
            }
            let c = symbol_for_brightness(raster.pixels[row_start + x as usize]);
            push_char(&mut text, c);
            assert(text@ =~= before + row_text(raster.pixels@, width as nat, y as nat).take(x + 1));
            x += 1;
        }
        assert(row_text(raster.pixels@, width as nat, y as nat).take(width as int)
            =~= row_text(raster.pixels@, width as nat, y as nat));
        push_char(&mut text, '\n');
        proof {
            assert(y * width + width <= width * height) by (nonlinear_arith)
                requires
                    y < height,
            ;
            assert((y + 1) * width == y * width + width) by (nonlinear_arith);
            assert(text@ =~= raster_text(raster.pixels@, width as nat, (y + 1) as nat));
        }
        row_start = row_start + width as usize;
        y += 1;
    }
    text
}

/// Convert an image file (PNG or JPEG, or another format the codec reads)
/// to ASCII art.
///
/// Bytes whose format the codec does not recognise give
/// [`ConvertError::ReadError`]; a recognised file that the codec cannot
/// decode, or whose text grid cannot be sampled in memory, gives
/// [`ConvertError::DecodeError`].
pub fn convert_to_ascii(bytes: &[u8]) -> (r: Result<String, ConvertError>)
    ensures
        converted_text(bytes@, r),
{
    match image::guess_format(bytes) {
        Ok(_) => {},
        Err(_) => return Err(ConvertError::ReadError),
    }
    let gray = match decode_gray(bytes) {
        Ok(g) => g,
        Err(_) => return Err(ConvertError::DecodeError),
    };
    let r = ascii_from_gray(&gray);
    proof {
        if r is Ok {
            assert(text_of_gray((gray.width, gray.height, gray.pixels@)) == r->Ok_0@);
        }
    }
    r
}

/// Convert a decoded luma raster to ASCII art: scale it down to the text
/// grid, resample it and write each sample as a character.
///
/// A raster whose resampling buffers would not fit in memory gives
/// [`ConvertError::DecodeError`].
pub fn ascii_from_gray(gray: &Raster) -> (r: Result<String, ConvertError>)
    requires
        gray.wf(),
    ensures
        match spec_ascii_from_gray(gray.width, gray.height, gray.pixels@) {
            Ok(t) => r matches Ok(s) && s@ == t,
            Err(e) => r == Err::<String, ConvertError>(e),
        },
{
    let mut dimension = Dimension::from((gray.width, gray.height));
    dimension.scale_down(MAX_ASCII_DIMENSION);
    // a character is taller than wide, so sample twice as many columns
    let columns: u32 = if dimension.width > u32::MAX / 2 {
        u32::MAX
    } else {
        dimension.width * 2
    };
    let rows = dimension.height;
    proof {
        assert(gray.width as int * rows as int <= u64::MAX) by (nonlinear_arith);
        assert(columns as int * rows as int <= u64::MAX) by (nonlinear_arith);
    }
    let source_cells: u64 = gray.width as u64 * rows as u64;
    let grid_cells: u64 = columns as u64 * rows as u64;
    if source_cells > usize::MAX as u64 / 4 || grid_cells > usize::MAX as u64 / 4 {
        // the resampling buffers would not fit in memory
        return Err(ConvertError::DecodeError);
    }
    let grid = resize_triangle(gray, columns, rows);
    Ok(ascii_from_raster(&grid))
}

} // verus!
