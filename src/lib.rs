//! Convert ASCII art to grayscale PNG images and images to ASCII art.
//!
//! [`image_to_ascii`] turns the bytes of an image file into ASCII art and
//! [`ascii_to_image`] turns ASCII art into the bytes of a PNG file. The
//! `website` module holds the form handling and page selection of the web
//! front end around them.

use vstd::prelude::*;

pub mod converter;
mod strings;
pub mod website;

use crate::converter::ascii::{converted_image, Ascii};
use crate::converter::sampler::{convert_to_ascii, converted_text};
use crate::converter::ConvertError;

verus! {

/// Convert the bytes of an image file into an ASCII art [`String`].
pub fn image_to_ascii(bytes: &[u8]) -> (r: Result<String, ConvertError>)
    ensures
        converted_text(bytes@, r),
{
    convert_to_ascii(bytes)
}

/// Convert ASCII art into the bytes of a PNG file.
pub fn ascii_to_image(ascii: &str) -> (r: Result<Vec<u8>, ConvertError>)
    requires
        ascii@.len() <= u32::MAX,
    ensures
        converted_image(ascii@, r),
{
    Ascii::new(ascii).convert_to_image()
}

} // verus!
