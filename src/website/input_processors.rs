//! From submitted form data to the page to show.
//!
//! The text or image of a form is validated, converted, and the outcome
//! mapped to a [`HtmlTemplate`]. Storing a generated image is left to the
//! caller: ASCII art that converts yields the PNG bytes, and
//! [`image_result_page`] makes the page once the file has a name.

use vstd::prelude::*;
use vstd::string::StringExecFns;
use crate::converter::ascii::{
    first_unknown_line,
    image_of_lines,
    lines_of,
    output_size,
    resample_fits,
};
use crate::converter::codec::{decoded_height, decoded_width, decodes, has_image_signature};
use crate::converter::sampler::{sampling_fits, text_of_gray};
use crate::converter::ConvertError;
use crate::strings::push_char;
use crate::website::ascii_form_params::{spec_validate_ascii, AsciiFormParams, AsciiInputError};
use crate::website::html_template::HtmlTemplate;
use crate::website::image_form_params::{spec_validate_image, ImageFormParams, ImageInputError};
use crate::{ascii_to_image, image_to_ascii};

verus! {

/// The page to go back to after a failed ASCII art conversion.
pub const ASCII_TO_IMAGE_LINK: &'static str = "/ascii-to-image";

/// The page to go back to after a failed image conversion.
pub const IMAGE_TO_ASCII_LINK: &'static str = "/image-to-ascii";

/// The message for an empty ASCII art form.
pub const EMPTY_ASCII_FORM: &'static str = "It looks like you submitted an empty form! Be sure to paste your ASCII text into the text box of the form.";

/// The message for ASCII art text that is not ASCII.
pub const NOT_ASCII_FORM: &'static str = "This form only accepts ASCII characters! Be sure to double check that all pasted text is valid ASCII.";

/// The message for a PNG that could not be written.
pub const IMAGE_WRITE_FAILED: &'static str = "It looks like we ran into an issue with parsing your ASCII art! Wait a few minutes, and try it one more time. But if that doesn't work, try a different piece of ASCII art.";

/// The start of the message for a character outside the symbol table; the character follows.
pub const UNSUPPORTED_CHARACTER: &'static str = "The ASCII art you submitted contains an unsupported character: ";

/// The second part of the message for a character outside the symbol table.
pub const SUPPORTED_SYMBOLS_ONLY: &'static str = "Please try again with a piece of ASCII art that only contains supported symbols.";

/// The message for any other failure to convert ASCII art.
pub const ASCII_CONVERSION_FAILED: &'static str = "It looks like we ran into an issue with parsing your ASCII art! There could be a problem with your ASCII or with our parser, so give it a try one more time. If that doesn't work, try a different image.";

/// The message for an image that could not be converted.
pub const IMAGE_CONVERSION_FAILED: &'static str = "It looks like we ran into an issue with parsing your image! There could be a problem with your image or with our parser, so try it one more time. But if that doesn't work, try a different image.";

/// The message for an empty image form.
pub const EMPTY_IMAGE_FORM: &'static str = "It looks like you submitted an empty form! Be sure to upload an image to the form before submitting.";

/// The message for an image that is neither JPEG nor PNG.
pub const UNSUPPORTED_IMAGE_TYPE: &'static str = "It looks like you submitted an unsupported image type! Be sure to upload either a JPEG or a PNG image only.";

/// The route under which generated images are served.
pub const RESULTS_ROUTE: &'static str = "conversion_results/";

/// An error page with one message.
pub open spec fn error_page<'a>(message: &'a str, link: &'a str) -> HtmlTemplate<'a> {
    HtmlTemplate::Error { error_message: message, try_again_link: link }
}

/// What submitting ASCII art text `text` gives: the PNG to store, or the
/// page that reports why there is none.
pub open spec fn ascii_submission_outcome<'a>(
    text: Seq<char>,
    r: Result<Vec<u8>, HtmlTemplate<'a>>,
) -> bool {
    match spec_validate_ascii(text) {
        Err(AsciiInputError::EmptyInput) => r == Err::<Vec<u8>, HtmlTemplate<'a>>(
            error_page(EMPTY_ASCII_FORM, ASCII_TO_IMAGE_LINK),
        ),
        Err(AsciiInputError::NotAsciiInput) => r == Err::<Vec<u8>, HtmlTemplate<'a>>(
            error_page(NOT_ASCII_FORM, ASCII_TO_IMAGE_LINK),
        ),
        Ok(()) => {
            let ls = lines_of(text);
            match first_unknown_line(ls) {
                Some(c) => r matches Err(HtmlTemplate::ErrorMultiLine {
                    error_message,
                    error_message2,
                    try_again_link,
                }) && error_message@ == UNSUPPORTED_CHARACTER@.push(c) && error_message2
                    == SUPPORTED_SYMBOLS_ONLY && try_again_link == ASCII_TO_IMAGE_LINK,
                None => if !resample_fits(ls) || output_size(ls).0 == 0 || output_size(ls).1 == 0 {
                    r == Err::<Vec<u8>, HtmlTemplate<'a>>(
                        error_page(IMAGE_WRITE_FAILED, ASCII_TO_IMAGE_LINK),
                    )
                } else {
                    r matches Ok(b) && image_of_lines(ls) == Some(b@)
                },
            }
        },
    }
}

/// Validate and convert submitted ASCII art.
///
/// Gives the PNG bytes of the image to store and show, or the error page to
/// show instead.
pub fn generate_ascii_to_image_result<'a>(params: AsciiFormParams) -> (r: Result<
    Vec<u8>,
    HtmlTemplate<'a>,
>)
    requires
        params.ascii_input@.len() <= u32::MAX,
    ensures
        ascii_submission_outcome(params.ascii_input@, r),
{
    match params.validate_ascii_input() {
        Err(AsciiInputError::EmptyInput) => Err(
            HtmlTemplate::Error { error_message: EMPTY_ASCII_FORM, try_again_link: ASCII_TO_IMAGE_LINK },
        ),
        Err(AsciiInputError::NotAsciiInput) => Err(
            HtmlTemplate::Error { error_message: NOT_ASCII_FORM, try_again_link: ASCII_TO_IMAGE_LINK },
        ),
        Ok(()) => match ascii_to_image(params.ascii_input.as_str()) {
            Ok(image) => Ok(image),
            Err(ConvertError::WriteError) => Err(
                HtmlTemplate::Error {
                    error_message: IMAGE_WRITE_FAILED,
                    try_again_link: ASCII_TO_IMAGE_LINK,
                },
            ),
            Err(ConvertError::UnknownASCIISymbol(symbol)) => {
                let mut message = String::from_str(UNSUPPORTED_CHARACTER);
                push_char(&mut message, symbol);
                Err(
                    HtmlTemplate::ErrorMultiLine {
                        error_message: message,
                        error_message2: SUPPORTED_SYMBOLS_ONLY,
                        try_again_link: ASCII_TO_IMAGE_LINK,
                    },
                )
            },
            Err(_) => Err(
                HtmlTemplate::Error {
                    error_message: ASCII_CONVERSION_FAILED,
                    try_again_link: ASCII_TO_IMAGE_LINK,
                },
            ),
        },
    }
}

/// The page that shows a stored image, given the name of its file.
pub fn image_result_page<'a>(file_name: &str) -> (r: HtmlTemplate<'a>)
    ensures
        r matches HtmlTemplate::AsciiToImageResult { image_result } && image_result@
            == RESULTS_ROUTE@ + file_name@,
{
    let mut route = String::from_str(RESULTS_ROUTE);
    route.append(file_name);
    HtmlTemplate::AsciiToImageResult { image_result: route }
}

/// Whether `c` is a lower-case hexadecimal digit.
pub open spec fn is_lower_hex_digit(c: char) -> bool {
    ('0' <= c && c <= '9') || ('a' <= c && c <= 'f')
}

/// Whether `s` is a UUID in hyphenated lower-case form: 36 characters,
/// hyphens at positions 8, 13, 18 and 23 and hexadecimal digits elsewhere.
pub open spec fn is_hyphenated_uuid(s: Seq<char>) -> bool {
    &&& s.len() == 36
    &&& forall|i: int|
        0 <= i < 36 ==> if i == 8 || i == 13 || i == 18 || i == 23 {
            s[i] == '-'
        } else {
            is_lower_hex_digit(#[trigger] s[i])
        }
}

/// Relies on uuid::Uuid::new_v4 for a random UUID, and on its Display
/// impl, which writes the hyphenated lower-case form.
#[verifier::external_body]
fn random_uuid_text() -> (r: String)
    ensures
        is_hyphenated_uuid(r@),
{
    uuid::Uuid::new_v4().to_string()
}

/// The extension of generated image files.
pub const PNG_EXTENSION: &'static str = ".png";

/// A fresh file name for a generated image: a random UUID followed by `.png`.
pub fn new_image_file_name() -> (r: String)
    ensures
        r@.len() == 36 + PNG_EXTENSION@.len(),
        is_hyphenated_uuid(r@.take(36)),
        r@.skip(36) == PNG_EXTENSION@,
{
    let mut name = random_uuid_text();
    let ghost id = name@;
    name.append(PNG_EXTENSION);
    assert(name@.take(36) =~= id);
    assert(name@.skip(36) =~= PNG_EXTENSION@);
    name
}

/// The page for a valid upload of `bytes`: the conversion-failed page where
/// the codec does not recognise or cannot decode the file, or its text grid
/// cannot be sampled in memory; otherwise the text of a raster of the
/// decoded size.
pub open spec fn image_page<'a>(bytes: Seq<u8>, r: HtmlTemplate<'a>) -> bool {
    let w = decoded_width(bytes);
    let h = decoded_height(bytes);
    if !has_image_signature(bytes) || !decodes(bytes) || !sampling_fits(w, h) {
        r == error_page(IMAGE_CONVERSION_FAILED, IMAGE_TO_ASCII_LINK)
    } else {
        r matches HtmlTemplate::ImageToAsciiResult { ascii_result } && exists|p: Seq<u8>|
            p.len() == w * h && #[trigger] text_of_gray((w, h, p)) == ascii_result@
    }
}

/// Validate a submitted image and convert it to ASCII art.
pub fn generate_image_to_ascii_result<'a>(form: ImageFormParams) -> (r: HtmlTemplate<'a>)
    ensures
        match spec_validate_image(&form) {
            Err(ImageInputError::EmptyInput) => r == error_page(EMPTY_IMAGE_FORM, IMAGE_TO_ASCII_LINK),
            Err(ImageInputError::UnsupportedImageType) => r == error_page(
                UNSUPPORTED_IMAGE_TYPE,
                IMAGE_TO_ASCII_LINK,
            ),
            Ok(()) => image_page(form.image_input->0.contents@, r),
        },
{
    match form.validate_image_input() {
        Ok(upload) => match image_to_ascii(upload.contents.as_slice()) {
            Ok(ascii_art) => HtmlTemplate::ImageToAsciiResult { ascii_result: ascii_art },
            Err(_) => HtmlTemplate::Error {
                error_message: IMAGE_CONVERSION_FAILED,
                try_again_link: IMAGE_TO_ASCII_LINK,
            },
        },
        Err(ImageInputError::EmptyInput) => HtmlTemplate::Error {
            error_message: EMPTY_IMAGE_FORM,
            try_again_link: IMAGE_TO_ASCII_LINK,
        },
        Err(ImageInputError::UnsupportedImageType) => HtmlTemplate::Error {
            error_message: UNSUPPORTED_IMAGE_TYPE,
            try_again_link: IMAGE_TO_ASCII_LINK,
        },
    }
}

} // verus!
