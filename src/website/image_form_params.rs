//! An image submitted through a form, and its validation.

use vstd::prelude::*;

verus! {

/// The content types that matter to the validation.
#[derive(Debug, Clone, Copy, PartialEq, Eq, Structural)]
pub enum ImageMime {
    /// `image/jpeg`.
    Jpeg,
    /// `image/png`.
    Png,
    /// Any other content type.
    Other,
}

/// An uploaded file.
#[derive(Debug)]
pub struct ImageUpload {
    /// The bytes of the file.
    pub contents: Vec<u8>,
    /// The file name the browser sent, if any.
    pub file_name: Option<String>,
    /// The content type the browser sent, if any.
    pub content_type: Option<ImageMime>,
    /// The size of the upload in bytes.
    pub size: usize,
}

/// The image form: the uploaded image, or `None` when no file was chosen.
pub struct ImageFormParams {
    /// The uploaded image.
    pub image_input: Option<ImageUpload>,
}

/// Why a submitted image was refused.
#[derive(Debug, Clone, Copy, PartialEq, Eq, Structural)]
pub enum ImageInputError {
    /// The form was submitted without an image, or with an empty one.
    EmptyInput,
    /// The image is neither a JPEG nor a PNG.
    UnsupportedImageType,
}

/// What validating the form gives.
pub open spec fn spec_validate_image(form: &ImageFormParams) -> Result<(), ImageInputError> {
    match form.image_input {
        None => Err(ImageInputError::EmptyInput),
        Some(upload) => if upload.size == 0 {
            Err(ImageInputError::EmptyInput)
        } else if upload.content_type == Some(ImageMime::Jpeg) || upload.content_type == Some(
            ImageMime::Png,
        ) {
            Ok(())
        } else {
            Err(ImageInputError::UnsupportedImageType)
        },
    }
}

impl ImageFormParams {
    /// Check that an image was submitted and that it is a JPEG or a PNG;
    /// on success, give the upload.
    pub fn validate_image_input(&self) -> (r: Result<&ImageUpload, ImageInputError>)
        ensures
            match spec_validate_image(self) {
                Ok(()) => r matches Ok(upload) && self.image_input == Some(*upload),
                Err(e) => r == Err::<&ImageUpload, ImageInputError>(e),
            },
    {
        match &self.image_input {
            Some(upload) => {
                if upload.size == 0 {
                    Err(ImageInputError::EmptyInput)
                } else {
                    match upload.content_type {
                        Some(ImageMime::Jpeg) | Some(ImageMime::Png) => Ok(upload),
                        _ => Err(ImageInputError::UnsupportedImageType),
                    }
                }
            },
            None => Err(ImageInputError::EmptyInput),
        }
    }
}

} // verus!
