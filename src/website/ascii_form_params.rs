//! ASCII art text submitted through a form, and its validation.

use vstd::prelude::*;

verus! {

/// ASCII art text from the form.
pub struct AsciiFormParams {
    /// The submitted text.
    pub ascii_input: String,
}

/// Why submitted ASCII art text was refused.
#[derive(Debug, Clone, Copy, PartialEq, Eq, Structural)]
pub enum AsciiInputError {
    /// The form was submitted without text.
    EmptyInput,
    /// The text holds a character that is not ASCII.
    NotAsciiInput,
}

/// What validating `text` gives.
pub open spec fn spec_validate_ascii(text: Seq<char>) -> Result<(), AsciiInputError> {
    if text.len() == 0 {
        Err(AsciiInputError::EmptyInput)
    } else if !vstd::utf8::is_ascii_chars(text) {
        Err(AsciiInputError::NotAsciiInput)
    } else {
        Ok(())
    }
}

impl AsciiFormParams {
    /// Check that the text is not empty and holds only ASCII characters.
    pub fn validate_ascii_input(&self) -> (r: Result<(), AsciiInputError>)
        ensures
            r == spec_validate_ascii(self.ascii_input@),
    {
        let text = self.ascii_input.as_str();
        if text.is_empty() {
            Err(AsciiInputError::EmptyInput)
        } else if !text.is_ascii() {
            Err(AsciiInputError::NotAsciiInput)
        } else {
            Ok(())
        }
    }
}

} // verus!
