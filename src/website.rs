//! The form handling and page selection of the web front end.

pub mod ascii_form_params;
pub mod html_template;


pub mod image_form_params;
pub mod input_processors;
