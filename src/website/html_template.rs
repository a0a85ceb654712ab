//! The pages that the web front end shows, with the data each one displays.

use vstd::prelude::*;
use vstd::string::StringExecFns;
use handlebars::{Handlebars, RenderError};
use serde_json::{Map as JsonMap, Value};

verus! {

/// A serde_json value, carried through opaque.
#[verifier::external_type_specification]
#[verifier::external_body]
pub struct ExJsonValue(serde_json::Value);

/// A serde_json object; its fields are named by [`json_fields`].
#[verifier::external_type_specification]
#[verifier::external_body]
#[verifier::reject_recursive_types(K)]
#[verifier::reject_recursive_types(V)]
pub struct ExJsonMap<K, V>(serde_json::Map<K, V>);

/// The fields of a JSON object, by key.
pub uninterp spec fn json_fields(m: serde_json::Map<String, serde_json::Value>) -> Map<Seq<char>, serde_json::Value>;

/// The JSON string value holding `s`.
pub uninterp spec fn json_string(s: Seq<char>) -> serde_json::Value;

/// Relies on serde_json::Map::new: the map starts empty.
pub assume_specification[ serde_json::Map::<String, serde_json::Value>::new ]() -> (r: JsonMap<
    String,
    Value,
>)
    ensures
        json_fields(r).dom().is_empty(),
;

/// Relies on serde_json::Map::insert: the key is bound to the value, and an
/// earlier value of that key is replaced.
pub assume_specification[ serde_json::Map::<String, serde_json::Value>::insert ](
    m: &mut serde_json::Map<String, serde_json::Value>,
    k: String,
    v: serde_json::Value,
) -> (r: Option<serde_json::Value>)
    ensures
        json_fields(*final(m)) == json_fields(*old(m)).insert(k@, v),
;

/// The handlebars template registry, carried through opaque.
#[verifier::external_type_specification]
#[verifier::external_body]
pub struct ExHandlebars<'reg>(handlebars::Handlebars<'reg>);

/// The handlebars rendering error, carried through opaque.
#[verifier::external_type_specification]
#[verifier::external_body]
pub struct ExRenderError(handlebars::RenderError);

/// Relies on handlebars::Registry::render, which renders the registered
/// template `name` with `data`; what it gives depends on the templates
/// registered, so nothing is stated of it.
#[verifier::external_body]
fn render_with(hb: &Handlebars, name: &str, data: &JsonMap<String, Value>) -> (r: Result<
    String,
    RenderError,
>) {
    hb.render(name, data)
}

/// Relies on the serde_json::Value::String variant, which holds the string as given.
#[verifier::external_body]
fn json_text(s: &str) -> (r: Value)
    ensures
        r == json_string(s@),
{
    Value::String(s.to_string())
}

/// Add a string field to a JSON object.
fn put_field(m: &mut JsonMap<String, Value>, key: &str, value: &str)
    ensures
        json_fields(*final(m)) == json_fields(*old(m)).insert(key@, json_string(value@)),
{
    let v = json_text(value);
    let _ = m.insert(String::from_str(key), v);
}

/// A page to show, with its data.
#[derive(Debug, PartialEq)]
pub enum HtmlTemplate<'a> {
    /// An image made from ASCII art; holds the route to the image.
    AsciiToImageResult { image_result: String },
    /// ASCII art made from an image; holds the text.
    ImageToAsciiResult { ascii_result: String },
    /// An error, with its message and a route to try again.
    Error { error_message: &'a str, try_again_link: &'a str },
    /// An error whose message comes in two parts, with a route to try again.
    ErrorMultiLine { error_message: String, error_message2: &'a str, try_again_link: &'a str },
}

/// Whether a page reports an error.
pub open spec fn spec_is_error_template(t: HtmlTemplate) -> bool {
    t is Error || t is ErrorMultiLine
}

/// The data that the template of a page displays: each field of the
/// variant as a JSON string under the field's name.
pub open spec fn template_fields(t: HtmlTemplate) -> Map<Seq<char>, serde_json::Value> {
    match t {
        HtmlTemplate::AsciiToImageResult { image_result } => map!["image_result"@ => json_string(image_result@)],
        HtmlTemplate::ImageToAsciiResult { ascii_result } => map!["ascii_result"@ => json_string(ascii_result@)],
        HtmlTemplate::Error { error_message, try_again_link } => map![
            "error_message"@ => json_string(error_message@),
            "try_again_link"@ => json_string(try_again_link@),
        ],
        HtmlTemplate::ErrorMultiLine { error_message, error_message2, try_again_link } => map![
            "error_message"@ => json_string(error_message@),
            "error_message2"@ => json_string(error_message2@),
            "try_again_link"@ => json_string(try_again_link@),
        ],
    }
}

impl<'a> HtmlTemplate<'a> {
    /// The data for the page's template, as a JSON object: each field of
    /// the variant as a string under its own name.
    pub fn format_template_data(&self) -> (r: JsonMap<String, Value>)
        ensures
            json_fields(r) == template_fields(*self),
    {
        let mut data = JsonMap::new();
        match self {
            HtmlTemplate::AsciiToImageResult { image_result } => {
                put_field(&mut data, "image_result", image_result.as_str());
            },
            HtmlTemplate::ImageToAsciiResult { ascii_result } => {
                put_field(&mut data, "ascii_result", ascii_result.as_str());
            },
            HtmlTemplate::Error { error_message, try_again_link } => {
                put_field(&mut data, "error_message", error_message);
                put_field(&mut data, "try_again_link", try_again_link);
            },
            HtmlTemplate::ErrorMultiLine { error_message, error_message2, try_again_link } => {
                put_field(&mut data, "error_message", error_message.as_str());
                put_field(&mut data, "error_message2", error_message2);
                put_field(&mut data, "try_again_link", try_again_link);
            },
        }
        assert(json_fields(data) =~= template_fields(*self));
        data
    }

    /// The name of the template file that renders this page.
    pub fn get_template_name(&self) -> (r: &'static str)
        ensures
            self is AsciiToImageResult ==> r@ == "ascii-to-image-result"@,
            self is ImageToAsciiResult ==> r@ == "image-to-ascii-result"@,
            spec_is_error_template(*self) ==> r@ == "error"@,
    {
        match self {
            HtmlTemplate::AsciiToImageResult { .. } => "ascii-to-image-result",
            HtmlTemplate::ImageToAsciiResult { .. } => "image-to-ascii-result",
            HtmlTemplate::Error { .. } | HtmlTemplate::ErrorMultiLine { .. } => "error",
        }
    }

    /// Render the page with the template engine `hb`: its template is the one
    /// named by [`HtmlTemplate::get_template_name`], filled with
    /// [`HtmlTemplate::format_template_data`].
    pub fn render_template(&self, hb: &Handlebars) -> Result<String, RenderError> {
        render_with(hb, self.get_template_name(), &self.format_template_data())
    }

    /// Whether this page reports an error rather than a result.
    pub fn is_error_template(&self) -> (r: bool)
        ensures
            r == spec_is_error_template(*self),
    {
        match self {
            HtmlTemplate::AsciiToImageResult { .. } | HtmlTemplate::ImageToAsciiResult { .. } => {
                false
            },
            HtmlTemplate::Error { .. } | HtmlTemplate::ErrorMultiLine { .. } => true,
        }
    }
}

} // verus!
