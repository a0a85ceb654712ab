use ascii_art_converter::website::ascii_form_params::{AsciiFormParams, AsciiInputError};
use ascii_art_converter::website::html_template::HtmlTemplate;
use ascii_art_converter::website::image_form_params::{
    ImageFormParams, ImageInputError, ImageMime, ImageUpload,
};
use ascii_art_converter::website::input_processors::{
    generate_ascii_to_image_result, generate_image_to_ascii_result, image_result_page,
    new_image_file_name,
};
use serde_json::{Map as JsonMap, Value};

fn upload(file_name: &str, content_type: Option<ImageMime>, size: usize) -> ImageUpload {
    ImageUpload {
        contents: Vec::new(),
        file_name: Some(file_name.to_string()),
        content_type,
        size,
    }
}

fn json_object(fields: &[(&str, &str)]) -> JsonMap<String, Value> {
    let mut m = JsonMap::new();
    for (k, v) in fields {
        m.insert(k.to_string(), Value::String(v.to_string()));
    }
    m
}

#[test]
fn ascii_form_params_test_empty_input() {
    let input = AsciiFormParams {
        ascii_input: "".to_string(),
    };
    let result = input.validate_ascii_input();
    assert_eq!(result, Err(AsciiInputError::EmptyInput));
}

#[test]
fn test_not_ascii_input() {
    let mut input = AsciiFormParams {
        ascii_input: "ðŸ˜„".to_string(),
    };
    let mut result = input.validate_ascii_input();

    assert_eq!(result, Err(AsciiInputError::NotAsciiInput));

    input = AsciiFormParams {
        ascii_input: "Â£Â¥â‚¬Â¢abc".to_string(),
    };
    result = input.validate_ascii_input();

    assert_eq!(result, Err(AsciiInputError::NotAsciiInput));
}

#[test]
fn test_valid_ascii_input() {
    let input = AsciiFormParams {
        ascii_input: "Hello! <> 123 \n {};+=@".to_string(),
    };
    let result = input.validate_ascii_input();

    assert_eq!(result, Ok(()));
}

#[test]
fn test_format_template_data() {
    let mut html_template = HtmlTemplate::AsciiToImageResult {
        image_result: "conversion_results/image_file_name.png".to_string(),
    };
    let mut result = html_template.format_template_data();
    let mut expected_result =
        json_object(&[("image_result", "conversion_results/image_file_name.png")]);

    assert_eq!(result, expected_result);

    html_template = HtmlTemplate::ImageToAsciiResult {
        ascii_result: "><(((('>".to_string(),
    };
    result = html_template.format_template_data();
    expected_result = json_object(&[("ascii_result", "><(((('>")]);

    assert_eq!(result, expected_result);

    html_template = HtmlTemplate::Error {
        error_message: "This is a test error message.",
        try_again_link: "/try_again",
    };
    result = html_template.format_template_data();
    expected_result = json_object(&[
        ("error_message", "This is a test error message."),
        ("try_again_link", "/try_again"),
    ]);

    assert_eq!(result, expected_result);

    html_template = HtmlTemplate::ErrorMultiLine {
        error_message: "This is a test error message.".to_string(),
        error_message2: "This is a test error message part two.",
        try_again_link: "/try_again",
    };
    result = html_template.format_template_data();
    expected_result = json_object(&[
        ("error_message", "This is a test error message."),
        ("error_message2", "This is a test error message part two."),
        ("try_again_link", "/try_again"),
    ]);

    assert_eq!(result, expected_result);
}

#[test]
fn test_get_template_name() {
    let mut html_template = HtmlTemplate::AsciiToImageResult {
        image_result: "conversion_results/image_file_name.png".to_string(),
    };
    let mut result = html_template.get_template_name();

    assert_eq!(result, "ascii-to-image-result");

    html_template = HtmlTemplate::ImageToAsciiResult {
        ascii_result: "><(((('>".to_string(),
    };
    result = html_template.get_template_name();

    assert_eq!(result, "image-to-ascii-result");

    html_template = HtmlTemplate::Error {
        error_message: "This is a test error message.",
        try_again_link: "/try_again",
    };
    result = html_template.get_template_name();

    assert_eq!(result, "error");

    html_template = HtmlTemplate::ErrorMultiLine {
        error_message: "This is a test error message.".to_string(),
        error_message2: "This is a test error message part two.",
        try_again_link: "/try_again",
    };
    result = html_template.get_template_name();

    assert_eq!(result, "error");
}

#[test]
fn test_is_error_template() {
    let mut html_template = HtmlTemplate::AsciiToImageResult {
        image_result: "conversion_results/image_file_name.png".to_string(),
    };
    let mut result = html_template.is_error_template();

    assert!(!result);

    html_template = HtmlTemplate::ImageToAsciiResult {
        ascii_result: "><(((('>".to_string(),
    };
    result = html_template.is_error_template();

    assert!(!result);

    html_template = HtmlTemplate::Error {
        error_message: "This is a test error message.",
        try_again_link: "/try_again",
    };
    result = html_template.is_error_template();

    assert!(result);

    html_template = HtmlTemplate::ErrorMultiLine {
        error_message: "This is a test error message.".to_string(),
        error_message2: "This is a test error message part two.",
        try_again_link: "/try_again",
    };
    result = html_template.is_error_template();

    assert!(result);
}

#[test]
fn image_form_params_test_empty_input() {
    let mut input = ImageFormParams { image_input: None };
    let mut result = input.validate_image_input();

    assert_eq!(result.unwrap_err(), ImageInputError::EmptyInput);

    input = ImageFormParams {
        image_input: Some(upload("test_file.png", Some(ImageMime::Png), 0)),
    };
    result = input.validate_image_input();

    assert_eq!(result.unwrap_err(), ImageInputError::EmptyInput);
}

#[test]
fn test_unsupported_mime_type() {
    let input = ImageFormParams {
        image_input: Some(upload("test_file.gif", Some(ImageMime::Other), 10)),
    };
    let result = input.validate_image_input();

    assert_eq!(result.unwrap_err(), ImageInputError::UnsupportedImageType);
}

#[test]
fn test_jpeg_input() {
    let input = ImageFormParams {
        image_input: Some(upload("test_file.jpeg", Some(ImageMime::Jpeg), 10)),
    };
    let result = input.validate_image_input();

    assert!(&result.is_ok());

    let result = result.unwrap();
    assert_eq!(result.file_name, Some("test_file.jpeg".to_string()));
    assert_eq!(result.content_type, Some(ImageMime::Jpeg));
    assert_eq!(result.size, 10);
}

#[test]
fn test_png_input() {
    let input = ImageFormParams {
        image_input: Some(upload("test_file.png", Some(ImageMime::Png), 10)),
    };
    let result = input.validate_image_input();

    assert!(&result.is_ok());

    let result = result.unwrap();
    assert_eq!(result.file_name, Some("test_file.png".to_string()));
    assert_eq!(result.content_type, Some(ImageMime::Png));
    assert_eq!(result.size, 10);
}

#[test]
fn missing_content_type_is_unsupported() {
    let input = ImageFormParams {
        image_input: Some(upload("test_file", None, 10)),
    };
    assert_eq!(
        input.validate_image_input().unwrap_err(),
        ImageInputError::UnsupportedImageType
    );
}

#[test]
fn test_generate_ascii_to_image_result_empty_input() {
    let params = AsciiFormParams {
        ascii_input: "".to_string(),
    };
    let result = generate_ascii_to_image_result(params);

    let expected_result = HtmlTemplate::Error {
        error_message: "It looks like you submitted an empty form! Be sure to paste your ASCII text into the text box of the form.",
        try_again_link: "/ascii-to-image"
    };

    assert_eq!(result, Err(expected_result));
}

#[test]
fn test_generate_ascii_to_image_result_not_ascii_input() {
    let mut input = AsciiFormParams {
        ascii_input: "ðŸ˜„".to_string(),
    };
    let mut result = generate_ascii_to_image_result(input);

    let expected_result = HtmlTemplate::Error {
        error_message: "This form only accepts ASCII characters! Be sure to double check that all pasted text is valid ASCII.",
        try_again_link: "/ascii-to-image"
    };

    assert_eq!(result, Err(expected_result));

    input = AsciiFormParams {
        ascii_input: "Â£Â¥â‚¬Â¢abc".to_string(),
    };
    result = generate_ascii_to_image_result(input);

    let expected_result = HtmlTemplate::Error {
        error_message: "This form only accepts ASCII characters! Be sure to double check that all pasted text is valid ASCII.",
        try_again_link: "/ascii-to-image"
    };

    assert_eq!(result, Err(expected_result));
}

#[test]
fn test_generate_ascii_to_image_result_unknown_ascii_symbol() {
    let mut input = AsciiFormParams {
        ascii_input: "V".to_string(),
    };
    let mut result = generate_ascii_to_image_result(input);

    let mut expected_result = HtmlTemplate::ErrorMultiLine {
        error_message: "The ASCII art you submitted contains an unsupported character: V"
            .to_string(),
        error_message2:
            "Please try again with a piece of ASCII art that only contains supported symbols.",
        try_again_link: "/ascii-to-image",
    };

    assert_eq!(result, Err(expected_result));

    input = AsciiFormParams {
        ascii_input: "=".to_string(),
    };
    result = generate_ascii_to_image_result(input);

    expected_result = HtmlTemplate::ErrorMultiLine {
        error_message: "The ASCII art you submitted contains an unsupported character: ="
            .to_string(),
        error_message2:
            "Please try again with a piece of ASCII art that only contains supported symbols.",
        try_again_link: "/ascii-to-image",
    };

    assert_eq!(result, Err(expected_result));
}

#[test]
fn generate_ascii_to_image_result_success_gives_png() {
    let params = AsciiFormParams {
        ascii_input: "$$\n..".to_string(),
    };
    let bytes = generate_ascii_to_image_result(params).unwrap();
    assert_eq!(&bytes[..4], &[0x89, b'P', b'N', b'G']);
}

#[test]
fn test_generate_image_to_ascii_result_error() {
    let params = ImageFormParams {
        image_input: Some(upload("test_file.png", Some(ImageMime::Jpeg), 10)),
    };
    let result = generate_image_to_ascii_result(params);

    let expected_result = HtmlTemplate::Error {
        error_message: "It looks like we ran into an issue with parsing your image! There could be a problem with your image or with our parser, so try it one more time. But if that doesn't work, try a different image.",
        try_again_link: "/image-to-ascii"
    };

    assert_eq!(result, expected_result);
}

#[test]
fn test_generate_image_to_ascii_result_empty_input() {
    let params = ImageFormParams { image_input: None };
    let result = generate_image_to_ascii_result(params);

    let expected_result = HtmlTemplate::Error {
        error_message: "It looks like you submitted an empty form! Be sure to upload an image to the form before submitting.",
        try_again_link: "/image-to-ascii"
    };

    assert_eq!(result, expected_result);
}

#[test]
fn test_generate_image_to_ascii_result_unsupported_image_type() {
    let params = ImageFormParams {
        image_input: Some(upload("test_file.gif", Some(ImageMime::Other), 10)),
    };
    let result = generate_image_to_ascii_result(params);

    let expected_result = HtmlTemplate::Error {
        error_message: "It looks like you submitted an unsupported image type! Be sure to upload either a JPEG or a PNG image only.",
        try_again_link: "/image-to-ascii"
    };

    assert_eq!(result, expected_result);
}

#[test]
fn generate_image_to_ascii_result_success() {
    let png = ascii_art_converter::ascii_to_image("  \n  ").unwrap();
    let size = png.len();
    let params = ImageFormParams {
        image_input: Some(ImageUpload {
            contents: png,
            file_name: Some("blank.png".to_string()),
            content_type: Some(ImageMime::Png),
            size,
        }),
    };
    match generate_image_to_ascii_result(params) {
        HtmlTemplate::ImageToAsciiResult { ascii_result } => {
            // a space is drawn at brightness 251, which reads back as '.'
            assert!(ascii_result.contains('.'));
            assert!(ascii_result.chars().all(|c| c == '.' || c == '\n'));
        }
        other => panic!("unexpected page: {:?}", other),
    }
}

#[test]
fn image_result_page_route() {
    assert_eq!(
        image_result_page("abc.png"),
        HtmlTemplate::AsciiToImageResult {
            image_result: "conversion_results/abc.png".to_string()
        }
    );
}

#[test]
fn new_image_file_name_shape() {
    let name = new_image_file_name();
    assert_eq!(name.len(), 40);
    assert!(name.ends_with(".png"));
    for (i, c) in name[..36].chars().enumerate() {
        if i == 8 || i == 13 || i == 18 || i == 23 {
            assert_eq!(c, '-');
        } else {
            assert!(c.is_ascii_digit() || ('a'..='f').contains(&c));
        }
    }
    assert_ne!(new_image_file_name(), name);
}

#[test]
fn test_render_template() {
    let mut handlebars = handlebars::Handlebars::new();
    handlebars
        .register_template_string("ascii-to-image-result", "<img src=\"{{image_result}}\">")
        .unwrap();
    handlebars
        .register_template_string("image-to-ascii-result", "<pre>{{ascii_result}}</pre>")
        .unwrap();
    handlebars
        .register_template_string(
            "error",
            "<p>{{error_message}}</p><p>{{error_message2}}</p><a href=\"{{try_again_link}}\">",
        )
        .unwrap();

    let mut html_template = HtmlTemplate::AsciiToImageResult {
        image_result: "conversion_results/image_file_name.png".to_string(),
    };
    let mut result = html_template.render_template(&handlebars).unwrap();
    let mut expected_data =
        json_object(&[("image_result", "conversion_results/image_file_name.png")]);
    let mut expected_result = handlebars
        .render("ascii-to-image-result", &expected_data)
        .unwrap();

    assert_eq!(result, expected_result);
    assert_eq!(
        result,
        "<img src=\"conversion_results/image_file_name.png\">"
    );

    html_template = HtmlTemplate::ImageToAsciiResult {
        ascii_result: "><(((('>".to_string(),
    };
    result = html_template.render_template(&handlebars).unwrap();
    expected_data = json_object(&[("ascii_result", "><(((('>")]);
    expected_result = handlebars
        .render("image-to-ascii-result", &expected_data)
        .unwrap();

    assert_eq!(result, expected_result);

    html_template = HtmlTemplate::Error {
        error_message: "This is a test error message.",
        try_again_link: "/try_again",
    };
    result = html_template.render_template(&handlebars).unwrap();
    expected_data = json_object(&[
        ("error_message", "This is a test error message."),
        ("try_again_link", "/try_again"),
    ]);
    expected_result = handlebars.render("error", &expected_data).unwrap();

    assert_eq!(result, expected_result);

    html_template = HtmlTemplate::ErrorMultiLine {
        error_message: "This is a test error message.".to_string(),
        error_message2: "This is a test error message part two.",
        try_again_link: "/try_again",
    };
    result = html_template.render_template(&handlebars).unwrap();
    expected_data = json_object(&[
        ("error_message", "This is a test error message."),
        ("error_message2", "This is a test error message part two."),
        ("try_again_link", "/try_again"),
    ]);
    expected_result = handlebars.render("error", &expected_data).unwrap();

    assert_eq!(result, expected_result);
}
