use async_openai::error::OpenAIError;
use async_openai::multipart::{Field, FieldValue, UploadForm, OCTET_STREAM};
use async_openai::types::{
    CreateImageEditRequest, CreateImageVariationRequest, ImageInput, ImageSize, ResponseFormat,
};
use async_openai::Image;

fn opened() -> Result<tokio::fs::File, String> {
    let runtime = tokio::runtime::Builder::new_current_thread().build().unwrap();
    runtime.block_on(tokio::fs::File::open("/dev/null")).map_err(|e| e.to_string())
}

fn missing() -> Result<tokio::fs::File, String> {
    Err("No such file or directory (os error 2)".to_string())
}

fn input(path: &str) -> ImageInput {
    ImageInput { path: path.to_string() }
}

fn edit_request() -> CreateImageEditRequest {
    CreateImageEditRequest {
        image: input("./images/sunlit_lounge.png"),
        mask: input("./images/mask.png"),
        prompt: "A sunlit indoor lounge area with a pool containing a flamingo".to_string(),
        n: None,
        size: None,
        response_format: None,
        user: None,
    }
}

fn variation_request() -> CreateImageVariationRequest {
    CreateImageVariationRequest {
        image: input("/home/user/cake.png"),
        n: None,
        size: None,
        response_format: None,
        user: None,
    }
}

/// Each field as (name, text value, upload file name).
fn listed(form: &UploadForm) -> Vec<(String, Option<String>, Option<String>)> {
    form.fields.iter().map(described).collect()
}

fn described(field: &Field) -> (String, Option<String>, Option<String>) {
    match &field.value {
        FieldValue::Text(value) => (field.name.clone(), Some(value.clone()), None),
        FieldValue::Stream(part) => (field.name.clone(), None, Some(part.file_name.clone())),
    }
}

fn text(name: &str, value: &str) -> (String, Option<String>, Option<String>) {
    (name.to_string(), Some(value.to_string()), None)
}

fn file(name: &str, file_name: &str) -> (String, Option<String>, Option<String>) {
    (name.to_string(), None, Some(file_name.to_string()))
}

fn names(form: &UploadForm) -> Vec<String> {
    form.fields.iter().map(|field| field.name.clone()).collect()
}

fn read_failure<T: std::fmt::Debug>(result: Result<T, OpenAIError>) -> String {
    match result {
        Err(OpenAIError::ImageReadError(description)) => description,
        other => panic!("unexpected result: {:?}", other),
    }
}

#[test]
fn part_is_named_by_the_final_path_component() {
    let part = Image::create_part(&input("/var/data/images/otter.png"), opened()).unwrap();
    assert_eq!(part.file_name, "otter.png");
    assert_eq!(part.mime(), "application/octet-stream");
    assert_eq!(OCTET_STREAM, "application/octet-stream");
}

#[test]
fn part_of_a_bare_file_name_keeps_it() {
    let part = Image::create_part(&input("otter.png"), opened()).unwrap();
    assert_eq!(part.file_name, "otter.png");
}

#[test]
fn part_body_is_streamed_not_buffered() {
    let part = Image::create_part(&input("otter.png"), opened()).unwrap();
    assert!(part.body.as_bytes().is_none());
}

#[test]
fn root_path_has_no_file_name() {
    let description = read_failure(Image::create_part(&input("/"), opened()));
    assert_eq!(description, "cannot extract file name from \"/\"");
}

#[test]
fn path_ending_in_parent_directory_has_no_file_name() {
    let description = read_failure(Image::create_part(&input("images/.."), opened()));
    assert_eq!(description, "cannot extract file name from \"images/..\"");
}

#[test]
fn empty_path_has_no_file_name() {
    let description = read_failure(Image::create_part(&input(""), opened()));
    assert_eq!(description, "cannot extract file name from \"\"");
}

#[test]
fn path_in_the_message_is_quoted_and_escaped() {
    let description = read_failure(Image::create_part(&input("a\"b/.."), opened()));
    assert_eq!(description, "cannot extract file name from \"a\\\"b/..\"");
}

#[test]
fn unreadable_file_is_a_read_failure() {
    let description = read_failure(Image::create_part(&input("images/absent.png"), missing()));
    assert_eq!(description, "No such file or directory (os error 2)");
}

#[test]
fn missing_file_name_is_reported_before_the_unreadable_file() {
    let description = read_failure(Image::create_part(&input("/"), missing()));
    assert_eq!(description, "cannot extract file name from \"/\"");
}

#[test]
fn stream_body_of_an_opened_file() {
    let body = Image::file_stream_body(opened()).unwrap();
    assert!(body.as_bytes().is_none());
}

#[test]
fn stream_body_of_a_file_that_did_not_open() {
    let description = read_failure(Image::file_stream_body(Err("Permission denied (os error 13)".to_string())));
    assert_eq!(description, "Permission denied (os error 13)");
}

#[test]
fn edit_form_with_count_and_size_only() {
    let mut request = edit_request();
    request.n = Some(2);
    request.size = Some(ImageSize::S256x256);
    let form = Image::create_edit(request, opened(), opened()).unwrap();
    assert_eq!(
        listed(&form),
        vec![
            file("image", "sunlit_lounge.png"),
            file("mask", "mask.png"),
            text("prompt", "A sunlit indoor lounge area with a pool containing a flamingo"),
            text("n", "2"),
            text("size", "256x256"),
        ]
    );
    assert!(!names(&form).contains(&"user".to_string()));
    assert!(!names(&form).contains(&"response_format".to_string()));
}

#[test]
fn edit_form_without_optional_fields() {
    let form = Image::create_edit(edit_request(), opened(), opened()).unwrap();
    assert_eq!(names(&form), vec!["image", "mask", "prompt"]);
}

#[test]
fn edit_form_with_every_optional_field() {
    let mut request = edit_request();
    request.n = Some(10);
    request.size = Some(ImageSize::S1024x1024);
    request.response_format = Some(ResponseFormat::B64Json);
    request.user = Some("user-1234".to_string());
    let form = Image::create_edit(request, opened(), opened()).unwrap();
    assert_eq!(
        listed(&form),
        vec![
            file("image", "sunlit_lounge.png"),
            file("mask", "mask.png"),
            text("prompt", "A sunlit indoor lounge area with a pool containing a flamingo"),
            text("n", "10"),
            text("size", "1024x1024"),
            text("response_format", "b64_json"),
            text("user", "user-1234"),
        ]
    );
}

#[test]
fn edit_form_holds_each_present_optional_field_once() {
    let mut request = edit_request();
    request.response_format = Some(ResponseFormat::Url);
    request.user = Some("n".to_string());
    let form = Image::create_edit(request, opened(), opened()).unwrap();
    let fields = listed(&form);
    assert_eq!(fields.iter().filter(|field| field.0 == "response_format").count(), 1);
    assert_eq!(fields.iter().filter(|field| field.0 == "user").count(), 1);
    assert_eq!(fields.iter().filter(|field| field.0 == "n").count(), 0);
    assert_eq!(fields.iter().filter(|field| field.0 == "size").count(), 0);
    assert!(fields.contains(&text("response_format", "url")));
    assert!(fields.contains(&text("user", "n")));
}

#[test]
fn edit_form_keeps_an_empty_prompt_and_user() {
    let mut request = edit_request();
    request.prompt = String::new();
    request.user = Some(String::new());
    let form = Image::create_edit(request, opened(), opened()).unwrap();
    assert_eq!(
        listed(&form),
        vec![
            file("image", "sunlit_lounge.png"),
            file("mask", "mask.png"),
            text("prompt", ""),
            text("user", ""),
        ]
    );
}

#[test]
fn edit_fails_when_the_image_has_no_file_name() {
    let mut request = edit_request();
    request.image = input("/");
    let description = read_failure(Image::create_edit(request, opened(), opened()));
    assert_eq!(description, "cannot extract file name from \"/\"");
}

#[test]
fn edit_fails_when_the_mask_has_no_file_name() {
    let mut request = edit_request();
    request.mask = input("masks/..");
    let description = read_failure(Image::create_edit(request, opened(), opened()));
    assert_eq!(description, "cannot extract file name from \"masks/..\"");
}

#[test]
fn edit_fails_when_the_mask_cannot_be_read() {
    let description = read_failure(Image::create_edit(edit_request(), opened(), missing()));
    assert_eq!(description, "No such file or directory (os error 2)");
}

#[test]
fn edit_reports_the_image_before_the_mask() {
    let mut request = edit_request();
    request.mask = input("/");
    let unreadable = Err("Is a directory (os error 21)".to_string());
    let description = read_failure(Image::create_edit(request, unreadable, opened()));
    assert_eq!(description, "Is a directory (os error 21)");
}

#[test]
fn variation_form_without_optional_fields() {
    let form = Image::create_variation(variation_request(), opened()).unwrap();
    assert_eq!(listed(&form), vec![file("image", "cake.png")]);
}

#[test]
fn variation_form_with_every_optional_field() {
    let mut request = variation_request();
    request.n = Some(255);
    request.size = Some(ImageSize::S512x512);
    request.response_format = Some(ResponseFormat::Url);
    request.user = Some("someone".to_string());
    let form = Image::create_variation(request, opened()).unwrap();
    assert_eq!(
        listed(&form),
        vec![
            file("image", "cake.png"),
            text("n", "255"),
            text("size", "512x512"),
            text("response_format", "url"),
            text("user", "someone"),
        ]
    );
}

#[test]
fn variation_form_leaves_out_absent_fields_between_present_ones() {
    let mut request = variation_request();
    request.n = Some(1);
    request.user = Some("someone".to_string());
    let form = Image::create_variation(request, opened()).unwrap();
    assert_eq!(
        listed(&form),
        vec![file("image", "cake.png"), text("n", "1"), text("user", "someone")]
    );
}

#[test]
fn variation_fails_when_the_image_has_no_file_name() {
    let mut request = variation_request();
    request.image = input("..");
    let description = read_failure(Image::create_variation(request, opened()));
    assert_eq!(description, "cannot extract file name from \"..\"");
}

#[test]
fn variation_fails_when_the_image_cannot_be_read() {
    let description = read_failure(Image::create_variation(variation_request(), missing()));
    assert_eq!(description, "No such file or directory (os error 2)");
}

#[test]
fn part_from_a_file_name_given() {
    let part = Image::part_of(Some("otter.png".to_string()), "\"otter.png\"".to_string(), opened())
        .unwrap();
    assert_eq!(part.file_name, "otter.png");
    assert!(part.body.as_bytes().is_none());
}

#[test]
fn part_without_a_file_name_cites_the_quoted_path() {
    let description = read_failure(Image::part_of(None, "\"/\"".to_string(), opened()));
    assert_eq!(description, "cannot extract file name from \"/\"");
}

#[test]
fn part_of_an_unreadable_file_carries_the_description() {
    let result = Image::part_of(Some("otter.png".to_string()), "\"otter.png\"".to_string(), missing());
    assert_eq!(read_failure(result), "No such file or directory (os error 2)");
}

#[test]
fn edit_form_from_parts() {
    let image = Image::create_part(&input("a/first.png"), opened()).unwrap();
    let mask = Image::create_part(&input("b/second.png"), opened()).unwrap();
    let mut request = edit_request();
    request.n = Some(2);
    request.size = Some(ImageSize::S256x256);
    let form = Image::edit_form(request, image, mask);
    assert_eq!(
        listed(&form),
        vec![
            file("image", "first.png"),
            file("mask", "second.png"),
            text("prompt", "A sunlit indoor lounge area with a pool containing a flamingo"),
            text("n", "2"),
            text("size", "256x256"),
        ]
    );
}

#[test]
fn variation_form_from_a_part() {
    let image = Image::create_part(&input("a/first.png"), opened()).unwrap();
    let mut request = variation_request();
    request.response_format = Some(ResponseFormat::B64Json);
    let form = Image::variation_form(request, image);
    assert_eq!(listed(&form), vec![file("image", "first.png"), text("response_format", "b64_json")]);
}

#[test]
fn cloned_requests_equal_their_source() {
    let mut request = edit_request();
    request.n = Some(4);
    request.user = Some("someone".to_string());
    let copy = request.clone();
    assert_eq!(copy.image.path, request.image.path);
    assert_eq!(copy.mask.path, request.mask.path);
    assert_eq!(copy.prompt, request.prompt);
    assert_eq!(copy.n, Some(4));
    assert_eq!(copy.size, None);
    assert_eq!(copy.response_format, None);
    assert_eq!(copy.user, Some("someone".to_string()));
    let variation = variation_request();
    let copy = variation.clone();
    assert_eq!(copy.image.path, "/home/user/cake.png");
    assert_eq!(copy.user, None);
}

#[test]
fn edit_request_becomes_a_multipart_form() {
    let mut request = edit_request();
    request.n = Some(2);
    request.size = Some(ImageSize::S256x256);
    let form = Image::create_edit(request, opened(), opened()).unwrap().into_multipart();
    let text = format!("{:?}", form);
    let found: Vec<usize> = ["(\"image\", Part", "(\"mask\", Part", "(\"prompt\", Part", "(\"n\", Part", "(\"size\", Part"]
        .iter()
        .map(|name| text.find(name).unwrap())
        .collect();
    assert!(found.windows(2).all(|pair| pair[0] < pair[1]));
    assert_eq!(text.matches("Part {").count(), 5);
    assert!(!text.contains("(\"user\", Part"));
    assert!(!text.contains("(\"response_format\", Part"));
    assert!(text.contains("file_name: Some(\"sunlit_lounge.png\")"));
    assert!(text.contains("file_name: Some(\"mask.png\")"));
}

#[test]
fn path_ending_in_a_separator_has_no_file_name() {
    let description = read_failure(Image::create_part(&input("uploads/"), opened()));
    assert_eq!(description, "cannot extract file name from \"uploads/\"");
}

#[test]
fn file_path_with_a_trailing_separator_has_no_file_name() {
    let description = read_failure(Image::create_part(&input("/tmp/imgs/cat.png/"), opened()));
    assert_eq!(description, "cannot extract file name from \"/tmp/imgs/cat.png/\"");
}

#[test]
fn trailing_separator_is_reported_before_the_unreadable_file() {
    let description = read_failure(Image::create_part(&input("uploads/"), missing()));
    assert_eq!(description, "cannot extract file name from \"uploads/\"");
}

#[test]
fn part_name_is_the_final_path_component() {
    assert_eq!(Image::part_name(&input("/tmp/imgs/cat.png")).unwrap(), "cat.png");
    assert_eq!(Image::part_name(&input("cat.png")).unwrap(), "cat.png");
    assert_eq!(Image::part_name(&input("imgs/./cat")).unwrap(), "cat");
}

#[test]
fn part_name_fails_on_a_path_without_a_file_name() {
    assert_eq!(read_failure(Image::part_name(&input("/"))), "cannot extract file name from \"/\"");
    assert_eq!(
        read_failure(Image::part_name(&input("uploads/"))),
        "cannot extract file name from \"uploads/\""
    );
    assert_eq!(
        read_failure(Image::part_name(&input("imgs/.."))),
        "cannot extract file name from \"imgs/..\""
    );
    assert_eq!(read_failure(Image::part_name(&input(""))), "cannot extract file name from \"\"");
}

#[test]
fn edit_fails_when_the_mask_ends_in_a_separator() {
    let mut request = edit_request();
    request.mask = input("masks/");
    let description = read_failure(Image::create_edit(request, opened(), opened()));
    assert_eq!(description, "cannot extract file name from \"masks/\"");
}

#[test]
fn variation_fails_when_the_image_ends_in_a_separator() {
    let mut request = variation_request();
    request.image = input("cake.png/");
    let description = read_failure(Image::create_variation(request, opened()));
    assert_eq!(description, "cannot extract file name from \"cake.png/\"");
}
