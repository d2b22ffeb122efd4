//! The upload endpoints: from a request and its opened files to the form
//! that is sent.

use vstd::prelude::*;
use vstd::string::StringExecFns;

use crate::error::{ErrorView, OpenAIError};
use crate::multipart::{
    file_stream, stream_of, upload, Field, FieldValue, PartView, Section, UploadForm, UploadPart,
};
use crate::text::{
    describe_path, ends_in_separator, file_name_of, has_trailing_separator, optional_view,
    path_debug_text, path_file_name, render_decimal,
};
use crate::types::{
    lemma_edit_optional_fields, lemma_variation_optional_fields, optional_fields_kept,
    optional_sections, CreateImageEditRequest, CreateImageVariationRequest, ImageInput, ImageSize,
    ResponseFormat,
};

verus! {

/// How the message of a path without a file name begins; the path follows.
pub const NO_FILE_NAME: &'static str = "cannot extract file name from ";

/// Given a prompt and/or an input image, the service generates a new image.
pub struct Image;

/// The file name that the file at `path` is uploaded under: the final
/// component of the path. A path that ends in a separator has none.
pub open spec fn upload_name(path: Seq<char>) -> Option<Seq<char>> {
    if ends_in_separator(path) {
        None
    } else {
        path_file_name(path)
    }
}

/// The failure of a path without a file name; it cites the path in its
/// quoted rendering.
pub open spec fn no_file_name(quoted_path: Seq<char>) -> ErrorView {
    ErrorView::ImageReadError(NO_FILE_NAME@ + quoted_path)
}

/// What the path of an image alone decides: the file name of its upload, or
/// the failure to read the image.
pub open spec fn name_outcome(path: Seq<char>) -> Result<Seq<char>, ErrorView> {
    match upload_name(path) {
        Some(file_name) => Ok(file_name),
        None => Err(no_file_name(path_debug_text(path))),
    }
}

/// What becomes of one image on its way into a form, given what its path
/// yielded (the file name, if it has one, and its quoted rendering) and the
/// outcome of opening its file (on failure, the system's description of
/// it): the part that is named so and streams the opened file, or the
/// failure to read the image. A path without a file name fails before the
/// file is looked at.
pub open spec fn part_given(
    file_name: Option<Seq<char>>,
    quoted_path: Seq<char>,
    opened: Result<tokio::fs::File, String>,
) -> Result<PartView, ErrorView> {
    match file_name {
        None => Err(no_file_name(quoted_path)),
        Some(file_name) => match opened {
            Err(description) => Err(ErrorView::ImageReadError(description@)),
            Ok(file) => Ok(PartView { file_name, body: file_stream(file) }),
        },
    }
}

/// What becomes of the image at `path` on its way into a form, given the
/// outcome of opening its file.
pub open spec fn part_outcome(path: Seq<char>, opened: Result<tokio::fs::File, String>) -> Result<
    PartView,
    ErrorView,
> {
    part_given(upload_name(path), path_debug_text(path), opened)
}

/// The form of an edit request, or the first failure on the way to it: the
/// image comes before the mask.
pub open spec fn edit_outcome(
    request: CreateImageEditRequest,
    image_file: Result<tokio::fs::File, String>,
    mask_file: Result<tokio::fs::File, String>,
) -> Result<Seq<Section>, ErrorView> {
    match part_outcome(request.image.path@, image_file) {
        Err(failure) => Err(failure),
        Ok(image) => match part_outcome(request.mask.path@, mask_file) {
            Err(failure) => Err(failure),
            Ok(mask) => Ok(request.sections(image, mask)),
        },
    }
}

/// The form of a variation request, or the failure to read its image.
pub open spec fn variation_outcome(
    request: CreateImageVariationRequest,
    image_file: Result<tokio::fs::File, String>,
) -> Result<Seq<Section>, ErrorView> {
    match part_outcome(request.image.path@, image_file) {
        Err(failure) => Err(failure),
        Ok(image) => Ok(request.sections(image)),
    }
}

/// A text field.
fn text_field(name: &str, value: String) -> (field: Field)
    ensures
        field@ == (Section::Text { name: name@, value: value@ }),
{
    Field { name: name.to_owned(), value: FieldValue::Text(value) }
}

/// An upload field.
fn upload_field(name: &str, part: UploadPart) -> (field: Field)
    ensures
        field@ == upload(name@, part@),
{
    Field { name: name.to_owned(), value: FieldValue::Stream(part) }
}

/// The failure of a path without a file name.
fn missing_file_name(quoted_path: &str) -> (error: OpenAIError)
    ensures
        error@ == no_file_name(quoted_path@),
{
    let mut message = NO_FILE_NAME.to_owned();
    message.append(quoted_path);
    OpenAIError::ImageReadError(message)
}

/// The file name that the file at `path` is uploaded under, if the path has
/// one.
fn file_name_in(path: &str) -> (file_name: Option<String>)
    ensures
        optional_view(file_name) == upload_name(path@),
{
    if has_trailing_separator(path) {
        None
    } else {
        file_name_of(path)
    }
}

/// Appends the optional fields that a request gives, in their fixed order.
fn push_optional(
    fields: &mut Vec<Field>,
    n: Option<u8>,
    size: Option<ImageSize>,
    response_format: Option<ResponseFormat>,
    user: Option<String>,
)
    ensures
        final(fields)@.map_values(|field: Field| field@) == old(fields)@.map_values(
            |field: Field| field@,
        ) + optional_sections(n, size, response_format, user),
{
    let ghost view = |field: Field| field@;
    let ghost before = fields@.map_values(view);
    if let Some(n) = n {
        fields.push(text_field("n", render_decimal(n)));
    }
    if let Some(size) = size {
        fields.push(text_field("size", size.to_string()));
    }
    if let Some(response_format) = response_format {
        fields.push(text_field("response_format", response_format.to_string()));
    }
    if let Some(user) = user {
        fields.push(text_field("user", user));
    }
    proof {
        assert(fields@.map_values(view) =~= before + optional_sections(
            n,
            size,
            response_format,
            user,
        ));
    }
}

impl Image {
    /// The lazy byte stream of an opened image file, or the failure to open
    /// it as a failure to read the image.
    pub fn file_stream_body(opened: Result<tokio::fs::File, String>) -> (out: Result<
        reqwest::Body,
        OpenAIError,
    >)
        ensures
            opened matches Ok(file) ==> out == Ok::<reqwest::Body, OpenAIError>(file_stream(file)),
            opened matches Err(description) ==> out == Err::<reqwest::Body, OpenAIError>(
                OpenAIError::ImageReadError(description),
            ),
    {
        match opened {
            Ok(file) => Ok(stream_of(file)),
            Err(description) => Err(OpenAIError::ImageReadError(description)),
        }
    }

    /// Decides from the path of an image alone under which file name it is
    /// uploaded. No file is looked at: a caller opens the file only once
    /// this has succeeded.
    pub fn part_name(image_input: &ImageInput) -> (out: Result<String, OpenAIError>)
        ensures
            match name_outcome(image_input.path@) {
                Ok(file_name) => out matches Ok(name) && name@ == file_name,
                Err(failure) => out matches Err(error) && error@ == failure,
            },
            ends_in_separator(image_input.path@) || path_file_name(image_input.path@) is None
                ==> out matches Err(OpenAIError::ImageReadError(_)),
    {
        match file_name_in(image_input.path.as_str()) {
            Some(file_name) => Ok(file_name),
            None => Err(missing_file_name(describe_path(image_input.path.as_str()).as_str())),
        }
    }

    /// Makes an upload part from what the path of an image yielded: the
    /// file name, if it has one, and its quoted rendering, which the failure
    /// cites if it has none. The part streams the opened file.
    pub fn part_of(
        file_name: Option<String>,
        quoted_path: String,
        opened: Result<tokio::fs::File, String>,
    ) -> (out: Result<UploadPart, OpenAIError>)
        ensures
            match part_given(optional_view(file_name), quoted_path@, opened) {
                Ok(made) => out matches Ok(part) && part@ == made,
                Err(failure) => out matches Err(error) && error@ == failure,
            },
            file_name is None ==> out matches Err(OpenAIError::ImageReadError(_)),
    {
        let file_name = match file_name {
            Some(file_name) => file_name,
            None => {
                return Err(missing_file_name(quoted_path.as_str()));
            },
        };
        match Image::file_stream_body(opened) {
            Ok(body) => Ok(UploadPart { file_name, body }),
            Err(error) => Err(error),
        }
    }

    /// Makes the upload part of an image file: named by the final component
    /// of its path, streaming the opened file.
    pub fn create_part(image_input: &ImageInput, opened: Result<tokio::fs::File, String>) -> (out:
        Result<UploadPart, OpenAIError>)
        ensures
            match part_outcome(image_input.path@, opened) {
                Ok(made) => out matches Ok(part) && part@ == made,
                Err(failure) => out matches Err(error) && error@ == failure,
            },
            ends_in_separator(image_input.path@) || path_file_name(image_input.path@) is None
                ==> out matches Err(OpenAIError::ImageReadError(_)),
    {
        let file_name = file_name_in(image_input.path.as_str());
        let quoted_path = describe_path(image_input.path.as_str());
        Image::part_of(file_name, quoted_path, opened)
    }

    /// Assembles the form of an edit request from its parts: the image, the
    /// mask, the prompt, then each optional field that the request gives.
    pub fn edit_form(
        request: CreateImageEditRequest,
        image_part: UploadPart,
        mask_part: UploadPart,
    ) -> (form: UploadForm)
        ensures
            form@ == request.sections(image_part@, mask_part@),
            optional_fields_kept(
                form@,
                request.n,
                request.size,
                request.response_format,
                request.user,
            ),
    {
        let mut fields: Vec<Field> = Vec::new();
        fields.push(upload_field("image", image_part));
        fields.push(upload_field("mask", mask_part));
        fields.push(text_field("prompt", request.prompt));
        push_optional(&mut fields, request.n, request.size, request.response_format, request.user);
        let form = UploadForm { fields };
        proof {
            assert(form@ =~= request.sections(image_part@, mask_part@));
            lemma_edit_optional_fields(request, image_part@, mask_part@);
        }
        form
    }

    /// Assembles the form of a variation request from its part: the image,
    /// then each optional field that the request gives.
    pub fn variation_form(request: CreateImageVariationRequest, image_part: UploadPart) -> (form:
        UploadForm)
        ensures
            form@ == request.sections(image_part@),
            optional_fields_kept(
                form@,
                request.n,
                request.size,
                request.response_format,
                request.user,
            ),
    {
        let mut fields: Vec<Field> = Vec::new();
        fields.push(upload_field("image", image_part));
        push_optional(&mut fields, request.n, request.size, request.response_format, request.user);
        let form = UploadForm { fields };
        proof {
            assert(form@ =~= request.sections(image_part@));
            lemma_variation_optional_fields(request, image_part@);
        }
        form
    }

    /// Makes the parts of an edit request, the image before the mask, and
    /// assembles its form.
    pub fn create_edit(
        request: CreateImageEditRequest,
        image_file: Result<tokio::fs::File, String>,
        mask_file: Result<tokio::fs::File, String>,
    ) -> (out: Result<UploadForm, OpenAIError>)
        ensures
            match edit_outcome(request, image_file, mask_file) {
                Ok(sections) => out matches Ok(form) && form@ == sections,
                Err(failure) => out matches Err(error) && error@ == failure,
            },
            out matches Ok(form) ==> optional_fields_kept(
                form@,
                request.n,
                request.size,
                request.response_format,
                request.user,
            ),
            upload_name(request.image.path@) is None || upload_name(request.mask.path@) is None
                ==> out matches Err(OpenAIError::ImageReadError(_)),
    {
        let image_part = match Image::create_part(&request.image, image_file) {
            Ok(part) => part,
            Err(error) => {
                return Err(error);
            },
        };
        let mask_part = match Image::create_part(&request.mask, mask_file) {
            Ok(part) => part,
            Err(error) => {
                return Err(error);
            },
        };
        Ok(Image::edit_form(request, image_part, mask_part))
    }

    /// Makes the part of a variation request and assembles its form.
    pub fn create_variation(
        request: CreateImageVariationRequest,
        image_file: Result<tokio::fs::File, String>,
    ) -> (out: Result<UploadForm, OpenAIError>)
        ensures
            match variation_outcome(request, image_file) {
                Ok(sections) => out matches Ok(form) && form@ == sections,
                Err(failure) => out matches Err(error) && error@ == failure,
            },
            out matches Ok(form) ==> optional_fields_kept(
                form@,
                request.n,
                request.size,
                request.response_format,
                request.user,
            ),
            upload_name(request.image.path@) is None ==> out matches Err(
                OpenAIError::ImageReadError(_),
            ),
    {
        let image_part = match Image::create_part(&request.image, image_file) {
            Ok(part) => part,
            Err(error) => {
                return Err(error);
            },
        };
        Ok(Image::variation_form(request, image_part))
    }
}

} // verus!
