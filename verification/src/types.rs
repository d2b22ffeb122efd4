//! The requests of the upload endpoints, the values of their fields, and
//! the sections that a request's form is made of.

use vstd::prelude::*;

use crate::multipart::{
    carries, holds_once_at, lemma_carries_before, lemma_carries_behind, lemma_omits_joined, omits,
    upload, PartView, Section,
};
use crate::text::{decimal, optional_view};

verus! {

/// A reference to an image file on the local filesystem: its path, not an
/// open handle. The file is read when the request is sent.
#[derive(Debug)]
pub struct ImageInput {
    pub path: String,
}

impl Clone for ImageInput {
    fn clone(&self) -> (out: Self)
        ensures
            out == *self,
    {
        ImageInput { path: self.path.clone() }
    }
}

/// The sizes in which the service generates images.
#[derive(Debug, Clone, Copy, PartialEq, Eq, Structural)]
pub enum ImageSize {
    S256x256,
    S512x512,
    S1024x1024,
}

/// The forms in which the service hands generated images back.
#[derive(Debug, Clone, Copy, PartialEq, Eq, Structural)]
pub enum ResponseFormat {
    Url,
    B64Json,
}

impl ImageSize {
    /// The text the service knows the size by.
    pub open spec fn wire(self) -> Seq<char> {
        match self {
            ImageSize::S256x256 => "256x256"@,
            ImageSize::S512x512 => "512x512"@,
            ImageSize::S1024x1024 => "1024x1024"@,
        }
    }

    /// Renders the size as the service knows it.
    pub fn to_string(&self) -> (text: String)
        ensures
            text@ == self.wire(),
    {
        match self {
            ImageSize::S256x256 => "256x256".to_owned(),
            ImageSize::S512x512 => "512x512".to_owned(),
            ImageSize::S1024x1024 => "1024x1024".to_owned(),
        }
    }
}

impl ResponseFormat {
    /// The text the service knows the format by.
    pub open spec fn wire(self) -> Seq<char> {
        match self {
            ResponseFormat::Url => "url"@,
            ResponseFormat::B64Json => "b64_json"@,
        }
    }

    /// Renders the format as the service knows it.
    pub fn to_string(&self) -> (text: String)
        ensures
            text@ == self.wire(),
    {
        match self {
            ResponseFormat::Url => "url".to_owned(),
            ResponseFormat::B64Json => "b64_json".to_owned(),
        }
    }
}

/// A request to edit or extend an image under a mask, following a prompt.
#[derive(Debug)]
pub struct CreateImageEditRequest {
    pub image: ImageInput,
    pub mask: ImageInput,
    pub prompt: String,
    pub n: Option<u8>,
    pub size: Option<ImageSize>,
    pub response_format: Option<ResponseFormat>,
    pub user: Option<String>,
}

impl Clone for CreateImageEditRequest {
    fn clone(&self) -> (out: Self)
        ensures
            out == *self,
    {
        CreateImageEditRequest {
            image: self.image.clone(),
            mask: self.mask.clone(),
            prompt: self.prompt.clone(),
            n: self.n,
            size: self.size,
            response_format: self.response_format,
            user: copy_of(&self.user),
        }
    }
}

/// A request for variations of an image.
#[derive(Debug)]
pub struct CreateImageVariationRequest {
    pub image: ImageInput,
    pub n: Option<u8>,
    pub size: Option<ImageSize>,
    pub response_format: Option<ResponseFormat>,
    pub user: Option<String>,
}

impl Clone for CreateImageVariationRequest {
    fn clone(&self) -> (out: Self)
        ensures
            out == *self,
    {
        CreateImageVariationRequest {
            image: self.image.clone(),
            n: self.n,
            size: self.size,
            response_format: self.response_format,
            user: copy_of(&self.user),
        }
    }
}

/// A copy of an optional text.
fn copy_of(text: &Option<String>) -> (out: Option<String>)
    ensures
        out == *text,
{
    match text {
        Some(text) => Some(text.clone()),
        None => None,
    }
}

/// The text section of an optional field: one section where the field has
/// a value, none where it has not.
pub open spec fn optional_text(name: Seq<char>, value: Option<Seq<char>>) -> Seq<Section> {
    match value {
        Some(value) => seq![Section::Text { name, value }],
        None => Seq::empty(),
    }
}

/// How the number of images asked for is written, if it is given: in
/// decimal.
pub open spec fn count_text(n: Option<u8>) -> Option<Seq<char>> {
    match n {
        Some(n) => Some(decimal(n as nat)),
        None => None,
    }
}

/// How the size asked for is written, if it is given.
pub open spec fn size_text(size: Option<ImageSize>) -> Option<Seq<char>> {
    match size {
        Some(size) => Some(size.wire()),
        None => None,
    }
}

/// How the response format asked for is written, if it is given.
pub open spec fn format_text(response_format: Option<ResponseFormat>) -> Option<Seq<char>> {
    match response_format {
        Some(response_format) => Some(response_format.wire()),
        None => None,
    }
}

/// How the user identifier is written, if it is given: as it is.
pub open spec fn user_text(user: Option<String>) -> Option<Seq<char>> {
    optional_view(user)
}

/// The sections of the optional fields that both upload requests share, in
/// their fixed order: `n`, `size`, `response_format`, `user`, each only
/// where the request gives it.
pub open spec fn optional_sections(
    n: Option<u8>,
    size: Option<ImageSize>,
    response_format: Option<ResponseFormat>,
    user: Option<String>,
) -> Seq<Section> {
    optional_text("n"@, count_text(n)) + optional_text("size"@, size_text(size)) + optional_text(
        "response_format"@,
        format_text(response_format),
    ) + optional_text("user"@, user_text(user))
}

impl CreateImageEditRequest {
    /// The sections of the request's form, given the parts that upload
    /// image and mask: the two uploads, the prompt, then the optional
    /// fields.
    pub open spec fn sections(self, image: PartView, mask: PartView) -> Seq<Section> {
        seq![
            upload("image"@, image),
            upload("mask"@, mask),
            Section::Text { name: "prompt"@, value: self.prompt@ },
        ] + optional_sections(self.n, self.size, self.response_format, self.user)
    }
}

impl CreateImageVariationRequest {
    /// The sections of the request's form, given the part that uploads the
    /// image: the upload, then the optional fields.
    pub open spec fn sections(self, image: PartView) -> Seq<Section> {
        seq![upload("image"@, image)] + optional_sections(
            self.n,
            self.size,
            self.response_format,
            self.user,
        )
    }
}

/// `sections` carries each of the four optional fields as it should: left
/// out where the request does not give it, and once, in its canonical
/// rendering, where it does.
pub open spec fn optional_fields_kept(
    sections: Seq<Section>,
    n: Option<u8>,
    size: Option<ImageSize>,
    response_format: Option<ResponseFormat>,
    user: Option<String>,
) -> bool {
    &&& carries(sections, "n"@, count_text(n))
    &&& carries(sections, "size"@, size_text(size))
    &&& carries(sections, "response_format"@, format_text(response_format))
    &&& carries(sections, "user"@, user_text(user))
}

/// The names of the form fields differ from each other.
pub proof fn lemma_field_names_differ()
    ensures
        "image"@ != "mask"@,
        "image"@ != "prompt"@,
        "image"@ != "n"@,
        "image"@ != "size"@,
        "image"@ != "response_format"@,
        "image"@ != "user"@,
        "mask"@ != "prompt"@,
        "mask"@ != "n"@,
        "mask"@ != "size"@,
        "mask"@ != "response_format"@,
        "mask"@ != "user"@,
        "prompt"@ != "n"@,
        "prompt"@ != "size"@,
        "prompt"@ != "response_format"@,
        "prompt"@ != "user"@,
        "n"@ != "size"@,
        "n"@ != "response_format"@,
        "n"@ != "user"@,
        "size"@ != "response_format"@,
        "size"@ != "user"@,
        "response_format"@ != "user"@,
{
    reveal_strlit("image");
    reveal_strlit("mask");
    reveal_strlit("prompt");
    reveal_strlit("n");
    reveal_strlit("size");
    reveal_strlit("response_format");
    reveal_strlit("user");
    assert("image"@.len() == 5);
    assert("mask"@.len() == 4);
    assert("prompt"@.len() == 6);
    assert("n"@.len() == 1);
    assert("size"@.len() == 4);
    assert("response_format"@.len() == 15);
    assert("user"@.len() == 4);
    assert("mask"@[0] != "size"@[0]);
    assert("mask"@[0] != "user"@[0]);
    assert("size"@[0] != "user"@[0]);
}

/// Alone, the section of an optional field carries that field as it should,
/// and no field of another name.
proof fn lemma_optional_alone(name: Seq<char>, value: Option<Seq<char>>)
    ensures
        carries(optional_text(name, value), name, value),
        forall|other: Seq<char>| other != name ==> omits(optional_text(name, value), other),
{
    if let Some(value) = value {
        assert(holds_once_at(optional_text(name, Some(value)), name, value, 0));
    }
}

/// In the sections of the optional fields, a field that the request does
/// not give has no section, and a field that it gives has exactly one,
/// which holds the canonical rendering of its value.
pub proof fn lemma_optional_sections_kept(
    n: Option<u8>,
    size: Option<ImageSize>,
    response_format: Option<ResponseFormat>,
    user: Option<String>,
)
    ensures
        optional_fields_kept(
            optional_sections(n, size, response_format, user),
            n,
            size,
            response_format,
            user,
        ),
{
    lemma_field_names_differ();
    let a = optional_text("n"@, count_text(n));
    let b = optional_text("size"@, size_text(size));
    let c = optional_text("response_format"@, format_text(response_format));
    let d = optional_text("user"@, user_text(user));
    let all = optional_sections(n, size, response_format, user);
    lemma_optional_alone("n"@, count_text(n));
    lemma_optional_alone("size"@, size_text(size));
    lemma_optional_alone("response_format"@, format_text(response_format));
    lemma_optional_alone("user"@, user_text(user));
    assert(carries(all, "n"@, count_text(n))) by {
        lemma_omits_joined(b, c, "n"@);
        lemma_omits_joined(b + c, d, "n"@);
        lemma_carries_before(a, b + c + d, "n"@, count_text(n));
        assert(all =~= a + (b + c + d));
    }
    assert(carries(all, "size"@, size_text(size))) by {
        lemma_omits_joined(c, d, "size"@);
        lemma_carries_before(b, c + d, "size"@, size_text(size));
        lemma_carries_behind(a, b + (c + d), "size"@, size_text(size));
        assert(all =~= a + (b + (c + d)));
    }
    assert(carries(all, "response_format"@, format_text(response_format))) by {
        lemma_omits_joined(a, b, "response_format"@);
        lemma_carries_before(c, d, "response_format"@, format_text(response_format));
        lemma_carries_behind(a + b, c + d, "response_format"@, format_text(response_format));
        assert(all =~= (a + b) + (c + d));
    }
    assert(carries(all, "user"@, user_text(user))) by {
        lemma_omits_joined(a, b, "user"@);
        lemma_omits_joined(a + b, c, "user"@);
        lemma_carries_behind(a + b + c, d, "user"@, user_text(user));
    }
}

/// The form of an edit request leaves out each optional field that the
/// request does not give, and holds each one that it gives exactly once, in
/// its canonical rendering.
pub proof fn lemma_edit_optional_fields(
    request: CreateImageEditRequest,
    image: PartView,
    mask: PartView,
)
    ensures
        optional_fields_kept(
            request.sections(image, mask),
            request.n,
            request.size,
            request.response_format,
            request.user,
        ),
{
    lemma_field_names_differ();
    lemma_optional_sections_kept(request.n, request.size, request.response_format, request.user);
    let front = seq![
        upload("image"@, image),
        upload("mask"@, mask),
        Section::Text { name: "prompt"@, value: request.prompt@ },
    ];
    let back = optional_sections(request.n, request.size, request.response_format, request.user);
    lemma_carries_behind(front, back, "n"@, count_text(request.n));
    lemma_carries_behind(front, back, "size"@, size_text(request.size));
    lemma_carries_behind(front, back, "response_format"@, format_text(request.response_format));
    lemma_carries_behind(front, back, "user"@, user_text(request.user));
}

/// The form of a variation request leaves out each optional field that the
/// request does not give, and holds each one that it gives exactly once, in
/// its canonical rendering.
pub proof fn lemma_variation_optional_fields(
    request: CreateImageVariationRequest,
    image: PartView,
)
    ensures
        optional_fields_kept(
            request.sections(image),
            request.n,
            request.size,
            request.response_format,
            request.user,
        ),
{
    lemma_field_names_differ();
    lemma_optional_sections_kept(request.n, request.size, request.response_format, request.user);
    let front = seq![upload("image"@, image)];
    let back = optional_sections(request.n, request.size, request.response_format, request.user);
    lemma_carries_behind(front, back, "n"@, count_text(request.n));
    lemma_carries_behind(front, back, "size"@, size_text(request.size));
    lemma_carries_behind(front, back, "response_format"@, format_text(request.response_format));
    lemma_carries_behind(front, back, "user"@, user_text(request.user));
}

} // verus!
