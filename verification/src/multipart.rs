//! The multipart form of an upload request: its sections in wire order, and
//! the `reqwest` form that is built from them.

use vstd::prelude::*;

verus! {

/// The content type that every streamed upload part is sent with.
pub const OCTET_STREAM: &'static str = "application/octet-stream";

/// What one section of a multipart form holds: its name and either a text
/// value or the file name, the content type and the body of a streamed
/// upload.
pub enum Section {
    Text { name: Seq<char>, value: Seq<char> },
    Stream { name: Seq<char>, file_name: Seq<char>, mime: Seq<char>, body: reqwest::Body },
}

/// An [`UploadPart`] with its file name as a character sequence.
pub struct PartView {
    pub file_name: Seq<char>,
    pub body: reqwest::Body,
}

impl Section {
    /// The name the section is filed under.
    pub open spec fn name(self) -> Seq<char> {
        match self {
            Section::Text { name, .. } => name,
            Section::Stream { name, .. } => name,
        }
    }
}

/// The section that uploads `part` under `name`.
pub open spec fn upload(name: Seq<char>, part: PartView) -> Section {
    Section::Stream { name, file_name: part.file_name, mime: OCTET_STREAM@, body: part.body }
}

/// No section of `sections` is filed under `name`.
pub open spec fn omits(sections: Seq<Section>, name: Seq<char>) -> bool {
    forall|i: int| 0 <= i < sections.len() ==> (#[trigger] sections[i]).name() != name
}

/// Section `at` of `sections` is the text section `name` with the value
/// `value`, and no other section is filed under `name`.
pub open spec fn holds_once_at(
    sections: Seq<Section>,
    name: Seq<char>,
    value: Seq<char>,
    at: int,
) -> bool {
    &&& 0 <= at < sections.len()
    &&& sections[at] == (Section::Text { name, value })
    &&& forall|j: int| 0 <= j < sections.len() && (#[trigger] sections[j]).name() == name ==> j == at
}

/// Exactly one section of `sections` is filed under `name`, and it is the
/// text section with the value `value`.
pub open spec fn holds_once(sections: Seq<Section>, name: Seq<char>, value: Seq<char>) -> bool {
    exists|at: int| holds_once_at(sections, name, value, at)
}

/// `sections` carries an optional field as it should: not at all where the
/// field has no value, and exactly once, with that value, where it has one.
pub open spec fn carries(sections: Seq<Section>, name: Seq<char>, value: Option<Seq<char>>) -> bool {
    match value {
        None => omits(sections, name),
        Some(value) => holds_once(sections, name, value),
    }
}

/// Two runs of sections that both omit a name omit it when joined.
pub proof fn lemma_omits_joined(front: Seq<Section>, back: Seq<Section>, name: Seq<char>)
    requires
        omits(front, name),
        omits(back, name),
    ensures
        omits(front + back, name),
{
    let all = front + back;
    assert forall|i: int| 0 <= i < all.len() implies (#[trigger] all[i]).name() != name by {
        if i >= front.len() {
            assert(all[i] == back[i - front.len()]);
        }
    }
}

/// Sections of other names behind a run of sections change nothing about
/// how the run carries a field.
pub proof fn lemma_carries_before(
    sections: Seq<Section>,
    back: Seq<Section>,
    name: Seq<char>,
    value: Option<Seq<char>>,
)
    requires
        carries(sections, name, value),
        omits(back, name),
    ensures
        carries(sections + back, name, value),
{
    let all = sections + back;
    match value {
        None => {
            lemma_omits_joined(sections, back, name);
        },
        Some(value) => {
            let at: int = choose|at: int| holds_once_at(sections, name, value, at);
            assert(all[at] == sections[at]);
            assert forall|j: int| 0 <= j < all.len() && (#[trigger] all[j]).name() == name implies j
                == at by {
                if j >= sections.len() {
                    assert(all[j] == back[j - sections.len()]);
                } else {
                    assert(all[j] == sections[j]);
                }
            }
            assert(holds_once_at(all, name, value, at));
        },
    }
}

/// Sections of other names in front of a run of sections change nothing
/// about how the run carries a field.
pub proof fn lemma_carries_behind(
    front: Seq<Section>,
    sections: Seq<Section>,
    name: Seq<char>,
    value: Option<Seq<char>>,
)
    requires
        omits(front, name),
        carries(sections, name, value),
    ensures
        carries(front + sections, name, value),
{
    let all = front + sections;
    match value {
        None => {
            lemma_omits_joined(front, sections, name);
        },
        Some(value) => {
            let at: int = choose|at: int| holds_once_at(sections, name, value, at);
            let moved: int = front.len() + at;
            assert(all[moved] == sections[at]);
            assert forall|j: int| 0 <= j < all.len() && (#[trigger] all[j]).name() == name implies j
                == moved by {
                if j >= front.len() {
                    assert(all[j] == sections[j - front.len()]);
                } else {
                    assert(all[j] == front[j]);
                }
            }
            assert(holds_once_at(all, name, value, moved));
        },
    }
}

/// `reqwest::Body`: the body of a request, here the lazy byte stream of an
/// upload. Carried through; nothing is known of what it holds.
#[verifier::external_type_specification]
#[verifier::external_body]
pub struct ExBody(reqwest::Body);

/// `reqwest::multipart::Form`: the form that `reqwest` sends. What it holds
/// is spoken of through [`multipart_sections`].
#[verifier::external_type_specification]
#[verifier::external_body]
pub struct ExMultipartForm(reqwest::multipart::Form);

/// `tokio::fs::File`: a file opened for reading. Carried through to the
/// stream that reads it.
#[verifier::external_type_specification]
#[verifier::external_body]
pub struct ExFile(tokio::fs::File);

/// One file to upload: the name it is announced under and the lazy byte
/// stream of its contents. Its content type is always [`OCTET_STREAM`].
#[derive(Debug)]
pub struct UploadPart {
    pub file_name: String,
    pub body: reqwest::Body,
}

impl View for UploadPart {
    type V = PartView;

    open spec fn view(&self) -> PartView {
        PartView { file_name: self.file_name@, body: self.body }
    }
}

impl UploadPart {
    /// The content type the part is sent with.
    pub fn mime(&self) -> (mime: &'static str)
        ensures
            mime@ == OCTET_STREAM@,
    {
        OCTET_STREAM
    }
}

/// The value of one form field.
#[derive(Debug)]
pub enum FieldValue {
    Text(String),
    Stream(UploadPart),
}

/// One named field of a form.
#[derive(Debug)]
pub struct Field {
    pub name: String,
    pub value: FieldValue,
}

impl View for Field {
    type V = Section;

    open spec fn view(&self) -> Section {
        match self.value {
            FieldValue::Text(value) => Section::Text { name: self.name@, value: value@ },
            FieldValue::Stream(part) => upload(self.name@, part@),
        }
    }
}

/// A multipart form: its fields in the order in which they are sent.
#[derive(Debug)]
pub struct UploadForm {
    pub fields: Vec<Field>,
}

impl View for UploadForm {
    type V = Seq<Section>;

    open spec fn view(&self) -> Seq<Section> {
        self.fields@.map_values(|field: Field| field@)
    }
}

/// The sections that a `reqwest` multipart form holds, in the order in which
/// they were added to it. A part without file name and content type whose
/// body is a text stands as [`Section::Text`]; a part with both stands as
/// [`Section::Stream`], with the body it was made of.
pub uninterp spec fn multipart_sections(form: reqwest::multipart::Form) -> Seq<Section>;

/// `reqwest::multipart::Form::new`: a form without any section.
#[verifier::external_body]
fn empty_multipart() -> (form: reqwest::multipart::Form)
    ensures
        multipart_sections(form) == Seq::<Section>::empty(),
{
    reqwest::multipart::Form::new()
}

/// `reqwest::multipart::Form::text`: appends one text section with the given
/// name and value behind the sections already there.
#[verifier::external_body]
fn with_text(form: reqwest::multipart::Form, name: String, value: String) -> (out:
    reqwest::multipart::Form)
    ensures
        multipart_sections(out) == multipart_sections(form).push(
            Section::Text { name: name@, value: value@ },
        ),
{
    form.text(name, value)
}

/// `reqwest::multipart::Form::part`, with a part that
/// `reqwest::multipart::Part::stream`, `Part::file_name` and
/// `Part::mime_str` make of the body: appends one streamed section with the
/// given name, file name, content type and body behind the sections
/// already there. `mime_str` refuses text that is no media type; the one
/// content type admitted here is one that it accepts.
#[verifier::external_body]
fn with_stream(
    form: reqwest::multipart::Form,
    name: String,
    file_name: String,
    mime: &str,
    body: reqwest::Body,
) -> (out: reqwest::multipart::Form)
    requires
        mime@ == OCTET_STREAM@,
    ensures
        multipart_sections(out) == multipart_sections(form).push(
            Section::Stream { name: name@, file_name: file_name@, mime: mime@, body },
        ),
{
    let part = reqwest::multipart::Part::stream(body).file_name(file_name);
    form.part(name, part.mime_str(mime).unwrap())
}

/// The body that streams an opened file: what `reqwest::Body::wrap_stream`
/// makes of a `tokio_util::codec::FramedRead` that reads the file through a
/// `BytesCodec`. Sent, it yields the bytes that reading the file yields,
/// chunk by chunk and once.
pub uninterp spec fn file_stream(file: tokio::fs::File) -> reqwest::Body;

/// `reqwest::Body::wrap_stream` over a `tokio_util::codec::FramedRead` with a
/// `BytesCodec`: the body that reads the open file chunk by chunk as it is
/// sent. Nothing is read here. The contract gives the body its name: it is
/// made of this file and of nothing else.
#[verifier::external_body]
pub(crate) fn stream_of(file: tokio::fs::File) -> (body: reqwest::Body)
    ensures
        body == file_stream(file),
{
    let chunks = tokio_util::codec::FramedRead::new(file, tokio_util::codec::BytesCodec::new());
    reqwest::Body::wrap_stream(chunks)
}

impl UploadForm {
    /// Builds the `reqwest` form that sends these fields, in their order.
    pub fn into_multipart(self) -> (out: reqwest::multipart::Form)
        ensures
            multipart_sections(out) == self@,
    {
        let ghost sections = self@;
        let mut fields = self.fields;
        let mut out = empty_multipart();
        while fields.len() > 0
            invariant
                multipart_sections(out) + fields@.map_values(|field: Field| field@) == sections,
            decreases fields.len(),
        {
            let ghost before = fields@;
            let field = fields.remove(0);
            let ghost added = field@;
            out = match field.value {
                FieldValue::Text(value) => with_text(out, field.name, value),
                FieldValue::Stream(part) => {
                    let mime = part.mime();
                    with_stream(out, field.name, part.file_name, mime, part.body)
                },
            };
            proof {
                let view = |field: Field| field@;
                assert(before.map_values(view)[0] == added);
                assert(fields@.map_values(view) =~= before.map_values(view).remove(0));
                assert(multipart_sections(out) + fields@.map_values(view) =~= sections);
            }
        }
        proof {
            assert(multipart_sections(out) =~= sections);
        }
        out
    }
}

} // verus!
