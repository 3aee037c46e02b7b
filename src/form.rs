//! Reading an upload form: which parts count, how their text is decoded, and
//! when the form is complete enough to be stored.

use vstd::prelude::*;
use vstd::string::*;
use vstd::utf8::*;

use crate::model::{opt_text, CreatePhoto};

verus! {

/// What a part of an upload form is, by its name.
#[derive(Clone, Copy, Debug, PartialEq, Eq, Structural)]
pub enum FieldKind {
    File,
    Title,
    Description,
    Other,
}

/// The kind of a part named `name`; a part without a name is of no known kind.
pub open spec fn kind_of(name: Option<Seq<char>>) -> FieldKind {
    match name {
        Some(n) => if n == "file"@ {
            FieldKind::File
        } else if n == "title"@ {
            FieldKind::Title
        } else if n == "description"@ {
            FieldKind::Description
        } else {
            FieldKind::Other
        },
        None => FieldKind::Other,
    }
}

fn same_text(a: &str, b: &str) -> (r: bool)
    ensures
        r == (a@ == b@),
{
    let a = String::from_str(a);
    let b = String::from_str(b);
    a == b
}

/// The kind of the part named `name`.
pub fn field_kind(name: Option<&str>) -> (r: FieldKind)
    ensures
        r == kind_of(
            match name {
                Some(n) => Some(n@),
                None => None,
            },
        ),
{
    proof {
        reveal_strlit("file");
        reveal_strlit("title");
        reveal_strlit("description");
    }
    match name {
        Some(n) => if same_text(n, "file") {
            FieldKind::File
        } else if same_text(n, "title") {
            FieldKind::Title
        } else if same_text(n, "description") {
            FieldKind::Description
        } else {
            FieldKind::Other
        },
        None => FieldKind::Other,
    }
}

/// The text of a field's bytes: their UTF-8 decoding, or nothing when they
/// are not valid UTF-8.
pub open spec fn lenient_text(bytes: Seq<u8>) -> Seq<char> {
    if valid_utf8(bytes) {
        decode_utf8(bytes)
    } else {
        Seq::empty()
    }
}

/// Relies on std's String::from_utf8: the bytes as text when they are valid
/// UTF-8, an error otherwise.
#[verifier::external_body]
fn utf8_text(bytes: Vec<u8>) -> (r: Option<String>)
    ensures
        match r {
            Some(s) => valid_utf8(bytes@) && s@ == decode_utf8(bytes@),
            None => !valid_utf8(bytes@),
        },
{
    String::from_utf8(bytes).ok()
}

/// Decodes a text field, turning bytes that are not UTF-8 into empty text.
pub fn decode_text(bytes: Vec<u8>) -> (r: String)
    ensures
        r@ == lenient_text(bytes@),
{
    match utf8_text(bytes) {
        Some(s) => s,
        None => String::new(),
    }
}

/// The state of a form while its parts are read.
pub struct FormView {
    pub filename: Seq<char>,
    pub title: Seq<char>,
    pub description: Option<Seq<char>>,
}

/// A form before any part is read.
pub open spec fn empty_form() -> FormView {
    FormView { filename: Seq::empty(), title: Seq::empty(), description: None }
}

/// The form after a file part was stored under `filename`.
pub open spec fn with_file(f: FormView, filename: Seq<char>) -> FormView {
    FormView { filename, ..f }
}

/// The form after a title part with `bytes`: a later title replaces an earlier one.
pub open spec fn with_title(f: FormView, bytes: Seq<u8>) -> FormView {
    FormView { title: lenient_text(bytes), ..f }
}

/// The form after a description part with `bytes`: empty text leaves it as it was.
pub open spec fn with_description(f: FormView, bytes: Seq<u8>) -> FormView {
    let d = lenient_text(bytes);
    if d.len() > 0 {
        FormView { description: Some(d), ..f }
    } else {
        f
    }
}

/// A form with a stored file and a title, ready to be recorded.
pub struct NewPhotoView {
    pub filename: Seq<char>,
    pub title: Seq<char>,
    pub description: Option<Seq<char>>,
}

/// Why a form cannot be recorded.
#[derive(Clone, Copy, Debug, PartialEq, Eq, Structural)]
pub struct ValidationError {
    pub missing_file: bool,
    pub missing_title: bool,
}

/// What a finished form gives: a new photo when both a file and a title came,
/// else the fields that are missing.
pub open spec fn validate(f: FormView) -> Result<NewPhotoView, ValidationError> {
    if f.filename.len() == 0 || f.title.len() == 0 {
        Err(ValidationError { missing_file: f.filename.len() == 0, missing_title: f.title.len() == 0 })
    } else {
        Ok(NewPhotoView { filename: f.filename, title: f.title, description: f.description })
    }
}

/// A part of an upload form, as far as the form's fields are concerned.
pub enum PartView {
    /// A file part whose blob was stored under the given name.
    File(Seq<char>),
    /// A title part with its bytes.
    Title(Seq<u8>),
    /// A description part with its bytes.
    Description(Seq<u8>),
    /// A part of any other name: its bytes are drained and dropped.
    Other,
}

/// The form after one more part.
pub open spec fn with_part(f: FormView, p: PartView) -> FormView {
    match p {
        PartView::File(name) => with_file(f, name),
        PartView::Title(bytes) => with_title(f, bytes),
        PartView::Description(bytes) => with_description(f, bytes),
        PartView::Other => f,
    }
}

/// The form after reading `parts` in order.
pub open spec fn read_parts(parts: Seq<PartView>) -> FormView
    decreases parts.len(),
{
    if parts.len() == 0 {
        empty_form()
    } else {
        with_part(read_parts(parts.drop_last()), parts.last())
    }
}

/// An upload with no title part, in whatever order its other parts come, is
/// refused for its missing title, and no photo is recorded.
pub proof fn law_untitled_upload_refused(parts: Seq<PartView>)
    requires
        forall|i: int| 0 <= i < parts.len() ==> !(#[trigger] parts[i] is Title),
    ensures
        read_parts(parts).title.len() == 0,
        validate(read_parts(parts)) matches Err(e) && e.missing_title,
    decreases parts.len(),
{
    if parts.len() > 0 {
        let rest = parts.drop_last();
        assert forall|i: int| 0 <= i < rest.len() implies !(#[trigger] rest[i] is Title) by {
            assert(rest[i] == parts[i]);
        }
        law_untitled_upload_refused(rest);
        assert(!(parts[parts.len() - 1] is Title));
    }
}

/// A title part whose bytes are empty, or are not UTF-8, leaves the form
/// without a title: the upload is refused unless a later title part comes.
pub proof fn law_empty_title_refused(f: FormView, bytes: Seq<u8>)
    requires
        bytes.len() == 0 || !valid_utf8(bytes),
    ensures
        validate(with_title(f, bytes)) matches Err(e) && e.missing_title,
{
}

/// An upload of a file, a title and a description is recorded with exactly
/// the stored file's name, the title's text, and the description's text when
/// that text is not empty.
pub proof fn law_upload_fields_kept(filename: Seq<char>, title: Seq<u8>, description: Seq<u8>)
    requires
        filename.len() > 0,
        lenient_text(title).len() > 0,
    ensures
        validate(
            read_parts(seq![PartView::File(filename), PartView::Title(title), PartView::Description(description)]),
        ) == Ok::<NewPhotoView, ValidationError>(
            NewPhotoView {
                filename,
                title: lenient_text(title),
                description: if lenient_text(description).len() > 0 {
                    Some(lenient_text(description))
                } else {
                    None
                },
            },
        ),
{
    let parts = seq![PartView::File(filename), PartView::Title(title), PartView::Description(description)];
    assert(parts.drop_last().drop_last().drop_last() =~= Seq::<PartView>::empty());
    assert(parts.drop_last().drop_last() =~= seq![PartView::File(filename)]);
    assert(parts.drop_last() =~= seq![PartView::File(filename), PartView::Title(title)]);
    let f1 = read_parts(parts.drop_last().drop_last());
    assert(read_parts(parts.drop_last().drop_last().drop_last()) == empty_form());
    assert(f1 == with_file(empty_form(), filename));
    let f2 = read_parts(parts.drop_last());
    assert(f2 == with_title(f1, title));
    assert(read_parts(parts) == with_description(f2, description));
}

impl ValidationError {
    /// The text that a client is shown.
    pub fn message(&self) -> (r: String)
        ensures
            r@ == "Missing file or title"@,
    {
        proof {
            reveal_strlit("Missing file or title");
        }
        String::from_str("Missing file or title")
    }
}

/// A form that passed validation: the stored blob and the photo's text.
#[derive(Clone, Debug)]
pub struct NewPhoto {
    pub filename: String,
    pub details: CreatePhoto,
}

impl View for NewPhoto {
    type V = NewPhotoView;

    open spec fn view(&self) -> NewPhotoView {
        NewPhotoView {
            filename: self.filename@,
            title: self.details.title@,
            description: opt_text(self.details.description),
        }
    }
}

/// The fields of an upload form read so far.
#[derive(Clone, Debug)]
pub struct UploadForm {
    pub filename: String,
    pub title: String,
    pub description: Option<String>,
}

impl View for UploadForm {
    type V = FormView;

    open spec fn view(&self) -> FormView {
        FormView { filename: self.filename@, title: self.title@, description: opt_text(self.description) }
    }
}

impl UploadForm {
    /// A form with no field read.
    pub fn new() -> (r: UploadForm)
        ensures
            r@ == empty_form(),
    {
        UploadForm { filename: String::new(), title: String::new(), description: None }
    }

    /// Records that the form's file was stored under `filename`.
    pub fn record_file(&mut self, filename: String)
        ensures
            final(self)@ == with_file(old(self)@, filename@),
    {
        self.filename = filename;
    }

    /// Records a title part made of `bytes`.
    pub fn record_title(&mut self, bytes: Vec<u8>)
        ensures
            final(self)@ == with_title(old(self)@, bytes@),
    {
        self.title = decode_text(bytes);
    }

    /// Records a description part made of `bytes`.
    pub fn record_description(&mut self, bytes: Vec<u8>)
        ensures
            final(self)@ == with_description(old(self)@, bytes@),
    {
        let d = decode_text(bytes);
        if !d.as_str().is_empty() {
            self.description = Some(d);
        }
    }

    /// The photo to record, or the fields that the form lacks.
    pub fn finish(self) -> (r: Result<NewPhoto, ValidationError>)
        ensures
            match (r, validate(self@)) {
                (Ok(p), Ok(v)) => p@ == v,
                (Err(e), Err(v)) => e == v,
                _ => false,
            },
    {
        let missing_file = self.filename.as_str().is_empty();
        let missing_title = self.title.as_str().is_empty();
        if missing_file || missing_title {
            Err(ValidationError { missing_file, missing_title })
        } else {
            Ok(NewPhoto {
                filename: self.filename,
                details: CreatePhoto { title: self.title, description: self.description },
            })
        }
    }
}

} // verus!
