//! Naming an uploaded image and the folder that it goes to, and the answers
//! of the upload and delete operations. Reading the form and touching the
//! disk are the caller's part; everything that is decided about a file is
//! decided here.

use vstd::prelude::*;
use vstd::string::*;

use crate::domain::response::{DeleteResponse, UploadResponse};
use crate::http;
use crate::text::{is_substring, opt_string, opt_text, str_eq};

verus! {

/// The shape of a freshly drawn identifier: 36 characters, hyphens at the
/// four usual places, lower-case hexadecimal digits elsewhere.
pub open spec fn is_unique_id(id: Seq<char>) -> bool {
    &&& id.len() == 36
    &&& forall|i: int|
        0 <= i < 36 ==> if i == 8 || i == 13 || i == 18 || i == 23 {
            id[i] == '-'
        } else {
            ('0' <= #[trigger] id[i] && id[i] <= '9') || ('a' <= id[i] && id[i] <= 'f')
        }
}

/// The shape of a day as the upload folder is named after it: a year of at
/// least four characters, then month and day with two digits each, joined by
/// hyphens.
pub open spec fn is_day(day: Seq<char>) -> bool {
    let n = day.len() as int;
    &&& n >= 10
    &&& day[n - 6] == '-'
    &&& day[n - 3] == '-'
    &&& '0' <= day[n - 5] <= '9'
    &&& '0' <= day[n - 4] <= '9'
    &&& '0' <= day[n - 2] <= '9'
    &&& '0' <= day[n - 1] <= '9'
}

/// What may come back when the extension of `name` is asked for: nothing,
/// or a text without a dot that follows a dot somewhere in `name`. So a
/// name without a dot has no extension.
pub open spec fn is_extension_of(extension: Option<Seq<char>>, name: Seq<char>) -> bool {
    match extension {
        Some(e) => !e.contains('.') && is_substring(seq!['.'] + e, name),
        None => true,
    }
}

/// The extension that a media type stands for.
pub open spec fn spec_extension_from_mime(mime_type: Seq<char>) -> Option<Seq<char>> {
    if mime_type == "image/jpeg"@ {
        Some("jpg"@)
    } else if mime_type == "image/png"@ {
        Some("png"@)
    } else {
        None
    }
}

/// The extension that a stored file gets: that of the name it was sent
/// under, or else the one its media type stands for.
pub open spec fn spec_extension(
    name_extension: Option<Seq<char>>,
    content_type: Option<Seq<char>>,
) -> Option<Seq<char>> {
    match name_extension {
        Some(e) => Some(e),
        None => match content_type {
            Some(mime) => spec_extension_from_mime(mime),
            None => None,
        },
    }
}

/// The name under which a file is stored: the identifier, then a dot and the
/// extension where there is one.
pub open spec fn spec_saved_file_name(unique_id: Seq<char>, extension: Option<Seq<char>>) -> Seq<
    char,
> {
    match extension {
        Some(e) => unique_id + seq!['.'] + e,
        None => unique_id,
    }
}

/// What holds of the name that an upload is stored under: it is the name
/// that `spec_saved_file_name` gives for some fresh identifier and for an
/// extension that may come back for `file_name`.
pub open spec fn is_planned_name(
    saved_file_name: Seq<char>,
    file_name: Option<Seq<char>>,
    content_type: Option<Seq<char>>,
) -> bool {
    exists|id: Seq<char>, extension: Option<Seq<char>>|
        {
            &&& is_unique_id(id)
            &&& match file_name {
                Some(n) => is_extension_of(extension, n),
                None => extension is None,
            }
            &&& #[trigger] spec_saved_file_name(id, spec_extension(extension, content_type))
                == saved_file_name
        }
}

/// A name that has an extension holds a dot.
pub proof fn lemma_extension_needs_dot(extension: Seq<char>, name: Seq<char>)
    requires
        is_extension_of(Some(extension), name),
    ensures
        name.contains('.'),
{
    let dotted = seq!['.'] + extension;
    let at = choose|at: int| crate::text::occurs_at(dotted, name, at);
    assert(name.subrange(at, at + dotted.len())[0] == dotted[0]);
    assert(name[at] == '.');
}

/// Where neither the name nor the media type gives an extension, the stored
/// name is the identifier alone; where the name has no dot, the media type
/// decides.
pub proof fn lemma_planned_name_without_dot(
    saved_file_name: Seq<char>,
    file_name: Option<Seq<char>>,
    content_type: Option<Seq<char>>,
)
    requires
        is_planned_name(saved_file_name, file_name, content_type),
        file_name matches Some(n) ==> !n.contains('.'),
    ensures
        exists|id: Seq<char>|
            is_unique_id(id) && #[trigger] spec_saved_file_name(
                id,
                spec_extension(None, content_type),
            ) == saved_file_name,
{
    let (id, extension) = choose|id: Seq<char>, extension: Option<Seq<char>>|
        {
            &&& is_unique_id(id)
            &&& match file_name {
                Some(n) => is_extension_of(extension, n),
                None => extension is None,
            }
            &&& #[trigger] spec_saved_file_name(id, spec_extension(extension, content_type))
                == saved_file_name
        };
    if extension is Some {
        lemma_extension_needs_dot(extension->0, file_name->0);
    }
    assert(spec_saved_file_name(id, spec_extension(None, content_type)) == saved_file_name);
}

/// Draws a random identifier with `uuid::Uuid::new_v4` and writes it out as
/// `Display` does. Trusted: the text has the hyphenated lower-case form.
/// Which identifier comes back is not stated: it is drawn from the system's
/// random source, and where the system has none to draw from, the draw
/// does not return.
#[verifier::external_body]
fn new_unique_id() -> (id: String)
    ensures
        is_unique_id(id@),
{
    uuid::Uuid::new_v4().to_string()
}

/// Reads the local date with `chrono::Local::now` and writes it with the
/// format `%Y-%m-%d`. Trusted: the text ends in a hyphen, two digits, a
/// hyphen and two digits, after a year of at least four characters. Which
/// day comes back is not stated: it is the clock's.
#[verifier::external_body]
fn today() -> (day: String)
    ensures
        is_day(day@),
{
    chrono::Local::now().format("%Y-%m-%d").to_string()
}

/// Asks `std::path::Path::extension` for the extension of `name`. Trusted:
/// an extension holds no dot and follows one in `name`. Which part of a
/// name counts as its file name is the platform's rule and is not stated.
#[verifier::external_body]
fn path_extension(name: &str) -> (extension: Option<String>)
    ensures
        is_extension_of(opt_string(extension), name@),
{
    match std::path::Path::new(name).extension() {
        Some(e) => Some(e.to_string_lossy().into_owned()),
        None => None,
    }
}

/// Why an upload did not go through.
#[derive(Debug, Clone, Copy, PartialEq, Eq, Structural)]
pub enum UploadFailure {
    /// The form could not be read as a multipart request.
    InvalidMultipart,
    /// The bytes of the file part could not be read.
    UnreadableFile,
    /// No file part came, or it held no bytes.
    EmptyFile,
    /// The folder of the day could not be made.
    DirectoryNotCreated,
    /// The file could not be created.
    FileNotCreated,
    /// The bytes could not be written.
    FileNotWritten,
}

impl UploadFailure {
    /// The message that each failure is reported with.
    pub open spec fn spec_message(self) -> Seq<char> {
        match self {
            UploadFailure::InvalidMultipart => "Invalid multipart request"@,
            UploadFailure::UnreadableFile => "Failed to read file"@,
            UploadFailure::EmptyFile => "File is empty or invalid"@,
            UploadFailure::DirectoryNotCreated => "Failed to create upload directory"@,
            UploadFailure::FileNotCreated => "Failed to save file"@,
            UploadFailure::FileNotWritten => "Failed to write file"@,
        }
    }

    /// The status that each failure is reported with: the request's fault
    /// for what was wrong with the form, the server's for what went wrong on
    /// disk.
    pub open spec fn spec_status_code(self) -> u16 {
        match self {
            UploadFailure::InvalidMultipart
            | UploadFailure::UnreadableFile
            | UploadFailure::EmptyFile => http::BAD_REQUEST,
            UploadFailure::DirectoryNotCreated
            | UploadFailure::FileNotCreated
            | UploadFailure::FileNotWritten => http::INTERNAL_SERVER_ERROR,
        }
    }

    pub fn status_code(&self) -> (code: u16)
        ensures
            code == self.spec_status_code(),
    {
        match self {
            UploadFailure::InvalidMultipart => http::BAD_REQUEST,
            UploadFailure::UnreadableFile => http::BAD_REQUEST,
            UploadFailure::EmptyFile => http::BAD_REQUEST,
            UploadFailure::DirectoryNotCreated => http::INTERNAL_SERVER_ERROR,
            UploadFailure::FileNotCreated => http::INTERNAL_SERVER_ERROR,
            UploadFailure::FileNotWritten => http::INTERNAL_SERVER_ERROR,
        }
    }

    /// The body that a failed upload is answered with: the message, and no
    /// file name or path.
    pub fn response(&self) -> (body: UploadResponse)
        ensures
            body.message@ == self.spec_message(),
            body.file_name@ == Seq::<char>::empty(),
            body.file_path@ == Seq::<char>::empty(),
    {
        let message = match self {
            UploadFailure::InvalidMultipart => "Invalid multipart request",
            UploadFailure::UnreadableFile => "Failed to read file",
            UploadFailure::EmptyFile => "File is empty or invalid",
            UploadFailure::DirectoryNotCreated => "Failed to create upload directory",
            UploadFailure::FileNotCreated => "Failed to save file",
            UploadFailure::FileNotWritten => "Failed to write file",
        };
        UploadResponse {
            message: String::from_str(message),
            file_name: String::new(),
            file_path: String::new(),
        }
    }
}

/// What was decided for an accepted upload: the folder that it goes to,
/// below the upload directory, and the name that it gets there.
#[derive(Debug, PartialEq, Eq)]
pub struct UploadPlan {
    /// The name of the folder: the day of the upload.
    pub folder: String,
    /// The name of the file in that folder.
    pub saved_file_name: String,
}

impl UploadPlan {
    /// The body that a stored upload is answered with, given the path that
    /// the file was written to.
    pub fn response(self, file_path: String) -> (body: UploadResponse)
        ensures
            body.message@ == "File uploaded successfully"@,
            body.file_name == self.saved_file_name,
            body.file_path == file_path,
    {
        UploadResponse {
            message: String::from_str("File uploaded successfully"),
            file_name: self.saved_file_name,
            file_path,
        }
    }
}

/// How the removal of a stored file ended.
#[derive(Debug, Clone, Copy, PartialEq, Eq, Structural)]
pub enum DeleteOutcome {
    /// The file was there and is gone.
    Deleted,
    /// The file was there and could not be removed.
    RemoveFailed,
    /// There was no such file.
    Missing,
}

impl DeleteOutcome {
    pub open spec fn spec_message(self) -> Seq<char> {
        match self {
            DeleteOutcome::Deleted => "File deleted successfully"@,
            DeleteOutcome::RemoveFailed => "Failed to delete file"@,
            DeleteOutcome::Missing => "File not found"@,
        }
    }

    pub open spec fn spec_status_code(self) -> u16 {
        match self {
            DeleteOutcome::Deleted => http::OK,
            DeleteOutcome::RemoveFailed => http::INTERNAL_SERVER_ERROR,
            DeleteOutcome::Missing => http::NOT_FOUND,
        }
    }

    /// How a removal ended, from whether the file was there and, if it
    /// was, whether removing it went through.
    pub open spec fn spec_of(exists: bool, removed: bool) -> DeleteOutcome {
        if !exists {
            DeleteOutcome::Missing
        } else if removed {
            DeleteOutcome::Deleted
        } else {
            DeleteOutcome::RemoveFailed
        }
    }

    /// What is known once the disk was asked: whether the file was there,
    /// and, if it was, whether removing it went through.
    pub fn of(exists: bool, removed: bool) -> (outcome: DeleteOutcome)
        ensures
            outcome == DeleteOutcome::spec_of(exists, removed),
    {
        if !exists {
            DeleteOutcome::Missing
        } else if removed {
            DeleteOutcome::Deleted
        } else {
            DeleteOutcome::RemoveFailed
        }
    }

    pub fn status_code(&self) -> (code: u16)
        ensures
            code == self.spec_status_code(),
    {
        match self {
            DeleteOutcome::Deleted => http::OK,
            DeleteOutcome::RemoveFailed => http::INTERNAL_SERVER_ERROR,
            DeleteOutcome::Missing => http::NOT_FOUND,
        }
    }

    /// The body that the removal is answered with. Only `Deleted` is a
    /// success.
    pub fn response(&self) -> (body: Result<DeleteResponse, DeleteResponse>)
        ensures
            body is Ok <==> *self == DeleteOutcome::Deleted,
            body matches Ok(b) ==> b.message@ == self.spec_message(),
            body matches Err(b) ==> b.message@ == self.spec_message(),
    {
        match self {
            DeleteOutcome::Deleted => Ok(
                DeleteResponse { message: String::from_str("File deleted successfully") },
            ),
            DeleteOutcome::RemoveFailed => Err(
                DeleteResponse { message: String::from_str("Failed to delete file") },
            ),
            DeleteOutcome::Missing => Err(
                DeleteResponse { message: String::from_str("File not found") },
            ),
        }
    }
}

/// Names and places uploaded images.
pub struct FileService {}

impl FileService {
    pub fn new() -> (service: Self) {
        Self {}
    }

    /// The extension for a media type: `jpg` for `image/jpeg`, `png` for
    /// `image/png`, none for any other.
    pub fn get_extension_from_mime(&self, mime_type: &str) -> (extension: Option<&'static str>)
        ensures
            opt_text(extension) == spec_extension_from_mime(mime_type@),
    {
        if str_eq(mime_type, "image/jpeg") {
            Some("jpg")
        } else if str_eq(mime_type, "image/png") {
            Some("png")
        } else {
            None
        }
    }

    /// Whether a part of the form holds the file: the part named `file`.
    pub fn is_file_field(&self, field_name: Option<&str>) -> (wanted: bool)
        ensures
            wanted == (opt_text(field_name) == Some("file"@)),
    {
        match field_name {
            Some(name) => str_eq(name, "file"),
            None => false,
        }
    }

    /// The name under which a file is stored, from the identifier drawn for
    /// it, the extension of the name it was sent under, and its media type.
    pub fn saved_file_name(
        &self,
        unique_id: String,
        name_extension: Option<String>,
        content_type: Option<&str>,
    ) -> (name: String)
        ensures
            name@ == spec_saved_file_name(
                unique_id@,
                spec_extension(opt_string(name_extension), opt_text(content_type)),
            ),
    {
        let mut name = unique_id;
        match name_extension {
            Some(e) => {
                name.append(".");
                name.append(e.as_str());
                proof {
                    reveal_strlit(".");
                    assert("."@ =~= seq!['.']);
                }
            },
            None => {
                match content_type {
                    Some(mime) => {
                        match self.get_extension_from_mime(mime) {
                            Some(e) => {
                                name.append(".");
                                name.append(e);
                                proof {
                                    reveal_strlit(".");
                                    assert("."@ =~= seq!['.']);
                                }
                            },
                            None => {},
                        }
                    },
                    None => {},
                }
            },
        }
        name
    }

    /// Decides where an upload goes. An upload without a file part, or with
    /// an empty one, is refused as `EmptyFile`; every other one is planned.
    /// The folder is named after the day. The stored name starts with a
    /// fresh identifier; what follows is the dot and extension that
    /// `spec_extension` gives for the extension of `file_name`, where it has
    /// one, and the media type.
    pub fn plan_upload(
        &self,
        file_name: Option<&str>,
        content_type: Option<&str>,
        file_data: Option<&Vec<u8>>,
    ) -> (plan: Result<UploadPlan, UploadFailure>)
        ensures
            plan is Err <==> (file_data matches Some(data) ==> data@.len() == 0),
            plan matches Err(e) ==> e == UploadFailure::EmptyFile,
            plan matches Ok(p) ==> is_day(p.folder@),
            plan matches Ok(p) ==> is_planned_name(
                p.saved_file_name@,
                opt_text(file_name),
                opt_text(content_type),
            ),
    {
        match file_data {
            Some(data) => {
                if data.len() == 0 {
                    return Err(UploadFailure::EmptyFile);
                }
            },
            None => {
                return Err(UploadFailure::EmptyFile);
            },
        }
        let folder = today();
        let unique_id = new_unique_id();
        let name_extension = match file_name {
            Some(n) => path_extension(n),
            None => None,
        };
        let ghost id = unique_id@;
        let ghost extension = opt_string(name_extension);
        let saved_file_name = self.saved_file_name(unique_id, name_extension, content_type);
        assert(spec_saved_file_name(id, spec_extension(extension, opt_text(content_type)))
            == saved_file_name@);
        Ok(UploadPlan { folder, saved_file_name })
    }
}

} // verus!
