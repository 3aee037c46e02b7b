//! What each request is answered with, and which blob is removed on the way.

use vstd::prelude::*;
use vstd::string::*;

use crate::form::ValidationError;
use crate::model::Photo;
use crate::naming::{path_in, upload_path};
use crate::storage::StoreError;

verus! {

/// The status of a successful request.
pub const OK: u16 = 200;

/// The status of a request that lacks a required field.
pub const BAD_REQUEST: u16 = 400;

/// The status of a request that failed on the server's side.
pub const SERVER_ERROR: u16 = 500;

/// The payload of a reply.
#[derive(Clone, Debug)]
pub enum ReplyBody {
    /// A listing of photos.
    Photos(Vec<Photo>),
    /// The photo just created.
    Created(Photo),
    /// An error, as `{"error": ...}`.
    Error(String),
    /// An acknowledgment, as `{"message": ...}`.
    Message(String),
}

/// A status and its payload.
#[derive(Clone, Debug)]
pub struct Reply {
    pub status: u16,
    pub body: ReplyBody,
}

/// `r` reports an error with `status` and the text `text`.
pub open spec fn is_error_reply(r: Reply, status: u16, text: Seq<char>) -> bool {
    &&& r.status == status
    &&& r.body matches ReplyBody::Error(e) && e@ == text
}

/// The text reporting a failure of the store.
pub open spec fn database_error(text: Seq<char>) -> Seq<char> {
    "Database error: "@ + text
}

/// The acknowledgment of a deletion.
pub open spec fn deleted_message() -> Seq<char> {
    "Photo deleted successfully"@
}

fn joined(prefix: &str, text: &str) -> (r: String)
    ensures
        r@ == prefix@ + text@,
{
    let mut r = String::from_str(prefix);
    r.append(text);
    r
}

fn database_error_reply(e: &StoreError) -> (r: Reply)
    ensures
        is_error_reply(r, SERVER_ERROR, database_error(e.text())),
{
    let m = e.message();
    proof {
        reveal_strlit("Database error: ");
    }
    Reply { status: SERVER_ERROR, body: ReplyBody::Error(joined("Database error: ", m.as_str())) }
}

/// The answer to a listing: every photo the store gave, or the store's error.
pub fn list_reply(listed: Result<Vec<Photo>, StoreError>) -> (r: Reply)
    ensures
        match listed {
            Ok(photos) => r.status == OK && r.body == ReplyBody::Photos(photos),
            Err(e) => is_error_reply(r, SERVER_ERROR, database_error(e.text())),
        },
{
    match listed {
        Ok(photos) => Reply { status: OK, body: ReplyBody::Photos(photos) },
        Err(e) => database_error_reply(&e),
    }
}

/// The answer to an upload whose form lacks its file or its title.
pub fn rejection_reply(e: &ValidationError) -> (r: Reply)
    ensures
        is_error_reply(r, BAD_REQUEST, "Missing file or title"@),
{
    Reply { status: BAD_REQUEST, body: ReplyBody::Error(e.message()) }
}

/// Where writing an uploaded file failed.
#[derive(Clone, Copy, Debug, PartialEq, Eq, Structural)]
pub enum FileStage {
    Create,
    Write,
}

/// The text reporting that a blob could not be created or written.
pub open spec fn file_error(stage: FileStage, text: Seq<char>) -> Seq<char> {
    match stage {
        FileStage::Create => "Failed to create file: "@ + text,
        FileStage::Write => "Failed to write file: "@ + text,
    }
}

/// The answer to an upload whose file could not be stored.
pub fn file_failure_reply(stage: FileStage, text: &str) -> (r: Reply)
    ensures
        is_error_reply(r, SERVER_ERROR, file_error(stage, text@)),
{
    proof {
        reveal_strlit("Failed to create file: ");
        reveal_strlit("Failed to write file: ");
    }
    let m = match stage {
        FileStage::Create => joined("Failed to create file: ", text),
        FileStage::Write => joined("Failed to write file: ", text),
    };
    Reply { status: SERVER_ERROR, body: ReplyBody::Error(m) }
}

/// The end of a request: the blob to remove, if any, and the answer.
#[derive(Clone, Debug)]
pub struct Outcome {
    pub remove: Option<String>,
    pub reply: Reply,
}

/// The end of an upload whose file was stored as `filename` in `dir`, once
/// the store answered the insertion: the created photo, or the store's
/// error together with the removal of the blob that no row refers to.
pub fn upload_outcome(dir: &str, filename: &str, inserted: Result<Photo, StoreError>) -> (r: Outcome)
    ensures
        match inserted {
            Ok(p) => r.remove is None && r.reply.status == OK && r.reply.body == ReplyBody::Created(p),
            Err(e) => {
                &&& r.remove matches Some(path) && path@ == path_in(dir@, filename@)
                &&& is_error_reply(r.reply, SERVER_ERROR, database_error(e.text()))
            },
        },
{
    match inserted {
        Ok(p) => Outcome { remove: None, reply: Reply { status: OK, body: ReplyBody::Created(p) } },
        Err(e) => Outcome { remove: Some(upload_path(dir, filename)), reply: database_error_reply(&e) },
    }
}

/// The end of a deletion in `dir`, once the store answered it: the blob of
/// the deleted row is removed and the deletion acknowledged; when the store
/// failed, or held no such row, nothing is removed and its error is reported.
pub fn delete_outcome(dir: &str, deleted: Result<String, StoreError>) -> (r: Outcome)
    ensures
        match deleted {
            Ok(filename) => {
                &&& r.remove matches Some(path) && path@ == path_in(dir@, filename@)
                &&& r.reply.status == OK
                &&& r.reply.body matches ReplyBody::Message(m) && m@ == deleted_message()
            },
            Err(e) => r.remove is None && is_error_reply(r.reply, SERVER_ERROR, database_error(e.text())),
        },
{
    match deleted {
        Ok(filename) => {
            proof {
                reveal_strlit("Photo deleted successfully");
            }
            let path = upload_path(dir, filename.as_str());
            Outcome {
                remove: Some(path),
                reply: Reply { status: OK, body: ReplyBody::Message(String::from_str("Photo deleted successfully")) },
            }
        },
        Err(e) => Outcome { remove: None, reply: database_error_reply(&e) },
    }
}

} // verus!
