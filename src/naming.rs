//! Names of the files in the blob directory.

use vstd::prelude::*;
use vstd::string::*;

verus! {

/// The extension stored when the uploaded file's name has none.
pub const DEFAULT_EXTENSION: &'static str = "jpg";

/// The name assumed for a file part that carries no file name.
pub const UNKNOWN_NAME: &'static str = "unknown";

/// A character that may appear in a generated token: a lower-case hex digit or '-'.
pub open spec fn is_token_char(c: char) -> bool {
    ('0' <= c && c <= '9') || ('a' <= c && c <= 'f') || c == '-'
}

/// A token as produced for a new blob: 36 characters, hex digits and dashes.
pub open spec fn is_token(t: Seq<char>) -> bool {
    &&& t.len() == 36
    &&& forall|i: int| 0 <= i < t.len() ==> is_token_char(#[trigger] t[i])
}

/// No character of `s` is a path separator.
pub open spec fn has_no_separator(s: Seq<char>) -> bool {
    forall|i: int| 0 <= i < s.len() ==> #[trigger] s[i] != '/'
}

/// What `std::path::Path::extension` gives for a path, as text.
pub uninterp spec fn path_extension(s: Seq<char>) -> Option<Seq<char>>;

/// The extension kept for a file uploaded under the name `original`.
pub open spec fn stored_extension(original: Seq<char>) -> Seq<char> {
    match path_extension(original) {
        Some(e) => e,
        None => DEFAULT_EXTENSION@,
    }
}

/// The name given to a blob whose token is `token`.
pub open spec fn blob_name(token: Seq<char>, original: Seq<char>) -> Seq<char> {
    token + seq!['.'] + stored_extension(original)
}

/// The original file name, or the placeholder when there is none.
pub open spec fn original_or_unknown(original: Option<&str>) -> Seq<char> {
    match original {
        Some(o) => o@,
        None => UNKNOWN_NAME@,
    }
}

/// Where the blob `filename` lives inside the directory `dir`.
pub open spec fn path_in(dir: Seq<char>, filename: Seq<char>) -> Seq<char> {
    dir + seq!['/'] + filename
}

/// Relies on uuid::Uuid::new_v4 and its Display impl: a random version-4 uuid,
/// written as 36 lower-case hex digits and dashes.
#[verifier::external_body]
fn fresh_token() -> (r: String)
    ensures
        is_token(r@),
{
    uuid::Uuid::new_v4().to_string()
}

/// Relies on std::path::Path::extension: the part of the final path component
/// after its last '.', which then holds no '.' and no '/'.
#[verifier::external_body]
fn extension_of(name: &str) -> (r: Option<String>)
    ensures
        match r {
            Some(e) => path_extension(name@) == Some(e@) && has_no_separator(e@) && !e@.contains('.'),
            None => path_extension(name@) is None,
        },
{
    match std::path::Path::new(name).extension() {
        Some(e) => e.to_str().map(String::from),
        None => None,
    }
}

/// The extension to store for a file uploaded under the name `original`.
pub fn stored_extension_of(original: &str) -> (r: String)
    ensures
        r@ == stored_extension(original@),
        has_no_separator(r@),
{
    match extension_of(original) {
        Some(e) => e,
        None => {
            proof {
                reveal_strlit("jpg");
            }
            String::from_str(DEFAULT_EXTENSION)
        },
    }
}

/// The blob name made of `token` and the extension of `original`.
pub fn name_with_token(token: &str, original: &str) -> (r: String)
    ensures
        r@ == blob_name(token@, original@),
        has_no_separator(stored_extension(original@)),
{
    let ext = stored_extension_of(original);
    let mut r = String::from_str(token);
    proof {
        reveal_strlit(".");
    }
    r.append(".");
    r.append(ext.as_str());
    r
}

/// A fresh blob name for a file uploaded under `original` (or under no name):
/// a random token, a '.', and the original's extension. No user text but the
/// extension reaches the name, and the name holds no path separator.
pub fn generate_name(original: Option<&str>) -> (r: String)
    ensures
        exists|t: Seq<char>| is_token(t) && r@ == blob_name(t, original_or_unknown(original)),
        has_no_separator(r@),
{
    let token = fresh_token();
    let name = match original {
        Some(o) => o,
        None => UNKNOWN_NAME,
    };
    proof {
        reveal_strlit("unknown");
    }
    let r = name_with_token(token.as_str(), name);
    proof {
        let ext = stored_extension(name@);
        assert(r@ =~= token@ + seq!['.'] + ext);
        assert forall|i: int| 0 <= i < r@.len() implies #[trigger] r@[i] != '/' by {
            if i < 36 {
                assert(is_token_char(token@[i]));
            } else if i > 36 {
                assert(r@[i] == ext[i - 37]);
            }
        }
    }
    r
}

/// The path of the blob `filename` inside the directory `dir`.
pub fn upload_path(dir: &str, filename: &str) -> (r: String)
    ensures
        r@ == path_in(dir@, filename@),
{
    let mut r = String::from_str(dir);
    proof {
        reveal_strlit("/");
    }
    r.append("/");
    r.append(filename);
    r
}

} // verus!
