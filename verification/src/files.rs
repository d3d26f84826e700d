//! File attachments: the file kind derived from a MIME type, and the
//! metadata rows for customer and user files.  The bytes themselves live
//! in object storage; a row only points at the storage path.

use vstd::prelude::*;
use crate::matchings::clone_opt_string;
use crate::textutil::{has_prefix, str_eq, str_starts_with};

verus! {

/// The broad kind of an uploaded file.
#[derive(Clone, Copy, Debug, PartialEq, Eq, Structural)]
pub enum FileType {
    Image,
    Document,
    Video,
    Other,
}

/// The kind a MIME type maps to: `image/*` is an image, `video/*` a
/// video; `application/pdf`, `application/vnd.*` and
/// `application/msword*` are documents; anything else is other.
pub open spec fn mime_kind(mime: Seq<char>) -> FileType {
    if has_prefix(mime, "image/"@) {
        FileType::Image
    } else if has_prefix(mime, "video/"@) {
        FileType::Video
    } else if mime == "application/pdf"@ || has_prefix(mime, "application/vnd."@) || has_prefix(
        mime,
        "application/msword"@,
    ) {
        FileType::Document
    } else {
        FileType::Other
    }
}

impl FileType {
    /// Classify a MIME type.
    pub fn from_mime_type(mime: &str) -> (r: FileType)
        ensures
            r == mime_kind(mime@),
    {
        if str_starts_with(mime, "image/") {
            FileType::Image
        } else if str_starts_with(mime, "video/") {
            FileType::Video
        } else if str_eq(mime, "application/pdf") || str_starts_with(mime, "application/vnd.")
            || str_starts_with(mime, "application/msword") {
            FileType::Document
        } else {
            FileType::Other
        }
    }
}

/// A file attached to a customer.  Timestamps are seconds since the
/// Unix epoch.
#[derive(Clone, Debug)]
pub struct CustomerFile {
    pub id: i64,
    pub customer_id: i64,
    pub file_path: String,
    pub file_type: FileType,
    pub file_size: Option<i64>,
    pub thumbnail_path: Option<String>,
    pub original_filename: Option<String>,
    pub mime_type: Option<String>,
    pub is_profile: bool,
    pub created_at: i64,
    pub updated_at: i64,
    pub deleted_at: Option<i64>,
}

/// A file attached to a user.
#[derive(Clone, Debug)]
pub struct UserFile {
    pub id: i64,
    pub user_id: i64,
    pub file_path: String,
    pub file_type: FileType,
    pub file_size: Option<i64>,
    pub thumbnail_path: Option<String>,
    pub original_filename: Option<String>,
    pub mime_type: Option<String>,
    pub created_at: i64,
    pub updated_at: i64,
    pub deleted_at: Option<i64>,
}

/// The body of a successful upload response.
#[derive(Clone, Debug)]
pub struct UploadFileResponse {
    pub file_id: i64,
    pub file_path: String,
    pub file_url: String,
}

/// Mark one live file as the customer's profile photo and unmark every
/// other live file of that customer.  Files of other customers, and
/// soft-deleted rows, are untouched.
#[verifier::loop_isolation(false)]
pub fn set_profile_photo(files: &mut Vec<CustomerFile>, customer_id: i64, file_id: i64, now: i64)
    ensures
        final(files)@.len() == old(files)@.len(),
        forall|i: int|
            0 <= i < old(files)@.len() ==> (#[trigger] final(files)@[i]) == (
            if old(files)@[i].customer_id == customer_id && old(files)@[i].deleted_at is None {
                CustomerFile {
                    is_profile: old(files)@[i].id == file_id,
                    updated_at: now,
                    ..old(files)@[i]
                }
            } else {
                old(files)@[i]
            }),
{
    let n = files.len();
    let mut i: usize = 0;
    while i < n
        invariant
            i <= n,
            n == files@.len(),
            forall|j: int|
                0 <= j < n ==> (#[trigger] files@[j]) == (
                if j < i && old(files)@[j].customer_id == customer_id && old(
                    files,
                )@[j].deleted_at is None {
                    CustomerFile {
                        is_profile: old(files)@[j].id == file_id,
                        updated_at: now,
                        ..old(files)@[j]
                    }
                } else {
                    old(files)@[j]
                }),
        decreases n - i,
    {
        if files[i].customer_id == customer_id && files[i].deleted_at.is_none() {
            let is_chosen = files[i].id == file_id;
            files[i].is_profile = is_chosen;
            files[i].updated_at = now;
        }
        i = i + 1;
    }
}

/// The storage path of a customer's file:
/// `customers/{customer_id}/{file_name}`.
pub open spec fn customer_file_path(customer_id: i64, file_name: Seq<char>) -> Seq<char> {
    "customers/"@ + crate::numeric::int_string(customer_id as int) + "/"@ + file_name
}

/// The storage path of a user's file: `users/{user_id}/{file_name}`.
pub open spec fn user_file_path(user_id: i64, file_name: Seq<char>) -> Seq<char> {
    "users/"@ + crate::numeric::int_string(user_id as int) + "/"@ + file_name
}

/// Build the storage path of a customer's file.
pub fn storage_path_for_customer(customer_id: i64, file_name: &str) -> (r: String)
    ensures
        r@ == customer_file_path(customer_id, file_name@),
{
    proof {
        reveal_strlit("customers/");
        reveal_strlit("/");
    }
    let mut path = String::from_str("customers/");
    path.append(crate::numeric::i64_to_string(customer_id).as_str());
    path.append("/");
    path.append(file_name);
    path
}

/// Build the storage path of a user's file.
pub fn storage_path_for_user(user_id: i64, file_name: &str) -> (r: String)
    ensures
        r@ == user_file_path(user_id, file_name@),
{
    proof {
        reveal_strlit("users/");
        reveal_strlit("/");
    }
    let mut path = String::from_str("users/");
    path.append(crate::numeric::i64_to_string(user_id).as_str());
    path.append("/");
    path.append(file_name);
    path
}

/// Where the extension of a filename starts, scanning back from `i`:
/// just after the last `.`, or at the start when the name has no dot.
pub open spec fn extension_start(s: Seq<char>, i: int) -> int
    decreases i when 0 <= i <= s.len()
{
    if i <= 0 {
        0
    } else if s[i - 1] == '.' {
        i
    } else {
        extension_start(s, i - 1)
    }
}

/// What the extension of `name` is: the part after the last dot, or the
/// whole name when it has no dot.
pub open spec fn extension_of(name: Seq<char>) -> Seq<char> {
    name.subrange(extension_start(name, name.len() as int), name.len() as int)
}

/// The extension of an uploaded file's name: the part after the last
/// dot, or the whole name when it has no dot — the rightmost piece of a
/// split on `.`.  A name ending in `.` yields the empty extension, as
/// that split does; choosing a fallback for a missing extension is the
/// caller's business.
#[verifier::loop_isolation(false)]
pub fn file_extension(name: &str) -> (r: String)
    ensures
        r@ == extension_of(name@),
{
    let n = name.unicode_len();
    let mut i: usize = n;
    while i > 0 && name.get_char(i - 1) != '.'
        invariant
            i <= n,
            extension_start(name@, n as int) == extension_start(name@, i as int),
        decreases i,
    {
        i = i - 1;
    }
    name.substring_char(i, n).to_owned()
}

} // verus!
