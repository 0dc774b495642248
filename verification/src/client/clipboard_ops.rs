//! What the client does with a received entry: text goes to the clipboard,
//! images and files are decoded from base64 and saved in the current directory.
//!
//! The functions here decide what to write and where; the caller performs the
//! clipboard and file operations.

use vstd::prelude::*;

use crate::client::models::ClipboardContent;
use crate::clock::now_unix_secs;
use crate::content::ContentModel;
use crate::encoding::{base64_decode, base64_standard_decoding};
use crate::text::{alphanumeric, char_is_alphanumeric, decimal, decimal_string, push_char};

verus! {

/// A character kept in a saved file's name: alphanumeric, `.`, `-` or `_`;
/// any other is replaced with `_`.
pub open spec fn safe_char(c: char) -> char {
    if alphanumeric(c) || c == '.' || c == '-' || c == '_' {
        c
    } else {
        '_'
    }
}

/// A file name with every character made safe.
pub open spec fn sanitized(name: Seq<char>) -> Seq<char> {
    name.map_values(|c: char| safe_char(c))
}

/// `s` holds no path separator, `/` or `\\`.
pub open spec fn no_separator(s: Seq<char>) -> bool {
    forall|i: int| 0 <= i < s.len() ==> #[trigger] s[i] != '/' && s[i] != '\\'
}

/// Replaces every character of `filename` that is not alphanumeric, `.`,
/// `-` or `_` with `_`.
pub fn sanitize_filename(filename: &str) -> (safe: String)
    ensures
        safe@ == sanitized(filename@),
        no_separator(safe@),
{
    let n = filename.unicode_len();
    let mut safe = String::new();
    let mut i: usize = 0;
    while i < n
        invariant
            n == filename@.len(),
            i <= n,
            safe@ =~= sanitized(filename@.subrange(0, i as int)),
            no_separator(safe@),
        decreases n - i,
    {
        let c = filename.get_char(i);
        let kept = if char_is_alphanumeric(c) || c == '.' || c == '-' || c == '_' {
            c
        } else {
            '_'
        };
        push_char(&mut safe, kept);
        assert(filename@.subrange(0, i + 1).drop_last() =~= filename@.subrange(0, i as int));
        i = i + 1;
    }
    assert(filename@.subrange(0, n as int) =~= filename@);
    safe
}

/// The current time as whole seconds since the Unix epoch, in decimal.
pub fn timestamp() -> (ts: String)
    ensures
        exists|secs: u64| ts@ == decimal(secs as nat),
{
    let secs = now_unix_secs();
    decimal_string(secs)
}

/// Where an image received at `timestamp` is saved.
pub open spec fn image_path(timestamp: Seq<char>) -> Seq<char> {
    "clipboard_image_"@ + timestamp + ".png"@
}

/// Where a file with the given name is saved.
pub open spec fn file_path(name: Seq<char>) -> Seq<char> {
    "clipboard_file_"@ + sanitized(name)
}

/// The path an image received at `timestamp` is saved under.
pub fn image_save_path(timestamp: &str) -> (path: String)
    ensures
        path@ == image_path(timestamp@),
{
    let mut path = String::from_str("clipboard_image_");
    path.append(timestamp);
    path.append(".png");
    path
}

/// The path a file with the given name is saved under.
pub fn file_save_path(filename: &str) -> (path: String)
    ensures
        path@ == file_path(filename@),
        no_separator(path@),
{
    let safe = sanitize_filename(filename);
    let mut path = String::from_str("clipboard_file_");
    proof {
        reveal_strlit("clipboard_file_");
    }
    path.append(safe.as_str());
    assert forall|i: int| 0 <= i < path@.len() implies #[trigger] path@[i] != '/' && path@[i]
        != '\\' by {
        if i >= "clipboard_file_"@.len() {
            assert(path@[i] == safe@[i - "clipboard_file_"@.len()]);
        }
    }
    path
}

/// Why a received entry could not be handed over.
#[derive(Debug, PartialEq, Eq, Clone, Copy)]
pub enum ClipError {
    /// The image data is not valid base64.
    ImageDecode,
    /// The file data is not valid base64.
    FileDecode,
}

impl ClipError {
    /// The message reported for the failure.
    pub fn message(&self) -> (m: &'static str)
        ensures
            m@ == match self {
                ClipError::ImageDecode => "Failed to decode base64 image data"@,
                ClipError::FileDecode => "Failed to decode base64 file data"@,
            },
    {
        match self {
            ClipError::ImageDecode => "Failed to decode base64 image data",
            ClipError::FileDecode => "Failed to decode base64 file data",
        }
    }
}

/// What to do with a received entry.
#[derive(Debug, PartialEq, Eq)]
pub enum ClipboardAction {
    /// Put the text on the system clipboard.
    SetText { text: String },
    /// Write the decoded image bytes to `path`.
    SaveImage { path: String, bytes: Vec<u8> },
    /// Write the decoded file bytes to `path`.
    SaveFile { path: String, bytes: Vec<u8> },
}

/// An action with its texts and bytes as sequences.
pub enum ActionModel {
    SetText(Seq<char>),
    SaveImage { path: Seq<char>, bytes: Seq<u8> },
    SaveFile { path: Seq<char>, bytes: Seq<u8> },
}

impl View for ClipboardAction {
    type V = ActionModel;

    open spec fn view(&self) -> ActionModel {
        match self {
            ClipboardAction::SetText { text } => ActionModel::SetText(text@),
            ClipboardAction::SaveImage { path, bytes } => ActionModel::SaveImage {
                path: path@,
                bytes: bytes@,
            },
            ClipboardAction::SaveFile { path, bytes } => ActionModel::SaveFile {
                path: path@,
                bytes: bytes@,
            },
        }
    }
}

/// What is done with an entry received at `timestamp`: text is set as is;
/// images and files are decoded and saved, images under a name with the
/// timestamp, files under their sanitized name.
pub open spec fn action_for(content: ContentModel, timestamp: Seq<char>) -> Result<
    ActionModel,
    ClipError,
> {
    match content {
        ContentModel::Text(text) => Ok(ActionModel::SetText(text)),
        ContentModel::Image { data, .. } => match base64_standard_decoding(data) {
            Some(bytes) => Ok(ActionModel::SaveImage { path: image_path(timestamp), bytes }),
            None => Err(ClipError::ImageDecode),
        },
        ContentModel::File { name, data, .. } => match base64_standard_decoding(data) {
            Some(bytes) => Ok(ActionModel::SaveFile { path: file_path(name), bytes }),
            None => Err(ClipError::FileDecode),
        },
    }
}

/// Decides what to do with an entry received at `timestamp`.
pub fn plan_clipboard_write(content: ClipboardContent, timestamp: &str) -> (r: Result<
    ClipboardAction,
    ClipError,
>)
    ensures
        match (r, action_for(content@, timestamp@)) {
            (Ok(a), Ok(m)) => a@ == m,
            (Err(e), Err(m)) => e == m,
            _ => false,
        },
{
    match content {
        ClipboardContent::Text { data } => Ok(ClipboardAction::SetText { text: data }),
        ClipboardContent::Image { data, .. } => match base64_decode(data.as_str()) {
            Ok(bytes) => Ok(ClipboardAction::SaveImage { path: image_save_path(timestamp), bytes }),
            Err(_) => Err(ClipError::ImageDecode),
        },
        ClipboardContent::File { name, data, .. } => match base64_decode(data.as_str()) {
            Ok(bytes) => Ok(
                ClipboardAction::SaveFile { path: file_save_path(name.as_str()), bytes },
            ),
            Err(_) => Err(ClipError::FileDecode),
        },
    }
}

/// A sanitized name has the same length as the given one, is made of safe
/// characters only, and is left as it is by sanitizing again.
pub proof fn sanitizing_is_idempotent(name: Seq<char>)
    ensures
        sanitized(name).len() == name.len(),
        forall|i: int|
            0 <= i < name.len() ==> {
                let c = #[trigger] sanitized(name)[i];
                alphanumeric(c) || c == '.' || c == '-' || c == '_'
            },
        sanitized(sanitized(name)) == sanitized(name),
{
    assert(sanitized(sanitized(name)) =~= sanitized(name));
}

/// Sanitizing keeps every alphanumeric character, `.`, `-` and `_` where it
/// is, and replaces every other character with `_`.
pub proof fn sanitizing_keeps_safe_characters(name: Seq<char>)
    ensures
        sanitized(name).len() == name.len(),
        forall|i: int|
            0 <= i < name.len() ==> #[trigger] sanitized(name)[i] == if alphanumeric(name[i])
                || name[i] == '.' || name[i] == '-' || name[i] == '_' {
                name[i]
            } else {
                '_'
            },
{
}

} // verus!
