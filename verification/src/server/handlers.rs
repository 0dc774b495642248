//! The decisions behind `POST /clipboard` and `GET /clipboard`: how a request
//! becomes a clipboard entry, and what each endpoint stores and answers.
//!
//! The server keeps its entry in a lock shared by all requests; the caller
//! acquires it and reports whether the lock was poisoned, and these functions
//! decide on the stored entry and the reply.

use vstd::prelude::*;

use crate::content::ContentModel;
use crate::server::models::{
    AppError, AppErrorModel, ClipboardContent, ClipboardRequest, RequestModel, SuccessResponse,
};
use crate::text::{contains, has_infix, has_prefix, starts_with};

verus! {

/// The file extension guessed from a MIME type for a file without a name.
pub open spec fn extension_for(content_type: Seq<char>) -> Seq<char> {
    if has_infix(content_type, "pdf"@) {
        "pdf"@
    } else if has_infix(content_type, "zip"@) {
        "zip"@
    } else if has_infix(content_type, "json"@) {
        "json"@
    } else {
        "bin"@
    }
}

/// The entry a request stores: `text/*` types become text, `image/*` types
/// images, and everything else a file, named `unknown.<ext>` when the request
/// names none.
pub open spec fn entry_for(req: RequestModel) -> ContentModel {
    if has_prefix(req.content_type, "text/"@) {
        ContentModel::Text(req.data)
    } else if has_prefix(req.content_type, "image/"@) {
        ContentModel::Image { data: req.data, mime_type: req.content_type }
    } else {
        ContentModel::File {
            name: match req.filename {
                Some(name) => name,
                None => "unknown."@ + extension_for(req.content_type),
            },
            data: req.data,
            mime_type: req.content_type,
        }
    }
}

/// The stored entry as a model.
pub open spec fn stored(state: Option<ClipboardContent>) -> Option<ContentModel> {
    match state {
        Some(c) => Some(c@),
        None => None,
    }
}

/// The message of a successful `POST`.
pub open spec fn updated_message() -> Seq<char> {
    "Clipboard content updated successfully"@
}

/// The error of a `POST` that finds the lock poisoned.
pub open spec fn update_failure() -> AppErrorModel {
    AppErrorModel::InternalServerError("Failed to update clipboard content"@)
}

/// The error of a `GET` that finds the lock poisoned.
pub open spec fn retrieve_failure() -> AppErrorModel {
    AppErrorModel::InternalServerError("Failed to retrieve clipboard content"@)
}

/// The entry held after a `POST` of `req`.
pub open spec fn state_after_set(
    state: Option<ContentModel>,
    lock_poisoned: bool,
    req: RequestModel,
) -> Option<ContentModel> {
    if lock_poisoned {
        state
    } else {
        Some(entry_for(req))
    }
}

/// The answer of a `GET`: the entry, or why there is none.
pub open spec fn get_reply(state: Option<ContentModel>, lock_poisoned: bool) -> Result<
    ContentModel,
    AppErrorModel,
> {
    if lock_poisoned {
        Err(retrieve_failure())
    } else {
        match state {
            Some(c) => Ok(c),
            None => Err(AppErrorModel::NoContent),
        }
    }
}

/// The extension for a file without a name, from its MIME type.
fn extension(content_type: &str) -> (ext: &'static str)
    ensures
        ext@ == extension_for(content_type@),
{
    if contains(content_type, "pdf") {
        "pdf"
    } else if contains(content_type, "zip") {
        "zip"
    } else if contains(content_type, "json") {
        "json"
    } else {
        "bin"
    }
}

/// Builds the clipboard entry that a request describes.
pub fn content_from_request(payload: &ClipboardRequest) -> (c: ClipboardContent)
    ensures
        c@ == entry_for(payload@),
{
    let content_type = payload.content_type.as_str();
    if starts_with(content_type, "text/") {
        ClipboardContent::Text(payload.data.clone())
    } else if starts_with(content_type, "image/") {
        ClipboardContent::Image { data: payload.data.clone(), mime_type: payload.content_type.clone() }
    } else {
        let name = match &payload.filename {
            Some(name) => name.clone(),
            None => {
                let mut name = String::from_str("unknown.");
                name.append(extension(content_type));
                name
            },
        };
        ClipboardContent::File {
            name,
            data: payload.data.clone(),
            mime_type: payload.content_type.clone(),
        }
    }
}

/// Handles `POST /clipboard`: stores the entry the payload describes in place
/// of any earlier one. With a poisoned lock nothing is stored and the request
/// fails with an internal error.
pub fn set_clipboard(
    state: &mut Option<ClipboardContent>,
    lock_poisoned: bool,
    payload: ClipboardRequest,
) -> (r: Result<SuccessResponse, AppError>)
    ensures
        stored(*final(state)) == state_after_set(stored(*old(state)), lock_poisoned, payload@),
        lock_poisoned ==> (r matches Err(e) && e@ == update_failure()),
        !lock_poisoned ==> (r matches Ok(resp) && resp.status@ == "success"@ && resp.message@
            == updated_message()),
{
    if lock_poisoned {
        return Err(AppError::InternalServerError(String::from_str("Failed to update clipboard content")));
    }
    let content = content_from_request(&payload);
    *state = Some(content);
    Ok(SuccessResponse::new("Clipboard content updated successfully"))
}

/// Handles `GET /clipboard`: a copy of the stored entry, `NoContent` when
/// nothing was stored yet, or an internal error with a poisoned lock.
pub fn get_clipboard(state: &Option<ClipboardContent>, lock_poisoned: bool) -> (r: Result<
    ClipboardContent,
    AppError,
>)
    ensures
        match (r, get_reply(stored(*state), lock_poisoned)) {
            (Ok(c), Ok(m)) => c@ == m,
            (Err(e), Err(m)) => e@ == m,
            _ => false,
        },
        !lock_poisoned ==> (*state matches Some(c) ==> r == Ok::<ClipboardContent, AppError>(c)),
{
    if lock_poisoned {
        return Err(AppError::InternalServerError(String::from_str("Failed to retrieve clipboard content")));
    }
    match state {
        Some(content) => Ok(content.clone()),
        None => Err(AppError::NoContent),
    }
}


/// A read after a successful write gives back the entry that the write's
/// request describes.
pub proof fn read_after_write(state: Option<ContentModel>, req: RequestModel)
    ensures
        get_reply(state_after_set(state, false, req), false) == Ok::<ContentModel, AppErrorModel>(
            entry_for(req),
        ),
{
}

/// Of two successful writes only the later one is kept.
pub proof fn later_write_replaces_earlier(
    state: Option<ContentModel>,
    first: RequestModel,
    second: RequestModel,
)
    ensures
        state_after_set(state_after_set(state, false, first), false, second) == state_after_set(
            state,
            false,
            second,
        ),
{
}

/// A write that finds the lock poisoned leaves the stored entry as it was.
pub proof fn failed_write_keeps_entry(state: Option<ContentModel>, req: RequestModel)
    ensures
        state_after_set(state, true, req) == state,
{
}

/// Before anything is written a read finds no content, answered with `404`.
pub proof fn empty_store_answers_not_found()
    ensures
        get_reply(None, false) == Err::<ContentModel, AppErrorModel>(AppErrorModel::NoContent),
        AppErrorModel::NoContent.status() == 404,
{
}

/// The stored entry keeps the request's data, and its MIME type is
/// `text/plain` for `text/*` requests and the request's type otherwise.
pub proof fn entry_keeps_data_and_type(req: RequestModel)
    ensures
        entry_for(req).payload() == req.data,
        entry_for(req).mime() == if has_prefix(req.content_type, "text/"@) {
            "text/plain"@
        } else {
            req.content_type
        },
{
}

/// How a request's content type decides the kind of the stored entry: a type
/// beginning with `text/` gives text holding the data, one beginning with
/// `image/` an image with the data and the type, and any other type a file
/// with the data and the type, named after the request when it names itself
/// and `unknown.` followed by an extension otherwise.
pub proof fn entry_kind_follows_content_type(req: RequestModel)
    ensures
        ({
            let ct = req.content_type;
            let is_text = ct.len() >= 5 && ct.subrange(0, 5) == "text/"@;
            let is_image = ct.len() >= 6 && ct.subrange(0, 6) == "image/"@;
            &&& is_text ==> entry_for(req) == ContentModel::Text(req.data)
            &&& !is_text && is_image ==> entry_for(req) == ContentModel::Image {
                data: req.data,
                mime_type: ct,
            }
            &&& !is_text && !is_image ==> (entry_for(req) matches ContentModel::File {
                name,
                data,
                mime_type,
            } && data == req.data && mime_type == ct && name == match req.filename {
                Some(f) => f,
                None => "unknown."@ + extension_for(ct),
            })
        }),
{
    reveal_strlit("text/");
    reveal_strlit("image/");
}

/// The extension of an unnamed file: `pdf`, `zip` or `json` when the content
/// type holds that word (checked in that order), `bin` otherwise.
pub proof fn extension_from_content_type(ct: Seq<char>)
    ensures
        (exists|i: int| 0 <= i && i + 3 <= ct.len() && #[trigger] ct.subrange(i, i + 3) == "pdf"@)
            ==> extension_for(ct) == "pdf"@,
        !(exists|i: int| 0 <= i && i + 3 <= ct.len() && #[trigger] ct.subrange(i, i + 3) == "pdf"@)
            && (exists|i: int| 0 <= i && i + 3 <= ct.len() && #[trigger] ct.subrange(i, i + 3) == "zip"@)
            ==> extension_for(ct) == "zip"@,
        !(exists|i: int| 0 <= i && i + 3 <= ct.len() && #[trigger] ct.subrange(i, i + 3) == "pdf"@)
            && !(exists|i: int| 0 <= i && i + 3 <= ct.len() && #[trigger] ct.subrange(i, i + 3) == "zip"@)
            && (exists|i: int| 0 <= i && i + 4 <= ct.len() && #[trigger] ct.subrange(i, i + 4) == "json"@)
            ==> extension_for(ct) == "json"@,
        !(exists|i: int| 0 <= i && i + 3 <= ct.len() && #[trigger] ct.subrange(i, i + 3) == "pdf"@)
            && !(exists|i: int| 0 <= i && i + 3 <= ct.len() && #[trigger] ct.subrange(i, i + 3) == "zip"@)
            && !(exists|i: int| 0 <= i && i + 4 <= ct.len() && #[trigger] ct.subrange(i, i + 4) == "json"@)
            ==> extension_for(ct) == "bin"@,
{
    reveal_strlit("pdf");
    reveal_strlit("zip");
    reveal_strlit("json");
    if exists|i: int| 0 <= i && i + 3 <= ct.len() && #[trigger] ct.subrange(i, i + 3) == "pdf"@ {
        let i = choose|i: int| 0 <= i && i + 3 <= ct.len() && #[trigger] ct.subrange(i, i + 3) == "pdf"@;
        assert(crate::text::occurs_at(ct, "pdf"@, i));
    }
    if exists|i: int| 0 <= i && i + 3 <= ct.len() && #[trigger] ct.subrange(i, i + 3) == "zip"@ {
        let i = choose|i: int| 0 <= i && i + 3 <= ct.len() && #[trigger] ct.subrange(i, i + 3) == "zip"@;
        assert(crate::text::occurs_at(ct, "zip"@, i));
    }
    if exists|i: int| 0 <= i && i + 4 <= ct.len() && #[trigger] ct.subrange(i, i + 4) == "json"@ {
        let i = choose|i: int| 0 <= i && i + 4 <= ct.len() && #[trigger] ct.subrange(i, i + 4) == "json"@;
        assert(crate::text::occurs_at(ct, "json"@, i));
    }
}

} // verus!
