//! Data model of the server: the stored clipboard entry, the request that
//! creates it, the JSON replies and the application errors.

use vstd::prelude::*;
use crate::content::{append_field, byte_len, ContentModel};
use crate::text::decimal_string;

verus! {

/// A clipboard entry held by the server.
#[derive(Debug, PartialEq, Eq)]
pub enum ClipboardContent {
    Text(String),
    Image { data: String, mime_type: String },
    File { name: String, data: String, mime_type: String },
}

impl View for ClipboardContent {
    type V = ContentModel;

    open spec fn view(&self) -> ContentModel {
        match self {
            ClipboardContent::Text(text) => ContentModel::Text(text@),
            ClipboardContent::Image { data, mime_type } => ContentModel::Image {
                data: data@,
                mime_type: mime_type@,
            },
            ClipboardContent::File { name, data, mime_type } => ContentModel::File {
                name: name@,
                data: data@,
                mime_type: mime_type@,
            },
        }
    }
}

impl Clone for ClipboardContent {
    fn clone(&self) -> (r: Self)
        ensures
            r == *self,
    {
        match self {
            ClipboardContent::Text(text) => ClipboardContent::Text(text.clone()),
            ClipboardContent::Image { data, mime_type } => ClipboardContent::Image {
                data: data.clone(),
                mime_type: mime_type.clone(),
            },
            ClipboardContent::File { name, data, mime_type } => ClipboardContent::File {
                name: name.clone(),
                data: data.clone(),
                mime_type: mime_type.clone(),
            },
        }
    }
}

impl ClipboardContent {
    /// The MIME type of this entry.
    pub fn mime_type(&self) -> (m: &str)
        ensures
            m@ == self@.mime(),
    {
        match self {
            ClipboardContent::Text(_) => "text/plain",
            ClipboardContent::Image { mime_type, .. } => mime_type.as_str(),
            ClipboardContent::File { mime_type, .. } => mime_type.as_str(),
        }
    }

    /// The size in bytes of the payload (for images and files, of its base64 text).
    pub fn size_bytes(&self) -> (n: usize)
        ensures
            n == byte_len(self@.payload()),
    {
        match self {
            ClipboardContent::Text(text) => text.as_str().as_bytes().len(),
            ClipboardContent::Image { data, .. } => data.as_str().as_bytes().len(),
            ClipboardContent::File { data, .. } => data.as_str().as_bytes().len(),
        }
    }

    /// A key of this entry for change detection.
    pub fn content_hash(&self) -> (h: String)
        ensures
            h@ == self@.hash(),
    {
        match self {
            ClipboardContent::Text(text) => {
                let mut h = String::from_str("text:");
                h.append(text.as_str());
                h
            },
            ClipboardContent::Image { data, mime_type } => {
                let mut h = String::from_str("image:");
                append_field(&mut h, mime_type.as_str());
                h.append(data.as_str());
                assert(h@ =~= self@.hash());
                h
            },
            ClipboardContent::File { name, data, mime_type } => {
                let mut h = String::from_str("file:");
                append_field(&mut h, name.as_str());
                append_field(&mut h, mime_type.as_str());
                h.append(data.as_str());
                assert(h@ =~= self@.hash());
                h
            },
        }
    }

    /// The one-line description of this entry used in logs.
    pub fn to_string(&self) -> (s: String)
        ensures
            s@ == self@.display(),
    {
        match self {
            ClipboardContent::Text(text) => {
                let n = text.as_str().as_bytes().len();
                let mut s = String::from_str("Text (");
                let digits = decimal_string(n as u64);
                s.append(digits.as_str());
                s.append(" bytes)");
                s
            },
            ClipboardContent::Image { mime_type, .. } => {
                let mut s = String::from_str("Image (");
                s.append(mime_type.as_str());
                s.append(")");
                s
            },
            ClipboardContent::File { name, mime_type, .. } => {
                let mut s = String::from_str("File ");
                s.append(name.as_str());
                s.append(" (");
                s.append(mime_type.as_str());
                s.append(")");
                s
            },
        }
    }
}

/// The body of `POST /clipboard`.
#[derive(Debug)]
pub struct ClipboardRequest {
    pub content_type: String,
    pub data: String,
    pub filename: Option<String>,
}

/// A request with its texts as character sequences.
pub struct RequestModel {
    pub content_type: Seq<char>,
    pub data: Seq<char>,
    pub filename: Option<Seq<char>>,
}

impl View for ClipboardRequest {
    type V = RequestModel;

    open spec fn view(&self) -> RequestModel {
        RequestModel {
            content_type: self.content_type@,
            data: self.data@,
            filename: match self.filename {
                Some(f) => Some(f@),
                None => None,
            },
        }
    }
}

/// The reply of a successful operation.
#[derive(Debug)]
pub struct SuccessResponse {
    pub status: String,
    pub message: String,
}

impl SuccessResponse {
    /// A reply with status `success` and the given message.
    pub fn new(message: &str) -> (r: Self)
        ensures
            r.status@ == "success"@,
            r.message@ == message@,
    {
        SuccessResponse { status: String::from_str("success"), message: String::from_str(message) }
    }
}

/// The body of an error reply.
#[derive(Debug)]
pub struct ErrorResponse {
    pub status: String,
    pub message: String,
}

impl ErrorResponse {
    /// A reply with status `error` and the given message.
    pub fn new(message: &str) -> (r: Self)
        ensures
            r.status@ == "error"@,
            r.message@ == message@,
    {
        ErrorResponse { status: String::from_str("error"), message: String::from_str(message) }
    }
}

/// The errors a clipboard request can end in.
#[derive(Debug)]
pub enum AppError {
    NoContent,
    InternalServerError(String),
}

/// An application error with its message as a character sequence.
pub enum AppErrorModel {
    NoContent,
    InternalServerError(Seq<char>),
}

/// The message of a `NoContent` error.
pub open spec fn no_content_message() -> Seq<char> {
    "No clipboard content available"@
}

impl AppErrorModel {
    /// The text shown for the error.
    pub open spec fn display(self) -> Seq<char> {
        match self {
            AppErrorModel::NoContent => no_content_message(),
            AppErrorModel::InternalServerError(msg) => "Internal server error: "@ + msg,
        }
    }

    /// The HTTP status the error is answered with.
    pub open spec fn status(self) -> u16 {
        match self {
            AppErrorModel::NoContent => 404,
            AppErrorModel::InternalServerError(_) => 500,
        }
    }

    /// The message carried in the error reply's body.
    pub open spec fn body_message(self) -> Seq<char> {
        match self {
            AppErrorModel::NoContent => no_content_message(),
            AppErrorModel::InternalServerError(msg) => msg,
        }
    }
}

impl View for AppError {
    type V = AppErrorModel;

    open spec fn view(&self) -> AppErrorModel {
        match self {
            AppError::NoContent => AppErrorModel::NoContent,
            AppError::InternalServerError(msg) => AppErrorModel::InternalServerError(msg@),
        }
    }
}

impl AppError {
    /// The text shown for the error.
    pub fn to_string(&self) -> (s: String)
        ensures
            s@ == self@.display(),
    {
        match self {
            AppError::NoContent => String::from_str("No clipboard content available"),
            AppError::InternalServerError(msg) => {
                let mut s = String::from_str("Internal server error: ");
                s.append(msg.as_str());
                s
            },
        }
    }

    /// The HTTP status the error is answered with.
    pub fn status_code(&self) -> (code: u16)
        ensures
            code == self@.status(),
    {
        match self {
            AppError::NoContent => 404,
            AppError::InternalServerError(_) => 500,
        }
    }

    /// The HTTP status and JSON body the error is answered with.
    pub fn into_response(self) -> (r: (u16, ErrorResponse))
        ensures
            r.0 == self@.status(),
            r.1.status@ == "error"@,
            r.1.message@ == self@.body_message(),
    {
        match self {
            AppError::NoContent => (404, ErrorResponse::new("No clipboard content available")),
            AppError::InternalServerError(msg) => (500, ErrorResponse::new(msg.as_str())),
        }
    }
}

} // verus!
