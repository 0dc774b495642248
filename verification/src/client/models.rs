//! The clipboard entry as the client receives it from the server.

use vstd::prelude::*;

use crate::content::{append_field, byte_len, ContentModel};

verus! {

/// A clipboard entry served by the server.
#[derive(Debug, PartialEq, Eq)]
pub enum ClipboardContent {
    Text { data: String },
    Image { data: String, mime_type: String },
    File { name: String, data: String, mime_type: String },
}

impl View for ClipboardContent {
    type V = ContentModel;

    open spec fn view(&self) -> ContentModel {
        match self {
            ClipboardContent::Text { data } => ContentModel::Text(data@),
            ClipboardContent::Image { data, mime_type } => ContentModel::Image {
                data: data@,
                mime_type: mime_type@,
            },
            ClipboardContent::File { name, data, mime_type } => ContentModel::File {
                name: name@,
                data: data@,
                mime_type: mime_type@,
            },
        }
    }
}

impl Clone for ClipboardContent {
    fn clone(&self) -> (r: Self)
        ensures
            r == *self,
    {
        match self {
            ClipboardContent::Text { data } => ClipboardContent::Text { data: data.clone() },
            ClipboardContent::Image { data, mime_type } => ClipboardContent::Image {
                data: data.clone(),
                mime_type: mime_type.clone(),
            },
            ClipboardContent::File { name, data, mime_type } => ClipboardContent::File {
                name: name.clone(),
                data: data.clone(),
                mime_type: mime_type.clone(),
            },
        }
    }
}

impl ClipboardContent {
    /// A key of this entry for change detection.
    pub fn content_hash(&self) -> (h: String)
        ensures
            h@ == self@.hash(),
    {
        match self {
            ClipboardContent::Text { data } => {
                let mut h = String::from_str("text:");
                h.append(data.as_str());
                h
            },
            ClipboardContent::Image { data, mime_type } => {
                let mut h = String::from_str("image:");
                append_field(&mut h, mime_type.as_str());
                h.append(data.as_str());
                assert(h@ =~= self@.hash());
                h
            },
            ClipboardContent::File { name, data, mime_type } => {
                let mut h = String::from_str("file:");
                append_field(&mut h, name.as_str());
                append_field(&mut h, mime_type.as_str());
                h.append(data.as_str());
                assert(h@ =~= self@.hash());
                h
            },
        }
    }

    /// The length in bytes of the payload (for images and files, of its base64 text).
    pub fn data_length(&self) -> (n: usize)
        ensures
            n == byte_len(self@.payload()),
    {
        match self {
            ClipboardContent::Text { data } => data.as_str().as_bytes().len(),
            ClipboardContent::Image { data, .. } => data.as_str().as_bytes().len(),
            ClipboardContent::File { data, .. } => data.as_str().as_bytes().len(),
        }
    }

    /// The MIME type of this entry.
    pub fn mime_type(&self) -> (m: &str)
        ensures
            m@ == self@.mime(),
    {
        match self {
            ClipboardContent::Text { .. } => "text/plain",
            ClipboardContent::Image { mime_type, .. } => mime_type.as_str(),
            ClipboardContent::File { mime_type, .. } => mime_type.as_str(),
        }
    }
}

} // verus!
