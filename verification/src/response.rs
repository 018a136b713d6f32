//! The HTTP response as the service sees it: a status code, a content type
//! and a body of raw bytes.

use vstd::prelude::*;

verus! {

/// The content type a response carries. The service never sets one except on
/// a successful diagnostic dump, which is labelled `plain/text` (the label is
/// kept verbatim, quirk included).
#[derive(Clone, Copy, Debug, PartialEq, Eq, Structural)]
pub enum ContentType {
    /// No content type set: the transport's default applies.
    DefaultType,
    /// The literal header value `plain/text`.
    PlainText,
}

impl ContentType {
    /// The header value to send, if any: `PlainText` is written out as the
    /// exact string `plain/text`, the default sets no header at all.
    pub fn header_value(&self) -> (r: Option<&'static str>)
        ensures
            match self {
                ContentType::DefaultType => r is None,
                ContentType::PlainText => r is Some && r->0@ == "plain/text"@,
            },
    {
        match self {
            ContentType::DefaultType => None,
            ContentType::PlainText => Some("plain/text"),
        }
    }
}

/// An HTTP response: everything the service decides about its answer to one
/// request. The body is an opaque byte sequence.
#[derive(Clone, Debug, PartialEq, Eq)]
pub struct Response {
    pub status: u16,
    pub content_type: ContentType,
    pub body: Vec<u8>,
}

impl Response {
    /// The mathematical value of a response: its status, content type and
    /// body bytes, with nothing about how the bytes are stored.
    pub open spec fn model(self) -> (u16, ContentType, Seq<u8>) {
        (self.status, self.content_type, self.body@)
    }
}

} // verus!
