//! Answers as plain values: a body, a status and a content type.

use vstd::prelude::*;
use vstd::string::StrSliceExecFns;
use vstd::utf8::encode_utf8;
use crate::iiif::quality::OutputFormat;

verus! {

/// The content type of a page.
pub const PAGE_TYPE: &'static str = "text/html; charset=UTF-8";

/// An answer: its body, its status, and its content type.
#[derive(Debug)]
pub struct ResponderWrapper {
    pub content: Vec<u8>,
    pub status_code: Option<u16>,
    pub content_type: String,
}

/// A page with a headline and a message.
pub open spec fn page_text(headline: Seq<char>, message: Seq<char>) -> Seq<char> {
    "<h1>"@ + headline + "</h1><div>"@ + message + "</div>"@
}

impl ResponderWrapper {
    /// Whether the answer is a page with the given status, headline and
    /// message.
    pub open spec fn is_page(self, status: u16, headline: Seq<char>, message: Seq<char>) -> bool {
        &&& self.content@ == encode_utf8(page_text(headline, message))
        &&& self.status_code == Some(status)
        &&& self.content_type@ == PAGE_TYPE@
    }

    /// Whether the answer carries the given text with status 200 under the
    /// given content type.
    pub open spec fn is_text(self, text: Seq<char>, content_type: Seq<char>) -> bool {
        &&& self.content@ == encode_utf8(text)
        &&& self.status_code == Some(200u16)
        &&& self.content_type@ == content_type
    }

    /// A page with a headline and a message.
    fn page(status: u16, headline: &str, message: &str) -> (r: ResponderWrapper)
        ensures
            r.is_page(status, headline@, message@),
    {
        let mut text = "<h1>".to_owned();
        text.append(headline);
        text.append("</h1><div>");
        text.append(message);
        text.append("</div>");
        ResponderWrapper {
            content: text.as_str().as_bytes_vec(),
            status_code: Some(status),
            content_type: PAGE_TYPE.to_owned(),
        }
    }

    /// The page for an error of the server.
    pub fn server_error(message: &str) -> (r: ResponderWrapper)
        ensures
            r.is_page(500, "500 - Internal Server Error"@, message@),
    {
        ResponderWrapper::page(500, "500 - Internal Server Error", message)
    }

    /// The page for something that is not there.
    pub fn not_found(message: &str) -> (r: ResponderWrapper)
        ensures
            r.is_page(404, "404 - Not found!"@, message@),
    {
        ResponderWrapper::page(404, "404 - Not found!", message)
    }

    /// The page for something that is forbidden.
    pub fn not_allowed(message: &str) -> (r: ResponderWrapper)
        ensures
            r.is_page(403, "403 - Forbidden!"@, message@),
    {
        ResponderWrapper::page(403, "403 - Forbidden!", message)
    }

    /// The page for a caller that is not known.
    pub fn not_authenticated(message: &str) -> (r: ResponderWrapper)
        ensures
            r.is_page(401, "401 - Not authenticated!"@, message@),
    {
        ResponderWrapper::page(401, "401 - Not authenticated!", message)
    }

    /// The page for a request that cannot be understood.
    pub fn bad_request(message: &str) -> (r: ResponderWrapper)
        ensures
            r.is_page(400, "400 - Bad Request!"@, message@),
    {
        ResponderWrapper::page(400, "400 - Bad Request!", message)
    }

    /// The page for something that is not implemented. Its headline is the
    /// one of a bad request.
    pub fn not_implemented(message: &str) -> (r: ResponderWrapper)
        ensures
            r.is_page(501, "400 - Bad Request!"@, message@),
    {
        ResponderWrapper::page(501, "400 - Bad Request!", message)
    }

    /// An answer that carries JSON.
    pub fn json(data: String) -> (r: ResponderWrapper)
        ensures
            r.is_text(data@, "application/json"@),
    {
        ResponderWrapper {
            content: data.as_str().as_bytes_vec(),
            status_code: Some(200),
            content_type: "application/json".to_owned(),
        }
    }

    /// An answer that carries JSON-LD.
    pub fn ldjson_text(data: String) -> (r: ResponderWrapper)
        ensures
            r.is_text(data@, "application/ld+json"@),
    {
        ResponderWrapper {
            content: data.as_str().as_bytes_vec(),
            status_code: Some(200),
            content_type: "application/ld+json".to_owned(),
        }
    }

    /// An answer that carries a page as it is.
    pub fn text(message: &str) -> (r: ResponderWrapper)
        ensures
            r.is_text(message@, PAGE_TYPE@),
    {
        ResponderWrapper {
            content: message.as_bytes_vec(),
            status_code: Some(200),
            content_type: PAGE_TYPE.to_owned(),
        }
    }

    /// An answer that carries an encoded picture.
    pub fn img(data: Vec<u8>, imgtype: &OutputFormat) -> (r: ResponderWrapper)
        ensures
            r.content@ == data@,
            r.status_code == Some(200u16),
            r.content_type@ == imgtype.mime_spec(),
    {
        ResponderWrapper {
            content: data,
            status_code: Some(200),
            content_type: imgtype.mime().to_owned(),
        }
    }

    /// The status of the answer; 500 where none was set.
    pub fn status_code(&self) -> (code: u16)
        ensures
            code == (match self.status_code {
                Some(v) => v,
                None => 500u16,
            }),
    {
        match self.status_code {
            Some(v) => v,
            None => 500,
        }
    }
}

} // verus!
