//! Answers of the web server.
use vstd::prelude::*;

use crate::markup;
use crate::text;

verus! {

/// What an answer's body is said to be.
#[derive(Clone, Copy, Debug, PartialEq, Eq, Structural)]
pub enum ContentType {
    /// Nothing is said.
    Unset,
    /// `application/xml`
    Xml,
    /// `text/html; charset=UTF-8`
    Html,
}

impl ContentType {
    /// The value of the header, where there is one.
    pub fn header(self) -> (r: Option<&'static str>)
        ensures
            match self {
                ContentType::Unset => r is None,
                ContentType::Xml => r matches Some(h) && h@ == "application/xml"@,
                ContentType::Html => r matches Some(h) && h@ == "text/html; charset=UTF-8"@,
            },
    {
        match self {
            ContentType::Unset => None,
            ContentType::Xml => Some("application/xml"),
            ContentType::Html => Some("text/html; charset=UTF-8"),
        }
    }
}

/// An answer.
#[derive(Debug)]
pub struct Answer {
    /// The status code.
    pub status: u16,
    /// What the body is said to be.
    pub content_type: ContentType,
    /// The body.
    pub body: String,
}

impl Answer {
    /// It has this status, type and body.
    pub open spec fn says(self, status: u16, content_type: ContentType, body: Seq<char>) -> bool {
        self.status == status && self.content_type == content_type && self.body@ == body
    }

    /// It is an XML document, and fine.
    pub open spec fn is_xml(self, body: Seq<char>) -> bool {
        self.says(200, ContentType::Xml, body)
    }

    /// It refuses the request with a plain message.
    pub open spec fn refuses(self, message: Seq<char>) -> bool {
        self.says(400, ContentType::Unset, message)
    }

    /// It is an XML document that tells of an error.
    pub open spec fn is_xml_error(self, status_code: u16, message: Seq<char>) -> bool {
        self.is_xml(xml_error_body(status_code as nat, message))
    }
}

/// Refuses a request.
pub fn bad_request(message: String) -> (r: Answer)
    ensures
        r.refuses(message@),
{
    Answer { status: 400, content_type: ContentType::Unset, body: message }
}

/// An XML document.
pub fn xml(body: String) -> (r: Answer)
    ensures
        r.is_xml(body@),
{
    Answer { status: 200, content_type: ContentType::Xml, body }
}

/// A document that tells of an error; its message is escaped.
pub open spec fn xml_error_body(status_code: nat, message: Seq<char>) -> Seq<char> {
    "<root status_code=\""@ + text::decimal(status_code) + "\" status_message=\""@ + markup::escaped(
        message,
    ) + "\"></root>"@
}

/// Tells of an error in a document. The status is always 200, for a client
/// does not read the body otherwise; the error's own code is in the document.
pub fn xml_error(status_code: u16, message: &str) -> (r: Answer)
    ensures
        r.is_xml_error(status_code, message@),
{
    let code = text::decimal_string(status_code as u64);
    let message = markup::escape_xml(message);
    let mut body = text::joined("<root status_code=\"", code.as_str());
    body.append("\" status_message=\"");
    body.append(message.as_str());
    body.append("\"></root>");
    xml(body)
}

/// The client is not known.
pub fn unauthorized(message: &str) -> (r: Answer)
    ensures
        r.says(401, ContentType::Unset, message@),
{
    Answer { status: 401, content_type: ContentType::Unset, body: message.to_owned() }
}

/// There is nothing there.
pub fn not_found() -> (r: Answer)
    ensures
        r.says(404, ContentType::Unset, "NOT FOUND"@),
{
    Answer { status: 404, content_type: ContentType::Unset, body: "NOT FOUND".to_owned() }
}

/// What is fine is answered with 200 and XML, what is refused with 400 and a
/// plain message, and an error in a document with its own code and its message
/// between quotes.
pub proof fn answers_have_their_status(answer: Answer, body: Seq<char>, code: u16)
    ensures
        answer.is_xml(body) <==> answer.status == 200 && answer.content_type == ContentType::Xml
            && answer.body@ == body,
        answer.refuses(body) <==> answer.status == 400 && answer.content_type == ContentType::Unset
            && answer.body@ == body,
        answer.is_xml_error(code, body) <==> answer.status == 200 && answer.content_type
            == ContentType::Xml && answer.body@ == "<root status_code=\""@ + text::decimal(code as nat)
            + "\" status_message=\""@ + markup::escaped(body) + "\"></root>"@,
{
}

} // verus!
