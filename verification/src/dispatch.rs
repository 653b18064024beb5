use vstd::prelude::*;
use vstd::string::*;
use crate::error::{Error, Failure};
use crate::types::{Payload, RecordData};

verus! {

/// One header of a response: its name and its value.
#[derive(Debug, PartialEq, Eq)]
pub struct Header {
    pub name: String,
    pub value: String,
}

impl View for Header {
    type V = (Seq<char>, Seq<char>);

    open spec fn view(&self) -> (Seq<char>, Seq<char>) {
        (self.name@, self.value@)
    }
}

impl Clone for Header {
    fn clone(&self) -> (r: Self)
        ensures
            r@ == self@,
    {
        Header { name: self.name.clone(), value: self.value.clone() }
    }
}

/// What is sent for a record. The path of a file is not part of it: the
/// bytes are streamed by whoever opened the file, under this header.
#[derive(Debug, PartialEq, Eq)]
pub enum RecordResponse {
    /// A download; the header carries the suggested file name.
    File(Header),
    /// A redirect to the target.
    Url(String),
    /// The text itself.
    Paste(String),
}

/// The mathematical value of a [`RecordResponse`].
pub enum Response {
    File { header: (Seq<char>, Seq<char>) },
    Url { target: Seq<char> },
    Paste { body: Seq<char> },
}

impl View for RecordResponse {
    type V = Response;

    open spec fn view(&self) -> Response {
        match self {
            RecordResponse::File(header) => Response::File { header: header@ },
            RecordResponse::Url(target) => Response::Url { target: target@ },
            RecordResponse::Paste(body) => Response::Paste { body: body@ },
        }
    }
}

impl Clone for RecordResponse {
    fn clone(&self) -> (r: Self)
        ensures
            r@ == self@,
    {
        match self {
            RecordResponse::File(header) => RecordResponse::File(header.clone()),
            RecordResponse::Url(target) => RecordResponse::Url(target.clone()),
            RecordResponse::Paste(body) => RecordResponse::Paste(body.clone()),
        }
    }
}

/// A control character: one below the space, or the delete character.
pub open spec fn is_control(c: char) -> bool {
    (c as u32) < 0x20 || (c as u32) == 0x7f
}

/// No character of `text` is a control character, nor, unless `blanks`
/// are admitted, a space.
pub open spec fn is_plain(text: Seq<char>, blanks: bool) -> bool {
    forall|i: int|
        0 <= i < text.len() ==> !is_control(#[trigger] text[i]) && (blanks || text[i] != ' ')
}

/// A download name that can stand in a header value: it holds no control
/// character, so it can neither end the header nor start another.
pub open spec fn name_is_safe(name: Seq<char>) -> bool {
    is_plain(name, true)
}

/// Whether `target` is a URI reference, absolute or relative, as the
/// parser of the HTTP library reads it.
pub uninterp spec fn is_uri_reference(target: Seq<char>) -> bool;

/// A redirect target that can be sent: not empty, free of blanks and
/// control characters, and, as `parses` tells, a URI reference.
pub open spec fn target_is_valid(target: Seq<char>, parses: bool) -> bool {
    target.len() > 0 && is_plain(target, false) && parses
}

pub open spec fn disposition_name() -> Seq<char> {
    "Content-Disposition"@
}

pub open spec fn disposition_prefix() -> Seq<char> {
    "attachment; filename="@
}

/// The header under which a file named `name` is offered for download.
pub open spec fn disposition_of(name: Seq<char>) -> (Seq<char>, Seq<char>) {
    (disposition_name(), disposition_prefix() + name)
}

/// The response for a payload, or the reason why none can be sent, where
/// `parses` tells whether the target of a URL is a URI reference. For a
/// file and for a paste `parses` plays no part.
pub open spec fn render_spec(data: Payload, parses: bool) -> Result<Response, Failure> {
    match data {
        Payload::File { path, name } => if name_is_safe(name) {
            Ok(Response::File { header: disposition_of(name) })
        } else {
            Err(Failure::MalformedName)
        },
        Payload::Url { target } => if target_is_valid(target, parses) {
            Ok(Response::Url { target })
        } else {
            Err(Failure::MalformedTarget)
        },
        Payload::Paste { body } => Ok(Response::Paste { body }),
    }
}

/// The response for a payload, or the reason why none can be sent.
pub open spec fn rendered(data: Payload) -> Result<Response, Failure> {
    render_spec(data, data matches Payload::Url { target } && is_uri_reference(target))
}

/// Asks `rocket::http::uri::Reference::parse` whether it reads `target` as
/// a URI reference. Trusted, not proved: the answer is the parser's, and it
/// depends on the characters of `target` alone.
#[verifier::external_body]
fn parses_as_reference(target: &str) -> (r: bool)
    ensures
        r == is_uri_reference(target@),
{
    rocket::http::uri::Reference::parse(target).is_ok()
}

fn is_control_char(c: char) -> (r: bool)
    ensures
        r == is_control(c),
{
    let code: u32 = c as u32;
    code < 0x20 || code == 0x7f
}

/// Decides [`is_plain`] by one pass over the characters.
pub fn check_plain(text: &str, blanks: bool) -> (r: bool)
    ensures
        r == is_plain(text@, blanks),
{
    let n: usize = text.unicode_len();
    let mut i: usize = 0;
    while i < n
        invariant
            i <= n,
            n == text@.len(),
            forall|j: int|
                0 <= j < i ==> !is_control(#[trigger] text@[j]) && (blanks || text@[j] != ' '),
        decreases n - i,
    {
        let c: char = text.get_char(i);
        if is_control_char(c) || (!blanks && c == ' ') {
            return false;
        }
        i += 1;
    }
    true
}

/// Builds the download header for a file named `name`.
pub fn content_disposition(name: &str) -> (r: Header)
    ensures
        r@ == disposition_of(name@),
{
    Header {
        name: String::from_str("Content-Disposition"),
        value: String::from_str("attachment; filename=").concat(name),
    }
}

/// Turns a record's payload into the response to send, given in `parses`
/// whether the target of a URL is a URI reference. A file becomes a
/// download under its name, a URL a redirect, a paste its text unchanged.
/// A name or a target that cannot be sent safely is refused here.
pub fn render_with(data: &RecordData, parses: bool) -> (r: Result<RecordResponse, Error>)
    ensures
        match r {
            Ok(response) => render_spec(data@, parses) == Ok::<Response, Failure>(response@),
            Err(e) => render_spec(data@, parses) == Err::<Response, Failure>(e@),
        },
{
    match data {
        RecordData::File { path: _, name } => {
            if check_plain(name.as_str(), true) {
                Ok(RecordResponse::File(content_disposition(name.as_str())))
            } else {
                Err(Error::MalformedName)
            }
        },
        RecordData::Url { target } => {
            if parses && target.as_str().unicode_len() > 0 && check_plain(target.as_str(), false) {
                Ok(RecordResponse::Url(target.clone()))
            } else {
                Err(Error::MalformedTarget)
            }
        },
        RecordData::Paste { body } => Ok(RecordResponse::Paste(body.clone())),
    }
}

/// Turns a record's payload into the response to send. The target of a
/// URL is put before the URI parser first; the rest is [`render_with`].
pub fn render(data: &RecordData) -> (r: Result<RecordResponse, Error>)
    ensures
        match r {
            Ok(response) => rendered(data@) == Ok::<Response, Failure>(response@),
            Err(e) => rendered(data@) == Err::<Response, Failure>(e@),
        },
{
    let parses = match data {
        RecordData::Url { target } => parses_as_reference(target.as_str()),
        _ => false,
    };
    render_with(data, parses)
}

} // verus!
