//! What the service answers: a status and a body.

use vstd::prelude::*;
use vstd::string::*;

verus! {

/// Status of a request that was served.
pub const OK: u16 = 200;

/// Status of a request that the caller got wrong.
pub const BAD_REQUEST: u16 = 400;

/// Status of a request that failed on the service's side.
pub const INTERNAL_SERVER_ERROR: u16 = 500;

/// The body of a response. The variant decides the content type that the
/// transport declares.
#[derive(Debug, Clone, PartialEq, Eq)]
pub enum Body {
    /// No body.
    Empty,
    /// Plain text.
    Text(String),
    /// An HTML page.
    Html(String),
    /// Raw bytes.
    Bytes(Vec<u8>),
}

/// The model of a `Body`.
pub enum BodyView {
    Empty,
    Text(Seq<char>),
    Html(Seq<char>),
    Bytes(Seq<u8>),
}

impl View for Body {
    type V = BodyView;

    open spec fn view(&self) -> BodyView {
        match *self {
            Body::Empty => BodyView::Empty,
            Body::Text(text) => BodyView::Text(text@),
            Body::Html(page) => BodyView::Html(page@),
            Body::Bytes(bytes) => BodyView::Bytes(bytes@),
        }
    }
}

/// A complete response.
#[derive(Debug, Clone, PartialEq, Eq)]
pub struct Response {
    pub status: u16,
    pub body: Body,
}

/// The model of a `Response`.
pub struct ResponseView {
    pub status: u16,
    pub body: BodyView,
}

impl View for Response {
    type V = ResponseView;

    open spec fn view(&self) -> ResponseView {
        ResponseView { status: self.status, body: self.body@ }
    }
}

impl ResponseView {
    /// The answer to a bitrate that is not on the allow-list.
    pub open spec fn bitrate_refused() -> ResponseView {
        ResponseView { status: BAD_REQUEST, body: BodyView::Empty }
    }

    /// The answer to a body that holds a second file.
    pub open spec fn second_file_refused() -> ResponseView {
        ResponseView { status: BAD_REQUEST, body: BodyView::Text("Only single-file uploads"@) }
    }

    /// The answer that reports a failure in words.
    pub open spec fn failure(message: Seq<char>) -> ResponseView {
        ResponseView { status: INTERNAL_SERVER_ERROR, body: BodyView::Text(message) }
    }

    /// The answer that carries the transcoded file.
    pub open spec fn transcoded(content: Seq<u8>) -> ResponseView {
        ResponseView { status: OK, body: BodyView::Bytes(content) }
    }

    /// The answer that carries the upload form.
    pub open spec fn page(contents: Seq<char>) -> ResponseView {
        ResponseView { status: OK, body: BodyView::Html(contents) }
    }
}

impl Response {
    /// Refuses a bitrate that is not on the allow-list.
    pub fn bitrate_refused() -> (r: Response)
        ensures
            r@ == ResponseView::bitrate_refused(),
    {
        Response { status: BAD_REQUEST, body: Body::Empty }
    }

    /// Refuses a body that holds a second file.
    pub fn second_file_refused() -> (r: Response)
        ensures
            r@ == ResponseView::second_file_refused(),
    {
        Response { status: BAD_REQUEST, body: Body::Text("Only single-file uploads".to_owned()) }
    }

    /// Hands the transcoded file's content to the caller, byte for byte.
    pub fn transcoded(content: Vec<u8>) -> (r: Response)
        ensures
            r@ == ResponseView::transcoded(content@),
    {
        Response { status: OK, body: Body::Bytes(content) }
    }
}

/// A failure on the service's side.
#[derive(Debug, Clone, PartialEq, Eq)]
pub enum Error {
    /// The uploaded file could not be created or written.
    SaveFile,
    /// Any other failure, in words.
    Other(String),
}

impl Error {
    /// The words in which the failure is reported.
    pub open spec fn message(self) -> Seq<char> {
        match self {
            Error::SaveFile => "Could not save incoming file"@,
            Error::Other(words) => words@,
        }
    }

    /// Reports the failure to the caller: a server error whose body is the
    /// failure's message.
    pub fn into_response(self) -> (r: Response)
        ensures
            r@ == ResponseView::failure(self.message()),
    {
        let body: String = match self {
            Error::SaveFile => "Could not save incoming file".to_owned(),
            Error::Other(words) => words,
        };
        Response { status: INTERNAL_SERVER_ERROR, body: Body::Text(body) }
    }
}

/// Serves the upload form: the page's contents as they are, declared as HTML.
pub fn file_upload_page(contents: String) -> (r: Response)
    ensures
        r@ == ResponseView::page(contents@),
{
    Response { status: OK, body: Body::Html(contents) }
}

} // verus!
