//! The basic vocabulary of the client: which API family a call targets, the
//! shape of the request/response pair, the serialization tag for arguments,
//! the team-authorization selector, and the error taxonomy.

use vstd::prelude::*;

verus! {

/// Which base URL family a call targets.
#[derive(Clone, Copy, PartialEq, Eq, Structural, Debug)]
pub enum Endpoint {
    /// The standard RPC API endpoint.
    Api,
    /// The content upload/download endpoint.
    Content,
    /// The notification endpoint.
    Notify,
}

impl Endpoint {
    /// The base URL that requests to this endpoint are sent to.
    pub fn url(self) -> (r: &'static str)
        ensures
            r@ == self.url_spec(),
    {
        match self {
            Endpoint::Api => "https://api.dropboxapi.com/2/",
            Endpoint::Content => "https://content.dropboxapi.com/2/",
            Endpoint::Notify => "https://notify.dropboxapi.com/2/",
        }
    }

    /// The base URL, as a sequence of characters.
    pub open spec fn url_spec(self) -> Seq<char> {
        match self {
            Endpoint::Api => "https://api.dropboxapi.com/2/"@,
            Endpoint::Content => "https://content.dropboxapi.com/2/"@,
            Endpoint::Notify => "https://notify.dropboxapi.com/2/"@,
        }
    }
}

/// The shape family of a request/response pair.
///
/// It decides where serialized arguments are placed (body or header) and
/// where the result document is found (body or header plus byte stream).
#[derive(Clone, Copy, PartialEq, Eq, Structural, Debug)]
pub enum Style {
    /// Arguments in the request body; result in the response body.
    Rpc,
    /// Arguments in a header, payload bytes in the request body; result in
    /// the response body.
    Upload,
    /// Arguments in a header, no request body; result in a response header,
    /// payload bytes in the response body.
    Download,
}

/// Content-type tag for serialized arguments, attached only to RPC bodies.
#[derive(Clone, Copy, PartialEq, Eq, Structural, Debug)]
pub enum ParamsType {
    /// Arguments are a JSON document.
    Json,
}

impl ParamsType {
    /// The content-type header value for this kind of serialized arguments.
    pub fn content_type(self) -> (r: &'static str)
        ensures
            r@ == self.content_type_spec(),
    {
        match self {
            ParamsType::Json => "application/json",
        }
    }

    /// The content-type header value, as a sequence of characters.
    pub open spec fn content_type_spec(self) -> Seq<char> {
        match self {
            ParamsType::Json => "application/json"@,
        }
    }
}

/// A team-authorization augmentation: act as a specific member or admin.
#[derive(Clone, Debug)]
pub enum TeamSelect {
    /// Act as the team member with this account id.
    User(String),
    /// Act as the team admin with this account id.
    Admin(String),
}

/// Errors surfaced by the client layer.
#[derive(Clone, Debug)]
pub enum Error {
    /// The HTTP exchange itself failed (connection, TLS or I/O problem); the
    /// request never produced a server response.
    HttpClient(String),
    /// The server answered with a non-success status; the raw body text is
    /// passed through uninterpreted.
    UnexpectedHttpError {
        /// The HTTP status code.
        code: u16,
        /// The HTTP status text.
        status: String,
        /// The raw response body, assumed to be a JSON error document.
        json: String,
    },
    /// The server response violated the protocol: a required header was
    /// missing or unparsable.
    UnexpectedResponse(String),
    /// The request description violated the protocol before anything was
    /// sent: raw body bytes were supplied for a style that forbids them.
    BodyNotAllowed,
    /// A path argument did not start with a slash.
    BadPath(String),
}

} // verus!
