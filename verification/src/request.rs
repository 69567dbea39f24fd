//! Assembly of one outbound HTTP request: URL, header list in a fixed
//! order, and placement of the serialized arguments and payload bytes
//! according to the transfer style.

use vstd::prelude::*;

use crate::decimal::dec_rep;
use crate::decimal::u64_to_dec;
use crate::types::Endpoint;
use crate::types::Error;
use crate::types::ParamsType;
use crate::types::Style;
use crate::types::TeamSelect;

verus! {

/// The body of an outbound request.
#[derive(Debug, Clone, PartialEq, Eq)]
pub enum RequestBody {
    /// No body is sent.
    Empty,
    /// The serialized arguments are sent as a text body (RPC style).
    Text(String),
    /// Raw payload bytes are sent as an octet-stream body (upload style).
    Bytes(Vec<u8>),
}

/// A fully assembled outbound request: what the network layer must send.
/// Every request uses the same verb (POST semantics), whatever its style.
#[derive(Debug, Clone, PartialEq, Eq)]
pub struct BuiltRequest {
    /// The full request URL: endpoint base plus function name.
    pub url: String,
    /// The headers to set, in order.
    pub headers: Vec<(String, String)>,
    /// The request body.
    pub body: RequestBody,
}

/// The header list as a sequence of (name, value) character sequences.
pub open spec fn headers_view(hs: Seq<(String, String)>) -> Seq<(Seq<char>, Seq<char>)> {
    hs.map_values(|p: (String, String)| (p.0@, p.1@))
}

/// The view of an optional string slice.
pub open spec fn opt_str_view(s: Option<&str>) -> Option<Seq<char>> {
    match s {
        Some(t) => Some(t@),
        None => None,
    }
}

/// The view of an optional byte slice.
pub open spec fn opt_bytes_view(b: Option<&[u8]>) -> Option<Seq<u8>> {
    match b {
        Some(x) => Some(x@),
        None => None,
    }
}

/// The value of an optional team-select reference.
pub open spec fn opt_team_view(t: Option<&TeamSelect>) -> Option<TeamSelect> {
    match t {
        Some(x) => Some(*x),
        None => None,
    }
}

/// The constant user-agent string sent with every request: the client's
/// name and its crate version.
pub open spec fn user_agent_spec() -> Seq<char> {
    "Dropbox-APIv2-Rust/0.1.0"@
}

/// The constant user-agent string sent with every request: the client's
/// name and its crate version.
pub fn user_agent() -> (r: &'static str)
    ensures
        r@ == user_agent_spec(),
{
    "Dropbox-APIv2-Rust/0.1.0"
}

/// The authorization header value for a bearer token.
pub open spec fn bearer_value(token: Seq<char>) -> Seq<char> {
    "Bearer "@ + token
}

/// The name and value of the team-select header.
pub open spec fn team_select_header(ts: TeamSelect) -> (Seq<char>, Seq<char>) {
    match ts {
        TeamSelect::User(id) => ("Dropbox-API-Select-User"@, id@),
        TeamSelect::Admin(id) => ("Dropbox-API-Select-Admin"@, id@),
    }
}

/// The JSON-tagged path-root selector carrying a namespace id.
pub open spec fn namespace_tag(ns: Seq<char>) -> Seq<char> {
    "{\".tag\": \"namespace_id\", \"namespace_id\": \""@ + ns + "\"}"@
}

/// The value of the range header, when one is sent at all: no header when
/// neither bound is given, `bytes=S-` for a start alone, `bytes=-E` for an
/// end alone, `bytes=S-E` for both.
pub open spec fn range_header_spec(range_start: Option<u64>, range_end: Option<u64>) -> Option<
    Seq<char>,
> {
    match (range_start, range_end) {
        (Some(s), Some(e)) => Some("bytes="@ + dec_rep(s as nat) + "-"@ + dec_rep(e as nat)),
        (Some(s), None) => Some("bytes="@ + dec_rep(s as nat) + "-"@),
        (None, Some(e)) => Some("bytes=-"@ + dec_rep(e as nat)),
        (None, None) => None,
    }
}

/// The user-agent header, always present and first.
pub open spec fn ua_part() -> Seq<(Seq<char>, Seq<char>)> {
    seq![("User-Agent"@, user_agent_spec())]
}

/// The authorization header, present exactly when a token is given.
pub open spec fn auth_part(token: Option<Seq<char>>) -> Seq<(Seq<char>, Seq<char>)> {
    match token {
        Some(t) => seq![("Authorization"@, bearer_value(t))],
        None => Seq::empty(),
    }
}

/// The team-select header, present exactly when a selector is given.
pub open spec fn team_part(team: Option<TeamSelect>) -> Seq<(Seq<char>, Seq<char>)> {
    match team {
        Some(ts) => seq![team_select_header(ts)],
        None => Seq::empty(),
    }
}

/// The path-root header, present exactly when a namespace id is given.
pub open spec fn ns_part(ns: Option<Seq<char>>) -> Seq<(Seq<char>, Seq<char>)> {
    match ns {
        Some(n) => seq![("Dropbox-API-Path-Root"@, namespace_tag(n))],
        None => Seq::empty(),
    }
}

/// The range header, present exactly when at least one bound is given.
pub open spec fn range_part(range_start: Option<u64>, range_end: Option<u64>) -> Seq<
    (Seq<char>, Seq<char>),
> {
    match range_header_spec(range_start, range_end) {
        Some(v) => seq![("Range"@, v)],
        None => Seq::empty(),
    }
}

/// The argument headers: nothing when the serialized arguments are empty;
/// a content-type header for RPC style; the argument header (and, for
/// uploads, an octet-stream content-type) otherwise.
pub open spec fn arg_part(style: Style, params: Seq<char>, params_type: ParamsType) -> Seq<
    (Seq<char>, Seq<char>),
> {
    if params.len() == 0 {
        Seq::empty()
    } else {
        match style {
            Style::Rpc => seq![("Content-Type"@, params_type.content_type_spec())],
            Style::Upload => seq![
                ("Dropbox-API-Arg"@, params),
                ("Content-Type"@, "application/octet-stream"@),
            ],
            Style::Download => seq![("Dropbox-API-Arg"@, params)],
        }
    }
}

/// The complete header list of one request, in the order it is assembled.
pub open spec fn request_headers(
    token: Option<Seq<char>>,
    team: Option<TeamSelect>,
    ns: Option<Seq<char>>,
    range_start: Option<u64>,
    range_end: Option<u64>,
    style: Style,
    params: Seq<char>,
    params_type: ParamsType,
) -> Seq<(Seq<char>, Seq<char>)> {
    ua_part() + auth_part(token) + team_part(team) + ns_part(ns) + range_part(
        range_start,
        range_end,
    ) + arg_part(style, params, params_type)
}

/// What the body of a request must be: nothing when the serialized
/// arguments are empty; the arguments themselves for RPC style; the payload
/// bytes (or an empty byte body) for upload style; nothing for download
/// style.
pub open spec fn body_matches(
    b: RequestBody,
    style: Style,
    params: Seq<char>,
    payload: Option<Seq<u8>>,
) -> bool {
    if params.len() == 0 {
        b is Empty
    } else {
        match style {
            Style::Rpc => b matches RequestBody::Text(t) && t@ == params,
            Style::Upload => b matches RequestBody::Bytes(v) && v@ == (match payload {
                Some(p) => p,
                None => Seq::<u8>::empty(),
            }),
            Style::Download => b is Empty,
        }
    }
}

/// Everything `build_request` promises of a successfully built request.
pub open spec fn build_ok(
    req: BuiltRequest,
    endpoint: Endpoint,
    style: Style,
    function: Seq<char>,
    params: Seq<char>,
    params_type: ParamsType,
    payload: Option<Seq<u8>>,
    range_start: Option<u64>,
    range_end: Option<u64>,
    token: Option<Seq<char>>,
    team: Option<TeamSelect>,
    ns: Option<Seq<char>>,
) -> bool {
    &&& req.url@ == endpoint.url_spec() + function
    &&& headers_view(req.headers@) == request_headers(
        token,
        team,
        ns,
        range_start,
        range_end,
        style,
        params,
        params_type,
    )
    &&& body_matches(req.body, style, params, payload)
}

/// Whether a header of the given name occurs in a header list.
pub open spec fn has_header(hs: Seq<(Seq<char>, Seq<char>)>, name: Seq<char>) -> bool {
    exists|i: int| 0 <= i < hs.len() && (#[trigger] hs[i]).0 == name
}

/// When the serialized arguments are empty, the request carries no
/// argument header and no content-type header, whatever the style and
/// authorization context, and no body is sent.
pub proof fn lemma_empty_params_no_argument_header(
    token: Option<Seq<char>>,
    team: Option<TeamSelect>,
    ns: Option<Seq<char>>,
    range_start: Option<u64>,
    range_end: Option<u64>,
    style: Style,
    params_type: ParamsType,
    b: RequestBody,
    payload: Option<Seq<u8>>,
)
    requires
        body_matches(b, style, Seq::<char>::empty(), payload),
    ensures
        b is Empty,
        !has_header(
            request_headers(
                token,
                team,
                ns,
                range_start,
                range_end,
                style,
                Seq::<char>::empty(),
                params_type,
            ),
            "Dropbox-API-Arg"@,
        ),
        !has_header(
            request_headers(
                token,
                team,
                ns,
                range_start,
                range_end,
                style,
                Seq::<char>::empty(),
                params_type,
            ),
            "Content-Type"@,
        ),
{
    reveal_strlit("User-Agent");
    reveal_strlit("Authorization");
    reveal_strlit("Dropbox-API-Select-User");
    reveal_strlit("Dropbox-API-Select-Admin");
    reveal_strlit("Dropbox-API-Path-Root");
    reveal_strlit("Range");
    reveal_strlit("Dropbox-API-Arg");
    reveal_strlit("Content-Type");
    let hs = request_headers(
        token,
        team,
        ns,
        range_start,
        range_end,
        style,
        Seq::<char>::empty(),
        params_type,
    );
    assert(arg_part(style, Seq::<char>::empty(), params_type) =~= Seq::<
        (Seq<char>, Seq<char>),
    >::empty());
    assert forall|i: int| 0 <= i < hs.len() implies ((#[trigger] hs[i]).0 == "User-Agent"@
        || hs[i].0 == "Authorization"@ || hs[i].0 == "Dropbox-API-Select-User"@
        || hs[i].0 == "Dropbox-API-Select-Admin"@ || hs[i].0 == "Dropbox-API-Path-Root"@
        || hs[i].0 == "Range"@) by {
        assert(ua_part().len() == 1);
    }
    assert("User-Agent"@.len() == 10);
    assert("Authorization"@.len() == 13);
    assert("Dropbox-API-Select-User"@.len() == 23);
    assert("Dropbox-API-Select-Admin"@.len() == 24);
    assert("Dropbox-API-Path-Root"@.len() == 21);
    assert("Range"@.len() == 5);
    assert("Dropbox-API-Arg"@.len() == 15);
    assert("Content-Type"@.len() == 12);
}

/// Format the range header value, when one is called for.
pub fn range_header_value(range_start: Option<u64>, range_end: Option<u64>) -> (r: Option<String>)
    ensures
        r is Some <==> range_header_spec(range_start, range_end) is Some,
        r matches Some(v) ==> range_header_spec(range_start, range_end) matches Some(sv) && v@
            == sv,
{
    match (range_start, range_end) {
        (Some(s), Some(e)) => {
            let mut v = "bytes=".to_owned();
            v.append(u64_to_dec(s).as_str());
            v.append("-");
            v.append(u64_to_dec(e).as_str());
            Some(v)
        },
        (Some(s), None) => {
            let mut v = "bytes=".to_owned();
            v.append(u64_to_dec(s).as_str());
            v.append("-");
            Some(v)
        },
        (None, Some(e)) => {
            let mut v = "bytes=-".to_owned();
            v.append(u64_to_dec(e).as_str());
            Some(v)
        },
        (None, None) => None,
    }
}

/// Build one outbound request from its parameters and authorization
/// context. Fails exactly when raw payload bytes are supplied together
/// with the download style, which the protocol forbids.
pub fn build_request(
    endpoint: Endpoint,
    style: Style,
    function: &str,
    params: String,
    params_type: ParamsType,
    body: Option<&[u8]>,
    range_start: Option<u64>,
    range_end: Option<u64>,
    token: Option<&str>,
    team_select: Option<&TeamSelect>,
    namespace_id: Option<&str>,
) -> (r: Result<BuiltRequest, Error>)
    ensures
        r is Err <==> (style is Download && body is Some),
        r matches Err(e) ==> e is BodyNotAllowed,
        r matches Ok(req) ==> build_ok(
            req,
            endpoint,
            style,
            function@,
            params@,
            params_type,
            opt_bytes_view(body),
            range_start,
            range_end,
            opt_str_view(token),
            opt_team_view(team_select),
            opt_str_view(namespace_id),
        ),
{
    let ghost pview = params@;
    if body.is_some() && style == Style::Download {
        return Err(Error::BodyNotAllowed);
    }
    let mut url = endpoint.url().to_owned();
    url.append(function);

    let mut headers: Vec<(String, String)> = Vec::new();
    headers.push(("User-Agent".to_owned(), user_agent().to_owned()));
    assert(headers_view(headers@) =~~= ua_part());

    match token {
        Some(t) => {
            let mut v = "Bearer ".to_owned();
            v.append(t);
            headers.push(("Authorization".to_owned(), v));
        },
        None => {},
    }
    assert(headers_view(headers@) =~~= ua_part() + auth_part(opt_str_view(token)));

    match team_select {
        Some(ts) => {
            match ts {
                TeamSelect::User(id) => {
                    headers.push(("Dropbox-API-Select-User".to_owned(), id.clone()));
                },
                TeamSelect::Admin(id) => {
                    headers.push(("Dropbox-API-Select-Admin".to_owned(), id.clone()));
                },
            }
        },
        None => {},
    }
    assert(headers_view(headers@) =~~= ua_part() + auth_part(opt_str_view(token)) + team_part(
        opt_team_view(team_select),
    ));

    match namespace_id {
        Some(ns) => {
            let mut v = "{\".tag\": \"namespace_id\", \"namespace_id\": \"".to_owned();
            v.append(ns);
            v.append("\"}");
            headers.push(("Dropbox-API-Path-Root".to_owned(), v));
        },
        None => {},
    }
    assert(headers_view(headers@) =~~= ua_part() + auth_part(opt_str_view(token)) + team_part(
        opt_team_view(team_select),
    ) + ns_part(opt_str_view(namespace_id)));

    match range_header_value(range_start, range_end) {
        Some(v) => {
            headers.push(("Range".to_owned(), v));
        },
        None => {},
    }
    assert(headers_view(headers@) =~~= ua_part() + auth_part(opt_str_view(token)) + team_part(
        opt_team_view(team_select),
    ) + ns_part(opt_str_view(namespace_id)) + range_part(range_start, range_end));

    let reqbody: RequestBody = if params.as_str().is_empty() {
        RequestBody::Empty
    } else {
        match style {
            Style::Rpc => {
                headers.push(("Content-Type".to_owned(), params_type.content_type().to_owned()));
                RequestBody::Text(params)
            },
            Style::Upload => {
                headers.push(("Dropbox-API-Arg".to_owned(), params));
                headers.push(("Content-Type".to_owned(), "application/octet-stream".to_owned()));
                match body {
                    Some(b) => RequestBody::Bytes(vstd::slice::slice_to_vec(b)),
                    None => RequestBody::Bytes(Vec::new()),
                }
            },
            Style::Download => {
                headers.push(("Dropbox-API-Arg".to_owned(), params));
                RequestBody::Empty
            },
        }
    };
    assert(headers_view(headers@) =~~= request_headers(
        opt_str_view(token),
        opt_team_view(team_select),
        opt_str_view(namespace_id),
        range_start,
        range_end,
        style,
        pview,
        params_type,
    ));

    Ok(BuiltRequest { url, headers, body: reqbody })
}

} // verus!
