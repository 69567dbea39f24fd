//! Tests of request assembly: header order and presence, argument and
//! body placement per style, range header formatting, and the
//! authorization headers of the three client flavors.

use dropbox_sdk::build_request;
use dropbox_sdk::range_header_value;
use dropbox_sdk::user_agent;
use dropbox_sdk::BuiltRequest;
use dropbox_sdk::Endpoint;
use dropbox_sdk::Error;
use dropbox_sdk::NoauthDefaultClient;
use dropbox_sdk::ParamsType;
use dropbox_sdk::RequestBody;
use dropbox_sdk::Style;
use dropbox_sdk::TeamAuthDefaultClient;
use dropbox_sdk::TeamSelect;
use dropbox_sdk::UserAuthDefaultClient;

fn header<'a>(req: &'a BuiltRequest, name: &str) -> Option<&'a str> {
    req.headers
        .iter()
        .find(|(n, _)| n == name)
        .map(|(_, v)| v.as_str())
}

#[test]
fn range_header_absent_without_bounds() {
    assert_eq!(range_header_value(None, None), None);
}

#[test]
fn range_header_start_only() {
    assert_eq!(range_header_value(Some(5), None).as_deref(), Some("bytes=5-"));
}

#[test]
fn range_header_end_only() {
    assert_eq!(range_header_value(None, Some(9)).as_deref(), Some("bytes=-9"));
}

#[test]
fn range_header_both_bounds() {
    assert_eq!(
        range_header_value(Some(5), Some(9)).as_deref(),
        Some("bytes=5-9")
    );
}

#[test]
fn range_header_large_values() {
    assert_eq!(
        range_header_value(Some(u64::MAX), None).as_deref(),
        Some("bytes=18446744073709551615-")
    );
    assert_eq!(range_header_value(Some(0), None).as_deref(), Some("bytes=0-"));
}

#[test]
fn empty_params_send_no_argument_header_and_no_body() {
    for style in [Style::Rpc, Style::Upload, Style::Download] {
        let req = build_request(
            Endpoint::Api,
            style,
            "users/get_current_account",
            String::new(),
            ParamsType::Json,
            None,
            None,
            None,
            Some("tok"),
            None,
            None,
        )
        .unwrap();
        assert_eq!(header(&req, "Dropbox-API-Arg"), None);
        assert_eq!(header(&req, "Content-Type"), None);
        assert_eq!(req.body, RequestBody::Empty);
    }
}

#[test]
fn empty_params_upload_drops_nothing_but_sends_no_body() {
    let req = build_request(
        Endpoint::Content,
        Style::Upload,
        "files/upload",
        String::new(),
        ParamsType::Json,
        Some(b"payload"),
        None,
        None,
        Some("tok"),
        None,
        None,
    )
    .unwrap();
    assert_eq!(req.body, RequestBody::Empty);
}

#[test]
fn download_with_body_fails_fast() {
    let r = build_request(
        Endpoint::Content,
        Style::Download,
        "files/download",
        "{\"path\": \"/a\"}".to_owned(),
        ParamsType::Json,
        Some(b"stray"),
        None,
        None,
        Some("tok"),
        None,
        None,
    );
    assert!(matches!(r, Err(Error::BodyNotAllowed)));
}

#[test]
fn rpc_request_shape() {
    let req = build_request(
        Endpoint::Api,
        Style::Rpc,
        "files/list_folder",
        "{\"path\": \"\"}".to_owned(),
        ParamsType::Json,
        None,
        None,
        None,
        Some("tok"),
        None,
        None,
    )
    .unwrap();
    assert_eq!(req.url, "https://api.dropboxapi.com/2/files/list_folder");
    assert_eq!(req.headers[0].0, "User-Agent");
    assert_eq!(req.headers[0].1, user_agent());
    assert_eq!(header(&req, "Authorization"), Some("Bearer tok"));
    assert_eq!(header(&req, "Content-Type"), Some("application/json"));
    assert_eq!(header(&req, "Dropbox-API-Arg"), None);
    assert_eq!(req.body, RequestBody::Text("{\"path\": \"\"}".to_owned()));
}

#[test]
fn upload_request_shape() {
    let req = build_request(
        Endpoint::Content,
        Style::Upload,
        "files/upload",
        "{\"path\": \"/f\"}".to_owned(),
        ParamsType::Json,
        Some(b"abc"),
        None,
        None,
        Some("tok"),
        None,
        None,
    )
    .unwrap();
    assert_eq!(req.url, "https://content.dropboxapi.com/2/files/upload");
    assert_eq!(header(&req, "Dropbox-API-Arg"), Some("{\"path\": \"/f\"}"));
    assert_eq!(header(&req, "Content-Type"), Some("application/octet-stream"));
    assert_eq!(req.body, RequestBody::Bytes(b"abc".to_vec()));
}

#[test]
fn upload_without_payload_sends_empty_byte_body() {
    let req = build_request(
        Endpoint::Content,
        Style::Upload,
        "files/upload",
        "{\"path\": \"/f\"}".to_owned(),
        ParamsType::Json,
        None,
        None,
        None,
        Some("tok"),
        None,
        None,
    )
    .unwrap();
    assert_eq!(req.body, RequestBody::Bytes(Vec::new()));
}

#[test]
fn download_request_shape() {
    let req = build_request(
        Endpoint::Content,
        Style::Download,
        "files/download",
        "{\"path\": \"/f\"}".to_owned(),
        ParamsType::Json,
        None,
        Some(100),
        None,
        Some("tok"),
        None,
        None,
    )
    .unwrap();
    assert_eq!(header(&req, "Dropbox-API-Arg"), Some("{\"path\": \"/f\"}"));
    assert_eq!(header(&req, "Range"), Some("bytes=100-"));
    assert_eq!(header(&req, "Content-Type"), None);
    assert_eq!(req.body, RequestBody::Empty);
}

#[test]
fn user_client_attaches_bearer_and_namespace() {
    let mut client = UserAuthDefaultClient::new("sekrit".to_owned());
    client.namespace_id(Some("ns123".to_owned()));
    let req = client
        .build_request(
            Endpoint::Api,
            Style::Rpc,
            "files/list_folder",
            "{}".to_owned(),
            ParamsType::Json,
            None,
            None,
            None,
        )
        .unwrap();
    assert_eq!(header(&req, "Authorization"), Some("Bearer sekrit"));
    assert_eq!(
        header(&req, "Dropbox-API-Path-Root"),
        Some("{\".tag\": \"namespace_id\", \"namespace_id\": \"ns123\"}")
    );
    assert_eq!(header(&req, "Dropbox-API-Select-User"), None);
    assert_eq!(header(&req, "Dropbox-API-Select-Admin"), None);
}

#[test]
fn user_client_namespace_can_be_cleared() {
    let mut client = UserAuthDefaultClient::new("tok".to_owned());
    client.namespace_id(Some("ns123".to_owned()));
    client.namespace_id(None);
    let req = client
        .build_request(
            Endpoint::Api,
            Style::Rpc,
            "files/list_folder",
            "{}".to_owned(),
            ParamsType::Json,
            None,
            None,
            None,
        )
        .unwrap();
    assert_eq!(header(&req, "Dropbox-API-Path-Root"), None);
}

#[test]
fn team_client_selects_user_context() {
    let mut client = TeamAuthDefaultClient::new("tok".to_owned());
    client.select(Some(TeamSelect::User("dbmid:user1".to_owned())));
    let req = client
        .build_request(
            Endpoint::Api,
            Style::Rpc,
            "team/get_info",
            "{}".to_owned(),
            ParamsType::Json,
            None,
            None,
            None,
        )
        .unwrap();
    assert_eq!(header(&req, "Dropbox-API-Select-User"), Some("dbmid:user1"));
    assert_eq!(header(&req, "Dropbox-API-Select-Admin"), None);
}

#[test]
fn team_client_selects_admin_context() {
    let mut client = TeamAuthDefaultClient::new("tok".to_owned());
    client.select(Some(TeamSelect::Admin("dbmid:admin1".to_owned())));
    let req = client
        .build_request(
            Endpoint::Api,
            Style::Rpc,
            "team/get_info",
            "{}".to_owned(),
            ParamsType::Json,
            None,
            None,
            None,
        )
        .unwrap();
    assert_eq!(header(&req, "Dropbox-API-Select-Admin"), Some("dbmid:admin1"));
    assert_eq!(header(&req, "Dropbox-API-Select-User"), None);
}

#[test]
fn noauth_client_sends_no_authorization() {
    let client = NoauthDefaultClient::default();
    let req = client
        .build_request(
            Endpoint::Api,
            Style::Rpc,
            "check/user",
            "{}".to_owned(),
            ParamsType::Json,
            None,
            None,
            None,
        )
        .unwrap();
    assert_eq!(header(&req, "Authorization"), None);
    assert_eq!(req.headers[0].0, "User-Agent");
}

#[test]
fn header_assembly_order_is_fixed() {
    let mut client = TeamAuthDefaultClient::new("tok".to_owned());
    client.select(Some(TeamSelect::Admin("a1".to_owned())));
    let req = client
        .build_request(
            Endpoint::Content,
            Style::Download,
            "files/download",
            "{\"path\": \"/f\"}".to_owned(),
            ParamsType::Json,
            None,
            Some(5),
            Some(9),
        )
        .unwrap();
    let expected: Vec<(String, String)> = vec![
        ("User-Agent".to_owned(), user_agent().to_owned()),
        ("Authorization".to_owned(), "Bearer tok".to_owned()),
        ("Dropbox-API-Select-Admin".to_owned(), "a1".to_owned()),
        ("Range".to_owned(), "bytes=5-9".to_owned()),
        ("Dropbox-API-Arg".to_owned(), "{\"path\": \"/f\"}".to_owned()),
    ];
    assert_eq!(req.headers, expected);
}

#[test]
fn notify_endpoint_url() {
    let req = build_request(
        Endpoint::Notify,
        Style::Rpc,
        "files/list_folder/longpoll",
        "{}".to_owned(),
        ParamsType::Json,
        None,
        None,
        None,
        None,
        None,
        None,
    )
    .unwrap();
    assert_eq!(
        req.url,
        "https://notify.dropboxapi.com/2/files/list_folder/longpoll"
    );
}
