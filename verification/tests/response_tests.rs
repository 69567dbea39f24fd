//! Tests of response classification: success and error statuses, the
//! result document of body-style responses, and the header-carried result
//! of download-style responses.

use dropbox_sdk::body_result;
use dropbox_sdk::check_status;
use dropbox_sdk::download_result;
use dropbox_sdk::Error;

#[test]
fn success_statuses_pass() {
    assert!(check_status(200, "OK".to_owned(), String::new()).is_ok());
    assert!(check_status(206, "Partial Content".to_owned(), String::new()).is_ok());
    assert!(check_status(299, "Whatever".to_owned(), String::new()).is_ok());
}

#[test]
fn error_status_surfaces_code_status_and_body_unchanged() {
    let r = check_status(409, "Conflict".to_owned(), "{\"error\": \"x\"}".to_owned());
    match r {
        Err(Error::UnexpectedHttpError { code, status, json }) => {
            assert_eq!(code, 409);
            assert_eq!(status, "Conflict");
            assert_eq!(json, "{\"error\": \"x\"}");
        }
        other => panic!("expected UnexpectedHttpError, got {:?}", other),
    }
}

#[test]
fn redirect_and_server_error_statuses_fail() {
    assert!(check_status(301, "Moved Permanently".to_owned(), String::new()).is_err());
    assert!(check_status(199, "Early".to_owned(), String::new()).is_err());
    assert!(check_status(500, "Internal Server Error".to_owned(), String::new()).is_err());
}

#[test]
fn body_result_carries_document_and_no_length() {
    let r = body_result("{\"ok\": true}".to_owned());
    assert_eq!(r.result_json, "{\"ok\": true}");
    assert_eq!(r.content_length, None);
}

#[test]
fn download_result_missing_header_is_protocol_error() {
    let r = download_result(None, None);
    match r {
        Err(Error::UnexpectedResponse(m)) => {
            assert_eq!(m, "missing Dropbox-API-Result header");
        }
        other => panic!("expected UnexpectedResponse, got {:?}", other),
    }
}

#[test]
fn download_result_without_content_length() {
    let r = download_result(Some("{\"name\": \"f\"}".to_owned()), None).unwrap();
    assert_eq!(r.result_json, "{\"name\": \"f\"}");
    assert_eq!(r.content_length, None);
}

#[test]
fn download_result_parses_content_length() {
    let r = download_result(Some("{}".to_owned()), Some("123456".to_owned())).unwrap();
    assert_eq!(r.content_length, Some(123456));
    let r = download_result(Some("{}".to_owned()), Some("0".to_owned())).unwrap();
    assert_eq!(r.content_length, Some(0));
    let r = download_result(
        Some("{}".to_owned()),
        Some("18446744073709551615".to_owned()),
    )
    .unwrap();
    assert_eq!(r.content_length, Some(u64::MAX));
}

#[test]
fn download_result_rejects_bad_content_length() {
    for bad in ["", "abc", "12x", "-1", " 1", "18446744073709551616"] {
        let r = download_result(Some("{}".to_owned()), Some(bad.to_owned()));
        match r {
            Err(Error::UnexpectedResponse(m)) => {
                assert_eq!(m, "invalid Content-Length header");
            }
            other => panic!("expected UnexpectedResponse for {:?}, got {:?}", bad, other),
        }
    }
}
