use freedom_api::error::error_on_non_success;
use freedom_api::Error;

#[test]
fn success_statuses_pass() {
    assert_eq!(error_on_non_success(200, b""), Ok(()));
    assert_eq!(error_on_non_success(204, b"ignored"), Ok(()));
    assert_eq!(error_on_non_success(299, b""), Ok(()));
}

#[test]
fn other_statuses_keep_status_and_body() {
    assert_eq!(
        error_on_non_success(404, b"NOPE"),
        Err(Error::ResponseStatus { status: 404, error: "NOPE".to_string() })
    );
    assert_eq!(
        error_on_non_success(199, b"early"),
        Err(Error::ResponseStatus { status: 199, error: "early".to_string() })
    );
    assert_eq!(
        error_on_non_success(300, b"moved"),
        Err(Error::ResponseStatus { status: 300, error: "moved".to_string() })
    );
}

#[test]
fn invalid_utf8_body_is_replaced() {
    assert_eq!(
        error_on_non_success(500, &[0x66, 0xff, 0x6f]),
        Err(Error::ResponseStatus { status: 500, error: "f\u{fffd}o".to_string() })
    );
}

#[test]
fn pag_item_builds_pagination_error() {
    assert_eq!(
        Error::pag_item("bad link".to_string()),
        Error::PaginationItemDeserialization("bad link".to_string())
    );
    assert_ne!(Error::InvalidId, Error::MissingUri("self".to_string()));
}
