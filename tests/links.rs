use freedom_api::extensions::{get_id, id_from_segment, link_or_missing};
use freedom_api::Error;

#[test]
fn id_is_last_path_segment() {
    assert_eq!(get_id("self", Some("http://localhost:8080/api/sites/14".to_string())), Ok(14));
    assert_eq!(get_id("self", Some("http://localhost:8080/api/satellites/-3".to_string())), Ok(-3));
}

#[test]
fn missing_link_names_relation() {
    assert_eq!(get_id("self", None), Err(Error::MissingUri("self".to_string())));
    assert_eq!(link_or_missing("users", None), Err(Error::MissingUri("users".to_string())));
    assert_eq!(link_or_missing("users", Some("u".to_string())), Ok("u".to_string()));
}

#[test]
fn non_numeric_segment_is_invalid_id() {
    assert_eq!(
        get_id("self", Some("http://localhost:8080/api/sites/LOAG".to_string())),
        Err(Error::InvalidId)
    );
    assert_eq!(
        get_id("self", Some("http://localhost:8080/api/sites/99999999999".to_string())),
        Err(Error::InvalidId)
    );
}

#[test]
fn link_without_path_is_invalid_uri() {
    assert_eq!(
        get_id("self", Some("mailto:someone@example.com".to_string())),
        Err(Error::InvalidUri("Missing Path".to_string()))
    );
    assert!(matches!(get_id("self", Some("not a url".to_string())), Err(Error::InvalidUri(_))));
}

#[test]
fn id_from_segment_reads_the_segment() {
    assert_eq!(id_from_segment(Ok(Some("810".to_string()))), Ok(810));
    assert_eq!(id_from_segment(Ok(Some("+5".to_string()))), Ok(5));
    assert_eq!(id_from_segment(Ok(Some("".to_string()))), Err(Error::InvalidId));
    assert_eq!(id_from_segment(Ok(None)), Err(Error::InvalidUri("Missing Path".to_string())));
    assert_eq!(id_from_segment(Err("bad".to_string())), Err(Error::InvalidUri("bad".to_string())));
}
