use freedom_api::{FreedomApiContainer, Inner};
use freedom_models::pagination::Page;
use freedom_models::task::TaskType;

#[test]
fn page_metadata_round_trips_through_json() {
    let text = r#"{"size":20,"totalElements":41,"totalPages":3,"number":1}"#;
    let page: Page = serde_json::from_str(text).unwrap();
    let encoded = serde_json::to_string(&page).unwrap();
    let decoded: Page = serde_json::from_str(&encoded).unwrap();
    assert_eq!(decoded, page);
    assert_eq!(decoded.total_pages, 3);
}

#[test]
fn task_type_round_trips_through_json() {
    for t in [TaskType::Before, TaskType::After, TaskType::Test, TaskType::Around, TaskType::Exact] {
        let encoded = serde_json::to_string(&t).unwrap();
        let decoded: TaskType = serde_json::from_str(&encoded).unwrap();
        assert_eq!(decoded, t);
    }
    assert_eq!(serde_json::to_string(&TaskType::Around).unwrap(), "\"AROUND\"");
}

#[test]
fn decoded_payload_survives_wrapping() {
    let page: Page = serde_json::from_str(r#"{"size":1,"totalElements":1,"totalPages":1,"number":0}"#).unwrap();
    let wrapped = Inner::new(page.clone());
    assert_eq!(wrapped.into_inner(), page);
}
