use freedom_api::pagination::resolve_link;
use freedom_api::{Error, Page, Paginator, Step};

const BASE: &str = "https://test-api.atlasground.com/api/";

fn page(items: Vec<Result<u32, Error>>, next: Option<&str>) -> Page<u32> {
    Page { items, next: next.map(|s| s.to_string()) }
}

/// Drives a paginator, answering each fetch with the next page, and records what happens.
fn drive(mut p: Paginator<u32>, mut pages: Vec<Page<u32>>) -> (Vec<String>, Vec<Result<u32, Error>>) {
    let mut fetched = Vec::new();
    let mut items = Vec::new();
    loop {
        match p.next_step() {
            Step::Fetch(url) => {
                fetched.push(url);
                if pages.is_empty() {
                    panic!("more fetches than pages");
                }
                p.on_page(pages.remove(0));
            }
            Step::Yield(item) => items.push(item),
            Step::End => break,
        }
    }
    (fetched, items)
}

#[test]
fn three_page_chain_yields_every_item_in_order() {
    let head = format!("{}sites", BASE);
    let pages = vec![
        page(vec![Ok(1), Ok(2)], Some("https://test-api.atlasground.com/api/sites?page=1")),
        page(vec![Ok(3)], Some("https://test-api.atlasground.com/api/sites?page=2")),
        page(vec![Ok(4), Ok(5), Ok(6)], None),
    ];
    let (fetched, items) = drive(Paginator::new(BASE.to_string(), head.clone()), pages);
    assert_eq!(
        fetched,
        vec![
            head,
            "https://test-api.atlasground.com/api/sites?page=1".to_string(),
            "https://test-api.atlasground.com/api/sites?page=2".to_string(),
        ]
    );
    assert_eq!(items, vec![Ok(1), Ok(2), Ok(3), Ok(4), Ok(5), Ok(6)]);
}

#[test]
fn malformed_item_in_second_page_is_one_error() {
    let bad = Error::Deserialization("missing field `name`".to_string());
    let pages = vec![
        page(vec![Ok(1), Ok(2)], Some("https://host.example/api/x?page=1")),
        page(vec![Ok(3), Err(bad.clone()), Ok(4)], Some("https://host.example/api/x?page=2")),
        page(vec![Ok(5)], None),
    ];
    let (fetched, items) = drive(Paginator::new(BASE.to_string(), "https://host.example/api/x".to_string()), pages);
    assert_eq!(fetched.len(), 3);
    assert_eq!(items, vec![Ok(1), Ok(2), Ok(3), Err(bad), Ok(4), Ok(5)]);
    assert_eq!(items.iter().filter(|i| i.is_err()).count(), 1);
}

#[test]
fn relative_link_is_resolved_against_entrypoint() {
    let pages = vec![page(vec![Ok(7)], Some("sites?page=1")), page(vec![Ok(8)], None)];
    let (fetched, items) = drive(Paginator::new(BASE.to_string(), format!("{}sites", BASE)), pages);
    assert_eq!(fetched[1], "https://test-api.atlasground.com/api/sites?page=1");
    assert_eq!(items, vec![Ok(7), Ok(8)]);
}

#[test]
fn resolve_link_keeps_absolute_and_joins_relative() {
    assert_eq!(
        resolve_link(BASE, "http://localhost:8080/api/sites?page=3"),
        Ok("http://localhost:8080/api/sites?page=3".to_string())
    );
    assert_eq!(
        resolve_link(BASE, "/other/path"),
        Ok("https://test-api.atlasground.com/other/path".to_string())
    );
}

#[test]
fn unresolvable_link_ends_with_pagination_error() {
    let pages = vec![page(vec![Ok(1)], Some("x"))];
    let mut p = Paginator::new("not a url".to_string(), "https://h.example/a".to_string());
    match p.next_step() {
        Step::Fetch(_) => {}
        _ => panic!("expected a fetch"),
    }
    for pg in pages {
        p.on_page(pg);
    }
    assert!(matches!(p.next_step(), Step::Yield(Ok(1))));
    assert!(matches!(p.next_step(), Step::Yield(Err(Error::PaginationItemDeserialization(_)))));
    assert!(matches!(p.next_step(), Step::End));
}

#[test]
fn fetch_failure_ends_after_earlier_items() {
    let mut p: Paginator<u32> = Paginator::new(BASE.to_string(), format!("{}sites", BASE));
    assert!(matches!(p.next_step(), Step::Fetch(_)));
    p.on_page(page(vec![Ok(1), Ok(2)], Some("sites?page=1")));
    assert!(matches!(p.next_step(), Step::Yield(Ok(1))));
    assert!(matches!(p.next_step(), Step::Yield(Ok(2))));
    match p.next_step() {
        Step::Fetch(u) => assert_eq!(u, "https://test-api.atlasground.com/api/sites?page=1"),
        _ => panic!("expected a fetch"),
    }
    let failure = Error::ResponseStatus { status: 500, error: "boom".to_string() };
    p.on_error(failure.clone());
    assert!(matches!(p.next_step(), Step::Yield(Err(e)) if e == failure));
    assert!(matches!(p.next_step(), Step::End));
}

#[test]
fn fetch_is_repeated_until_page_arrives() {
    let mut p: Paginator<u32> = Paginator::new(BASE.to_string(), "https://h.example/a".to_string());
    assert!(matches!(p.next_step(), Step::Fetch(u) if u == "https://h.example/a"));
    assert!(matches!(p.next_step(), Step::Fetch(u) if u == "https://h.example/a"));
    p.on_page(page(Vec::new(), None));
    assert!(matches!(p.next_step(), Step::End));
}

#[test]
fn empty_collection_ends_after_one_fetch() {
    let (fetched, items) = drive(
        Paginator::new(BASE.to_string(), format!("{}users", BASE)),
        vec![page(Vec::new(), None)],
    );
    assert_eq!(fetched.len(), 1);
    assert!(items.is_empty());
}

#[test]
fn resolved_page_sets_cursor_or_ends() {
    let mut p: Paginator<u32> = Paginator::new(BASE.to_string(), "https://h.example/a".to_string());
    assert!(matches!(p.next_step(), Step::Fetch(_)));
    p.on_resolved_page(vec![Ok(1)], Some(Ok("https://h.example/b".to_string())));
    assert!(matches!(p.next_step(), Step::Yield(Ok(1))));
    assert!(matches!(p.next_step(), Step::Fetch(u) if u == "https://h.example/b"));
    p.on_resolved_page(vec![Ok(2)], Some(Err("relative URL without a base".to_string())));
    assert!(matches!(p.next_step(), Step::Yield(Ok(2))));
    assert!(matches!(
        p.next_step(),
        Step::Yield(Err(Error::PaginationItemDeserialization(m))) if m == "relative URL without a base"
    ));
    assert!(matches!(p.next_step(), Step::End));
}
