use freedom_api::{Error, Lookup, Response, ResponseCache};

fn key(s: &str) -> String {
    s.to_string()
}

fn ok_response(body: &str) -> Response {
    Response { body: body.as_bytes().to_vec(), status: 200 }
}

#[test]
fn fifty_concurrent_requests_make_one_fetch() {
    let url = key("https://test-api.atlasground.com/api/sites/14");
    let mut cache: ResponseCache<usize> = ResponseCache::new(16);
    let mut fetches = 0;
    let mut joined = 0;
    for waiter in 0..50 {
        match cache.begin(&url, waiter) {
            Lookup::Fetch => fetches += 1,
            Lookup::Joined => joined += 1,
            Lookup::Hit(_) => panic!("nothing is ready yet"),
        }
    }
    assert_eq!(fetches, 1);
    assert_eq!(joined, 49);
    let outcome: Result<Response, Error> = Ok(ok_response("site 14"));
    let waiters = cache.finish(&url, &outcome);
    assert_eq!(waiters, (1..50).collect::<Vec<usize>>());
    // every waiter, and the fetcher, observe the same outcome
    let seen: Vec<Vec<u8>> = waiters.iter().map(|_| outcome.as_ref().unwrap().body.clone()).collect();
    assert!(seen.iter().all(|b| b == b"site 14"));
}

#[test]
fn second_call_is_served_without_fetch() {
    let url = key("https://h.example/api/satellites/710");
    let mut cache: ResponseCache<()> = ResponseCache::new(4);
    assert!(matches!(cache.begin(&url, ()), Lookup::Fetch));
    cache.finish(&url, &Ok(ok_response("sat")));
    match cache.begin(&url, ()) {
        Lookup::Hit(r) => {
            assert_eq!(r.body, b"sat".to_vec());
            assert_eq!(r.status, 200);
        }
        _ => panic!("expected a hit"),
    }
}

#[test]
fn failed_fetch_is_not_kept() {
    let url = key("https://h.example/api/sites/1");
    let mut cache: ResponseCache<u8> = ResponseCache::new(4);
    assert!(matches!(cache.begin(&url, 0), Lookup::Fetch));
    assert!(matches!(cache.begin(&url, 1), Lookup::Joined));
    let failure: Result<Response, Error> = Err(Error::Response("connection refused".to_string()));
    assert_eq!(cache.finish(&url, &failure), vec![1]);
    assert!(matches!(cache.begin(&url, 2), Lookup::Fetch));
    cache.finish(&url, &Ok(ok_response("now healthy")));
    assert!(matches!(cache.begin(&url, 3), Lookup::Hit(r) if r.body == b"now healthy".to_vec()));
}

#[test]
fn invalidate_all_forces_fresh_fetch() {
    let a = key("https://h.example/api/a");
    let b = key("https://h.example/api/b");
    let mut cache: ResponseCache<()> = ResponseCache::new(4);
    for k in [&a, &b] {
        assert!(matches!(cache.begin(k, ()), Lookup::Fetch));
        cache.finish(k, &Ok(ok_response("x")));
        assert!(matches!(cache.begin(k, ()), Lookup::Hit(_)));
    }
    cache.invalidate_all();
    assert!(matches!(cache.begin(&a, ()), Lookup::Fetch));
    assert!(matches!(cache.begin(&b, ()), Lookup::Fetch));
}

#[test]
fn invalidate_all_leaves_pending_fetch() {
    let a = key("https://h.example/api/a");
    let mut cache: ResponseCache<u8> = ResponseCache::new(4);
    assert!(matches!(cache.begin(&a, 0), Lookup::Fetch));
    cache.invalidate_all();
    assert!(matches!(cache.begin(&a, 1), Lookup::Joined));
    assert_eq!(cache.finish(&a, &Ok(ok_response("x"))), vec![1]);
}

#[test]
fn oldest_response_is_evicted_at_capacity() {
    let mut cache: ResponseCache<()> = ResponseCache::new(2);
    let keys = [key("https://h.example/1"), key("https://h.example/2"), key("https://h.example/3")];
    for k in keys.iter() {
        assert!(matches!(cache.begin(k, ()), Lookup::Fetch));
        cache.finish(k, &Ok(ok_response(k)));
    }
    assert!(matches!(cache.begin(&keys[0], ()), Lookup::Fetch));
    assert!(matches!(cache.begin(&keys[1], ()), Lookup::Hit(_)));
    assert!(matches!(cache.begin(&keys[2], ()), Lookup::Hit(_)));
}

#[test]
fn zero_capacity_keeps_nothing() {
    let k = key("https://h.example/1");
    let mut cache: ResponseCache<()> = ResponseCache::new(0);
    assert!(matches!(cache.begin(&k, ()), Lookup::Fetch));
    cache.finish(&k, &Ok(ok_response("x")));
    assert!(matches!(cache.begin(&k, ()), Lookup::Fetch));
}

#[test]
fn distinct_encodings_are_distinct_keys() {
    let mut cache: ResponseCache<()> = ResponseCache::new(4);
    let plain = key("https://h.example/api/sites?name=a b");
    let encoded = key("https://h.example/api/sites?name=a%20b");
    assert!(matches!(cache.begin(&plain, ()), Lookup::Fetch));
    cache.finish(&plain, &Ok(ok_response("x")));
    assert!(matches!(cache.begin(&encoded, ()), Lookup::Fetch));
}

#[test]
fn response_duplicate_is_equal() {
    let r = Response { body: vec![1, 2, 3], status: 404 };
    let d = r.duplicate();
    assert_eq!(d.body, vec![1, 2, 3]);
    assert_eq!(d.status, 404);
}
