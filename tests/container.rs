use std::sync::Arc;

use freedom_api::{FreedomApiContainer, Inner};

#[test]
fn wrap_and_unwrap_inner() {
    let val = String::from("foobar");
    let inner = Inner::new(val.clone());
    assert_eq!(*inner, val);
    let unwrapped = inner.into_inner();
    assert_eq!(val, unwrapped);
}

#[test]
fn owned_and_shared_read_the_same() {
    let owned = Inner::new(vec![1, 2, 3]);
    let shared = Arc::new(vec![1, 2, 3]);
    assert_eq!(*owned, *shared);
    assert_eq!(owned.get(), FreedomApiContainer::get(&shared));
}

#[test]
fn shared_unwraps_into_a_copy_while_shared() {
    let shared = Arc::new(String::from("payload"));
    let other = Arc::clone(&shared);
    let unwrapped = FreedomApiContainer::into_inner(shared);
    assert_eq!(unwrapped, "payload");
    assert_eq!(*other, "payload");
    let alone = Arc::new(String::from("only"));
    assert_eq!(FreedomApiContainer::into_inner(alone), "only");
}
