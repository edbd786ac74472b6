use blazer_auth::errors::ServerError;
use blazer_auth::store::UserStore;

fn s(v: &str) -> String {
    v.to_string()
}

#[test]
fn store_assigns_sequential_ids() {
    let mut store = UserStore::new();
    assert_eq!(store.insert(s("a@x.com"), s("alice"), s("h1"), 10), Ok(1));
    assert_eq!(store.insert(s("b@x.com"), s("bob"), s("h2"), 20), Ok(2));
    assert_eq!(store.len(), 2);
    let u = store.get(1);
    assert_eq!(u.id, 2);
    assert_eq!(u.email, "b@x.com");
    assert_eq!(u.created_at, 20);
    assert_eq!(u.last_online, 20);
    assert!(u.is_active);
    assert!(!u.is_verified);
}

#[test]
fn store_refuses_duplicate_email_or_username() {
    let mut store = UserStore::new();
    assert_eq!(store.insert(s("a@x.com"), s("alice"), s("h"), 0), Ok(1));
    assert_eq!(store.insert(s("a@x.com"), s("other"), s("h"), 0), Err(ServerError::UserFound));
    assert_eq!(store.insert(s("z@x.com"), s("alice"), s("h"), 0), Err(ServerError::UserFound));
    assert_eq!(store.len(), 1);
}

#[test]
fn store_lookups() {
    let mut store = UserStore::new();
    store.insert(s("a@x.com"), s("alice"), s("h"), 0).unwrap();
    store.insert(s("b@x.com"), s("bob"), s("h"), 0).unwrap();
    assert_eq!(store.find_by_email(&s("b@x.com")), Some(1));
    assert_eq!(store.find_by_email(&s("c@x.com")), None);
    assert_eq!(store.find_by_email_or_username(&s("c@x.com"), &s("bob")), Some(1));
    assert_eq!(store.find_by_email_or_username(&s("c@x.com"), &s("carol")), None);
    assert_eq!(store.find_by_id(1), Some(0));
    assert_eq!(store.find_by_id(0), None);
    assert_eq!(store.find_by_id(3), None);
}

#[test]
fn store_updates_one_record() {
    let mut store = UserStore::new();
    store.insert(s("a@x.com"), s("alice"), s("h"), 5).unwrap();
    store.insert(s("b@x.com"), s("bob"), s("h"), 5).unwrap();
    store.set_last_online(0, 99);
    store.deactivate(1);
    assert_eq!(store.get(0).last_online, 99);
    assert!(store.get(0).is_active);
    assert!(!store.get(1).is_active);
    assert_eq!(store.get(1).last_online, 5);
}
