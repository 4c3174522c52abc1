use user_service::handlers::{create_user, get_user, home, Body};
use user_service::store::{User, UserStore};

fn body_text(body: &Body) -> &str {
    match body {
        Body::Text(t) => t,
        Body::UserJson(_) => panic!("expected a text body"),
    }
}

fn body_user_name(body: &Body) -> &str {
    match body {
        Body::Text(_) => panic!("expected a user body"),
        Body::UserJson(u) => &u.name,
    }
}

#[test]
fn home_returns_fixed_greeting() {
    let r = home();
    assert_eq!(r.status, 200);
    assert_eq!(body_text(&r.body), "Welcome to Actix Web Server");
}

#[test]
fn identifier_monotonicity() {
    let mut store = UserStore::new();
    let names = ["alice", "bob", "carol", "dave"];
    for (k, name) in names.iter().enumerate() {
        let (id, _) = store.insert(name.to_string());
        assert_eq!(id as usize, k + 1);
    }
    assert_eq!(store.len(), names.len());
}

#[test]
fn read_after_write() {
    let mut store = UserStore::new();
    let (k, stored) = store.insert("alice".to_owned());
    assert_eq!(stored.name, "alice");
    let read = store.get(k).expect("created record must be readable");
    assert_eq!(read.name, "alice");
}

#[test]
fn absence_on_empty_store() {
    let store = UserStore::new();
    assert!(store.get(999).is_none());
    assert!(store.get(0).is_none());
    assert!(store.get(1).is_none());
    assert!(store.get(u32::MAX).is_none());
}

#[test]
fn idempotent_reads() {
    let mut store = UserStore::new();
    let (id, _) = store.insert("alice".to_owned());
    let len_before = store.len();
    let first = store.get(id).expect("record exists").name.clone();
    let second = store.get(id).expect("record exists").name.clone();
    assert_eq!(first, second);
    assert_eq!(first, "alice");
    assert_eq!(store.len(), len_before);
}

#[test]
fn serialized_creates_are_unique() {
    let mut store = UserStore::new();
    let m: usize = 5;
    let mut ids: Vec<u32> = Vec::new();
    for _ in 0..m {
        ids.push(store.insert("alice".to_owned()).0);
    }
    for i in 0..ids.len() {
        for j in 0..ids.len() {
            if i != j {
                assert_ne!(ids[i], ids[j]);
            }
        }
    }
    assert_eq!(store.len(), m);
}

#[test]
fn duplicate_names_are_allowed() {
    let mut store = UserStore::new();
    let (a, _) = store.insert("alice".to_owned());
    let (b, _) = store.insert("alice".to_owned());
    assert_ne!(a, b);
    assert_eq!(store.get(a).expect("first record").name, "alice");
    assert_eq!(store.get(b).expect("second record").name, "alice");
}

#[test]
fn create_then_read_scenario() {
    let mut store = UserStore::new();

    let created = create_user(&mut store, User { name: "alice".to_owned() });
    assert_eq!(created.status, 201);
    assert_eq!(body_user_name(&created.body), "alice");

    let found = get_user(&store, 1);
    assert_eq!(found.status, 200);
    assert_eq!(body_user_name(&found.body), "alice");

    let missing = get_user(&store, 2);
    assert_eq!(missing.status, 404);
    assert_eq!(body_text(&missing.body), "user not found");
}

#[test]
fn created_response_echoes_name_only() {
    let mut store = UserStore::new();
    let r = create_user(&mut store, User { name: "bob".to_owned() });
    assert_eq!(r.status, 201);
    match r.body {
        Body::UserJson(u) => assert_eq!(u.name, "bob"),
        Body::Text(_) => panic!("expected a user body"),
    }
}

#[test]
fn get_user_does_not_change_store() {
    let mut store = UserStore::new();
    create_user(&mut store, User { name: "alice".to_owned() });
    let len_before = store.len();
    let _ = get_user(&store, 1);
    let _ = get_user(&store, 7);
    assert_eq!(store.len(), len_before);
}

#[test]
fn clone_keeps_the_name() {
    let u = User { name: "alice".to_owned() };
    let c = u.clone();
    assert_eq!(c.name, u.name);
}
