use gated_views::store::token_is_valid;
use gated_views::store::Mutation;
use gated_views::store::SessionStore;
use gated_views::store::UserStore;

fn session(token: &str, user_id: &str) -> UserStore {
    UserStore { token: token.to_string(), user_id: user_id.to_string() }
}

#[test]
fn the_empty_token_and_the_error_token_are_not_valid() {
    assert!(!token_is_valid(&String::new()));
    assert!(!token_is_valid(&"error".to_string()));
    assert!(token_is_valid(&"abc".to_string()));
    assert!(token_is_valid(&" ".to_string()));
    assert!(token_is_valid(&"error ".to_string()));
    assert!(token_is_valid(&"ERROR".to_string()));
}

#[test]
fn the_default_snapshot_has_no_session() {
    let s = UserStore::default();
    assert_eq!(s, session("", ""));
    assert!(!s.has_session());
    assert!(session("t", "").has_session());
    assert!(!session("error", "someone").has_session());
}

#[test]
fn a_cloned_snapshot_is_equal() {
    let s = session("tok", "me");
    assert_eq!(s.clone(), s);
}

#[test]
fn a_new_store_holds_the_empty_session() {
    let store = SessionStore::new();
    assert_eq!(store.snapshot(), session("", ""));
    assert_eq!(store.subscriber_count(), 0);
}

#[test]
fn subscribe_delivers_the_current_snapshot_at_once() {
    let mut store = SessionStore::new();
    store.reduce(Mutation::SignedIn { token: "tok".to_string(), user_id: "me".to_string() });
    let sub = store.subscribe().unwrap();
    assert_eq!(sub.handle, 0);
    assert_eq!(sub.snapshot, session("tok", "me"));
    let sub = store.subscribe().unwrap();
    assert_eq!(sub.handle, 1);
    assert_eq!(sub.snapshot, session("tok", "me"));
    assert_eq!(store.subscriber_count(), 2);
}

#[test]
fn reduce_tells_every_subscriber_in_order_of_subscription() {
    let mut store = SessionStore::new();
    let a = store.subscribe().unwrap().handle;
    let b = store.subscribe().unwrap().handle;
    let c = store.subscribe().unwrap().handle;
    let sent = store.reduce(Mutation::SignedUp { user_id: "u-1".to_string() });
    assert_eq!(sent.recipients, vec![a, b, c]);
    assert_eq!(sent.snapshot, session("", "u-1"));
    assert_eq!(store.snapshot(), session("", "u-1"));
}

#[test]
fn mutations_apply_in_the_order_given() {
    let mut store = SessionStore::new();
    store.subscribe();
    let first = store.reduce(Mutation::SignedUp { user_id: "u-1".to_string() });
    let second =
        store.reduce(Mutation::SignedIn { token: "tok".to_string(), user_id: "u-2".to_string() });
    let third = store.reduce(Mutation::SignedUp { user_id: "u-3".to_string() });
    let fourth = store.reduce(Mutation::SignedOut);
    assert_eq!(first.snapshot, session("", "u-1"));
    assert_eq!(second.snapshot, session("tok", "u-2"));
    assert_eq!(third.snapshot, session("tok", "u-3"));
    assert_eq!(fourth.snapshot, session("", ""));
    assert_eq!(fourth.recipients, vec![0]);
}

#[test]
fn reduce_without_subscribers_tells_nobody() {
    let mut store = SessionStore::new();
    let sent = store.reduce(Mutation::SignedOut);
    assert!(sent.recipients.is_empty());
}

#[test]
fn unsubscribe_removes_one_and_keeps_the_order_of_the_rest() {
    let mut store = SessionStore::new();
    for _ in 0..4 {
        store.subscribe();
    }
    assert!(store.is_subscribed(1));
    assert!(store.unsubscribe(1));
    assert!(!store.is_subscribed(1));
    assert!(!store.unsubscribe(1));
    assert!(!store.unsubscribe(17));
    let sent = store.reduce(Mutation::SignedOut);
    assert_eq!(sent.recipients, vec![0, 2, 3]);
}

#[test]
fn a_handle_is_never_handed_out_twice() {
    let mut store = SessionStore::new();
    let a = store.subscribe().unwrap().handle;
    assert!(store.unsubscribe(a));
    let b = store.subscribe().unwrap().handle;
    assert_ne!(a, b);
    assert_eq!(b, 1);
}
