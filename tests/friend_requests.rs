use linda_backend::location_store::{FriendRequestStatus, LocationStore, RequestError};

#[test]
fn send_twice_is_duplicate_and_reverse_succeeds() {
    let mut store = LocationStore::new();
    let first = store.send_friend_request("A", "B", 10).unwrap();
    assert_eq!(first.id, "A_B");
    assert_eq!(first.sender_id, "A");
    assert_eq!(first.receiver_id, "B");
    assert_eq!(first.status, FriendRequestStatus::Pending);
    assert_eq!(first.timestamp, 10);
    let second = store.send_friend_request("A", "B", 11);
    assert_eq!(second.unwrap_err(), RequestError::DuplicateRequest);
    let reverse = store.send_friend_request("B", "A", 12).unwrap();
    assert_eq!(reverse.id, "B_A");
}

#[test]
fn send_after_accept_is_duplicate() {
    let mut store = LocationStore::new();
    store.send_friend_request("A", "B", 1).unwrap();
    store.accept_friend_request("A_B").unwrap();
    assert_eq!(
        store.send_friend_request("A", "B", 2).unwrap_err(),
        RequestError::DuplicateRequest
    );
}

#[test]
fn decline_nonexistent_succeeds() {
    let mut store = LocationStore::new();
    assert!(store.decline_friend_request("nonexistent").is_ok());
}

#[test]
fn accept_nonexistent_is_not_found() {
    let mut store = LocationStore::new();
    assert_eq!(
        store.accept_friend_request("nonexistent").unwrap_err(),
        RequestError::NotFound
    );
}

#[test]
fn accept_flips_status_in_place() {
    let mut store = LocationStore::new();
    store.send_friend_request("A", "B", 7).unwrap();
    let r = store.accept_friend_request("A_B").unwrap();
    assert_eq!(r.status, FriendRequestStatus::Accepted);
    assert_eq!(r.sender_id, "A");
    assert_eq!(r.receiver_id, "B");
    assert_eq!(r.timestamp, 7);
    let stored = store.get_friend_request("A_B").unwrap();
    assert_eq!(stored.status, FriendRequestStatus::Accepted);
    assert!(store.get_friend_requests("B").is_empty());
}

#[test]
fn decline_deletes_and_allows_resend() {
    let mut store = LocationStore::new();
    store.send_friend_request("A", "B", 1).unwrap();
    assert!(store.decline_friend_request("A_B").is_ok());
    assert!(store.get_friend_request("A_B").is_none());
    assert!(store.get_friend_requests("B").is_empty());
    assert!(store.send_friend_request("A", "B", 2).is_ok());
}

#[test]
fn pending_list_is_per_receiver() {
    let mut store = LocationStore::new();
    store.send_friend_request("A", "C", 1).unwrap();
    store.send_friend_request("B", "C", 2).unwrap();
    store.send_friend_request("C", "A", 3).unwrap();
    store.send_friend_request("D", "C", 4).unwrap();
    store.accept_friend_request("B_C").unwrap();
    let pending = store.get_friend_requests("C");
    let ids: Vec<&str> = pending.iter().map(|q| q.id.as_str()).collect();
    assert_eq!(ids, vec!["A_C", "D_C"]);
    assert!(store.get_friend_requests("nobody").is_empty());
}

#[test]
fn get_unknown_request_is_absent() {
    let store = LocationStore::new();
    assert!(store.get_friend_request("A_B").is_none());
}

#[test]
fn error_messages() {
    assert_eq!(
        RequestError::DuplicateRequest.message(),
        "Friend request already exists"
    );
    assert_eq!(RequestError::NotFound.message(), "Friend request not found");
}
