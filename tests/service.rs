use linda_backend::api::ApiResponse;
use linda_backend::celo_verifier::CeloVerifier;
use linda_backend::location_store::{FriendRequestStatus, LocationStore, RequestError};
use linda_backend::sapphire_client::SapphireClient;
use linda_backend::service::{
    accept_and_befriend, get_friend_location, get_friends_locations, link_accepted,
};
use linda_backend::types::{LocationData, SharingLevel};

fn sf() -> LocationData {
    LocationData {
        latitude: 37774929500,
        longitude: -122419415500,
        city: None,
        country: None,
        timestamp: None,
    }
}

#[test]
fn friend_location_needs_friendship() {
    let mut store = LocationStore::new();
    let graph = SapphireClient::new();
    store.update_location("f", sf(), 1);
    store.update_sharing_level("f", SharingLevel::Realtime, 2);
    let u = get_friend_location(&store, &graph, "me", "f");
    assert_eq!(u.id, "f");
    assert!(u.location.is_none());
    assert!(u.last_updated.is_none());
}

#[test]
fn friend_location_is_filtered() {
    let mut store = LocationStore::new();
    let mut graph = SapphireClient::new();
    graph.add_friend("me", "f");
    store.update_location("f", sf(), 1);
    store.update_sharing_level("f", SharingLevel::City, 2);
    let u = get_friend_location(&store, &graph, "me", "f");
    let l = u.location.unwrap();
    assert_eq!(l.latitude, 37770000000);
    assert_eq!(l.longitude, -122420000000);
    assert_eq!(u.last_updated, Some(2));
    let unknown = get_friend_location(&store, &graph, "f", "me");
    assert_eq!(unknown.id, "me");
    assert!(unknown.last_updated.is_none());
}

#[test]
fn friends_locations_skip_unknown_and_hide_unshared() {
    let mut store = LocationStore::new();
    let mut graph = SapphireClient::new();
    graph.add_friend("me", "a");
    graph.add_friend("me", "ghost");
    graph.add_friend("me", "b");
    store.update_location("a", sf(), 1);
    store.update_location("b", sf(), 1);
    store.update_sharing_level("b", SharingLevel::Realtime, 3);
    let seen = get_friends_locations(&store, &graph, "me");
    assert_eq!(seen.len(), 2);
    assert_eq!(seen[0].id, "a");
    assert!(seen[0].location.is_none());
    assert_eq!(seen[1].id, "b");
    assert_eq!(seen[1].location.as_ref().unwrap().latitude, 37774929500);
    assert!(get_friends_locations(&store, &graph, "nobody").is_empty());
}

#[test]
fn accept_links_both_users() {
    let mut store = LocationStore::new();
    let mut graph = SapphireClient::new();
    store.send_friend_request("A", "B", 1).unwrap();
    let r = accept_and_befriend(&mut store, &mut graph, "A_B").unwrap();
    assert_eq!(r.status, FriendRequestStatus::Accepted);
    assert_eq!(graph.get_friends("A"), vec!["B".to_string(), "B".to_string()]);
    assert_eq!(graph.get_friends("B"), vec!["A".to_string(), "A".to_string()]);
}

#[test]
fn accept_unknown_leaves_graph_alone() {
    let mut store = LocationStore::new();
    let mut graph = SapphireClient::new();
    let r = accept_and_befriend(&mut store, &mut graph, "A_B");
    assert_eq!(r.unwrap_err(), RequestError::NotFound);
    assert!(graph.get_friends("A").is_empty());
}

#[test]
fn api_envelopes() {
    let ok = ApiResponse::ok(5u32);
    assert!(ok.success);
    assert_eq!(ok.data, Some(5));
    assert!(ok.error.is_none());
    let err: ApiResponse<u32> = ApiResponse::err("no".to_string());
    assert!(!err.success);
    assert!(err.data.is_none());
    assert_eq!(err.error.as_deref(), Some("no"));
}

#[test]
fn placeholder_verifier_accepts_everyone() {
    let v = CeloVerifier::new();
    assert!(v.verify_uid("uid", "user"));
    assert!(v.get_uid("user").is_none());
}

#[test]
fn link_accepted_adds_both_directions_twice() {
    let mut store = LocationStore::new();
    let mut graph = SapphireClient::new();
    store.send_friend_request("A", "B", 1).unwrap();
    let q = store.accept_friend_request("A_B").unwrap();
    link_accepted(&mut graph, &q);
    assert_eq!(graph.get_friends("A"), vec!["B".to_string(), "B".to_string()]);
    assert_eq!(graph.get_friends("B"), vec!["A".to_string(), "A".to_string()]);
    assert!(graph.get_friends("C").is_empty());
}
