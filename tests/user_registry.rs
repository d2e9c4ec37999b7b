use linda_backend::location_store::LocationStore;
use linda_backend::service::get_profile;
use linda_backend::types::{LocationData, SharingLevel};

fn spot(latitude: i64, longitude: i64) -> LocationData {
    LocationData {
        latitude,
        longitude,
        city: Some("San Francisco".to_string()),
        country: None,
        timestamp: None,
    }
}

#[test]
fn get_unknown_user_is_absent() {
    let store = LocationStore::new();
    assert!(store.get_user("unknown-user").is_none());
}

#[test]
fn profile_of_unknown_user_is_empty() {
    let store = LocationStore::new();
    let u = get_profile(&store, "unknown-user");
    assert_eq!(u.id, "unknown-user");
    assert!(u.user_name.is_none());
    assert!(u.sharing_level.is_none());
    assert!(u.location.is_none());
    assert!(u.last_updated.is_none());
}

#[test]
fn update_location_creates_record() {
    let mut store = LocationStore::new();
    store.update_location("u1", spot(37774929500, -122419415500), 1000);
    let u = store.get_user("u1").unwrap();
    assert_eq!(u.id, "u1");
    assert!(u.user_name.is_none());
    assert!(u.sharing_level.is_none());
    assert_eq!(u.last_updated, Some(1000));
    let l = u.location.unwrap();
    assert_eq!(l.latitude, 37774929500);
    assert_eq!(l.longitude, -122419415500);
    assert_eq!(l.city.as_deref(), Some("San Francisco"));
    assert_eq!(l.timestamp, Some(1000));
}

#[test]
fn updates_keep_other_fields() {
    let mut store = LocationStore::new();
    store.update_profile("u1", Some("Ada".to_string()), 10);
    store.update_sharing_level("u1", SharingLevel::City, 20);
    store.update_location("u1", spot(1, 2), 30);
    let u = store.get_user("u1").unwrap();
    assert_eq!(u.user_name.as_deref(), Some("Ada"));
    assert_eq!(u.sharing_level, Some(SharingLevel::City));
    assert_eq!(u.location.unwrap().latitude, 1);
    assert_eq!(u.last_updated, Some(30));
    store.update_profile("u1", None, 40);
    let u = store.get_user("u1").unwrap();
    assert!(u.user_name.is_none());
    assert_eq!(u.sharing_level, Some(SharingLevel::City));
    assert_eq!(get_profile(&store, "u1").last_updated, Some(40));
}

#[test]
fn last_updated_never_goes_back() {
    let mut store = LocationStore::new();
    store.update_location("u1", spot(0, 0), 100);
    store.update_profile("u1", Some("Bo".to_string()), 50);
    assert_eq!(store.get_user("u1").unwrap().last_updated, Some(100));
    store.update_sharing_level("u1", SharingLevel::Realtime, 100);
    assert_eq!(store.get_user("u1").unwrap().last_updated, Some(100));
    store.update_location("u1", spot(0, 0), 70);
    let u = store.get_user("u1").unwrap();
    assert_eq!(u.last_updated, Some(100));
    assert_eq!(u.location.unwrap().timestamp, Some(100));
    store.update_sharing_level("u1", SharingLevel::City, 200);
    assert_eq!(store.get_user("u1").unwrap().last_updated, Some(200));
}

#[test]
fn users_are_independent() {
    let mut store = LocationStore::new();
    store.update_profile("a", Some("A".to_string()), 5);
    store.update_profile("b", Some("B".to_string()), 6);
    assert_eq!(store.get_user("a").unwrap().user_name.as_deref(), Some("A"));
    assert_eq!(store.get_user("a").unwrap().last_updated, Some(5));
    assert_eq!(store.get_user("b").unwrap().user_name.as_deref(), Some("B"));
}
