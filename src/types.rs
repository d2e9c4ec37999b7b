//! Records shared by the stores: users, their locations and visibility.

use vstd::prelude::*;

verus! {

/// How precisely a user's location is shown to other users; a user without
/// one shows no location at all.
#[derive(Debug, Clone, Copy, PartialEq, Eq, Structural)]
pub enum SharingLevel {
    City,
    Realtime,
}

/// A position report. Coordinates are held as whole billionths of a degree
/// (nanodegrees), so that the library works on exact integers.
#[derive(Debug, Clone)]
pub struct LocationData {
    pub latitude: i64,
    pub longitude: i64,
    pub city: Option<String>,
    pub country: Option<String>,
    pub timestamp: Option<i64>,
}

/// The mathematical value of a [`LocationData`].
pub struct LocationView {
    pub latitude: i64,
    pub longitude: i64,
    pub city: Option<Seq<char>>,
    pub country: Option<Seq<char>>,
    pub timestamp: Option<i64>,
}

impl View for LocationData {
    type V = LocationView;

    open spec fn view(&self) -> LocationView {
        LocationView {
            latitude: self.latitude,
            longitude: self.longitude,
            city: self.city.deep_view(),
            country: self.country.deep_view(),
            timestamp: self.timestamp,
        }
    }
}

/// Presence state of one user.
#[derive(Debug, Clone)]
pub struct User {
    pub id: String,
    pub user_name: Option<String>,
    pub sharing_level: Option<SharingLevel>,
    pub location: Option<LocationData>,
    pub last_updated: Option<i64>,
}

/// The mathematical value of a [`User`].
pub struct UserView {
    pub id: Seq<char>,
    pub user_name: Option<Seq<char>>,
    pub sharing_level: Option<SharingLevel>,
    pub location: Option<LocationView>,
    pub last_updated: Option<i64>,
}

pub open spec fn location_view(l: Option<LocationData>) -> Option<LocationView> {
    match l {
        Some(x) => Some(x@),
        None => None,
    }
}

impl View for User {
    type V = UserView;

    open spec fn view(&self) -> UserView {
        UserView {
            id: self.id@,
            user_name: self.user_name.deep_view(),
            sharing_level: self.sharing_level,
            location: location_view(self.location),
            last_updated: self.last_updated,
        }
    }
}

pub open spec fn user_view(u: Option<User>) -> Option<UserView> {
    match u {
        Some(x) => Some(x@),
        None => None,
    }
}

/// The profile shown for a user that has never been written: only the id.
pub open spec fn empty_user_view(id: Seq<char>) -> UserView {
    UserView {
        id,
        user_name: None,
        sharing_level: None,
        location: None,
        last_updated: None,
    }
}

pub(crate) fn copy_text(s: &Option<String>) -> (r: Option<String>)
    ensures
        r.deep_view() == s.deep_view(),
{
    match s {
        Some(t) => Some(t.clone()),
        None => None,
    }
}

impl LocationData {
    pub(crate) fn copy(&self) -> (r: LocationData)
        ensures
            r@ == self@,
    {
        LocationData {
            latitude: self.latitude,
            longitude: self.longitude,
            city: copy_text(&self.city),
            country: copy_text(&self.country),
            timestamp: self.timestamp,
        }
    }
}

impl User {
    /// The profile of a user that has never been written.
    pub fn empty(id: &str) -> (r: User)
        ensures
            r@ == empty_user_view(id@),
    {
        User {
            id: id.to_owned(),
            user_name: None,
            sharing_level: None,
            location: None,
            last_updated: None,
        }
    }

    pub(crate) fn copy(&self) -> (r: User)
        ensures
            r@ == self@,
    {
        let location = match &self.location {
            Some(l) => Some(l.copy()),
            None => None,
        };
        User {
            id: self.id.clone(),
            user_name: copy_text(&self.user_name),
            sharing_level: self.sharing_level,
            location,
            last_updated: self.last_updated,
        }
    }
}

} // verus!
