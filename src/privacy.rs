//! The privacy transform applied to a location before another user sees it.

use crate::types::{location_view, LocationData, LocationView, SharingLevel, User, UserView};
use vstd::arithmetic::div_mod::{lemma_fundamental_div_mod, lemma_mod_bound};
use vstd::prelude::*;

verus! {

/// One hundredth of a degree, in nanodegrees: the grid of city precision.
pub const CITY_STEP: i64 = 10_000_000;

/// Half of [`CITY_STEP`].
pub const HALF_CITY_STEP: i64 = 5_000_000;

/// The largest magnitude of a coordinate whose city rounding fits in `i64`.
pub const COORDINATE_LIMIT: i64 = 9_223_372_036_849_775_807;

/// `x` rounded to the nearest multiple of [`CITY_STEP`], halves away from zero.
pub open spec fn round_to_city(x: int) -> int {
    if x >= 0 {
        ((x + HALF_CITY_STEP) / CITY_STEP as int) * CITY_STEP
    } else {
        -(((-x + HALF_CITY_STEP) / CITY_STEP as int) * CITY_STEP)
    }
}

pub open spec fn coordinate_in_range(x: i64) -> bool {
    -COORDINATE_LIMIT <= x <= COORDINATE_LIMIT
}

pub open spec fn location_in_range(l: LocationView) -> bool {
    coordinate_in_range(l.latitude) && coordinate_in_range(l.longitude)
}

pub open spec fn user_in_range(u: UserView) -> bool {
    match u.location {
        Some(l) => location_in_range(l),
        None => true,
    }
}

/// A location with both coordinates rounded to city precision.
pub open spec fn city_location(l: LocationView) -> LocationView {
    LocationView {
        latitude: round_to_city(l.latitude as int) as i64,
        longitude: round_to_city(l.longitude as int) as i64,
        ..l
    }
}

/// What another user may see of location `l` under sharing level `level`.
pub open spec fn filtered_location(l: LocationView, level: Option<SharingLevel>) -> Option<
    LocationView,
> {
    match level {
        Some(SharingLevel::City) => Some(city_location(l)),
        Some(SharingLevel::Realtime) => Some(l),
        None => None,
    }
}

/// What another user may see of user `u`: everything but the location, and
/// the location only as the user's sharing level allows.
pub open spec fn filtered_user(u: UserView) -> UserView {
    UserView {
        location: match u.location {
            Some(l) => filtered_location(l, u.sharing_level),
            None => None,
        },
        ..u
    }
}

proof fn lemma_round_bounds(a: int)
    requires
        a >= 0,
    ensures
        0 <= (a / CITY_STEP as int) * CITY_STEP <= a,
{
    lemma_fundamental_div_mod(a, CITY_STEP as int);
    lemma_mod_bound(a, CITY_STEP as int);
    assert((a / CITY_STEP as int) >= 0) by (nonlinear_arith)
        requires
            a >= 0,
    ;
    assert(0 <= (a / CITY_STEP as int) * CITY_STEP) by (nonlinear_arith)
        requires
            a / CITY_STEP as int >= 0,
    ;
}

/// Rounds a coordinate to city precision, halves away from zero.
pub fn round_coordinate(x: i64) -> (r: i64)
    requires
        coordinate_in_range(x),
    ensures
        r == round_to_city(x as int),
{
    if x >= 0 {
        let a: i64 = x + HALF_CITY_STEP;
        proof {
            lemma_round_bounds(a as int);
        }
        (a / CITY_STEP) * CITY_STEP
    } else {
        let a: i64 = -x + HALF_CITY_STEP;
        proof {
            lemma_round_bounds(a as int);
        }
        -((a / CITY_STEP) * CITY_STEP)
    }
}

/// The location that another user sees: unchanged at `Realtime`, rounded to
/// two decimal places of a degree at `City`, and nothing without a level.
pub fn privacy_filter(location: &LocationData, level: Option<SharingLevel>) -> (r: Option<
    LocationData,
>)
    requires
        location_in_range(location@),
    ensures
        location_view(r) == filtered_location(location@, level),
{
    match level {
        Some(SharingLevel::City) => {
            let mut l = location.copy();
            l.latitude = round_coordinate(location.latitude);
            l.longitude = round_coordinate(location.longitude);
            Some(l)
        },
        Some(SharingLevel::Realtime) => Some(location.copy()),
        None => None,
    }
}

/// The user as another user sees them: the location passed through
/// [`privacy_filter`] under the user's own sharing level.
pub fn apply_privacy(user: User) -> (r: User)
    requires
        user_in_range(user@),
    ensures
        r@ == filtered_user(user@),
{
    let mut user = user;
    let shown = match &user.location {
        Some(l) => privacy_filter(l, user.sharing_level),
        None => None,
    };
    user.location = shown;
    user
}

} // verus!
