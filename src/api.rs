//! The values that the service's clients send and receive.

use crate::types::{LocationData, SharingLevel};
use vstd::prelude::*;

verus! {

/// The envelope of every reply: data on success, an error text on failure.
pub struct ApiResponse<T> {
    pub success: bool,
    pub data: Option<T>,
    pub error: Option<String>,
}

impl<T> ApiResponse<T> {
    /// A successful reply carrying `data`.
    pub fn ok(data: T) -> (r: ApiResponse<T>)
        ensures
            r.success,
            r.data == Some(data),
            r.error is None,
    {
        ApiResponse { success: true, data: Some(data), error: None }
    }

    /// A failed reply carrying the text `error`.
    pub fn err(error: String) -> (r: ApiResponse<T>)
        ensures
            !r.success,
            r.data is None,
            r.error == Some(error),
    {
        ApiResponse { success: false, data: None, error: Some(error) }
    }
}

/// Asks whether an external identity belongs to a user.
pub struct VerifySelfAuthRequest {
    pub celo_uid: String,
    pub user_id: String,
}

/// A new location for a user.
pub struct UpdateLocationRequest {
    pub user_id: String,
    pub location: LocationData,
}

/// A new sharing level for a user.
pub struct UpdateSharingLevelRequest {
    pub user_id: String,
    pub level: SharingLevel,
}

/// A friendship to record.
pub struct AddFriendRequest {
    pub user_id: String,
    pub friend_id: String,
}

/// A new display name; absent clears it.
pub struct UpdateProfileRequest {
    pub user_name: Option<String>,
}

/// A friend request to send.
pub struct SendFriendRequestRequest {
    pub sender_id: String,
    pub receiver_id: String,
}

/// The friend request to accept or decline.
pub struct RespondFriendRequestRequest {
    pub request_id: String,
}

} // verus!
