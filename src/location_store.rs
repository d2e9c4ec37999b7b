//! The user registry and the friend-request workflow.
//!
//! Every user record is created by its first write and never deleted; each
//! write stamps `last_updated` with a time that never goes back. A friend
//! request is keyed by the ordered pair of its users; accepting keeps the
//! record, declining deletes it.

use crate::privacy::{location_in_range, user_in_range};
use crate::seq_facts::{lemma_filter_push, lemma_take_next};
use crate::types::{
    empty_user_view, user_view, LocationData, LocationView, SharingLevel, User, UserView,
};
use vstd::hash_map::StringHashMap;
use vstd::prelude::*;
use vstd::string::StringExecFns;

verus! {

/// Where a friend request stands. A declined request is deleted, so no
/// stored record is ever `Declined`.
#[derive(Debug, Clone, Copy, PartialEq, Eq, Structural)]
pub enum FriendRequestStatus {
    Pending,
    Accepted,
    Declined,
}

/// A proposal of friendship from one user to another.
#[derive(Debug, Clone)]
pub struct FriendRequest {
    pub id: String,
    pub sender_id: String,
    pub receiver_id: String,
    pub status: FriendRequestStatus,
    pub timestamp: i64,
}

/// The mathematical value of a [`FriendRequest`].
pub struct RequestView {
    pub id: Seq<char>,
    pub sender_id: Seq<char>,
    pub receiver_id: Seq<char>,
    pub status: FriendRequestStatus,
    pub timestamp: i64,
}

impl View for FriendRequest {
    type V = RequestView;

    open spec fn view(&self) -> RequestView {
        RequestView {
            id: self.id@,
            sender_id: self.sender_id@,
            receiver_id: self.receiver_id@,
            status: self.status,
            timestamp: self.timestamp,
        }
    }
}

impl FriendRequest {
    pub(crate) fn copy(&self) -> (r: FriendRequest)
        ensures
            r@ == self@,
    {
        FriendRequest {
            id: self.id.clone(),
            sender_id: self.sender_id.clone(),
            receiver_id: self.receiver_id.clone(),
            status: self.status,
            timestamp: self.timestamp,
        }
    }
}

/// Why a friend-request operation was refused.
#[derive(Debug, Clone, Copy, PartialEq, Eq, Structural)]
pub enum RequestError {
    /// A request with the same sender and receiver exists, in any status.
    DuplicateRequest,
    /// No request has the given id.
    NotFound,
}

impl RequestError {
    /// The text shown to a client.
    pub fn message(&self) -> (r: String)
        ensures
            r@ == (match self {
                RequestError::DuplicateRequest => "Friend request already exists"@,
                RequestError::NotFound => "Friend request not found"@,
            }),
    {
        match self {
            RequestError::DuplicateRequest => "Friend request already exists".to_owned(),
            RequestError::NotFound => "Friend request not found".to_owned(),
        }
    }
}

/// The id of a request from `sender` to `receiver`: the two ids joined by an
/// underscore, so that the two directions have distinct ids.
pub open spec fn request_id_of(sender: Seq<char>, receiver: Seq<char>) -> Seq<char> {
    sender + seq!['_'] + receiver
}

/// The record that a new request from `sender` to `receiver` at `now` holds.
pub open spec fn pending_request(sender: Seq<char>, receiver: Seq<char>, now: i64) -> RequestView {
    RequestView {
        id: request_id_of(sender, receiver),
        sender_id: sender,
        receiver_id: receiver,
        status: FriendRequestStatus::Pending,
        timestamp: now,
    }
}

/// `q` after it is accepted.
pub open spec fn accepted(q: RequestView) -> RequestView {
    RequestView { status: FriendRequestStatus::Accepted, ..q }
}

/// Whether some request in `reqs` has id `id`.
pub open spec fn has_request(reqs: Seq<RequestView>, id: Seq<char>) -> bool {
    exists|i: int| 0 <= i < reqs.len() && #[trigger] reqs[i].id == id
}

/// Holds of the requests to `user` that still wait for an answer.
pub open spec fn pending_for(user: Seq<char>) -> spec_fn(RequestView) -> bool {
    |q: RequestView| q.receiver_id == user && q.status == FriendRequestStatus::Pending
}

/// The stamp a write at time `now` gives a record last stamped `prev`: `now`,
/// unless the clock went back, in which case the old stamp stays.
pub open spec fn next_stamp(prev: Option<i64>, now: i64) -> i64 {
    match prev {
        Some(t) => if t > now {
            t
        } else {
            now
        },
        None => now,
    }
}

/// The record of `id` before a write: the stored one, or an empty one.
pub open spec fn base_user(users: Map<Seq<char>, UserView>, id: Seq<char>) -> UserView {
    if users.contains_key(id) {
        users[id]
    } else {
        empty_user_view(id)
    }
}

pub open spec fn after_location(
    users: Map<Seq<char>, UserView>,
    id: Seq<char>,
    location: LocationView,
    now: i64,
) -> UserView {
    let b = base_user(users, id);
    let t = next_stamp(b.last_updated, now);
    UserView {
        location: Some(LocationView { timestamp: Some(t), ..location }),
        last_updated: Some(t),
        ..b
    }
}

pub open spec fn after_sharing_level(
    users: Map<Seq<char>, UserView>,
    id: Seq<char>,
    level: SharingLevel,
    now: i64,
) -> UserView {
    let b = base_user(users, id);
    let t = next_stamp(b.last_updated, now);
    UserView { sharing_level: Some(level), last_updated: Some(t), ..b }
}

pub open spec fn after_profile(
    users: Map<Seq<char>, UserView>,
    id: Seq<char>,
    user_name: Option<Seq<char>>,
    now: i64,
) -> UserView {
    let b = base_user(users, id);
    let t = next_stamp(b.last_updated, now);
    UserView { user_name, last_updated: Some(t), ..b }
}

/// The record of `id` in `after` carries a stamp, and no earlier one than it
/// carried in `before`.
pub open spec fn stamp_advanced(
    before: Map<Seq<char>, UserView>,
    after: Map<Seq<char>, UserView>,
    id: Seq<char>,
) -> bool {
    &&& after.contains_key(id)
    &&& after[id].last_updated is Some
    &&& before.contains_key(id) && before[id].last_updated is Some ==> before[id].last_updated->0
        <= after[id].last_updated->0
}

/// User records and friend requests, held in memory.
pub struct LocationStore {
    users: StringHashMap<User>,
    friend_requests: Vec<FriendRequest>,
}

impl LocationStore {
    /// The user records by id.
    pub closed spec fn users_view(&self) -> Map<Seq<char>, UserView> {
        self.users@.map_values(|u: User| u@)
    }

    /// The friend requests, oldest first.
    pub closed spec fn requests_view(&self) -> Seq<RequestView> {
        self.friend_requests@.map_values(|q: FriendRequest| q@)
    }

    /// Each user record sits under its own id with a location in range; each
    /// request's id derives from its users, no two requests share an id, and
    /// no declined request is kept.
    pub open spec fn wf(&self) -> bool {
        &&& forall|k: Seq<char>| #[trigger]
            self.users_view().contains_key(k) ==> self.users_view()[k].id == k && user_in_range(
                self.users_view()[k],
            )
        &&& forall|i: int|
            0 <= i < self.requests_view().len() ==> #[trigger] self.requests_view()[i].id
                == request_id_of(self.requests_view()[i].sender_id, self.requests_view()[i].receiver_id)
        &&& forall|i: int|
            0 <= i < self.requests_view().len() ==> #[trigger] self.requests_view()[i].status
                != FriendRequestStatus::Declined
        &&& forall|i: int, j: int|
            0 <= i < self.requests_view().len() && 0 <= j < self.requests_view().len()
                && #[trigger] self.requests_view()[i].id == #[trigger] self.requests_view()[j].id
                ==> i == j
    }

    /// An empty store.
    pub fn new() -> (r: LocationStore)
        ensures
            r.wf(),
            r.users_view() == Map::<Seq<char>, UserView>::empty(),
            r.requests_view() == Seq::<RequestView>::empty(),
    {
        let r = LocationStore { users: StringHashMap::new(), friend_requests: Vec::new() };
        assert(r.users_view() =~= Map::<Seq<char>, UserView>::empty());
        assert(r.requests_view() =~= Seq::<RequestView>::empty());
        r
    }

    /// The record of `user_id`, if it was ever written.
    pub fn get_user(&self, user_id: &str) -> (r: Option<User>)
        ensures
            user_view(r) == (if self.users_view().contains_key(user_id@) {
                Some(self.users_view()[user_id@])
            } else {
                None
            }),
    {
        match self.users.get(user_id) {
            Some(u) => Some(u.copy()),
            None => None,
        }
    }

    fn base_record(&self, user_id: &str) -> (r: User)
        requires
            self.wf(),
        ensures
            r@ == base_user(self.users_view(), user_id@),
            user_in_range(r@),
    {
        match self.users.get(user_id) {
            Some(u) => u.copy(),
            None => User::empty(user_id),
        }
    }

    fn put_record(&mut self, user_id: &str, u: User)
        requires
            old(self).wf(),
            u.id@ == user_id@,
            user_in_range(u@),
        ensures
            final(self).wf(),
            final(self).users_view() == old(self).users_view().insert(user_id@, u@),
            final(self).requests_view() == old(self).requests_view(),
    {
        let ghost v = u@;
        self.users.insert(user_id.to_owned(), u);
        assert(self.users_view() =~= old(self).users_view().insert(user_id@, v));
    }

    /// Sets the location of `user_id`, creating the record if needed, and
    /// stamps both the location and the record with the time `now` (or with
    /// the record's last stamp, should the clock have gone back).
    pub fn update_location(&mut self, user_id: &str, location: LocationData, now: i64)
        requires
            old(self).wf(),
            location_in_range(location@),
        ensures
            final(self).wf(),
            final(self).users_view() == old(self).users_view().insert(
                user_id@,
                after_location(old(self).users_view(), user_id@, location@, now),
            ),
            final(self).requests_view() == old(self).requests_view(),
            stamp_advanced(old(self).users_view(), final(self).users_view(), user_id@),
    {
        let mut u = self.base_record(user_id);
        let t = if let Some(prev) = u.last_updated {
            if prev > now {
                prev
            } else {
                now
            }
        } else {
            now
        };
        let mut location = location;
        location.timestamp = Some(t);
        u.location = Some(location);
        u.last_updated = Some(t);
        self.put_record(user_id, u);
    }

    /// Sets the sharing level of `user_id`, creating the record if needed,
    /// and stamps the record as [`LocationStore::update_location`] does.
    pub fn update_sharing_level(&mut self, user_id: &str, level: SharingLevel, now: i64)
        requires
            old(self).wf(),
        ensures
            final(self).wf(),
            final(self).users_view() == old(self).users_view().insert(
                user_id@,
                after_sharing_level(old(self).users_view(), user_id@, level, now),
            ),
            final(self).requests_view() == old(self).requests_view(),
            stamp_advanced(old(self).users_view(), final(self).users_view(), user_id@),
    {
        let mut u = self.base_record(user_id);
        let t = if let Some(prev) = u.last_updated {
            if prev > now {
                prev
            } else {
                now
            }
        } else {
            now
        };
        u.sharing_level = Some(level);
        u.last_updated = Some(t);
        self.put_record(user_id, u);
    }

    /// Sets the display name of `user_id` (absent clears it), creating the
    /// record if needed, and stamps the record as
    /// [`LocationStore::update_location`] does.
    pub fn update_profile(&mut self, user_id: &str, user_name: Option<String>, now: i64)
        requires
            old(self).wf(),
        ensures
            final(self).wf(),
            final(self).users_view() == old(self).users_view().insert(
                user_id@,
                after_profile(old(self).users_view(), user_id@, user_name.deep_view(), now),
            ),
            final(self).requests_view() == old(self).requests_view(),
            stamp_advanced(old(self).users_view(), final(self).users_view(), user_id@),
    {
        let mut u = self.base_record(user_id);
        let t = if let Some(prev) = u.last_updated {
            if prev > now {
                prev
            } else {
                now
            }
        } else {
            now
        };
        u.user_name = user_name;
        u.last_updated = Some(t);
        self.put_record(user_id, u);
    }

    fn find_request(&self, request_id: &str) -> (r: Option<usize>)
        ensures
            match r {
                Some(i) => i < self.requests_view().len() && self.requests_view()[i as int].id
                    == request_id@,
                None => !has_request(self.requests_view(), request_id@),
            },
    {
        let target = request_id.to_owned();
        let mut i: usize = 0;
        while i < self.friend_requests.len()
            invariant
                i <= self.friend_requests.len(),
                target@ == request_id@,
                forall|j: int| 0 <= j < i ==> self.requests_view()[j].id != request_id@,
            decreases self.friend_requests.len() - i,
        {
            if self.friend_requests[i].id == target {
                return Some(i);
            }
            i = i + 1;
        }
        None
    }

    /// The request with id `request_id`, if there is one.
    pub fn get_friend_request(&self, request_id: &str) -> (r: Option<FriendRequest>)
        ensures
            r is Some <==> has_request(self.requests_view(), request_id@),
            r matches Some(q) ==> exists|i: int|
                0 <= i < self.requests_view().len() && self.requests_view()[i].id == request_id@
                    && #[trigger] self.requests_view()[i] == q@,
    {
        match self.find_request(request_id) {
            Some(i) => Some(self.friend_requests[i].copy()),
            None => None,
        }
    }

    /// Sends a request from `sender_id` to `receiver_id` at time `now`. It
    /// fails with `DuplicateRequest` while a request with the same sender and
    /// receiver exists, pending or accepted; otherwise a pending request is
    /// stored after the others and returned.
    pub fn send_friend_request(&mut self, sender_id: &str, receiver_id: &str, now: i64) -> (r:
        Result<FriendRequest, RequestError>)
        requires
            old(self).wf(),
        ensures
            final(self).wf(),
            final(self).users_view() == old(self).users_view(),
            r is Err <==> has_request(
                old(self).requests_view(),
                request_id_of(sender_id@, receiver_id@),
            ),
            r is Err ==> r == Err::<FriendRequest, RequestError>(RequestError::DuplicateRequest)
                && final(self).requests_view() == old(self).requests_view(),
            r matches Ok(q) ==> q@ == pending_request(sender_id@, receiver_id@, now)
                && final(self).requests_view() == old(self).requests_view().push(q@),
    {
        let mut id = sender_id.to_owned();
        id.append("_");
        id.append(receiver_id);
        proof {
            reveal_strlit("_");
            assert(id@ =~= request_id_of(sender_id@, receiver_id@));
        }
        if let Some(_) = self.find_request(id.as_str()) {
            return Err(RequestError::DuplicateRequest);
        }
        let request = FriendRequest {
            id,
            sender_id: sender_id.to_owned(),
            receiver_id: receiver_id.to_owned(),
            status: FriendRequestStatus::Pending,
            timestamp: now,
        };
        let stored = request.copy();
        self.friend_requests.push(stored);
        assert(self.requests_view() =~= old(self).requests_view().push(request@));
        Ok(request)
    }

    /// The pending requests addressed to `user_id`, oldest first.
    pub fn get_friend_requests(&self, user_id: &str) -> (r: Vec<FriendRequest>)
        ensures
            r@.map_values(|q: FriendRequest| q@) == self.requests_view().filter(pending_for(user_id@)),
    {
        let target = user_id.to_owned();
        let ghost all = self.requests_view();
        let ghost pred = pending_for(user_id@);
        let mut r: Vec<FriendRequest> = Vec::new();
        let mut i: usize = 0;
        while i < self.friend_requests.len()
            invariant
                i <= self.friend_requests.len(),
                target@ == user_id@,
                all == self.requests_view(),
                pred == pending_for(user_id@),
                r@.map_values(|q: FriendRequest| q@) == all.take(i as int).filter(pred),
            decreases self.friend_requests.len() - i,
        {
            proof {
                lemma_take_next(all, i as int);
                lemma_filter_push(all.take(i as int), pred, all[i as int]);
            }
            let q = &self.friend_requests[i];
            if q.receiver_id == target && q.status == FriendRequestStatus::Pending {
                let ghost before = r@.map_values(|q: FriendRequest| q@);
                r.push(q.copy());
                assert(r@.map_values(|q: FriendRequest| q@) =~= before.push(all[i as int]));
            }
            i = i + 1;
        }
        assert(all.take(all.len() as int) =~= all);
        r
    }

    /// Accepts the request with id `request_id`: its status becomes
    /// `Accepted` in place and the updated record is returned. Fails with
    /// `NotFound`, changing nothing, when there is no such request. The
    /// friend graph is not touched.
    pub fn accept_friend_request(&mut self, request_id: &str) -> (r: Result<
        FriendRequest,
        RequestError,
    >)
        requires
            old(self).wf(),
        ensures
            final(self).wf(),
            final(self).users_view() == old(self).users_view(),
            r is Ok <==> has_request(old(self).requests_view(), request_id@),
            r is Err ==> r == Err::<FriendRequest, RequestError>(RequestError::NotFound)
                && final(self).requests_view() == old(self).requests_view(),
            r matches Ok(q) ==> exists|i: int|
                0 <= i < old(self).requests_view().len() && old(self).requests_view()[i].id
                    == request_id@ && q@ == accepted(#[trigger] old(self).requests_view()[i])
                    && final(self).requests_view() == old(self).requests_view().update(i, q@),
    {
        match self.find_request(request_id) {
            Some(i) => {
                let mut q = self.friend_requests[i].copy();
                q.status = FriendRequestStatus::Accepted;
                let stored = q.copy();
                self.friend_requests.set(i, stored);
                assert(self.requests_view() =~= old(self).requests_view().update(i as int, q@));
                Ok(q)
            },
            None => Err(RequestError::NotFound),
        }
    }

    /// Deletes the request with id `request_id`. Succeeds whether or not such
    /// a request existed.
    pub fn decline_friend_request(&mut self, request_id: &str) -> (r: Result<(), RequestError>)
        requires
            old(self).wf(),
        ensures
            final(self).wf(),
            final(self).users_view() == old(self).users_view(),
            r is Ok,
            has_request(old(self).requests_view(), request_id@) ==> exists|i: int|
                0 <= i < old(self).requests_view().len() && #[trigger] old(
                    self,
                ).requests_view()[i].id == request_id@ && final(self).requests_view() == old(
                    self,
                ).requests_view().remove(i),
            !has_request(old(self).requests_view(), request_id@) ==> final(self).requests_view()
                == old(self).requests_view(),
    {
        match self.find_request(request_id) {
            Some(i) => {
                self.friend_requests.remove(i);
                assert(self.requests_view() =~= old(self).requests_view().remove(i as int));
            },
            None => {},
        }
        Ok(())
    }
}

/// Once a request from `sender` to `receiver` is stored, a second one with
/// the same sender and receiver finds its id taken, whatever else is stored.
pub proof fn lemma_send_twice_duplicate(
    reqs: Seq<RequestView>,
    sender: Seq<char>,
    receiver: Seq<char>,
    now: i64,
)
    ensures
        has_request(
            reqs.push(pending_request(sender, receiver, now)),
            request_id_of(sender, receiver),
        ),
{
    let after = reqs.push(pending_request(sender, receiver, now));
    assert(after[reqs.len() as int].id == request_id_of(sender, receiver));
}

} // verus!
