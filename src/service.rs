//! Operations that combine the stores: what a client reads of itself and of
//! its friends, and the acceptance of a friend request together with the
//! friendship it creates.

use crate::location_store::{accepted, base_user, has_request, FriendRequest, LocationStore, RequestError};
use crate::privacy::{apply_privacy, filtered_user};
use crate::sapphire_client::{friends_in, with_friendship, SapphireClient};
use crate::seq_facts::{lemma_filter_push, lemma_take_next};
use crate::types::{empty_user_view, User, UserView};
use vstd::prelude::*;

verus! {

/// The profile of `user_id`: its record, or an empty profile for an id never
/// written.
pub fn get_profile(store: &LocationStore, user_id: &str) -> (r: User)
    ensures
        r@ == base_user(store.users_view(), user_id@),
{
    match store.get_user(user_id) {
        Some(u) => u,
        None => User::empty(user_id),
    }
}

/// Holds of the ids that have a user record in `users`.
pub open spec fn known_in(users: Map<Seq<char>, UserView>) -> spec_fn(Seq<char>) -> bool {
    |f: Seq<char>| users.contains_key(f)
}

/// What a user sees of their friends `ids`: each friend that has a record, in
/// list order, through the privacy filter.
pub open spec fn visible_friends(users: Map<Seq<char>, UserView>, ids: Seq<Seq<char>>) -> Seq<
    UserView,
> {
    ids.filter(known_in(users)).map_values(|f: Seq<char>| filtered_user(users[f]))
}

/// What `user_id` sees of `friend_id`: the filtered record when `friend_id`
/// is among the friends of `user_id` and has a record, else an empty profile.
pub open spec fn visible_friend(
    users: Map<Seq<char>, UserView>,
    graph: Map<Seq<char>, Seq<Seq<char>>>,
    user_id: Seq<char>,
    friend_id: Seq<char>,
) -> UserView {
    if friends_in(graph, user_id).contains(friend_id) && users.contains_key(friend_id) {
        filtered_user(users[friend_id])
    } else {
        empty_user_view(friend_id)
    }
}

fn contains_id(ids: &Vec<String>, x: &str) -> (r: bool)
    ensures
        r == ids.deep_view().contains(x@),
{
    let target = x.to_owned();
    let mut i: usize = 0;
    while i < ids.len()
        invariant
            i <= ids.len(),
            target@ == x@,
            forall|j: int| 0 <= j < i ==> ids.deep_view()[j] != x@,
        decreases ids.len() - i,
    {
        if ids[i] == target {
            assert(ids.deep_view()[i as int] == x@);
            return true;
        }
        i = i + 1;
    }
    false
}

/// The locations of the friends of `user_id`, as [`visible_friends`] says.
pub fn get_friends_locations(store: &LocationStore, graph: &SapphireClient, user_id: &str) -> (r:
    Vec<User>)
    requires
        store.wf(),
    ensures
        r@.map_values(|u: User| u@) == visible_friends(
            store.users_view(),
            friends_in(graph@, user_id@),
        ),
{
    let friends = graph.get_friends(user_id);
    let ghost ids = friends.deep_view();
    let ghost users = store.users_view();
    let ghost pred = known_in(users);
    let mut r: Vec<User> = Vec::new();
    let mut i: usize = 0;
    while i < friends.len()
        invariant
            i <= friends.len(),
            store.wf(),
            ids == friends.deep_view(),
            users == store.users_view(),
            pred == known_in(users),
            r@.map_values(|u: User| u@) == ids.take(i as int).filter(pred).map_values(
                |f: Seq<char>| filtered_user(users[f]),
            ),
        decreases friends.len() - i,
    {
        proof {
            lemma_take_next(ids, i as int);
            lemma_filter_push(ids.take(i as int), pred, ids[i as int]);
        }
        let ghost before = r@.map_values(|u: User| u@);
        if let Some(friend) = store.get_user(friends[i].as_str()) {
            let shown = apply_privacy(friend);
            r.push(shown);
            assert(r@.map_values(|u: User| u@) =~= before.push(filtered_user(users[ids[i as int]])));
            assert(ids.take(i as int + 1).filter(pred).map_values(
                |f: Seq<char>| filtered_user(users[f]),
            ) =~= before.push(filtered_user(users[ids[i as int]])));
        }
        i = i + 1;
    }
    assert(ids.take(ids.len() as int) =~= ids);
    r
}

/// What `user_id` sees of `friend_id`, as [`visible_friend`] says.
pub fn get_friend_location(
    store: &LocationStore,
    graph: &SapphireClient,
    user_id: &str,
    friend_id: &str,
) -> (r: User)
    requires
        store.wf(),
    ensures
        r@ == visible_friend(store.users_view(), graph@, user_id@, friend_id@),
{
    let friends = graph.get_friends(user_id);
    if !contains_id(&friends, friend_id) {
        return User::empty(friend_id);
    }
    match store.get_user(friend_id) {
        Some(friend) => apply_privacy(friend),
        None => User::empty(friend_id),
    }
}

/// Records the friendship of an accepted request: added from the sender's
/// side and then from the receiver's side, each addition linking both users.
pub fn link_accepted(graph: &mut SapphireClient, request: &FriendRequest)
    ensures
        final(graph)@ == with_friendship(
            with_friendship(old(graph)@, request@.sender_id, request@.receiver_id),
            request@.receiver_id,
            request@.sender_id,
        ),
{
    graph.add_friend(request.sender_id.as_str(), request.receiver_id.as_str());
    graph.add_friend(request.receiver_id.as_str(), request.sender_id.as_str());
}

/// Accepts the request `request_id` and, when that succeeds, links its users
/// as [`link_accepted`] does. On failure neither store changes.
pub fn accept_and_befriend(
    store: &mut LocationStore,
    graph: &mut SapphireClient,
    request_id: &str,
) -> (r: Result<FriendRequest, RequestError>)
    requires
        old(store).wf(),
    ensures
        final(store).wf(),
        final(store).users_view() == old(store).users_view(),
        r is Ok <==> has_request(old(store).requests_view(), request_id@),
        r is Err ==> r == Err::<FriendRequest, RequestError>(
            RequestError::NotFound,
        ) && final(store).requests_view() == old(store).requests_view() && final(graph)@ == old(
            graph,
        )@,
        r matches Ok(q) ==> exists|i: int|
            0 <= i < old(store).requests_view().len() && old(store).requests_view()[i].id
                == request_id@ && q@ == accepted(#[trigger] old(store).requests_view()[i])
                && final(store).requests_view() == old(store).requests_view().update(i, q@),
        r matches Ok(q) ==> final(graph)@ == with_friendship(
            with_friendship(old(graph)@, q@.sender_id, q@.receiver_id),
            q@.receiver_id,
            q@.sender_id,
        ),
{
    let r = store.accept_friend_request(request_id);
    if let Ok(q) = &r {
        link_accepted(graph, q);
    }
    r
}

} // verus!
