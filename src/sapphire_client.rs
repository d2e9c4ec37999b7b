//! The friend graph: one list of friend ids per user, kept in both
//! directions, with duplicates allowed.

use crate::seq_facts::{lemma_filter_excludes, lemma_filter_push, lemma_take_next};
use vstd::hash_map::StringHashMap;
use vstd::prelude::*;

verus! {

/// Friend lists by user id, as the graph's mathematical value.
pub type FriendLists = Map<Seq<char>, Seq<Seq<char>>>;

/// The friends of `id` in `g`, in the order they were added; empty for a user
/// the graph has never seen.
pub open spec fn friends_in(g: FriendLists, id: Seq<char>) -> Seq<Seq<char>> {
    if g.contains_key(id) {
        g[id]
    } else {
        Seq::empty()
    }
}

/// `g` with `friend` appended to the list of `owner`.
pub open spec fn with_appended(g: FriendLists, owner: Seq<char>, friend: Seq<char>) -> FriendLists {
    g.insert(owner, friends_in(g, owner).push(friend))
}

/// `g` after a friendship between `a` and `b` is added: `b` appended to the
/// list of `a`, then `a` appended to the list of `b`.
pub open spec fn with_friendship(g: FriendLists, a: Seq<char>, b: Seq<char>) -> FriendLists {
    with_appended(with_appended(g, a, b), b, a)
}

/// Holds of the ids other than `x`.
pub open spec fn differs_from(x: Seq<char>) -> spec_fn(Seq<char>) -> bool {
    |y: Seq<char>| y != x
}

/// Holds of `x` alone.
pub open spec fn same_as(x: Seq<char>) -> spec_fn(Seq<char>) -> bool {
    |y: Seq<char>| y == x
}

/// `s` without any occurrence of `x`.
pub open spec fn without_id(s: Seq<Seq<char>>, x: Seq<char>) -> Seq<Seq<char>> {
    s.filter(differs_from(x))
}

/// `g` with every occurrence of `friend` taken out of the list of `owner`.
pub open spec fn with_removed(g: FriendLists, owner: Seq<char>, friend: Seq<char>) -> FriendLists {
    if g.contains_key(owner) {
        g.insert(owner, without_id(g[owner], friend))
    } else {
        g
    }
}

/// `g` after the friendship between `a` and `b` is removed, in both directions.
pub open spec fn without_friendship(g: FriendLists, a: Seq<char>, b: Seq<char>) -> FriendLists {
    with_removed(with_removed(g, a, b), b, a)
}

/// How many times `x` occurs in `s`.
pub open spec fn occurrences(s: Seq<Seq<char>>, x: Seq<char>) -> nat {
    s.filter(same_as(x)).len()
}

/// Friendships between users, held in memory.
pub struct SapphireClient {
    friendships: StringHashMap<Vec<String>>,
}

impl View for SapphireClient {
    type V = FriendLists;

    closed spec fn view(&self) -> FriendLists {
        self.friendships@.map_values(|v: Vec<String>| v.deep_view())
    }
}

fn copy_ids(v: &Vec<String>) -> (r: Vec<String>)
    ensures
        r.deep_view() == v.deep_view(),
{
    let mut r: Vec<String> = Vec::new();
    let mut i: usize = 0;
    while i < v.len()
        invariant
            i <= v.len(),
            r.deep_view() == v.deep_view().take(i as int),
        decreases v.len() - i,
    {
        proof {
            lemma_take_next(v.deep_view(), i as int);
        }
        let ghost before = r.deep_view();
        r.push(v[i].clone());
        assert(r.deep_view() =~= before.push(v[i as int]@));
        i = i + 1;
    }
    assert(v.deep_view().take(v.len() as int) =~= v.deep_view());
    r
}

fn ids_without(v: &Vec<String>, x: &str) -> (r: Vec<String>)
    ensures
        r.deep_view() == without_id(v.deep_view(), x@),
{
    let target = x.to_owned();
    let ghost pred = differs_from(x@);
    let mut r: Vec<String> = Vec::new();
    let mut i: usize = 0;
    while i < v.len()
        invariant
            i <= v.len(),
            target@ == x@,
            pred == differs_from(x@),
            r.deep_view() == v.deep_view().take(i as int).filter(pred),
        decreases v.len() - i,
    {
        proof {
            lemma_take_next(v.deep_view(), i as int);
            lemma_filter_push(v.deep_view().take(i as int), pred, v.deep_view()[i as int]);
        }
        if v[i] != target {
            let ghost before = r.deep_view();
            r.push(v[i].clone());
            assert(r.deep_view() =~= before.push(v[i as int]@));
        }
        i = i + 1;
    }
    assert(v.deep_view().take(v.len() as int) =~= v.deep_view());
    r
}

impl SapphireClient {
    /// A graph without friendships.
    pub fn new() -> (r: SapphireClient)
        ensures
            r@ == FriendLists::empty(),
    {
        let r = SapphireClient { friendships: StringHashMap::new() };
        assert(r@ =~= FriendLists::empty());
        r
    }

    /// The friends of `user_id`, duplicates and insertion order kept; empty
    /// for an unknown user.
    pub fn get_friends(&self, user_id: &str) -> (r: Vec<String>)
        ensures
            r.deep_view() == friends_in(self@, user_id@),
    {
        match self.friendships.get(user_id) {
            Some(v) => copy_ids(v),
            None => {
                let r: Vec<String> = Vec::new();
                assert(r.deep_view() =~= Seq::<Seq<char>>::empty());
                r
            },
        }
    }

    fn append(&mut self, owner: &str, friend: &str)
        ensures
            final(self)@ == with_appended(old(self)@, owner@, friend@),
    {
        let mut list = match self.friendships.get(owner) {
            Some(v) => copy_ids(v),
            None => {
                let empty: Vec<String> = Vec::new();
                assert(empty.deep_view() =~= Seq::<Seq<char>>::empty());
                empty
            },
        };
        let ghost before = list.deep_view();
        assert(before == friends_in(old(self)@, owner@));
        list.push(friend.to_owned());
        assert(list.deep_view() =~= before.push(friend@));
        self.friendships.insert(owner.to_owned(), list);
        assert(self@ =~= with_appended(old(self)@, owner@, friend@));
    }

    fn strip(&mut self, owner: &str, friend: &str)
        ensures
            final(self)@ == with_removed(old(self)@, owner@, friend@),
    {
        match self.friendships.get(owner) {
            Some(v) => {
                let kept = ids_without(v, friend);
                self.friendships.insert(owner.to_owned(), kept);
                assert(self@ =~= with_removed(old(self)@, owner@, friend@));
            },
            None => {},
        }
    }

    /// Records a friendship in both directions: `friend_id` is appended to the
    /// list of `user_id` and `user_id` to the list of `friend_id`, whatever the
    /// lists already hold.
    pub fn add_friend(&mut self, user_id: &str, friend_id: &str)
        ensures
            final(self)@ == with_friendship(old(self)@, user_id@, friend_id@),
    {
        self.append(user_id, friend_id);
        self.append(friend_id, user_id);
    }

    /// Removes every occurrence of `friend_id` from the list of `user_id`,
    /// and every occurrence of `user_id` from the list of `friend_id`.
    pub fn remove_friend(&mut self, user_id: &str, friend_id: &str)
        ensures
            final(self)@ == without_friendship(old(self)@, user_id@, friend_id@),
    {
        self.strip(user_id, friend_id);
        self.strip(friend_id, user_id);
    }
}

proof fn lemma_without_excludes(s: Seq<Seq<char>>, x: Seq<char>)
    ensures
        !without_id(s, x).contains(x),
{
    lemma_filter_excludes(s, differs_from(x), x);
}

/// After a friendship between `a` and `b` is added, `b` is among the friends
/// of `a` and `a` among the friends of `b`.
pub proof fn lemma_add_friend_symmetric(g: FriendLists, a: Seq<char>, b: Seq<char>)
    ensures
        friends_in(with_friendship(g, a, b), a).contains(b),
        friends_in(with_friendship(g, a, b), b).contains(a),
{
    let g1 = with_appended(g, a, b);
    let g2 = with_appended(g1, b, a);
    let la = friends_in(g1, a);
    assert(la[la.len() - 1] == b);
    if a == b {
        assert(friends_in(g2, a)[la.len() as int] == b);
    } else {
        assert(friends_in(g2, a)[la.len() - 1] == b);
    }
    let lb = friends_in(g2, b);
    assert(lb[lb.len() - 1] == a);
}

proof fn lemma_occurrences_push(s: Seq<Seq<char>>, x: Seq<char>, w: Seq<char>)
    ensures
        occurrences(s.push(w), x) == occurrences(s, x) + if w == x {
            1nat
        } else {
            0nat
        },
{
    lemma_filter_push(s, same_as(x), w);
}

proof fn lemma_occurrences_after_friendship(g: FriendLists, a: Seq<char>, b: Seq<char>)
    ensures
        occurrences(friends_in(with_friendship(g, a, b), a), b) == occurrences(friends_in(g, a), b)
            + if a == b {
            2nat
        } else {
            1nat
        },
{
    let g1 = with_appended(g, a, b);
    let g2 = with_appended(g1, b, a);
    assert(friends_in(g1, a) == friends_in(g, a).push(b));
    lemma_occurrences_push(friends_in(g, a), b, b);
    if a == b {
        assert(friends_in(g2, a) == friends_in(g1, a).push(a));
        lemma_occurrences_push(friends_in(g1, a), b, a);
    } else {
        assert(friends_in(g2, a) == friends_in(g1, a));
    }
}

/// Adding the same friendship twice leaves two more occurrences of `b` among
/// the friends of `a` (four when `a` and `b` are the same user, since each
/// addition appends to that one list twice): lists are not deduplicated.
pub proof fn lemma_add_friend_twice(g: FriendLists, a: Seq<char>, b: Seq<char>)
    ensures
        occurrences(friends_in(with_friendship(with_friendship(g, a, b), a, b), a), b)
            == occurrences(friends_in(g, a), b) + if a == b {
            4nat
        } else {
            2nat
        },
{
    lemma_occurrences_after_friendship(g, a, b);
    lemma_occurrences_after_friendship(with_friendship(g, a, b), a, b);
}

/// After the friendship between `a` and `b` is removed, `b` occurs nowhere
/// among the friends of `a` and `a` nowhere among the friends of `b`, however
/// many times either occurred before.
pub proof fn lemma_remove_friend_clears(g: FriendLists, a: Seq<char>, b: Seq<char>)
    ensures
        !friends_in(without_friendship(g, a, b), a).contains(b),
        !friends_in(without_friendship(g, a, b), b).contains(a),
{
    let g1 = with_removed(g, a, b);
    let g2 = with_removed(g1, b, a);
    lemma_without_excludes(friends_in(g, a), b);
    lemma_without_excludes(friends_in(g1, b), a);
    if a != b {
        assert(friends_in(g2, a) == friends_in(g1, a));
    }
}

} // verus!
