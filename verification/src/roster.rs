//! The roster: who is in the room, as the server last listed them.
//!
//! A roster is made from a list of names and from nothing else. Each name
//! appears in it once, at the place of its first mention, with the avatar
//! that belongs to the name.

use vstd::prelude::*;
use vstd::string::*;
use crate::text::text_eq;

verus! {

/// One participant.
#[derive(Clone, Debug, PartialEq, Eq)]
pub struct UserProfile {
    pub name: String,
    pub avatar: String,
    pub online: bool,
}

/// What a [`UserProfile`] holds.
pub struct UserProfileView {
    pub name: Seq<char>,
    pub avatar: Seq<char>,
    pub online: bool,
}

impl View for UserProfile {
    type V = UserProfileView;

    open spec fn view(&self) -> UserProfileView {
        UserProfileView { name: self.name@, avatar: self.avatar@, online: self.online }
    }
}

impl DeepView for UserProfile {
    type V = UserProfileView;

    open spec fn deep_view(&self) -> UserProfileView {
        self@
    }
}

/// The address of the avatar that belongs to `name`: the name, as it is,
/// between a fixed prefix and `.svg`.
pub open spec fn avatar_of(name: Seq<char>) -> Seq<char> {
    "https://avatars.dicebear.com/api/adventurer-neutral/"@ + name + ".svg"@
}

/// The participant that a name in a list stands for. Every listed
/// participant counts as online: the server sends no other sign of life.
pub open spec fn profile_of(name: Seq<char>) -> UserProfileView {
    UserProfileView { name, avatar: avatar_of(name), online: true }
}

/// `names` without repetitions: each name at the place of its first mention.
pub open spec fn first_mentions(names: Seq<Seq<char>>) -> Seq<Seq<char>>
    decreases names.len(),
{
    if names.len() == 0 {
        Seq::empty()
    } else {
        let kept = first_mentions(names.drop_last());
        if kept.contains(names.last()) {
            kept
        } else {
            kept.push(names.last())
        }
    }
}

/// The roster that a list of names stands for.
pub open spec fn roster_of(names: Seq<Seq<char>>) -> Seq<UserProfileView> {
    let kept = first_mentions(names);
    Seq::new(kept.len(), |i: int| profile_of(kept[i]))
}

/// The names of a roster, in order.
pub open spec fn names_of(users: Seq<UserProfileView>) -> Seq<Seq<char>> {
    Seq::new(users.len(), |i: int| users[i].name)
}

/// What holds of every roster: no two entries share a name, and each entry
/// has the avatar of its name.
pub open spec fn roster_well_formed(users: Seq<UserProfileView>) -> bool {
    &&& names_of(users).no_duplicates()
    &&& forall|i: int| 0 <= i < users.len() ==> (#[trigger] users[i]).avatar == avatar_of(users[i].name)
}

/// No name is kept twice.
pub proof fn lemma_first_mentions_distinct(names: Seq<Seq<char>>)
    ensures
        first_mentions(names).no_duplicates(),
    decreases names.len(),
{
    if names.len() > 0 {
        lemma_first_mentions_distinct(names.drop_last());
    }
}

/// The names kept are the names mentioned.
pub proof fn lemma_first_mentions_same_names(names: Seq<Seq<char>>, name: Seq<char>)
    ensures
        first_mentions(names).contains(name) <==> names.contains(name),
    decreases names.len(),
{
    if names.len() > 0 {
        let init = names.drop_last();
        lemma_first_mentions_same_names(init, name);
        let kept = first_mentions(init);
        if names.contains(name) {
            let i = choose|i: int| 0 <= i < names.len() && names[i] == name;
            if i < init.len() {
                assert(init[i] == name);
                assert(init.contains(name));
                if !kept.contains(names.last()) {
                    let k = choose|k: int| 0 <= k < kept.len() && kept[k] == name;
                    assert(kept.push(names.last())[k] == name);
                }
            } else {
                if !kept.contains(names.last()) {
                    assert(kept.push(names.last())[kept.len() as int] == name);
                }
            }
        }
        if first_mentions(names).contains(name) {
            let k = choose|k: int| 0 <= k < first_mentions(names).len() && first_mentions(names)[k] == name;
            if k < kept.len() {
                assert(kept[k] == name);
                assert(kept.contains(name));
                let i = choose|i: int| 0 <= i < init.len() && init[i] == name;
                assert(names[i] == name);
            } else {
                assert(names[names.len() - 1] == name);
            }
        }
    }
}

/// Names are kept in the order of their first mention: what is kept from
/// the start of a list stays, as it is, at the start of what is kept from
/// the whole list.
pub proof fn lemma_first_mentions_keeps_order(names: Seq<Seq<char>>, k: int)
    requires
        0 <= k <= names.len(),
    ensures
        first_mentions(names.take(k)).is_prefix_of(first_mentions(names)),
    decreases names.len(),
{
    if k == names.len() {
        assert(names.take(k) =~= names);
    } else {
        let init = names.drop_last();
        lemma_first_mentions_keeps_order(init, k);
        assert(init.take(k) =~= names.take(k));
        let start = first_mentions(names.take(k));
        let kept = first_mentions(init);
        assert(start =~= first_mentions(names).subrange(0, start.len() as int)) by {
            assert(start =~= kept.subrange(0, start.len() as int));
        }
    }
}

/// A list without repetitions is kept as it is.
pub proof fn lemma_first_mentions_of_distinct(names: Seq<Seq<char>>)
    requires
        names.no_duplicates(),
    ensures
        first_mentions(names) == names,
    decreases names.len(),
{
    if names.len() > 0 {
        let init = names.drop_last();
        lemma_first_mentions_of_distinct(init);
        if init.contains(names.last()) {
            let i = choose|i: int| 0 <= i < init.len() && init[i] == names.last();
            assert(names[i] == names[names.len() - 1]);
        }
        assert(init.push(names.last()) =~= names);
    } else {
        assert(names =~= Seq::empty());
    }
}

/// Every roster made from a list of names is well formed.
pub proof fn lemma_roster_of_well_formed(names: Seq<Seq<char>>)
    ensures
        roster_well_formed(roster_of(names)),
        names_of(roster_of(names)) == first_mentions(names),
{
    lemma_first_mentions_distinct(names);
    assert(names_of(roster_of(names)) =~= first_mentions(names));
}

/// A list without repetitions gives a roster with exactly its entries, in
/// its order: one participant for each name, online, with the avatar of the
/// name.
pub proof fn lemma_roster_of_distinct(names: Seq<Seq<char>>)
    requires
        names.no_duplicates(),
    ensures
        roster_of(names).len() == names.len(),
        forall|i: int| 0 <= i < names.len() ==> #[trigger] roster_of(names)[i] == profile_of(names[i]),
{
    lemma_first_mentions_of_distinct(names);
}

/// The address of the avatar that belongs to `name`.
pub fn avatar_url(name: &str) -> (url: String)
    ensures
        url@ == avatar_of(name@),
{
    let mut url = String::from_str("https://avatars.dicebear.com/api/adventurer-neutral/");
    url.append(name);
    url.append(".svg");
    url
}

impl UserProfile {
    /// The participant that `name` stands for in a list from the server.
    pub fn listed(name: String) -> (user: UserProfile)
        ensures
            user@ == profile_of(name@),
    {
        let avatar = avatar_url(name.as_str());
        UserProfile { name, avatar, online: true }
    }
}

/// The first entry of `users` that has the name `name`.
pub fn position_of(users: &Vec<UserProfile>, name: &str) -> (r: Option<usize>)
    ensures
        match r {
            Some(k) => k < users.len() && users[k as int].name@ == name@ && forall|i: int|
                0 <= i < k ==> (#[trigger] users[i]).name@ != name@,
            None => forall|i: int| 0 <= i < users.len() ==> (#[trigger] users[i]).name@ != name@,
        },
{
    let mut k: usize = 0;
    while k < users.len()
        invariant
            k <= users.len(),
            forall|i: int| 0 <= i < k ==> (#[trigger] users[i]).name@ != name@,
        decreases users.len() - k,
    {
        if text_eq(users[k].name.as_str(), name) {
            return Some(k);
        }
        k = k + 1;
    }
    None
}

/// The roster that `names` stands for: one entry for each name, at the place
/// of its first mention.
pub fn build_roster(names: &Vec<String>) -> (users: Vec<UserProfile>)
    ensures
        users.deep_view() == roster_of(names.deep_view()),
        roster_well_formed(users.deep_view()),
{
    let mut users: Vec<UserProfile> = Vec::new();
    let mut i: usize = 0;
    assert(names.deep_view().take(0) =~= Seq::empty());
    assert(users.deep_view() =~= roster_of(Seq::empty()));
    while i < names.len()
        invariant
            i <= names.len(),
            users.deep_view() == roster_of(names.deep_view().take(i as int)),
        decreases names.len() - i,
    {
        let ghost seen = names.deep_view().take(i as int);
        let ghost next = names.deep_view().take(i + 1);
        let ghost kept = first_mentions(seen);
        let ghost before = users.deep_view();
        proof {
            assert(next.drop_last() =~= seen);
            assert(next.last() == names[i as int]@);
            assert(before.len() == kept.len());
            assert forall|k: int| 0 <= k < kept.len() implies kept[k] == (#[trigger] users[k]).name@ by {
                assert(before[k] == profile_of(kept[k]));
            }
        }
        let found = position_of(&users, names[i].as_str());
        if found.is_none() {
            proof {
                if kept.contains(names[i as int]@) {
                    let k = choose|k: int| 0 <= k < kept.len() && kept[k] == names[i as int]@;
                    assert(users[k].name@ == names[i as int]@);
                }
            }
            let ghost earlier = users@;
            users.push(UserProfile::listed(names[i].clone()));
            proof {
                let wanted = roster_of(next);
                assert(first_mentions(next) == kept.push(names[i as int]@));
                assert forall|k: int| 0 <= k < wanted.len() implies users.deep_view()[k]
                    == wanted[k] by {
                    if k < kept.len() {
                        assert(users[k] == earlier[k]);
                        assert(before[k] == profile_of(kept[k]));
                    }
                }
                assert(users.deep_view() =~= wanted);
            }
        } else {
            proof {
                let k = found.unwrap() as int;
                assert(kept[k] == names[i as int]@);
                assert(kept.contains(names[i as int]@));
            }
        }
        i = i + 1;
    }
    proof {
        assert(names.deep_view().take(i as int) =~= names.deep_view());
        lemma_roster_of_well_formed(names.deep_view());
    }
    users
}

} // verus!
