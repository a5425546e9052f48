//! The persisted state: the administrator set and the member roster.
//!
//! Both are stored as one value each. An entry that was never written is
//! absent, which for the roster means the same as empty.

use vstd::prelude::*;

verus! {

/// The number of characters of a text.
pub(crate) fn char_count(text: &String) -> (n: usize)
    ensures
        n == text@.len(),
{
    text.as_str().unicode_len()
}

/// One record of the roster.
#[derive(Clone, Debug, PartialEq, Eq)]
pub struct Member {
    /// The caller that registered the record.
    pub address: String,
    pub username: String,
    pub intro: String,
}

/// A [`Member`] with its texts as sequences of characters.
pub struct MemberView {
    pub address: Seq<char>,
    pub username: Seq<char>,
    pub intro: Seq<char>,
}

impl View for Member {
    type V = MemberView;

    open spec fn view(&self) -> MemberView {
        MemberView { address: self.address@, username: self.username@, intro: self.intro@ }
    }
}

/// The records of a stored roster, each by its view.
pub open spec fn member_views(members: Seq<Member>) -> Seq<MemberView> {
    members.map_values(|m: Member| m@)
}

/// The addresses of a stored administrator set, each by its view.
pub open spec fn address_views(addresses: Seq<String>) -> Seq<Seq<char>> {
    addresses.map_values(|a: String| a@)
}

/// Whether some record of the roster carries this username.
pub open spec fn username_taken(roster: Seq<MemberView>, username: Seq<char>) -> bool {
    exists|i: int| 0 <= i < roster.len() && (#[trigger] roster[i]).username == username
}

/// Whether some record of the roster was registered by this address.
pub open spec fn has_record(roster: Seq<MemberView>, address: Seq<char>) -> bool {
    exists|i: int| 0 <= i < roster.len() && (#[trigger] roster[i]).address == address
}

/// Whether every record has a username of at least 4 and an introduction of at
/// least 12 characters.
pub open spec fn texts_long_enough(roster: Seq<MemberView>) -> bool {
    forall|i: int|
        0 <= i < roster.len() ==> (#[trigger] roster[i]).username.len() >= 4
            && roster[i].intro.len() >= 12
}

/// Whether no two records carry the same username.
pub open spec fn usernames_unique(roster: Seq<MemberView>) -> bool {
    forall|i: int, j: int|
        0 <= i < j < roster.len() ==> (#[trigger] roster[i]).username != (
        #[trigger] roster[j]).username
}

/// What the contract instance has stored under its two keys.
#[derive(Clone, Debug, PartialEq, Eq)]
pub struct State {
    /// The administrator set; absent until initialization has written it.
    pub admins: Option<Vec<String>>,
    /// The member roster; absent until the first write.
    pub members: Option<Vec<Member>>,
}

/// A [`State`] as mathematical values.
pub struct StateView {
    pub admins: Option<Seq<Seq<char>>>,
    pub members: Option<Seq<MemberView>>,
}

impl StateView {
    /// The roster in storage order; an absent entry reads as the empty roster.
    pub open spec fn roster(self) -> Seq<MemberView> {
        match self.members {
            Some(members) => members,
            None => Seq::empty(),
        }
    }

    /// The invariants of the data: a stored administrator set is not empty,
    /// every record has a username of at least 4 and an introduction of at
    /// least 12 characters, and no username occurs twice.
    pub open spec fn wf(self) -> bool {
        &&& self.admins matches Some(admins) ==> admins.len() > 0
        &&& texts_long_enough(self.roster())
        &&& usernames_unique(self.roster())
    }
}

impl View for State {
    type V = StateView;

    open spec fn view(&self) -> StateView {
        StateView {
            admins: match self.admins {
                Some(admins) => Some(address_views(admins@)),
                None => None,
            },
            members: match self.members {
                Some(members) => Some(member_views(members@)),
                None => None,
            },
        }
    }
}

impl State {
    /// The state of an instance that has stored nothing yet.
    pub fn new() -> (s: State)
        ensures
            s.admins is None,
            s.members is None,
            s@.wf(),
    {
        State { admins: None, members: None }
    }
}

/// A copy of a record, text by text.
pub(crate) fn copy_member(member: &Member) -> (r: Member)
    ensures
        r == *member,
{
    Member {
        address: member.address.clone(),
        username: member.username.clone(),
        intro: member.intro.clone(),
    }
}

/// A copy of a list of records, in the same order.
pub(crate) fn copy_members(members: &Vec<Member>) -> (r: Vec<Member>)
    ensures
        r@ == members@,
{
    let mut r: Vec<Member> = Vec::new();
    let mut i: usize = 0;
    while i < members.len()
        invariant
            i <= members.len(),
            r@ == members@.take(i as int),
        decreases members.len() - i,
    {
        r.push(copy_member(&members[i]));
        assert(r@ =~= members@.take(i + 1));
        i += 1;
    }
    assert(members@.take(members.len() as int) =~= members@);
    r
}

/// A copy of a list of texts, in the same order.
pub(crate) fn copy_texts(texts: &Vec<String>) -> (r: Vec<String>)
    ensures
        r@ == texts@,
{
    let mut r: Vec<String> = Vec::new();
    let mut i: usize = 0;
    while i < texts.len()
        invariant
            i <= texts.len(),
            r@ == texts@.take(i as int),
        decreases texts.len() - i,
    {
        r.push(texts[i].clone());
        assert(r@ =~= texts@.take(i + 1));
        i += 1;
    }
    assert(texts@.take(texts.len() as int) =~= texts@);
    r
}

} // verus!
