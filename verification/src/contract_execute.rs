//! The state-changing requests: registering and leaving.
//!
//! A registration is checked against the roster and the two length bounds and
//! then appended. Uniqueness is by username alone, while leaving removes by
//! address, so one address may hold several records and lose them all at once.

use crate::constants::{ATTR_ACTION, ATTR_ACTION_LEAVE, ATTR_ACTION_REGISTER};
use crate::error::{ContractError, ContractErrorView};
use crate::msg::{ExecuteMsg, MemberInfo};
use crate::response::{action_attributes, Response};
use crate::state::{
    char_count, has_record, member_views, username_taken, usernames_unique, Member, MemberView,
    State, StateView,
};
use vstd::prelude::*;

verus! {

/// Why a registration is rejected, if it is. The checks come in this order and
/// the first that fails decides: the username is taken, the username is
/// shorter than 4 characters, the introduction is shorter than 12 characters.
pub open spec fn registration_error(
    roster: Seq<MemberView>,
    username: Seq<char>,
    intro: Seq<char>,
) -> Option<ContractErrorView> {
    if username_taken(roster, username) {
        Some(ContractErrorView::MemberAlreadyExists { username })
    } else if username.len() < 4 {
        Some(ContractErrorView::InvalidMemberUsernameLen { username })
    } else if intro.len() < 12 {
        Some(ContractErrorView::InvalidMemberIntroLen)
    } else {
        None
    }
}

/// The state after a registration: with the new record at the end of the
/// roster where the registration is accepted, unchanged where it is rejected.
pub open spec fn after_register(
    state: StateView,
    sender: Seq<char>,
    username: Seq<char>,
    intro: Seq<char>,
) -> StateView {
    if registration_error(state.roster(), username, intro) is None {
        StateView {
            admins: state.admins,
            members: Some(state.roster().push(MemberView { address: sender, username, intro })),
        }
    } else {
        state
    }
}

/// The roster without the records of one address, the others in their order.
pub open spec fn without_address(roster: Seq<MemberView>, address: Seq<char>) -> Seq<MemberView> {
    roster.filter(|m: MemberView| m.address != address)
}

/// The state after an address has left.
pub open spec fn after_leave(state: StateView, sender: Seq<char>) -> StateView {
    StateView { admins: state.admins, members: Some(without_address(state.roster(), sender)) }
}

/// What a call of [`register`] leaves behind and returns.
pub open spec fn register_ensures(
    before: State,
    sender: String,
    member: MemberInfo,
    after: State,
    r: Result<Response, ContractError>,
) -> bool {
    &&& after@ == after_register(before@, sender@, member.username@, member.intro@)
    &&& before@.wf() ==> after@.wf()
    &&& match registration_error(before@.roster(), member.username@, member.intro@) {
        Some(e) => after == before && (r matches Err(err) && err@ == e),
        None => (r matches Ok(resp) && resp@ == action_attributes(ATTR_ACTION_REGISTER@)),
    }
}

/// What a call of [`leave`] leaves behind and returns.
pub open spec fn leave_ensures(
    before: State,
    sender: String,
    after: State,
    r: Result<Response, ContractError>,
) -> bool {
    &&& after@ == after_leave(before@, sender@)
    &&& before@.wf() ==> after@.wf()
    &&& (r matches Ok(resp) && resp@ == action_attributes(ATTR_ACTION_LEAVE@))
}

/// Handles a state-changing request of `sender`.
pub fn execute(state: &mut State, sender: String, msg: ExecuteMsg) -> (r: Result<
    Response,
    ContractError,
>)
    ensures
        match msg {
            ExecuteMsg::Register { member } => register_ensures(
                *old(state),
                sender,
                member,
                *final(state),
                r,
            ),
            ExecuteMsg::Leave {  } => leave_ensures(*old(state), sender, *final(state), r),
        },
{
    match msg {
        ExecuteMsg::Register { member } => register(state, sender, member),
        ExecuteMsg::Leave {  } => leave(state, sender),
    }
}

/// Appends a record for `sender` to the roster, unless the username is taken
/// or one of the two texts is too short; then the state stays as it was.
pub fn register(state: &mut State, sender: String, member: MemberInfo) -> (r: Result<
    Response,
    ContractError,
>)
    ensures
        register_ensures(*old(state), sender, member, *final(state), r),
{
    match &state.members {
        Some(members) => {
            let mut i: usize = 0;
            while i < members.len()
                invariant
                    i <= members.len(),
                    state.members == Some(*members),
                    *state == *old(state),
                    !username_taken(member_views(members@.take(i as int)), member.username@),
                decreases members.len() - i,
            {
                if members[i].username == member.username {
                    assert(member_views(members@)[i as int].username == member.username@);
                    return Err(
                        ContractError::MemberAlreadyExists { username: members[i].username.clone() },
                    );
                }
                assert forall|k: int| 0 <= k < i + 1 implies (#[trigger] member_views(
                    members@.take(i + 1),
                )[k]).username != member.username@ by {
                    if k < i {
                        assert(member_views(members@.take(i as int))[k] == member_views(
                            members@.take(i + 1),
                        )[k]);
                    }
                }
                i += 1;
            }
            assert(members@.take(members.len() as int) =~= members@);
        },
        None => {},
    }
    validate_username(member.username.clone())?;
    validate_intro(member.intro.clone())?;

    let ghost before = state@.roster();
    let new_member = Member { address: sender, username: member.username, intro: member.intro };
    let mut members = match state.members.take() {
        Some(members) => members,
        None => Vec::new(),
    };
    assert(member_views(members@) =~= before);
    members.push(new_member);
    assert(member_views(members@) =~= before.push(new_member@));
    state.members = Some(members);
    proof {
        if old(state)@.wf() {
            lemma_register_keeps_wf(old(state)@, sender@, member.username@, member.intro@);
        }
    }

    Ok(Response::new().add_attribute(ATTR_ACTION, ATTR_ACTION_REGISTER))
}

/// Removes every record of `sender` from the roster and stores what is left.
/// A caller without a record changes nothing, and that is no error.
pub fn leave(state: &mut State, sender: String) -> (r: Result<Response, ContractError>)
    ensures
        leave_ensures(*old(state), sender, *final(state), r),
{
    let ghost before = state@.roster();
    let ghost stays = |m: MemberView| m.address != sender@;
    let members = match state.members.take() {
        Some(members) => members,
        None => Vec::new(),
    };
    assert(member_views(members@) =~= before);
    let ghost stored = members@;
    let mut kept: Vec<Member> = Vec::new();
    for member in it: members
        invariant
            it.seq() == stored,
            member_views(stored) == before,
            stays == |m: MemberView| m.address != sender@,
            member_views(kept@) == before.take(it.index() as int).filter(stays),
            state@.admins == old(state)@.admins,
    {
        proof {
            let i = it.index() as int;
            assert(before.take(i + 1) =~= before.take(i).push(before[i]));
            before.take(i).lemma_filter_push(before[i], stays);
        }
        if !(member.address == sender) {
            let ghost earlier = member_views(kept@);
            kept.push(member);
            assert(member_views(kept@) =~= earlier.push(member@));
        }
    }
    assert(before.take(before.len() as int) =~= before);
    state.members = Some(kept);
    proof {
        if old(state)@.wf() {
            lemma_leave_keeps_wf(old(state)@, sender@);
        }
    }

    Ok(Response::new().add_attribute(ATTR_ACTION, ATTR_ACTION_LEAVE))
}

/// Accepts a username of at least 4 characters.
fn validate_username(username: String) -> (r: Result<Response, ContractError>)
    ensures
        username@.len() >= 4 ==> (r matches Ok(resp) && resp@.len() == 0),
        username@.len() < 4 ==> (r matches Err(err) && err@
            == (ContractErrorView::InvalidMemberUsernameLen { username: username@ })),
{
    if char_count(&username) < 4 {
        return Err(ContractError::InvalidMemberUsernameLen { username });
    }
    Ok(Response::new())
}

/// Accepts an introduction of at least 12 characters.
fn validate_intro(intro: String) -> (r: Result<Response, ContractError>)
    ensures
        intro@.len() >= 12 ==> (r matches Ok(resp) && resp@.len() == 0),
        intro@.len() < 12 ==> (r matches Err(err) && err@
            == ContractErrorView::InvalidMemberIntroLen),
{
    if char_count(&intro) < 12 {
        return Err(ContractError::InvalidMemberIntroLen);
    }
    Ok(Response::new())
}

/// One registration request together with its caller, as mathematical values.
pub struct Registration {
    pub sender: Seq<char>,
    pub username: Seq<char>,
    pub intro: Seq<char>,
}

/// The state after a sequence of registrations, each applied to what the ones
/// before it left.
pub open spec fn after_registrations(state: StateView, calls: Seq<Registration>) -> StateView
    decreases calls.len(),
{
    if calls.len() == 0 {
        state
    } else {
        let call = calls.last();
        after_register(
            after_registrations(state, calls.drop_last()),
            call.sender,
            call.username,
            call.intro,
        )
    }
}

/// Whether an error is one of the two that reject a text for its length.
pub open spec fn is_length_error(e: ContractErrorView) -> bool {
    e is InvalidMemberUsernameLen || e is InvalidMemberIntroLen
}

/// A registration keeps the invariants of the data.
pub proof fn lemma_register_keeps_wf(
    state: StateView,
    sender: Seq<char>,
    username: Seq<char>,
    intro: Seq<char>,
)
    requires
        state.wf(),
    ensures
        after_register(state, sender, username, intro).wf(),
{
    let after = after_register(state, sender, username, intro);
    if registration_error(state.roster(), username, intro) is None {
        let roster = state.roster();
        assert forall|i: int, j: int| 0 <= i < j < after.roster().len() implies (
        #[trigger] after.roster()[i]).username != (#[trigger] after.roster()[j]).username by {
            if j == roster.len() {
                assert(roster[i].username != username);
            } else {
                assert(roster[i].username != roster[j].username);
            }
        }
        assert forall|i: int| 0 <= i < after.roster().len() implies (
        #[trigger] after.roster()[i]).username.len() >= 4 && after.roster()[i].intro.len()
            >= 12 by {
            if i < roster.len() {
                assert(roster[i].username.len() >= 4);
            }
        }
    }
}

/// Every record that is left after an address was taken out stood in the
/// roster before, and none of them belongs to that address.
proof fn lemma_without_address_members(roster: Seq<MemberView>, address: Seq<char>, k: int)
    requires
        0 <= k < without_address(roster, address).len(),
    ensures
        without_address(roster, address)[k].address != address,
        exists|i: int| 0 <= i < roster.len() && roster[i] == without_address(roster, address)[k],
{
    let stays = |m: MemberView| m.address != address;
    let kept = roster.filter(stays);
    roster.lemma_filter_pred(stays, k);
    assert(kept.contains(kept[k]));
    roster.lemma_filter_contains_rev(stays, kept[k]);
    let i = choose|i: int| 0 <= i < roster.len() && roster[i] == kept[k];
    assert(roster[i] == kept[k]);
}

/// Taking an address out keeps the usernames of the others distinct.
proof fn lemma_without_address_keeps_unique(roster: Seq<MemberView>, address: Seq<char>)
    requires
        usernames_unique(roster),
    ensures
        usernames_unique(without_address(roster, address)),
    decreases roster.len(),
{
    let stays = |m: MemberView| m.address != address;
    if roster.len() == 0 {
        roster.lemma_filter_len(stays);
    } else {
        let rest = roster.drop_last();
        let last = roster.last();
        assert(roster =~= rest.push(last));
        rest.lemma_filter_push(last, stays);
        assert(usernames_unique(rest)) by {
            assert forall|i: int, j: int| 0 <= i < j < rest.len() implies (#[trigger] rest[i]).username
                != (#[trigger] rest[j]).username by {
                assert(roster[i].username != roster[j].username);
            }
        }
        lemma_without_address_keeps_unique(rest, address);
        let kept = without_address(rest, address);
        if stays(last) {
            let all = without_address(roster, address);
            assert(all == kept.push(last));
            assert forall|i: int, j: int| 0 <= i < j < all.len() implies (#[trigger] all[i]).username
                != (#[trigger] all[j]).username by {
                if j == kept.len() {
                    lemma_without_address_members(rest, address, i);
                    let n = choose|n: int| 0 <= n < rest.len() && rest[n] == kept[i];
                    assert(roster[n].username != roster[roster.len() - 1].username);
                } else {
                    assert(kept[i].username != kept[j].username);
                }
            }
        }
    }
}

/// Leaving keeps the invariants of the data.
pub proof fn lemma_leave_keeps_wf(state: StateView, sender: Seq<char>)
    requires
        state.wf(),
    ensures
        after_leave(state, sender).wf(),
{
    let roster = state.roster();
    let kept = without_address(roster, sender);
    lemma_without_address_keeps_unique(roster, sender);
    assert forall|k: int| 0 <= k < kept.len() implies (#[trigger] kept[k]).username.len() >= 4
        && kept[k].intro.len() >= 12 by {
        lemma_without_address_members(roster, sender, k);
        let i = choose|i: int| 0 <= i < roster.len() && roster[i] == kept[k];
        assert(roster[i].username.len() >= 4);
    }
}

/// A username that is taken stays taken through any further registrations.
proof fn lemma_username_stays_taken(
    state: StateView,
    calls: Seq<Registration>,
    username: Seq<char>,
)
    requires
        username_taken(state.roster(), username),
    ensures
        username_taken(after_registrations(state, calls).roster(), username),
    decreases calls.len(),
{
    if calls.len() > 0 {
        lemma_username_stays_taken(state, calls.drop_last(), username);
        let before = after_registrations(state, calls.drop_last());
        let call = calls.last();
        let after = after_register(before, call.sender, call.username, call.intro);
        let i = choose|i: int|
            0 <= i < before.roster().len() && (#[trigger] before.roster()[i]).username == username;
        assert(after.roster()[i].username == username);
    }
}

/// Registrations one after another are the registrations up to some point
/// followed by the rest.
proof fn lemma_after_registrations_split(state: StateView, calls: Seq<Registration>, at: int)
    requires
        0 <= at <= calls.len(),
    ensures
        after_registrations(state, calls) == after_registrations(
            after_registrations(state, calls.take(at)),
            calls.skip(at),
        ),
    decreases calls.len() - at,
{
    if at == calls.len() {
        assert(calls.take(at) =~= calls);
        assert(calls.skip(at).len() == 0);
    } else {
        lemma_after_registrations_split(state, calls.drop_last(), at);
        assert(calls.drop_last().take(at) =~= calls.take(at));
        assert(calls.drop_last().skip(at) =~= calls.skip(at).drop_last());
        assert(calls.skip(at).last() == calls.last());
    }
}

/// Registration is unique by username: in any sequence of registrations, a
/// call that repeats the username of an earlier call is rejected with
/// `MemberAlreadyExists` and leaves the state, and so the length of the
/// roster, as it found it. The earlier call must not itself have been
/// rejected for the length of a text: then the username never entered the
/// roster.
pub proof fn lemma_repeated_username_rejected(
    state: StateView,
    calls: Seq<Registration>,
    i: int,
    j: int,
)
    requires
        0 <= i < j < calls.len(),
        calls[i].username == calls[j].username,
        !(registration_error(
            after_registrations(state, calls.take(i)).roster(),
            calls[i].username,
            calls[i].intro,
        ) matches Some(e) && is_length_error(e)),
    ensures
        registration_error(
            after_registrations(state, calls.take(j)).roster(),
            calls[j].username,
            calls[j].intro,
        ) == Some(ContractErrorView::MemberAlreadyExists { username: calls[j].username }),
        after_registrations(state, calls.take(j + 1)) == after_registrations(state, calls.take(j)),
        after_registrations(state, calls.take(j + 1)).roster().len() == after_registrations(
            state,
            calls.take(j),
        ).roster().len(),
{
    let username = calls[i].username;
    let before_first = after_registrations(state, calls.take(i));
    let after_first = after_registrations(state, calls.take(i + 1));
    assert(calls.take(i + 1).drop_last() =~= calls.take(i));
    assert(calls.take(i + 1).last() == calls[i]);
    assert(username_taken(after_first.roster(), username)) by {
        if username_taken(before_first.roster(), username) {
        } else {
            let n = before_first.roster().len() as int;
            assert(after_first.roster()[n].username == username);
        }
    }
    lemma_after_registrations_split(state, calls.take(j), i + 1);
    assert(calls.take(j).take(i + 1) =~= calls.take(i + 1));
    lemma_username_stays_taken(after_first, calls.take(j).skip(i + 1), username);
    assert(calls.take(j + 1).drop_last() =~= calls.take(j));
    assert(calls.take(j + 1).last() == calls[j]);
}

/// A username of fewer than 4 characters is rejected with
/// `InvalidMemberUsernameLen`, and the state stays as it was.
pub proof fn lemma_short_username_rejected(
    state: StateView,
    sender: Seq<char>,
    username: Seq<char>,
    intro: Seq<char>,
)
    requires
        state.wf(),
        username.len() < 4,
    ensures
        registration_error(state.roster(), username, intro) == Some(
            ContractErrorView::InvalidMemberUsernameLen { username },
        ),
        after_register(state, sender, username, intro) == state,
{
    if username_taken(state.roster(), username) {
        let i = choose|i: int|
            0 <= i < state.roster().len() && (#[trigger] state.roster()[i]).username == username;
        assert(state.roster()[i].username.len() >= 4);
    }
}

/// An introduction of fewer than 12 characters is rejected with
/// `InvalidMemberIntroLen`, and the state stays as it was, where the username
/// passes the two checks that come first: it is free and of at least 4 characters.
pub proof fn lemma_short_intro_rejected(
    state: StateView,
    sender: Seq<char>,
    username: Seq<char>,
    intro: Seq<char>,
)
    requires
        intro.len() < 12,
        !username_taken(state.roster(), username),
        username.len() >= 4,
    ensures
        registration_error(state.roster(), username, intro) == Some(
            ContractErrorView::InvalidMemberIntroLen,
        ),
        after_register(state, sender, username, intro) == state,
{
}

/// A text that is too short never changes the state, whichever error the
/// registration ends with.
pub proof fn lemma_short_text_changes_nothing(
    state: StateView,
    sender: Seq<char>,
    username: Seq<char>,
    intro: Seq<char>,
)
    requires
        username.len() < 4 || intro.len() < 12,
    ensures
        registration_error(state.roster(), username, intro) is Some,
        after_register(state, sender, username, intro) == state,
{
}

/// Taking out an address that has no record leaves every record in place.
proof fn lemma_without_absent_address(roster: Seq<MemberView>, address: Seq<char>)
    requires
        !has_record(roster, address),
    ensures
        without_address(roster, address) == roster,
    decreases roster.len(),
{
    let stays = |m: MemberView| m.address != address;
    if roster.len() == 0 {
        roster.lemma_filter_len(stays);
        assert(roster.filter(stays) =~= roster);
    } else {
        let rest = roster.drop_last();
        let last = roster.last();
        assert(roster =~= rest.push(last));
        rest.lemma_filter_push(last, stays);
        assert(!has_record(rest, address)) by {
            if has_record(rest, address) {
                let i = choose|i: int| 0 <= i < rest.len() && (#[trigger] rest[i]).address == address;
                assert(roster[i].address == address);
            }
        }
        lemma_without_absent_address(rest, address);
        assert(roster[roster.len() - 1].address != address);
    }
}

/// Leaving is a safe no-op: for a caller without a record it succeeds, as it
/// always does, and the roster stays as it was.
pub proof fn lemma_leave_without_record(state: StateView, sender: Seq<char>)
    requires
        !has_record(state.roster(), sender),
    ensures
        after_leave(state, sender).roster() == state.roster(),
        after_leave(state, sender).admins == state.admins,
{
    lemma_without_absent_address(state.roster(), sender);
}

/// After an address has left, no record of it is in the roster.
pub proof fn lemma_leave_removes_records(state: StateView, sender: Seq<char>)
    ensures
        !has_record(after_leave(state, sender).roster(), sender),
{
    let kept = after_leave(state, sender).roster();
    if has_record(kept, sender) {
        let k = choose|k: int| 0 <= k < kept.len() && (#[trigger] kept[k]).address == sender;
        lemma_without_address_members(state.roster(), sender, k);
    }
}

/// No state-changing request touches the administrator set.
pub proof fn lemma_execute_keeps_admins(
    state: StateView,
    sender: Seq<char>,
    username: Seq<char>,
    intro: Seq<char>,
)
    ensures
        after_register(state, sender, username, intro).admins == state.admins,
        after_leave(state, sender).admins == state.admins,
{
}

/// Round trip, first half: an accepted registration adds exactly one record,
/// at the end of the roster, made of the caller's address and the two
/// submitted texts; the records before it stay as they were.
pub proof fn lemma_register_adds_one_record(
    state: StateView,
    sender: Seq<char>,
    username: Seq<char>,
    intro: Seq<char>,
)
    requires
        registration_error(state.roster(), username, intro) is None,
    ensures
        after_register(state, sender, username, intro).roster() == state.roster().push(
            MemberView { address: sender, username, intro },
        ),
        after_register(state, sender, username, intro).roster().len() == state.roster().len() + 1,
        after_register(state, sender, username, intro).admins == state.admins,
{
}

/// Round trip, second half: when the caller of an accepted registration
/// leaves, the new record is gone again. The roster is then what leaving
/// would have made of it without the registration, holds no record of the
/// caller, and is the roster from before the registration where the caller
/// had no record then.
pub proof fn lemma_register_then_leave(
    state: StateView,
    sender: Seq<char>,
    username: Seq<char>,
    intro: Seq<char>,
)
    requires
        registration_error(state.roster(), username, intro) is None,
    ensures
        after_leave(after_register(state, sender, username, intro), sender) == after_leave(
            state,
            sender,
        ),
        !has_record(after_leave(after_register(state, sender, username, intro), sender).roster(), sender),
        !has_record(state.roster(), sender) ==> after_leave(
            after_register(state, sender, username, intro),
            sender,
        ).roster() == state.roster(),
{
    let stays = |m: MemberView| m.address != sender;
    let record = MemberView { address: sender, username, intro };
    state.roster().lemma_filter_push(record, stays);
    lemma_leave_removes_records(after_register(state, sender, username, intro), sender);
    if !has_record(state.roster(), sender) {
        lemma_leave_without_record(state, sender);
    }
}

} // verus!
