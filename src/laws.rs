use vstd::prelude::*;

use crate::address::{lemma_addresses_distinct, poll_address, user_address};
use crate::identity::Identity;
use crate::ledger::{
    after_create_poll, after_create_user, after_vote, create_poll_result, create_user_result,
    vote_result, LedgerError, LedgerView,
};
use crate::instructions::{vote_outcome, voted};
use crate::state::{poll_fits, Errors, PollView, UserAccount};

verus! {

/// Once a poll id has been used (by a first request whose record fits its
/// space), creating a poll with that id again fails with `AccountInUse`,
/// whatever else the second request says, and changes nothing: the first poll
/// stays as it was.
pub proof fn lemma_create_poll_twice(
    l: LedgerView,
    payer: Identity,
    poll_id: u32,
    title: Seq<char>,
    description: Seq<char>,
    options: Seq<Seq<char>>,
    end_timestamp: u64,
    payer2: Identity,
    title2: Seq<char>,
    description2: Seq<char>,
    options2: Seq<Seq<char>>,
    end_timestamp2: u64,
)
    requires
        poll_fits(title, description, options),
    ensures
        ({
            let l1 = after_create_poll(l, payer, poll_id, title, description, options, end_timestamp);
            &&& l1.polls.contains_key(poll_address(poll_id))
            &&& create_poll_result(l1, poll_id, title2, description2, options2) == Err::<(), LedgerError>(
                LedgerError::AccountInUse,
            )
            &&& after_create_poll(l1, payer2, poll_id, title2, description2, options2, end_timestamp2)
                == l1
        }),
{
}

/// A poll whose record would not fit the space reserved for it, at a free
/// address, is refused with `AccountDidNotSerialize`, and the ledger stays as
/// it was.
pub proof fn lemma_oversized_poll_refused(
    l: LedgerView,
    payer: Identity,
    poll_id: u32,
    title: Seq<char>,
    description: Seq<char>,
    options: Seq<Seq<char>>,
    end_timestamp: u64,
)
    requires
        !l.polls.contains_key(poll_address(poll_id)),
        !poll_fits(title, description, options),
    ensures
        create_poll_result(l, poll_id, title, description, options) == Err::<(), LedgerError>(
            LedgerError::AccountDidNotSerialize,
        ),
        after_create_poll(l, payer, poll_id, title, description, options, end_timestamp) == l,
{
}

/// A voter who has not voted, voting in an active poll for one of its options,
/// is accepted: the choice goes from
/// zero to the option's index plus one, a number from one to the count of
/// options.
pub proof fn lemma_first_vote_sets_choice(user: UserAccount, poll: PollView, index: u32)
    requires
        poll.wf(),
        user.selected_option == 0,
        poll.is_active,
        index < poll.options.len(),
    ensures
        vote_outcome(user, poll, index) == Ok::<(), Errors>(()),
        voted(user, index).selected_option == index + 1,
        1 <= voted(user, index).selected_option <= poll.options.len(),
{
}

/// Once a voter has a record for a poll, registering the same voter for the
/// same poll again fails with `AccountInUse` and changes nothing.
pub proof fn lemma_create_user_twice(
    l: LedgerView,
    payer: Identity,
    poll_id: u32,
    unix_timestamp: i64,
    unix_timestamp2: i64,
)
    ensures
        ({
            let l1 = after_create_user(l, payer, poll_id, unix_timestamp);
            &&& l1.users.contains_key(user_address(payer, poll_id))
            &&& create_user_result(l1, payer, poll_id) == Err::<(), LedgerError>(
                LedgerError::AccountInUse,
            )
            &&& after_create_user(l1, payer, poll_id, unix_timestamp2) == l1
        }),
{
}

/// A successful vote moves the voter's choice from zero to the chosen option
/// plus one, a number from one to the count of options; every later vote by
/// the same voter in the same poll fails with `AlreadyVoted` and leaves both
/// the voter record and the tally as they were.
pub proof fn lemma_vote_once(l: LedgerView, payer: Identity, poll_id: u32, index: u32, index2: u32)
    requires
        l.wf(),
        vote_result(l, payer, poll_id, index) is Ok,
    ensures
        ({
            let pa = poll_address(poll_id);
            let ua = user_address(payer, poll_id);
            let l1 = after_vote(l, payer, poll_id, index);
            &&& l.users[ua].selected_option == 0
            &&& l1.users[ua].selected_option == index + 1
            &&& 1 <= l1.users[ua].selected_option <= l.polls[pa].options.len()
            &&& l1.polls[pa].tally == l.polls[pa].tally.update(index as int, (l.polls[pa].tally[index as int] + 1) as u16)
            &&& vote_result(l1, payer, poll_id, index2) == Err::<(), LedgerError>(
                LedgerError::Program(Errors::AlreadyVoted),
            )
            &&& after_vote(l1, payer, poll_id, index2) == l1
        }),
{
    let pa = poll_address(poll_id);
    let ua = user_address(payer, poll_id);
    let l1 = after_vote(l, payer, poll_id, index);
    assert(l1.users.contains_key(ua));
    assert(l1.polls.contains_key(pa));
}

/// A vote changes no voter record but the voter's own for that poll: the
/// record of another voter, or of the same voter in another poll, stays as it
/// was, whatever the vote's outcome.
pub proof fn lemma_vote_leaves_other_voters(
    l: LedgerView,
    payer: Identity,
    poll_id: u32,
    index: u32,
    other: Identity,
    other_poll_id: u32,
)
    requires
        other != payer || other_poll_id != poll_id,
        l.users.contains_key(user_address(other, other_poll_id)),
    ensures
        after_vote(l, payer, poll_id, index).users.contains_key(user_address(other, other_poll_id)),
        after_vote(l, payer, poll_id, index).users[user_address(other, other_poll_id)]
            == l.users[user_address(other, other_poll_id)],
{
    lemma_addresses_distinct(poll_id, other_poll_id, payer, other);
}

/// A voter who has not voted, voting in a poll that is no longer active, is
/// refused with `PollEndedError`, and neither record changes.
pub proof fn lemma_inactive_poll_refuses(l: LedgerView, payer: Identity, poll_id: u32, index: u32)
    requires
        l.polls.contains_key(poll_address(poll_id)),
        l.users.contains_key(user_address(payer, poll_id)),
        l.users[user_address(payer, poll_id)].selected_option == 0,
        !l.polls[poll_address(poll_id)].is_active,
    ensures
        vote_result(l, payer, poll_id, index) == Err::<(), LedgerError>(
            LedgerError::Program(Errors::PollEndedError),
        ),
        after_vote(l, payer, poll_id, index) == l,
{
}

/// A voter who has not voted, voting in an active poll for an index at or past
/// the number of options, is refused with `OptionOutOfRange`, and neither
/// record changes.
pub proof fn lemma_out_of_range_refuses(l: LedgerView, payer: Identity, poll_id: u32, index: u32)
    requires
        l.polls.contains_key(poll_address(poll_id)),
        l.users.contains_key(user_address(payer, poll_id)),
        l.users[user_address(payer, poll_id)].selected_option == 0,
        l.polls[poll_address(poll_id)].is_active,
        index >= l.polls[poll_address(poll_id)].options.len(),
    ensures
        vote_result(l, payer, poll_id, index) == Err::<(), LedgerError>(
            LedgerError::Program(Errors::OptionOutOfRange),
        ),
        after_vote(l, payer, poll_id, index) == l,
{
}

} // verus!
