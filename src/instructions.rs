use vstd::prelude::*;

use crate::identity::Identity;
use crate::state::{labels_view, zero_tally, Errors, PollAccount, PollView, UserAccount, TALLY_SLOTS};

verus! {

/// The records that poll creation works on: the signer and the freshly
/// allocated poll record.
#[derive(Debug)]
pub struct InitializePoll {
    pub payer: Identity,
    pub poll_account: PollAccount,
}

/// The records that voter registration works on: the signer and the freshly
/// allocated voter record.
#[derive(Debug)]
pub struct InitializePollUser {
    pub payer: Identity,
    pub poll_user_account: UserAccount,
}

/// The records that casting a vote works on: the signer, the poll, and the
/// signer's voter record for that poll.
#[derive(Debug)]
pub struct AnswerPoll {
    pub payer: Identity,
    pub poll_account: PollAccount,
    pub poll_user_account: UserAccount,
}

/// The poll that creation writes: active, owned by its creator, with every
/// counter at zero.
pub open spec fn new_poll(
    owner: Identity,
    id: u32,
    title: Seq<char>,
    description: Seq<char>,
    options: Seq<Seq<char>>,
    end_timestamp: u64,
) -> PollView {
    PollView {
        id,
        title,
        description,
        options,
        is_active: true,
        tally: zero_tally(TALLY_SLOTS as nat),
        owner,
        end_timestamp,
    }
}

/// The voter record that registration writes: not yet voted.
pub open spec fn new_user(owner: Identity, poll_id: u32, unix_timestamp: i64) -> UserAccount {
    UserAccount { poll_id, owner, selected_option: 0, date_created: unix_timestamp as u64 }
}

/// The outcome of a vote for option `index`: the voter must not have voted,
/// the poll must be active, and the index must name an option, checked in that
/// order.
pub open spec fn vote_outcome(user: UserAccount, poll: PollView, index: u32) -> Result<(), Errors> {
    if user.has_voted() {
        Err(Errors::AlreadyVoted)
    } else if !poll.is_active {
        Err(Errors::PollEndedError)
    } else if !poll.is_option(index) {
        Err(Errors::OptionOutOfRange)
    } else {
        Ok(())
    }
}

/// The voter record after voting for option `index`.
pub open spec fn voted(user: UserAccount, index: u32) -> UserAccount {
    UserAccount { selected_option: (index + 1) as u32, ..user }
}

/// Whether casting a vote for `selected_option` keeps the chosen counter within
/// its width: always so when the vote would be refused anyway.
pub fn vote_fits(ctx: &AnswerPoll, selected_option: u32) -> (r: bool)
    requires
        ctx.poll_account@.wf(),
    ensures
        r == (vote_outcome(ctx.poll_user_account, ctx.poll_account@, selected_option) is Ok
            ==> ctx.poll_account@.tally[selected_option as int] < u16::MAX),
{
    let open_vote = ctx.poll_user_account.selected_option == 0 && ctx.poll_account.is_poll_active
        && (selected_option as usize) < ctx.poll_account.poll_options.len();
    !open_vote || ctx.poll_account.poll_selected_option[selected_option as usize] < u16::MAX
}

/// Fills in a freshly allocated poll record.
pub fn create_poll(
    ctx: &mut InitializePoll,
    poll_id: u32,
    poll_title: String,
    poll_description: String,
    poll_options: Vec<String>,
    poll_end_timestamp: u64,
) -> (r: Result<(), Errors>)
    requires
        poll_options.len() <= TALLY_SLOTS,
    ensures
        r is Ok,
        final(ctx).payer == old(ctx).payer,
        final(ctx).poll_account@ == new_poll(
            old(ctx).payer,
            poll_id,
            poll_title@,
            poll_description@,
            labels_view(poll_options@),
            poll_end_timestamp,
        ),
        final(ctx).poll_account@.wf(),
{
    let poll_account = &mut ctx.poll_account;
    poll_account.id = poll_id;
    poll_account.poll_title = poll_title;
    poll_account.poll_description = poll_description;
    poll_account.poll_options = poll_options;
    poll_account.poll_end_timestamp = poll_end_timestamp;
    poll_account.poll_owner = ctx.payer;
    poll_account.is_poll_active = true;
    poll_account.poll_selected_option = vec![0u16, 0u16, 0u16, 0u16];
    assert(poll_account.poll_selected_option@ =~= zero_tally(TALLY_SLOTS as nat));
    Ok(())
}

/// Fills in a freshly allocated voter record, stamped with the ledger time
/// `unix_timestamp`.
pub fn create_user_account(ctx: &mut InitializePollUser, poll_id: u32, unix_timestamp: i64) -> (r:
    Result<(), Errors>)
    ensures
        r is Ok,
        final(ctx).payer == old(ctx).payer,
        final(ctx).poll_user_account == new_user(old(ctx).payer, poll_id, unix_timestamp),
{
    let poll_user_account = &mut ctx.poll_user_account;
    poll_user_account.poll_id = poll_id;
    poll_user_account.owner = ctx.payer;
    poll_user_account.selected_option = 0;
    poll_user_account.date_created = unix_timestamp as u64;
    Ok(())
}

/// Casts the signer's vote for option `selected_option` (counted from zero).
///
/// On success the voter record remembers the choice and the option's counter
/// goes up by one; on any error neither record changes.
pub fn answer_poll(ctx: &mut AnswerPoll, _poll_id: u32, selected_option: u32) -> (r: Result<(), Errors>)
    requires
        old(ctx).poll_account@.wf(),
        vote_outcome(old(ctx).poll_user_account, old(ctx).poll_account@, selected_option) is Ok
            ==> old(ctx).poll_account@.tally[selected_option as int] < u16::MAX,
    ensures
        r == vote_outcome(old(ctx).poll_user_account, old(ctx).poll_account@, selected_option),
        r is Ok ==> {
            &&& final(ctx).payer == old(ctx).payer
            &&& final(ctx).poll_user_account == voted(old(ctx).poll_user_account, selected_option)
            &&& 1 <= final(ctx).poll_user_account.selected_option <= old(ctx).poll_account@.options.len()
            &&& final(ctx).poll_account@ == old(ctx).poll_account@.with_vote(selected_option)
        },
        r is Err ==> *final(ctx) == *old(ctx),
        final(ctx).poll_account@.wf(),
{
    if ctx.poll_user_account.selected_option != 0 {
        return Err(Errors::AlreadyVoted);
    }
    if !ctx.poll_account.is_poll_active {
        return Err(Errors::PollEndedError);
    }
    if selected_option as usize >= ctx.poll_account.poll_options.len() {
        return Err(Errors::OptionOutOfRange);
    }
    ctx.poll_user_account.selected_option = selected_option + 1;
    let index = selected_option as usize;
    let count = ctx.poll_account.poll_selected_option[index];
    ctx.poll_account.poll_selected_option.set(index, count + 1);
    Ok(())
}

} // verus!
