use vstd::prelude::*;

use crate::address::{poll_address, poll_seeds, same_address, user_address, user_seeds};
use crate::identity::Identity;
use crate::instructions::{
    answer_poll, create_poll, create_user_account, new_poll, new_user, vote_fits, vote_outcome, voted,
    AnswerPoll, InitializePoll, InitializePollUser,
};
use crate::state::{labels_view, poll_fits, poll_record_fits, Errors, PollAccount, PollView, UserAccount};

verus! {

/// Why the host refuses an operation before or after the program's own logic.
#[derive(Clone, Copy, Debug, PartialEq, Eq)]
pub enum LedgerError {
    /// A record already lives at the address that creation derives.
    AccountInUse,
    /// A record that a vote needs does not exist.
    AccountNotInitialized,
    /// The record would not fit in the space reserved for it: more options
    /// than tally counters, or more bytes than the reservation holds.
    AccountDidNotSerialize,
    /// A counter would exceed its width.
    ArithmeticOverflow,
    /// The program refused the vote.
    Program(Errors),
}

/// The records of a ledger, by address.
pub struct LedgerView {
    pub polls: Map<Seq<u8>, PollView>,
    pub users: Map<Seq<u8>, UserAccount>,
}

impl LedgerView {
    /// Every poll is well formed.
    pub open spec fn wf(self) -> bool {
        forall|k: Seq<u8>| #[trigger] self.polls.contains_key(k) ==> self.polls[k].wf()
    }
}

/// Outcome of creating poll `poll_id` with the given text: refused where the
/// address is taken, or where the record would not fit its reserved space.
pub open spec fn create_poll_result(
    l: LedgerView,
    poll_id: u32,
    title: Seq<char>,
    description: Seq<char>,
    options: Seq<Seq<char>>,
) -> Result<(), LedgerError> {
    if l.polls.contains_key(poll_address(poll_id)) {
        Err(LedgerError::AccountInUse)
    } else if !poll_fits(title, description, options) {
        Err(LedgerError::AccountDidNotSerialize)
    } else {
        Ok(())
    }
}

/// The ledger after creating a poll: the new poll at its address on success,
/// no change otherwise.
pub open spec fn after_create_poll(
    l: LedgerView,
    payer: Identity,
    poll_id: u32,
    title: Seq<char>,
    description: Seq<char>,
    options: Seq<Seq<char>>,
    end_timestamp: u64,
) -> LedgerView {
    if create_poll_result(l, poll_id, title, description, options) is Ok {
        LedgerView {
            polls: l.polls.insert(
                poll_address(poll_id),
                new_poll(payer, poll_id, title, description, options, end_timestamp),
            ),
            users: l.users,
        }
    } else {
        l
    }
}

/// Outcome of registering `payer` as a voter in poll `poll_id`.
pub open spec fn create_user_result(l: LedgerView, payer: Identity, poll_id: u32) -> Result<(), LedgerError> {
    if l.users.contains_key(user_address(payer, poll_id)) {
        Err(LedgerError::AccountInUse)
    } else {
        Ok(())
    }
}

/// The ledger after registering a voter: the new record at its address on
/// success, no change otherwise.
pub open spec fn after_create_user(l: LedgerView, payer: Identity, poll_id: u32, unix_timestamp: i64) -> LedgerView {
    if create_user_result(l, payer, poll_id) is Ok {
        LedgerView {
            polls: l.polls,
            users: l.users.insert(user_address(payer, poll_id), new_user(payer, poll_id, unix_timestamp)),
        }
    } else {
        l
    }
}

/// Outcome of `payer` voting for option `index` in poll `poll_id`.
pub open spec fn vote_result(l: LedgerView, payer: Identity, poll_id: u32, index: u32) -> Result<(), LedgerError> {
    let pa = poll_address(poll_id);
    let ua = user_address(payer, poll_id);
    if !(l.polls.contains_key(pa) && l.users.contains_key(ua)) {
        Err(LedgerError::AccountNotInitialized)
    } else {
        match vote_outcome(l.users[ua], l.polls[pa], index) {
            Err(e) => Err(LedgerError::Program(e)),
            Ok(()) => if l.polls[pa].tally[index as int] == u16::MAX {
                Err(LedgerError::ArithmeticOverflow)
            } else {
                Ok(())
            },
        }
    }
}

/// The ledger after a vote: both records updated together on success, no
/// change otherwise.
pub open spec fn after_vote(l: LedgerView, payer: Identity, poll_id: u32, index: u32) -> LedgerView {
    let pa = poll_address(poll_id);
    let ua = user_address(payer, poll_id);
    if vote_result(l, payer, poll_id, index) is Ok {
        LedgerView {
            polls: l.polls.insert(pa, l.polls[pa].with_vote(index)),
            users: l.users.insert(ua, voted(l.users[ua], index)),
        }
    } else {
        l
    }
}

struct PollSlot {
    address: Vec<u8>,
    account: PollAccount,
}

struct UserSlot {
    address: Vec<u8>,
    account: UserAccount,
}

/// An in-process host for the program: records live at derived addresses,
/// creation succeeds only where the address is free, and each operation either
/// applies all of its writes or none.
pub struct Ledger {
    polls: Vec<PollSlot>,
    users: Vec<UserSlot>,
    poll_map: Ghost<Map<Seq<u8>, PollView>>,
    user_map: Ghost<Map<Seq<u8>, UserAccount>>,
}

impl View for Ledger {
    type V = LedgerView;

    closed spec fn view(&self) -> LedgerView {
        LedgerView { polls: self.poll_map@, users: self.user_map@ }
    }
}

impl Ledger {
    /// Each stored record sits at the address the map gives it, no address is
    /// used twice, and every poll is well formed.
    pub closed spec fn wf(&self) -> bool {
        &&& forall|i: int, j: int|
            0 <= i < j < self.polls.len() ==> self.polls@[i].address@ != self.polls@[j].address@
        &&& forall|i: int|
            0 <= i < self.polls.len() ==> {
                &&& #[trigger] self.poll_map@.contains_key(self.polls@[i].address@)
                &&& self.poll_map@[self.polls@[i].address@] == self.polls@[i].account@
            }
        &&& forall|k: Seq<u8>|
            #[trigger] self.poll_map@.contains_key(k) ==> exists|i: int|
                0 <= i < self.polls.len() && self.polls@[i].address@ == k
        &&& forall|k: Seq<u8>| #[trigger] self.poll_map@.contains_key(k) ==> self.poll_map@[k].wf()
        &&& forall|i: int, j: int|
            0 <= i < j < self.users.len() ==> self.users@[i].address@ != self.users@[j].address@
        &&& forall|i: int|
            0 <= i < self.users.len() ==> {
                &&& #[trigger] self.user_map@.contains_key(self.users@[i].address@)
                &&& self.user_map@[self.users@[i].address@] == self.users@[i].account
            }
        &&& forall|k: Seq<u8>|
            #[trigger] self.user_map@.contains_key(k) ==> exists|i: int|
                0 <= i < self.users.len() && self.users@[i].address@ == k
    }

    /// The records of a well-formed ledger are well formed.
    pub proof fn lemma_view_wf(&self)
        requires
            self.wf(),
        ensures
            self@.wf(),
    {
        assert forall|k: Seq<u8>| #[trigger] self@.polls.contains_key(k) implies self@.polls[k].wf() by {
            assert(self.poll_map@.contains_key(k));
        }
    }

    /// A ledger with no records.
    pub fn new() -> (r: Ledger)
        ensures
            r.wf(),
            r@.polls == Map::<Seq<u8>, PollView>::empty(),
            r@.users == Map::<Seq<u8>, UserAccount>::empty(),
    {
        Ledger {
            polls: Vec::new(),
            users: Vec::new(),
            poll_map: Ghost(Map::empty()),
            user_map: Ghost(Map::empty()),
        }
    }

    fn find_poll(&self, address: &Vec<u8>) -> (r: Option<usize>)
        requires
            self.wf(),
        ensures
            r matches Some(i) ==> i < self.polls.len() && self.polls@[i as int].address@ == address@,
            r is None ==> !self@.polls.contains_key(address@),
    {
        let mut i: usize = 0;
        while i < self.polls.len()
            invariant
                self.wf(),
                i <= self.polls.len(),
                forall|j: int| 0 <= j < i ==> self.polls@[j].address@ != address@,
            decreases self.polls.len() - i,
        {
            if same_address(&self.polls[i].address, address) {
                return Some(i);
            }
            i = i + 1;
        }
        None
    }

    fn find_user(&self, address: &Vec<u8>) -> (r: Option<usize>)
        requires
            self.wf(),
        ensures
            r matches Some(i) ==> i < self.users.len() && self.users@[i as int].address@ == address@,
            r is None ==> !self@.users.contains_key(address@),
    {
        let mut i: usize = 0;
        while i < self.users.len()
            invariant
                self.wf(),
                i <= self.users.len(),
                forall|j: int| 0 <= j < i ==> self.users@[j].address@ != address@,
            decreases self.users.len() - i,
        {
            if same_address(&self.users[i].address, address) {
                return Some(i);
            }
            i = i + 1;
        }
        None
    }

    /// The poll with id `poll_id`, if it exists.
    pub fn poll(&self, poll_id: u32) -> (r: Option<&PollAccount>)
        requires
            self.wf(),
        ensures
            r is Some <==> self@.polls.contains_key(poll_address(poll_id)),
            r matches Some(p) ==> p@ == self@.polls[poll_address(poll_id)],
    {
        let address = poll_seeds(poll_id);
        match self.find_poll(&address) {
            Some(i) => {
                assert(self.poll_map@.contains_key(self.polls@[i as int].address@));
                Some(&self.polls[i].account)
            },
            None => None,
        }
    }

    /// The voter record of `owner` for poll `poll_id`, if it exists.
    pub fn voter(&self, owner: &Identity, poll_id: u32) -> (r: Option<UserAccount>)
        requires
            self.wf(),
        ensures
            r is Some <==> self@.users.contains_key(user_address(*owner, poll_id)),
            r matches Some(u) ==> u == self@.users[user_address(*owner, poll_id)],
    {
        let address = user_seeds(owner, poll_id);
        match self.find_user(&address) {
            Some(i) => {
                assert(self.user_map@.contains_key(self.users@[i as int].address@));
                Some(self.users[i].account)
            },
            None => None,
        }
    }

    /// Creates poll `poll_id` on behalf of `payer`, if no poll lives at its
    /// address yet and the record fits the space reserved for it.
    pub fn create_poll(
        &mut self,
        payer: Identity,
        poll_id: u32,
        poll_title: String,
        poll_description: String,
        poll_options: Vec<String>,
        poll_end_timestamp: u64,
    ) -> (r: Result<(), LedgerError>)
        requires
            old(self).wf(),
        ensures
            final(self).wf(),
            r == create_poll_result(
                old(self)@,
                poll_id,
                poll_title@,
                poll_description@,
                labels_view(poll_options@),
            ),
            final(self)@ == after_create_poll(
                old(self)@,
                payer,
                poll_id,
                poll_title@,
                poll_description@,
                labels_view(poll_options@),
                poll_end_timestamp,
            ),
    {
        let address = poll_seeds(poll_id);
        if self.find_poll(&address).is_some() {
            return Err(LedgerError::AccountInUse);
        }
        if !poll_record_fits(&poll_title, &poll_description, &poll_options) {
            return Err(LedgerError::AccountDidNotSerialize);
        }
        let mut ctx = InitializePoll { payer, poll_account: PollAccount::empty() };
        let created = create_poll(
            &mut ctx,
            poll_id,
            poll_title,
            poll_description,
            poll_options,
            poll_end_timestamp,
        );
        match created {
            Ok(()) => {},
            Err(e) => {
                return Err(LedgerError::Program(e));
            },
        }
        let ghost view = ctx.poll_account@;
        self.polls.push(PollSlot { address, account: ctx.poll_account });
        self.poll_map = Ghost(self.poll_map@.insert(address@, view));
        proof {
            self.lemma_wf_after_push(*old(self));
        }
        Ok(())
    }

    /// Registers `payer` as a voter in poll `poll_id`, stamped with the ledger
    /// time `unix_timestamp`, if no such record exists yet. The poll itself
    /// need not exist.
    pub fn create_user_account(&mut self, payer: Identity, poll_id: u32, unix_timestamp: i64) -> (r:
        Result<(), LedgerError>)
        requires
            old(self).wf(),
        ensures
            final(self).wf(),
            r == create_user_result(old(self)@, payer, poll_id),
            final(self)@ == after_create_user(old(self)@, payer, poll_id, unix_timestamp),
    {
        let address = user_seeds(&payer, poll_id);
        if self.find_user(&address).is_some() {
            return Err(LedgerError::AccountInUse);
        }
        let mut ctx = InitializePollUser { payer, poll_user_account: UserAccount {
            poll_id: 0,
            owner: Identity::new([0u8; 32]),
            selected_option: 0,
            date_created: 0,
        } };
        let created = create_user_account(&mut ctx, poll_id, unix_timestamp);
        match created {
            Ok(()) => {},
            Err(e) => {
                return Err(LedgerError::Program(e));
            },
        }
        let account = ctx.poll_user_account;
        self.users.push(UserSlot { address, account });
        self.user_map = Ghost(self.user_map@.insert(address@, account));
        proof {
            self.lemma_wf_after_push(*old(self));
        }
        Ok(())
    }

    /// Casts `payer`'s vote for option `selected_option` in poll `poll_id`.
    /// The poll and the voter's record are located by their addresses, and are
    /// updated together or not at all.
    pub fn answer_poll(&mut self, payer: Identity, poll_id: u32, selected_option: u32) -> (r: Result<
        (),
        LedgerError,
    >)
        requires
            old(self).wf(),
        ensures
            final(self).wf(),
            r == vote_result(old(self)@, payer, poll_id, selected_option),
            final(self)@ == after_vote(old(self)@, payer, poll_id, selected_option),
    {
        let pa = poll_seeds(poll_id);
        let ua = user_seeds(&payer, poll_id);
        let pi = match self.find_poll(&pa) {
            Some(i) => i,
            None => {
                return Err(LedgerError::AccountNotInitialized);
            },
        };
        let ui = match self.find_user(&ua) {
            Some(i) => i,
            None => {
                return Err(LedgerError::AccountNotInitialized);
            },
        };
        proof {
            assert(self.poll_map@.contains_key(self.polls@[pi as int].address@));
            assert(self.user_map@.contains_key(self.users@[ui as int].address@));
        }
        let ghost old_polls = self.polls@;
        let ghost old_users = self.users@;
        let poll_slot = self.polls.remove(pi);
        let user_slot = self.users.remove(ui);
        let mut ctx = AnswerPoll {
            payer,
            poll_account: poll_slot.account,
            poll_user_account: user_slot.account,
        };
        let outcome = if vote_fits(&ctx, selected_option) {
            match answer_poll(&mut ctx, poll_id, selected_option) {
                Ok(()) => Ok(()),
                Err(e) => Err(LedgerError::Program(e)),
            }
        } else {
            Err(LedgerError::ArithmeticOverflow)
        };
        let ghost poll_view = ctx.poll_account@;
        let user_account = ctx.poll_user_account;
        self.polls.insert(pi, PollSlot { address: poll_slot.address, account: ctx.poll_account });
        self.users.insert(ui, UserSlot { address: user_slot.address, account: user_account });
        proof {
            assert(self.polls@ =~= old_polls.update(pi as int, self.polls@[pi as int]));
            assert(self.users@ =~= old_users.update(ui as int, self.users@[ui as int]));
        }
        match outcome {
            Ok(()) => {
                self.poll_map = Ghost(self.poll_map@.insert(pa@, poll_view));
                self.user_map = Ghost(self.user_map@.insert(ua@, user_account));
                proof {
                    self.lemma_wf_after_update(*old(self), pi as int, ui as int);
                }
                Ok(())
            },
            Err(e) => {
                proof {
                    assert(self.polls@ =~= old_polls);
                    assert(self.users@ =~= old_users);
                }
                Err(e)
            },
        }
    }

    /// Adding one record at a fresh address, to the polls or to the voter
    /// records or to both, with the maps updated to match, keeps the ledger
    /// well formed.
    proof fn lemma_wf_after_push(&self, prev: Ledger)
        requires
            prev.wf(),
            (self.polls@ == prev.polls@ && self.poll_map@ == prev.poll_map@) || ({
                &&& self.polls.len() == prev.polls.len() + 1
                &&& self.polls@ == prev.polls@.push(self.polls@.last())
                &&& !prev.poll_map@.contains_key(self.polls@.last().address@)
                &&& self.poll_map@ == prev.poll_map@.insert(
                    self.polls@.last().address@,
                    self.polls@.last().account@,
                )
                &&& self.polls@.last().account@.wf()
            }),
            (self.users@ == prev.users@ && self.user_map@ == prev.user_map@) || ({
                &&& self.users.len() == prev.users.len() + 1
                &&& self.users@ == prev.users@.push(self.users@.last())
                &&& !prev.user_map@.contains_key(self.users@.last().address@)
                &&& self.user_map@ == prev.user_map@.insert(
                    self.users@.last().address@,
                    self.users@.last().account,
                )
            }),
        ensures
            self.wf(),
    {
        let np = prev.polls.len() as int;
        let nu = prev.users.len() as int;
        assert forall|i: int, j: int|
            0 <= i < j < self.polls.len() implies self.polls@[i].address@ != self.polls@[j].address@ by {
            assert(self.polls@[i] == prev.polls@[i]);
            assert(prev.poll_map@.contains_key(prev.polls@[i].address@));
            if j < np {
                assert(self.polls@[j] == prev.polls@[j]);
            }
        }
        assert forall|i: int| 0 <= i < self.polls.len() implies {
            &&& #[trigger] self.poll_map@.contains_key(self.polls@[i].address@)
            &&& self.poll_map@[self.polls@[i].address@] == self.polls@[i].account@
        } by {
            if i < np {
                assert(self.polls@[i] == prev.polls@[i]);
                assert(prev.poll_map@.contains_key(prev.polls@[i].address@));
            }
        }
        assert forall|k: Seq<u8>| #[trigger] self.poll_map@.contains_key(k) implies exists|i: int|
            0 <= i < self.polls.len() && self.polls@[i].address@ == k by {
            if prev.poll_map@.contains_key(k) {
                let i = choose|i: int| 0 <= i < np && prev.polls@[i].address@ == k;
                assert(self.polls@[i] == prev.polls@[i]);
            } else {
                assert(self.polls@[np].address@ == k);
            }
        }
        assert forall|k: Seq<u8>| #[trigger] self.poll_map@.contains_key(k) implies self.poll_map@[k].wf() by {
            if prev.poll_map@.contains_key(k) {
                assert(prev.poll_map@[k].wf());
            }
        }
        assert forall|i: int, j: int|
            0 <= i < j < self.users.len() implies self.users@[i].address@ != self.users@[j].address@ by {
            assert(self.users@[i] == prev.users@[i]);
            assert(prev.user_map@.contains_key(prev.users@[i].address@));
            if j < nu {
                assert(self.users@[j] == prev.users@[j]);
            }
        }
        assert forall|i: int| 0 <= i < self.users.len() implies {
            &&& #[trigger] self.user_map@.contains_key(self.users@[i].address@)
            &&& self.user_map@[self.users@[i].address@] == self.users@[i].account
        } by {
            if i < nu {
                assert(self.users@[i] == prev.users@[i]);
                assert(prev.user_map@.contains_key(prev.users@[i].address@));
            }
        }
        assert forall|k: Seq<u8>| #[trigger] self.user_map@.contains_key(k) implies exists|i: int|
            0 <= i < self.users.len() && self.users@[i].address@ == k by {
            if prev.user_map@.contains_key(k) {
                let i = choose|i: int| 0 <= i < nu && prev.users@[i].address@ == k;
                assert(self.users@[i] == prev.users@[i]);
            } else {
                assert(self.users@[nu].address@ == k);
            }
        }
    }

    /// Replacing the record at one poll slot and one voter slot, with the maps
    /// updated to match, keeps the ledger well formed.
    proof fn lemma_wf_after_update(&self, prev: Ledger, pi: int, ui: int)
        requires
            prev.wf(),
            0 <= pi < prev.polls.len(),
            0 <= ui < prev.users.len(),
            self.polls.len() == prev.polls.len(),
            self.users.len() == prev.users.len(),
            self.polls@ == prev.polls@.update(pi, self.polls@[pi]),
            self.users@ == prev.users@.update(ui, self.users@[ui]),
            self.polls@[pi].address@ == prev.polls@[pi].address@,
            self.users@[ui].address@ == prev.users@[ui].address@,
            self.poll_map@ == prev.poll_map@.insert(self.polls@[pi].address@, self.polls@[pi].account@),
            self.user_map@ == prev.user_map@.insert(self.users@[ui].address@, self.users@[ui].account),
            self.polls@[pi].account@.wf(),
        ensures
            self.wf(),
    {
        assert forall|i: int, j: int|
            0 <= i < j < self.polls.len() implies self.polls@[i].address@ != self.polls@[j].address@ by {
            assert(prev.polls@[i].address@ != prev.polls@[j].address@);
        }
        assert forall|i: int| 0 <= i < self.polls.len() implies {
            &&& #[trigger] self.poll_map@.contains_key(self.polls@[i].address@)
            &&& self.poll_map@[self.polls@[i].address@] == self.polls@[i].account@
        } by {
            if i != pi {
                assert(self.polls@[i] == prev.polls@[i]);
                assert(prev.poll_map@.contains_key(prev.polls@[i].address@));
                assert(prev.polls@[i].address@ != prev.polls@[pi].address@) by {
                    if i < pi {
                        assert(prev.polls@[i].address@ != prev.polls@[pi].address@);
                    } else {
                        assert(prev.polls@[pi].address@ != prev.polls@[i].address@);
                    }
                }
            }
        }
        assert forall|k: Seq<u8>| #[trigger] self.poll_map@.contains_key(k) implies exists|i: int|
            0 <= i < self.polls.len() && self.polls@[i].address@ == k by {
            if k == self.polls@[pi].address@ {
                assert(self.polls@[pi].address@ == k);
            } else {
                assert(prev.poll_map@.contains_key(k));
                let i = choose|i: int| 0 <= i < prev.polls.len() && prev.polls@[i].address@ == k;
                assert(self.polls@[i] == prev.polls@[i]);
            }
        }
        assert forall|k: Seq<u8>| #[trigger] self.poll_map@.contains_key(k) implies self.poll_map@[k].wf() by {
            if k != self.polls@[pi].address@ {
                assert(prev.poll_map@.contains_key(k));
            }
        }
        assert forall|i: int, j: int|
            0 <= i < j < self.users.len() implies self.users@[i].address@ != self.users@[j].address@ by {
            assert(prev.users@[i].address@ != prev.users@[j].address@);
        }
        assert forall|i: int| 0 <= i < self.users.len() implies {
            &&& #[trigger] self.user_map@.contains_key(self.users@[i].address@)
            &&& self.user_map@[self.users@[i].address@] == self.users@[i].account
        } by {
            if i != ui {
                assert(self.users@[i] == prev.users@[i]);
                assert(prev.user_map@.contains_key(prev.users@[i].address@));
                assert(prev.users@[i].address@ != prev.users@[ui].address@) by {
                    if i < ui {
                        assert(prev.users@[i].address@ != prev.users@[ui].address@);
                    } else {
                        assert(prev.users@[ui].address@ != prev.users@[i].address@);
                    }
                }
            }
        }
        assert forall|k: Seq<u8>| #[trigger] self.user_map@.contains_key(k) implies exists|i: int|
            0 <= i < self.users.len() && self.users@[i].address@ == k by {
            if k == self.users@[ui].address@ {
                assert(self.users@[ui].address@ == k);
            } else {
                assert(prev.user_map@.contains_key(k));
                let i = choose|i: int| 0 <= i < prev.users.len() && prev.users@[i].address@ == k;
                assert(self.users@[i] == prev.users@[i]);
            }
        }
    }
}

} // verus!
