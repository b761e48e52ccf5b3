use polling::address::{poll_seeds, same_address, user_seeds};
use polling::identity::Identity;
use polling::instructions::{
    answer_poll, create_poll, create_user_account, AnswerPoll, InitializePoll, InitializePollUser,
};
use polling::ledger::{Ledger, LedgerError};
use polling::state::{poll_record_fits, Errors, PollAccount, UserAccount, POLL_SPACE};

fn key(b: u8) -> Identity {
    Identity::new([b; 32])
}

fn labels(items: &[&str]) -> Vec<String> {
    items.iter().map(|s| s.to_string()).collect()
}

fn ledger_with_poll(options: &[&str]) -> Ledger {
    let mut l = Ledger::new();
    let r = l.create_poll(key(1), 1, "T".to_string(), "D".to_string(), labels(options), 4_000_000_000);
    assert_eq!(r, Ok(()));
    l
}

fn fresh_user(owner: Identity) -> UserAccount {
    UserAccount { poll_id: 1, owner, selected_option: 0, date_created: 0 }
}

fn active_poll(options: &[&str]) -> PollAccount {
    let mut ctx = InitializePoll { payer: key(1), poll_account: PollAccount::empty() };
    let r = create_poll(&mut ctx, 1, "T".to_string(), "D".to_string(), labels(options), 99);
    assert_eq!(r, Ok(()));
    ctx.poll_account
}

#[test]
fn end_to_end_single_voter() {
    let mut l = ledger_with_poll(&["A", "B"]);
    assert_eq!(l.create_user_account(key(7), 1, 1_700_000_000), Ok(()));
    assert_eq!(l.answer_poll(key(7), 1, 1), Ok(()));
    assert_eq!(l.voter(&key(7), 1).unwrap().selected_option, 2);
    assert_eq!(l.poll(1).unwrap().poll_selected_option[1], 1);
    assert_eq!(l.poll(1).unwrap().poll_selected_option[0], 0);
    assert_eq!(
        l.answer_poll(key(7), 1, 1),
        Err(LedgerError::Program(Errors::AlreadyVoted))
    );
    assert_eq!(l.poll(1).unwrap().poll_selected_option, vec![0, 1, 0, 0]);
}

#[test]
fn second_voter_is_independent() {
    let mut l = ledger_with_poll(&["A", "B"]);
    assert_eq!(l.create_user_account(key(7), 1, 10), Ok(()));
    assert_eq!(l.create_user_account(key(8), 1, 11), Ok(()));
    assert_eq!(l.answer_poll(key(7), 1, 1), Ok(()));
    assert_eq!(l.answer_poll(key(8), 1, 0), Ok(()));
    assert_eq!(l.poll(1).unwrap().poll_selected_option, vec![1, 1, 0, 0]);
    assert_eq!(l.voter(&key(7), 1).unwrap().selected_option, 2);
    assert_eq!(l.voter(&key(8), 1).unwrap().selected_option, 1);
}

#[test]
fn creating_poll_twice_fails_and_keeps_first() {
    let mut l = ledger_with_poll(&["A", "B"]);
    let r = l.create_poll(key(2), 1, "Other".to_string(), "X".to_string(), labels(&["Z"]), 5);
    assert_eq!(r, Err(LedgerError::AccountInUse));
    let p = l.poll(1).unwrap();
    assert_eq!(p.poll_title, "T");
    assert_eq!(p.poll_description, "D");
    assert_eq!(p.poll_options, labels(&["A", "B"]));
    assert_eq!(p.poll_owner, key(1));
    assert_eq!(p.poll_end_timestamp, 4_000_000_000);
    assert!(l.poll(2).is_none());
}

#[test]
fn creating_voter_twice_fails() {
    let mut l = Ledger::new();
    assert_eq!(l.create_user_account(key(7), 3, 100), Ok(()));
    assert_eq!(l.create_user_account(key(7), 3, 200), Err(LedgerError::AccountInUse));
    assert_eq!(l.voter(&key(7), 3).unwrap().date_created, 100);
    assert_eq!(l.create_user_account(key(7), 4, 300), Ok(()));
    assert_eq!(l.create_user_account(key(8), 3, 400), Ok(()));
}

#[test]
fn voter_registration_does_not_need_the_poll() {
    let mut l = Ledger::new();
    assert_eq!(l.create_user_account(key(7), 9, 100), Ok(()));
    assert!(l.poll(9).is_none());
    assert_eq!(l.answer_poll(key(7), 9, 0), Err(LedgerError::AccountNotInitialized));
}

#[test]
fn voting_without_voter_record_fails() {
    let mut l = ledger_with_poll(&["A", "B"]);
    assert_eq!(l.answer_poll(key(7), 1, 0), Err(LedgerError::AccountNotInitialized));
    assert_eq!(l.poll(1).unwrap().poll_selected_option, vec![0, 0, 0, 0]);
}

#[test]
fn vote_out_of_range_is_refused() {
    let mut l = ledger_with_poll(&["A", "B"]);
    assert_eq!(l.create_user_account(key(7), 1, 10), Ok(()));
    assert_eq!(
        l.answer_poll(key(7), 1, 2),
        Err(LedgerError::Program(Errors::OptionOutOfRange))
    );
    assert_eq!(
        l.answer_poll(key(7), 1, 3),
        Err(LedgerError::Program(Errors::OptionOutOfRange))
    );
    assert_eq!(
        l.answer_poll(key(7), 1, u32::MAX),
        Err(LedgerError::Program(Errors::OptionOutOfRange))
    );
    assert_eq!(l.voter(&key(7), 1).unwrap().selected_option, 0);
    assert_eq!(l.poll(1).unwrap().poll_selected_option, vec![0, 0, 0, 0]);
    assert_eq!(l.answer_poll(key(7), 1, 0), Ok(()));
    assert_eq!(l.poll(1).unwrap().poll_selected_option, vec![1, 0, 0, 0]);
}

#[test]
fn valid_index_is_counted_and_last_valid_index_accepted() {
    let mut poll = active_poll(&["A", "B", "C", "D"]);
    let mut ctx = AnswerPoll { payer: key(7), poll_account: poll, poll_user_account: fresh_user(key(7)) };
    assert_eq!(answer_poll(&mut ctx, 1, 3), Ok(()));
    assert_eq!(ctx.poll_user_account.selected_option, 4);
    assert_eq!(ctx.poll_account.poll_selected_option, vec![0, 0, 0, 1]);
    poll = ctx.poll_account;
    let mut ctx = AnswerPoll { payer: key(8), poll_account: poll, poll_user_account: fresh_user(key(8)) };
    assert_eq!(answer_poll(&mut ctx, 1, 4), Err(Errors::OptionOutOfRange));
    assert_eq!(ctx.poll_account.poll_selected_option, vec![0, 0, 0, 1]);
}

#[test]
fn inactive_poll_refuses_vote() {
    let mut poll = active_poll(&["A", "B"]);
    poll.is_poll_active = false;
    let mut ctx = AnswerPoll { payer: key(7), poll_account: poll, poll_user_account: fresh_user(key(7)) };
    assert_eq!(answer_poll(&mut ctx, 1, 0), Err(Errors::PollEndedError));
    assert_eq!(ctx.poll_user_account.selected_option, 0);
    assert_eq!(ctx.poll_account.poll_selected_option, vec![0, 0, 0, 0]);
    assert!(!ctx.poll_account.is_poll_active);
}

#[test]
fn already_voted_checked_before_poll_state_and_index() {
    let mut poll = active_poll(&["A", "B"]);
    poll.is_poll_active = false;
    let mut user = fresh_user(key(7));
    user.selected_option = 1;
    let mut ctx = AnswerPoll { payer: key(7), poll_account: poll, poll_user_account: user };
    assert_eq!(answer_poll(&mut ctx, 1, 9), Err(Errors::AlreadyVoted));
    assert_eq!(ctx.poll_user_account.selected_option, 1);
}

#[test]
fn inactive_checked_before_index() {
    let mut poll = active_poll(&["A"]);
    poll.is_poll_active = false;
    let mut ctx = AnswerPoll { payer: key(7), poll_account: poll, poll_user_account: fresh_user(key(7)) };
    assert_eq!(answer_poll(&mut ctx, 1, 9), Err(Errors::PollEndedError));
}

#[test]
fn create_poll_fills_record() {
    let mut ctx = InitializePoll { payer: key(3), poll_account: PollAccount::empty() };
    let r = create_poll(&mut ctx, 42, "Title".to_string(), "Desc".to_string(), labels(&["x", "y", "z"]), 77);
    assert_eq!(r, Ok(()));
    let p = &ctx.poll_account;
    assert_eq!(p.id, 42);
    assert_eq!(p.poll_title, "Title");
    assert_eq!(p.poll_description, "Desc");
    assert_eq!(p.poll_options, labels(&["x", "y", "z"]));
    assert!(p.is_poll_active);
    assert_eq!(p.poll_selected_option, vec![0, 0, 0, 0]);
    assert_eq!(p.poll_owner, key(3));
    assert_eq!(p.poll_end_timestamp, 77);
}

#[test]
fn create_poll_with_no_options() {
    let mut l = Ledger::new();
    assert_eq!(l.create_poll(key(1), 5, String::new(), String::new(), Vec::new(), 0), Ok(()));
    assert_eq!(l.create_user_account(key(2), 5, 0), Ok(()));
    assert_eq!(
        l.answer_poll(key(2), 5, 0),
        Err(LedgerError::Program(Errors::OptionOutOfRange))
    );
}

#[test]
fn too_many_options_do_not_fit() {
    let mut l = Ledger::new();
    let r = l.create_poll(key(1), 1, "T".to_string(), "D".to_string(), labels(&["a", "b", "c", "d", "e"]), 0);
    assert_eq!(r, Err(LedgerError::AccountDidNotSerialize));
    assert!(l.poll(1).is_none());
    let r = l.create_poll(key(1), 1, "T".to_string(), "D".to_string(), labels(&["a", "b", "c", "d"]), 0);
    assert_eq!(r, Ok(()));
}

#[test]
fn create_user_account_fills_record() {
    let mut ctx = InitializePollUser { payer: key(9), poll_user_account: fresh_user(key(0)) };
    ctx.poll_user_account.selected_option = 3;
    assert_eq!(create_user_account(&mut ctx, 12, 1_650_000_000), Ok(()));
    assert_eq!(
        ctx.poll_user_account,
        UserAccount { poll_id: 12, owner: key(9), selected_option: 0, date_created: 1_650_000_000 }
    );
}

#[test]
fn negative_timestamp_wraps() {
    let mut ctx = InitializePollUser { payer: key(9), poll_user_account: fresh_user(key(0)) };
    assert_eq!(create_user_account(&mut ctx, 1, -1), Ok(()));
    assert_eq!(ctx.poll_user_account.date_created, u64::MAX);
}

#[test]
fn max_poll_id() {
    let mut l = Ledger::new();
    assert_eq!(l.create_poll(key(1), u32::MAX, "T".to_string(), "D".to_string(), labels(&["A"]), 0), Ok(()));
    assert!(l.poll(u32::MAX).is_some());
    assert!(l.poll(0).is_none());
    assert_eq!(l.create_user_account(key(2), u32::MAX, 0), Ok(()));
    assert_eq!(l.answer_poll(key(2), u32::MAX, 0), Ok(()));
    assert_eq!(l.poll(u32::MAX).unwrap().poll_selected_option, vec![1, 0, 0, 0]);
}

#[test]
fn votes_stay_in_their_poll() {
    let mut l = ledger_with_poll(&["A", "B"]);
    assert_eq!(l.create_poll(key(1), 2, "U".to_string(), "E".to_string(), labels(&["A", "B"]), 0), Ok(()));
    assert_eq!(l.create_user_account(key(7), 1, 0), Ok(()));
    assert_eq!(l.create_user_account(key(7), 2, 0), Ok(()));
    assert_eq!(l.answer_poll(key(7), 2, 1), Ok(()));
    assert_eq!(l.answer_poll(key(7), 1, 0), Ok(()));
    assert_eq!(l.poll(1).unwrap().poll_selected_option, vec![1, 0, 0, 0]);
    assert_eq!(l.poll(2).unwrap().poll_selected_option, vec![0, 1, 0, 0]);
}

#[test]
fn poll_address_bytes() {
    assert_eq!(poll_seeds(1), vec![b'p', b'o', b'l', b'l', 1, 0, 0, 0]);
    assert_eq!(poll_seeds(0x0403_0201), vec![b'p', b'o', b'l', b'l', 1, 2, 3, 4]);
}

#[test]
fn user_address_bytes() {
    let mut bytes = [0u8; 32];
    for (i, b) in bytes.iter_mut().enumerate() {
        *b = i as u8;
    }
    let seeds = user_seeds(&Identity::new(bytes), 258);
    let mut expected = b"user".to_vec();
    expected.extend_from_slice(&bytes);
    expected.extend_from_slice(&[2, 1, 0, 0]);
    assert_eq!(seeds, expected);
}

#[test]
fn address_comparison() {
    assert!(same_address(&poll_seeds(7), &poll_seeds(7)));
    assert!(!same_address(&poll_seeds(7), &poll_seeds(8)));
    assert!(!same_address(&poll_seeds(7), &user_seeds(&key(1), 7)));
    assert!(same_address(&Vec::new(), &Vec::new()));
}

#[test]
fn error_messages() {
    assert_eq!(Errors::OptionOutOfRange.message(), "Invalid option");
    assert_eq!(Errors::PollEndedError.message(), "Poll not active");
    assert_eq!(Errors::AlreadyVoted.message(), "You have already voted");
}

#[test]
fn oversized_title_does_not_fit() {
    let mut l = Ledger::new();
    let title = "t".repeat(201);
    let r = l.create_poll(key(1), 1, title, "D".to_string(), labels(&["A", "B"]), 0);
    assert_eq!(r, Err(LedgerError::AccountDidNotSerialize));
    assert!(l.poll(1).is_none());
    assert_eq!(l.create_user_account(key(2), 1, 0), Ok(()));
    assert_eq!(l.answer_poll(key(2), 1, 0), Err(LedgerError::AccountNotInitialized));
}

#[test]
fn record_exactly_at_reserved_size_fits() {
    assert_eq!(POLL_SPACE, 189);
    let mut l = Ledger::new();
    let r = l.create_poll(key(1), 1, "t".repeat(113), String::new(), Vec::new(), 0);
    assert_eq!(r, Err(LedgerError::AccountDidNotSerialize));
    let r = l.create_poll(key(1), 1, "t".repeat(112), String::new(), Vec::new(), 0);
    assert_eq!(r, Ok(()));
    assert_eq!(l.poll(1).unwrap().poll_title.len(), 112);
}

#[test]
fn size_counts_description_and_labels() {
    assert!(poll_record_fits(&"t".repeat(50), &"d".repeat(62), &Vec::new()));
    assert!(!poll_record_fits(&"t".repeat(50), &"d".repeat(63), &Vec::new()));
    let four = vec!["a".repeat(24), "b".repeat(24), "c".repeat(24), "d".repeat(24)];
    assert!(poll_record_fits(&String::new(), &String::new(), &four));
    let over = vec!["a".repeat(24), "b".repeat(24), "c".repeat(24), "d".repeat(25)];
    assert!(!poll_record_fits(&String::new(), &String::new(), &over));
    assert!(!poll_record_fits(&String::new(), &String::new(), &labels(&["a", "b", "c", "d", "e"])));
}

#[test]
fn size_counts_utf8_bytes() {
    assert!(poll_record_fits(&"\u{e9}".repeat(56), &String::new(), &Vec::new()));
    assert!(!poll_record_fits(&"\u{e9}".repeat(57), &String::new(), &Vec::new()));
}
