use wrapped_token::CallbackOutcome;
use wrapped_token::Contract;
use wrapped_token::LogEvent;
use wrapped_token::Status;
use wrapped_token::TokenError;
use wrapped_token::TransferRequest;

const TOKEN: u64 = 7;
const OWNER: u64 = 1;
const ALICE: u64 = 42;
const BOB: u64 = 43;

fn gated_with_deposit(amount: u128) -> Contract {
    let mut c = Contract::new(TOKEN, OWNER, true, String::from("wTOK"));
    c.register_account(ALICE);
    c.register_account(BOB);
    assert_eq!(c.ft_on_transfer(TOKEN, ALICE, amount), Ok(0));
    c
}

fn ungated_with_deposit(amount: u128) -> Contract {
    let mut c = Contract::new(TOKEN, OWNER, false, String::from("wTOK"));
    c.register_account(ALICE);
    c.register_account(BOB);
    assert_eq!(c.ft_on_transfer(TOKEN, ALICE, amount), Ok(0));
    c
}

#[test]
fn new_gated_starts_locked_and_empty() {
    let c = Contract::new(TOKEN, OWNER, true, String::from("wTOK"));
    assert_eq!(c.status, Status::Locked);
    assert_eq!(c.ft_total_supply(), 0);
    assert_eq!(c.ft_balance_of(ALICE), 0);
    assert_eq!(c.ft_metadata(), "wTOK");
    assert!(c.is_whitelisted(OWNER));
    assert!(!c.is_whitelisted(ALICE));
    assert!(c.log.is_empty());
}

#[test]
fn new_ungated_starts_unlocked() {
    let c = Contract::new(TOKEN, OWNER, false, String::from("wTOK"));
    assert_eq!(c.status, Status::Unlocked);
}

#[test]
fn get_info_returns_the_state() {
    let c = gated_with_deposit(100);
    let info = c.get_info();
    assert_eq!(info.ft_balance_of(ALICE), 100);
    assert_eq!(info.locked_token_account_id, TOKEN);
    assert_eq!(info.owner_id, OWNER);
}

#[test]
fn deposit_credits_the_sender_while_locked() {
    let c = gated_with_deposit(100);
    assert_eq!(c.ft_balance_of(ALICE), 100);
    assert_eq!(c.ft_total_supply(), 100);
}

#[test]
fn foreign_deposit_fails_and_changes_nothing() {
    let mut c = gated_with_deposit(100);
    let r = c.ft_on_transfer(TOKEN + 1, ALICE, 50);
    assert_eq!(r, Err(TokenError::PermissionDenied));
    assert_eq!(c.ft_balance_of(ALICE), 100);
    assert_eq!(c.ft_total_supply(), 100);

    // the source check comes first, whatever the state
    let mut u = ungated_with_deposit(100);
    assert_eq!(u.ft_on_transfer(ALICE, ALICE, 50), Err(TokenError::PermissionDenied));
    assert_eq!(u.ft_balance_of(ALICE), 100);
}

#[test]
fn deposit_while_unlocked_fails_in_gated_variant() {
    let mut c = gated_with_deposit(100);
    assert_eq!(c.unlock(OWNER), Ok(()));
    let r = c.ft_on_transfer(TOKEN, ALICE, 50);
    assert_eq!(r, Err(TokenError::InvalidState));
    assert_eq!(c.ft_balance_of(ALICE), 100);
}

#[test]
fn deposit_is_accepted_in_ungated_variant_despite_unlocked() {
    let mut c = ungated_with_deposit(100);
    assert_eq!(c.status, Status::Unlocked);
    assert_eq!(c.ft_on_transfer(TOKEN, ALICE, 50), Ok(0));
    assert_eq!(c.ft_balance_of(ALICE), 150);
}

#[test]
fn unlock_by_non_owner_fails() {
    let mut c = Contract::new(TOKEN, OWNER, true, String::new());
    assert_eq!(c.unlock(ALICE), Err(TokenError::PermissionDenied));
    assert_eq!(c.status, Status::Locked);
}

#[test]
fn unlock_twice_fails_and_status_stays_unlocked() {
    let mut c = Contract::new(TOKEN, OWNER, true, String::new());
    assert_eq!(c.unlock(OWNER), Ok(()));
    assert_eq!(c.status, Status::Unlocked);
    assert_eq!(c.unlock(OWNER), Err(TokenError::InvalidState));
    assert_eq!(c.status, Status::Unlocked);
}

#[test]
fn unlock_of_ungated_contract_fails_as_already_unlocked() {
    let mut c = Contract::new(TOKEN, OWNER, false, String::new());
    assert_eq!(c.unlock(OWNER), Err(TokenError::InvalidState));
    assert_eq!(c.status, Status::Unlocked);
}

#[test]
fn transfer_by_non_whitelisted_fails_whatever_balance_and_status() {
    let mut c = gated_with_deposit(100);
    assert_eq!(c.transfer(ALICE, BOB, 60), Err(TokenError::PermissionDenied));
    assert_eq!(c.ft_balance_of(ALICE), 100);
    assert_eq!(c.ft_balance_of(BOB), 0);

    // still refused after unlocking
    assert_eq!(c.unlock(OWNER), Ok(()));
    assert_eq!(c.transfer(ALICE, BOB, 60), Err(TokenError::PermissionDenied));
    assert_eq!(c.ft_balance_of(ALICE), 100);
}

#[test]
fn whitelisted_transfer_up_to_balance_succeeds() {
    let mut c = gated_with_deposit(100);
    assert_eq!(c.add_to_whitelist(OWNER, ALICE), Ok(()));
    assert!(c.is_whitelisted(ALICE));
    assert_eq!(c.transfer(ALICE, BOB, 60), Ok(()));
    assert_eq!(c.ft_balance_of(ALICE), 40);
    assert_eq!(c.ft_balance_of(BOB), 60);
    assert_eq!(c.transfer(ALICE, BOB, 40), Ok(()));
    assert_eq!(c.ft_balance_of(ALICE), 0);
    assert_eq!(c.ft_balance_of(BOB), 100);
    assert_eq!(c.ft_total_supply(), 100);
}

#[test]
fn whitelist_is_owner_managed_only() {
    let mut c = gated_with_deposit(100);
    assert_eq!(c.add_to_whitelist(ALICE, ALICE), Err(TokenError::PermissionDenied));
    assert!(!c.is_whitelisted(ALICE));
    assert_eq!(c.add_to_whitelist(OWNER, ALICE), Ok(()));
    assert_eq!(c.remove_from_whitelist(ALICE, ALICE), Err(TokenError::PermissionDenied));
    assert!(c.is_whitelisted(ALICE));
    assert_eq!(c.remove_from_whitelist(OWNER, ALICE), Ok(()));
    assert!(!c.is_whitelisted(ALICE));
}

#[test]
fn owner_is_a_permanent_implicit_whitelist_member() {
    let mut c = Contract::new(TOKEN, OWNER, true, String::new());
    assert!(c.is_whitelisted(OWNER));
    assert_eq!(c.remove_from_whitelist(OWNER, OWNER), Ok(()));
    assert!(c.is_whitelisted(OWNER));
}

#[test]
fn ungated_transfer_needs_no_whitelist() {
    let mut c = ungated_with_deposit(100);
    assert_eq!(c.transfer(ALICE, BOB, 60), Ok(()));
    assert_eq!(c.ft_balance_of(BOB), 60);
}

#[test]
fn transfer_and_notify_moves_and_carries_the_payload() {
    let mut c = ungated_with_deposit(100);
    let n = c
        .transfer_and_notify(ALICE, BOB, 30, String::from("hello"))
        .unwrap();
    assert_eq!(n.receiver_id, BOB);
    assert_eq!(n.amount, 30);
    assert_eq!(n.payload, "hello");
    assert_eq!(c.ft_balance_of(ALICE), 70);
    assert_eq!(c.ft_balance_of(BOB), 30);

    let mut g = gated_with_deposit(100);
    assert!(g
        .transfer_and_notify(ALICE, BOB, 30, String::from("hello"))
        .is_err());
    assert_eq!(g.ft_balance_of(ALICE), 100);
}

#[test]
fn unwrap_while_locked_fails() {
    let mut c = gated_with_deposit(100);
    assert_eq!(c.unwrap(ALICE), Err(TokenError::InvalidState));
    assert_eq!(c.ft_balance_of(ALICE), 100);
}

#[test]
fn unwrap_debits_everything_and_requests_the_transfer() {
    let mut c = gated_with_deposit(100);
    assert_eq!(c.unlock(OWNER), Ok(()));
    let req = c.unwrap(ALICE).unwrap();
    assert_eq!(req, TransferRequest { receiver_id: ALICE, amount: 100 });
    assert_eq!(c.ft_balance_of(ALICE), 0);
    assert_eq!(c.ft_total_supply(), 0);
}

#[test]
fn unwrap_success_with_zero_balance_purges_and_refunds() {
    let mut c = gated_with_deposit(100);
    assert_eq!(c.unlock(OWNER), Ok(()));
    let req = c.unwrap(ALICE).unwrap();
    assert_eq!(req.amount, 100);
    assert_eq!(c.ft_balance_of(ALICE), 0);

    let out = c.after_ft_transfer(ALICE, 100, true);
    assert_eq!(out, CallbackOutcome { success: true, refund_storage_to: Some(ALICE) });
    assert_eq!(c.ft_balance_of(ALICE), 0);
    assert_eq!(
        c.log,
        vec![LogEvent::AccountClosed { account_id: ALICE, balance: 0 }]
    );
}

#[test]
fn unwrap_success_with_interim_deposit_leaves_the_entry_alone() {
    let mut c = ungated_with_deposit(100);
    let req = c.unwrap(ALICE).unwrap();
    assert_eq!(req.amount, 100);
    // a new deposit arrives while the transfer is in flight
    assert_eq!(c.ft_on_transfer(TOKEN, ALICE, 25), Ok(0));
    let out = c.after_ft_transfer(ALICE, 100, true);
    assert_eq!(out, CallbackOutcome { success: true, refund_storage_to: None });
    assert_eq!(c.ft_balance_of(ALICE), 25);
    assert!(c.log.is_empty());
}

#[test]
fn unwrap_failure_restores_the_balance_exactly() {
    let mut c = gated_with_deposit(100);
    assert_eq!(c.unlock(OWNER), Ok(()));
    let req = c.unwrap(ALICE).unwrap();
    assert_eq!(req.amount, 100);
    assert_eq!(c.ft_balance_of(ALICE), 0);

    let out = c.after_ft_transfer(ALICE, 100, false);
    assert_eq!(out, CallbackOutcome { success: false, refund_storage_to: None });
    assert_eq!(c.ft_balance_of(ALICE), 100);
    assert_eq!(c.ft_total_supply(), 100);
    assert_eq!(
        c.log,
        vec![LogEvent::UnwrapFailed { account_id: ALICE, amount: 100 }]
    );
}

#[test]
fn concurrent_unwraps_cannot_double_spend() {
    let mut c = ungated_with_deposit(100);
    let first = c.unwrap(ALICE).unwrap();
    assert_eq!(first.amount, 100);
    assert_eq!(c.ft_balance_of(ALICE), 0);

    // a second unwrap before the first resolves debits nothing
    let second = c.unwrap(ALICE).unwrap();
    assert_eq!(second.amount, 0);
    assert_eq!(c.ft_balance_of(ALICE), 0);

    // resolution order: the zero-amount request first, reporting failure
    let out2 = c.after_ft_transfer(ALICE, 0, false);
    assert_eq!(out2.success, false);
    assert_eq!(c.ft_balance_of(ALICE), 0);
    // then the real one, also failing: exactly 100 comes back, once
    let out1 = c.after_ft_transfer(ALICE, 100, false);
    assert_eq!(out1.success, false);
    assert_eq!(c.ft_balance_of(ALICE), 100);
    assert_eq!(c.ft_total_supply(), 100);
}

#[test]
fn concurrent_unwraps_success_purges_once() {
    let mut c = ungated_with_deposit(100);
    let first = c.unwrap(ALICE).unwrap();
    let second = c.unwrap(ALICE).unwrap();
    assert_eq!((first.amount, second.amount), (100, 0));

    // the zero request resolves first: the balance is 0, so the entry goes
    let out2 = c.after_ft_transfer(ALICE, 0, true);
    assert_eq!(out2.refund_storage_to, Some(ALICE));
    // the real one resolves after: nothing is registered, nothing refunded
    let out1 = c.after_ft_transfer(ALICE, 100, true);
    assert_eq!(out1.refund_storage_to, None);
    assert_eq!(c.ft_balance_of(ALICE), 0);
    assert_eq!(c.ft_total_supply(), 0);
}

#[test]
fn register_account_is_idempotent() {
    let mut c = Contract::new(TOKEN, OWNER, false, String::new());
    c.register_account(ALICE);
    c.register_account(ALICE);
    assert_eq!(c.ft_balance_of(ALICE), 0);
    assert_eq!(c.ft_total_supply(), 0);
}

#[test]
fn diagnostic_hooks_append_to_the_log() {
    let mut c = Contract::new(TOKEN, OWNER, false, String::new());
    c.on_tokens_burned(BOB, 17);
    c.on_account_closed(ALICE, 0);
    assert_eq!(
        c.log,
        vec![
            LogEvent::TokensBurned { account_id: BOB, amount: 17 },
            LogEvent::AccountClosed { account_id: ALICE, balance: 0 },
        ]
    );
}
