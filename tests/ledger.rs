use erc1155::{AccountId, Erc1155, Error};

fn acct(b: u8) -> AccountId {
    AccountId::from_bytes([b; 32])
}

fn null() -> AccountId {
    AccountId::null()
}

#[test]
fn default_works() {
    let erc1155 = Erc1155::default();
    assert_eq!(erc1155.is_approved_for_all(acct(1), acct(2)), false);
    assert_eq!(erc1155.balance_of(acct(1), 0), 0);
}

#[test]
fn it_works() {
    let mut erc1155 = Erc1155::new();
    assert_eq!(erc1155.is_approved_for_all(acct(1), acct(2)), false);
    erc1155.set_approval_for_all(acct(1), acct(2), true).unwrap();
    assert_eq!(erc1155.is_approved_for_all(acct(1), acct(2)), true);
}

#[test]
fn fresh_ledger_has_zero_balances() {
    let ledger = Erc1155::new();
    assert_eq!(ledger.balance_of(acct(1), 0), 0);
    assert_eq!(ledger.balance_of(acct(9), 12345), 0);
    assert_eq!(ledger.balance_of(null(), 7), 0);
}

#[test]
fn untargeted_pair_stays_zero() {
    let mut ledger = Erc1155::new();
    ledger.mint(acct(1), acct(2), 7, 100).unwrap();
    assert_eq!(ledger.balance_of(acct(2), 8), 0);
    assert_eq!(ledger.balance_of(acct(3), 7), 0);
}

#[test]
fn mint_then_burn_restores_balance() {
    let mut ledger = Erc1155::new();
    ledger.mint(acct(1), acct(2), 3, 40).unwrap();
    let before = ledger.balance_of(acct(2), 3);
    ledger.mint(acct(1), acct(2), 3, 25).unwrap();
    assert_eq!(ledger.balance_of(acct(2), 3), 65);
    let ev = ledger.burn(acct(1), acct(2), 3, 25).unwrap();
    assert_eq!(ledger.balance_of(acct(2), 3), before);
    assert_eq!(ev.from, acct(2));
    assert!(ev.to.is_null());
    assert_eq!(ev.value, 25);
}

#[test]
fn transfer_moves_exact_amount() {
    let mut ledger = Erc1155::new();
    ledger.mint(acct(1), acct(2), 5, 100).unwrap();
    ledger.mint(acct(1), acct(3), 5, 10).unwrap();
    let ev = ledger.safe_transfer_from(acct(9), acct(2), acct(3), 5, 30).unwrap();
    assert_eq!(ledger.balance_of(acct(2), 5), 70);
    assert_eq!(ledger.balance_of(acct(3), 5), 40);
    assert_eq!(ev.operator, acct(9));
    assert_eq!(ev.from, acct(2));
    assert_eq!(ev.to, acct(3));
    assert_eq!(ev.id, 5);
    assert_eq!(ev.value, 30);
}

#[test]
fn transfer_to_self_keeps_balance() {
    let mut ledger = Erc1155::new();
    ledger.mint(acct(1), acct(2), 5, 100).unwrap();
    ledger.safe_transfer_from(acct(2), acct(2), acct(2), 5, 60).unwrap();
    assert_eq!(ledger.balance_of(acct(2), 5), 100);
}

#[test]
fn transfer_insufficient_balance_rejected() {
    let mut ledger = Erc1155::new();
    ledger.mint(acct(1), acct(2), 5, 10).unwrap();
    let r = ledger.safe_transfer_from(acct(2), acct(2), acct(3), 5, 11);
    assert_eq!(r.unwrap_err(), Error::InsufficientBalance);
    assert_eq!(ledger.balance_of(acct(2), 5), 10);
    assert_eq!(ledger.balance_of(acct(3), 5), 0);
}

#[test]
fn zero_account_rejected() {
    let mut ledger = Erc1155::new();
    assert_eq!(ledger.mint(acct(1), null(), 1, 5).unwrap_err(), Error::InvalidZeroAccount);
    assert_eq!(ledger.balance_of(null(), 1), 0);
    ledger.mint(acct(1), acct(2), 1, 5).unwrap();
    assert_eq!(
        ledger.safe_transfer_from(acct(2), acct(2), null(), 1, 5).unwrap_err(),
        Error::InvalidZeroAccount
    );
    assert_eq!(ledger.balance_of(acct(2), 1), 5);
    assert_eq!(ledger.burn(acct(1), null(), 1, 0).unwrap_err(), Error::InvalidZeroAccount);
    assert_eq!(
        ledger.mint_batch(acct(1), null(), vec![1], vec![5]).unwrap_err(),
        Error::InvalidZeroAccount
    );
    assert_eq!(
        ledger.burn_batch(acct(1), null(), vec![1], vec![5]).unwrap_err(),
        Error::InvalidZeroAccount
    );
    assert_eq!(
        ledger.safe_batch_transfer_from(acct(2), acct(2), null(), vec![1], vec![5]).unwrap_err(),
        Error::InvalidZeroAccount
    );
    assert_eq!(ledger.balance_of(acct(2), 1), 5);
}

#[test]
fn array_length_mismatch_rejected() {
    let mut ledger = Erc1155::new();
    ledger.mint(acct(1), acct(2), 1, 50).unwrap();
    assert_eq!(
        ledger.balance_of_batch(vec![acct(2), acct(3)], vec![1]).unwrap_err(),
        Error::InvalidArrayLength
    );
    assert_eq!(
        ledger.mint_batch(acct(1), acct(2), vec![1, 2], vec![5]).unwrap_err(),
        Error::InvalidArrayLength
    );
    assert_eq!(
        ledger.burn_batch(acct(1), acct(2), vec![1], vec![5, 6]).unwrap_err(),
        Error::InvalidArrayLength
    );
    assert_eq!(
        ledger.safe_batch_transfer_from(acct(2), acct(2), acct(3), vec![1, 1], vec![5]).unwrap_err(),
        Error::InvalidArrayLength
    );
    assert_eq!(ledger.balance_of(acct(2), 1), 50);
    assert_eq!(ledger.balance_of(acct(2), 2), 0);
    assert_eq!(ledger.balance_of(acct(3), 1), 0);
}

#[test]
fn batch_transfer_checks_length_before_zero_account() {
    let mut ledger = Erc1155::new();
    assert_eq!(
        ledger.safe_batch_transfer_from(acct(2), acct(2), null(), vec![1, 2], vec![5]).unwrap_err(),
        Error::InvalidArrayLength
    );
}

#[test]
fn mint_batch_checks_zero_account_before_length() {
    let mut ledger = Erc1155::new();
    assert_eq!(
        ledger.mint_batch(acct(1), null(), vec![1, 2], vec![5]).unwrap_err(),
        Error::InvalidZeroAccount
    );
}

#[test]
fn self_approval_rejected() {
    let mut ledger = Erc1155::new();
    assert_eq!(
        ledger.set_approval_for_all(acct(4), acct(4), true).unwrap_err(),
        Error::ApprovalForSelf
    );
    assert!(!ledger.is_approved_for_all(acct(4), acct(4)));
}

#[test]
fn approval_is_idempotent_and_revocable() {
    let mut ledger = Erc1155::new();
    let ev = ledger.set_approval_for_all(acct(1), acct(2), true).unwrap();
    assert_eq!(ev.account, acct(1));
    assert_eq!(ev.operator, acct(2));
    assert!(ev.approved);
    ledger.set_approval_for_all(acct(1), acct(2), true).unwrap();
    assert!(ledger.is_approved_for_all(acct(1), acct(2)));
    assert!(!ledger.is_approved_for_all(acct(2), acct(1)));
    let ev = ledger.set_approval_for_all(acct(1), acct(2), false).unwrap();
    assert!(!ev.approved);
    assert!(!ledger.is_approved_for_all(acct(1), acct(2)));
}

#[test]
fn burn_batch_stops_at_first_failure() {
    let mut ledger = Erc1155::new();
    ledger.mint(acct(1), acct(2), 1, 5).unwrap();
    ledger.mint(acct(1), acct(2), 2, 50).unwrap();
    let r = ledger.burn_batch(acct(1), acct(2), vec![1, 2], vec![6, 10]);
    assert_eq!(r.unwrap_err(), Error::InsufficientBalance);
    assert_eq!(ledger.balance_of(acct(2), 1), 5);
    assert_eq!(ledger.balance_of(acct(2), 2), 50);
}

#[test]
fn burn_batch_keeps_earlier_debits_on_failure() {
    let mut ledger = Erc1155::new();
    ledger.mint(acct(1), acct(2), 1, 5).unwrap();
    ledger.mint(acct(1), acct(2), 2, 50).unwrap();
    let r = ledger.burn_batch(acct(1), acct(2), vec![2, 1], vec![10, 6]);
    assert_eq!(r.unwrap_err(), Error::InsufficientBalance);
    assert_eq!(ledger.balance_of(acct(2), 2), 40);
    assert_eq!(ledger.balance_of(acct(2), 1), 5);
}

#[test]
fn burn_insufficient_balance_rejected() {
    let mut ledger = Erc1155::new();
    ledger.mint(acct(1), acct(2), 1, 5).unwrap();
    assert_eq!(ledger.burn(acct(1), acct(2), 1, 6).unwrap_err(), Error::InsufficientBalance);
    assert_eq!(ledger.balance_of(acct(2), 1), 5);
}

#[test]
fn mint_event_scenario() {
    let mut ledger = Erc1155::new();
    let caller = acct(0xAA);
    let to = acct(0x11);
    let ev = ledger.mint(caller, to, 7, 100).unwrap();
    assert_eq!(ledger.balance_of(to, 7), 100);
    assert_eq!(ev.operator, caller);
    assert_eq!(ev.from, null());
    assert_eq!(ev.to, to);
    assert_eq!(ev.id, 7);
    assert_eq!(ev.value, 100);
}

#[test]
fn mint_batch_credits_in_order() {
    let mut ledger = Erc1155::new();
    let ev = ledger.mint_batch(acct(1), acct(2), vec![1, 2, 1], vec![10, 20, 5]).unwrap();
    assert_eq!(ledger.balance_of(acct(2), 1), 15);
    assert_eq!(ledger.balance_of(acct(2), 2), 20);
    assert_eq!(ev.operator, acct(1));
    assert!(ev.from.is_null());
    assert_eq!(ev.to, acct(2));
    assert_eq!(ev.ids, vec![1, 2, 1]);
    assert_eq!(ev.values, vec![10, 20, 5]);
}

#[test]
fn batch_transfer_moves_each_pair() {
    let mut ledger = Erc1155::new();
    ledger.mint_batch(acct(1), acct(2), vec![1, 2], vec![10, 20]).unwrap();
    let ev = ledger
        .safe_batch_transfer_from(acct(7), acct(2), acct(3), vec![1, 2], vec![4, 20])
        .unwrap();
    assert_eq!(ledger.balance_of(acct(2), 1), 6);
    assert_eq!(ledger.balance_of(acct(2), 2), 0);
    assert_eq!(ledger.balance_of(acct(3), 1), 4);
    assert_eq!(ledger.balance_of(acct(3), 2), 20);
    assert_eq!(ev.operator, acct(7));
    assert_eq!(ev.from, acct(2));
    assert_eq!(ev.to, acct(3));
    assert_eq!(ev.ids, vec![1, 2]);
    assert_eq!(ev.values, vec![4, 20]);
}

#[test]
fn batch_transfer_stops_at_first_failure() {
    let mut ledger = Erc1155::new();
    ledger.mint_batch(acct(1), acct(2), vec![1, 2], vec![10, 20]).unwrap();
    let r = ledger.safe_batch_transfer_from(acct(2), acct(2), acct(3), vec![1, 2, 1], vec![4, 21, 1]);
    assert_eq!(r.unwrap_err(), Error::InsufficientBalance);
    assert_eq!(ledger.balance_of(acct(2), 1), 6);
    assert_eq!(ledger.balance_of(acct(3), 1), 4);
    assert_eq!(ledger.balance_of(acct(2), 2), 20);
    assert_eq!(ledger.balance_of(acct(3), 2), 0);
}

#[test]
fn burn_batch_debits_each_pair() {
    let mut ledger = Erc1155::new();
    ledger.mint_batch(acct(1), acct(2), vec![1, 2], vec![10, 20]).unwrap();
    let ev = ledger.burn_batch(acct(5), acct(2), vec![1, 2], vec![10, 5]).unwrap();
    assert_eq!(ledger.balance_of(acct(2), 1), 0);
    assert_eq!(ledger.balance_of(acct(2), 2), 15);
    assert_eq!(ev.operator, acct(5));
    assert_eq!(ev.from, acct(2));
    assert!(ev.to.is_null());
}

#[test]
fn balance_of_batch_reads_each_pair() {
    let mut ledger = Erc1155::new();
    ledger.mint(acct(1), acct(2), 1, 10).unwrap();
    ledger.mint(acct(1), acct(3), 2, 30).unwrap();
    let r = ledger
        .balance_of_batch(vec![acct(2), acct(3), acct(2), acct(4)], vec![1, 2, 2, 1])
        .unwrap();
    assert_eq!(r, vec![10, 30, 0, 0]);
    assert_eq!(ledger.balance_of_batch(vec![], vec![]).unwrap(), Vec::<u128>::new());
}

#[test]
fn large_balances_are_exact() {
    let mut ledger = Erc1155::new();
    ledger.mint(acct(1), acct(2), 1, u128::MAX - 1).unwrap();
    ledger.mint(acct(1), acct(2), 1, 1).unwrap();
    assert_eq!(ledger.balance_of(acct(2), 1), u128::MAX);
    ledger.safe_transfer_from(acct(2), acct(2), acct(3), 1, u128::MAX).unwrap();
    assert_eq!(ledger.balance_of(acct(3), 1), u128::MAX);
    assert_eq!(ledger.balance_of(acct(2), 1), 0);
}

#[test]
fn zero_value_operations_succeed() {
    let mut ledger = Erc1155::new();
    ledger.safe_transfer_from(acct(2), acct(2), acct(3), 9, 0).unwrap();
    ledger.burn(acct(2), acct(2), 9, 0).unwrap();
    assert_eq!(ledger.balance_of(acct(2), 9), 0);
    assert_eq!(ledger.balance_of(acct(3), 9), 0);
}

#[test]
fn account_equality_compares_all_bytes() {
    let mut b = [0u8; 32];
    b[31] = 1;
    assert_ne!(AccountId::from_bytes(b), null());
    assert!(!AccountId::from_bytes(b).is_null());
    assert!(null().is_null());
    assert_eq!(AccountId::from_bytes([3; 32]), acct(3));
}

#[test]
fn transfer_from_null_account_rejected() {
    let mut ledger = Erc1155::new();
    assert_eq!(
        ledger.safe_transfer_from(acct(1), null(), acct(2), 1, 0).unwrap_err(),
        Error::InvalidZeroAccount
    );
    assert_eq!(
        ledger.safe_batch_transfer_from(acct(1), null(), acct(2), vec![1], vec![0]).unwrap_err(),
        Error::InvalidZeroAccount
    );
    assert_eq!(ledger.balance_of(acct(2), 1), 0);
    assert_eq!(ledger.balance_key_count(), 0);
}

#[test]
fn batch_transfer_checks_length_before_null_source() {
    let mut ledger = Erc1155::new();
    assert_eq!(
        ledger.safe_batch_transfer_from(acct(1), null(), acct(2), vec![1, 2], vec![0]).unwrap_err(),
        Error::InvalidArrayLength
    );
}

#[test]
fn key_counts_follow_stored_entries() {
    let mut ledger = Erc1155::new();
    assert_eq!(ledger.balance_key_count(), 0);
    assert_eq!(ledger.approval_key_count(), 0);
    ledger.mint(acct(1), acct(2), 1, 5).unwrap();
    ledger.mint(acct(1), acct(2), 1, 5).unwrap();
    assert_eq!(ledger.balance_key_count(), 1);
    ledger.safe_transfer_from(acct(2), acct(2), acct(3), 1, 4).unwrap();
    assert_eq!(ledger.balance_key_count(), 2);
    ledger.set_approval_for_all(acct(1), acct(2), true).unwrap();
    ledger.set_approval_for_all(acct(1), acct(2), false).unwrap();
    assert_eq!(ledger.approval_key_count(), 1);
    let _ = ledger.set_approval_for_all(acct(1), acct(1), true);
    assert_eq!(ledger.approval_key_count(), 1);
}
