use anchor_vault::address::Address;
use anchor_vault::derivation::{
    find_state_address, find_vault_address, is_state_address, is_vault_address,
};
use anchor_vault::instructions::{Close, Deposit, Init, VaultError, VaultState, Withdraw};
use anchor_vault::ledger::{close, deposit, init, withdraw, Ledger};

const RENT: u64 = 890_880;
const STATE_RENT: u64 = 946_560;

fn program() -> Address {
    Address::new([7u8; 32])
}

fn alice() -> Address {
    Address::new([1u8; 32])
}

fn bob() -> Address {
    Address::new([2u8; 32])
}

fn fresh(lamports: u64) -> Ledger {
    Ledger::new(program(), alice(), lamports, RENT, STATE_RENT)
}

fn derived(user: &Address) -> (Address, u8, Address, u8) {
    let (s, sb) = find_state_address(user, &program()).unwrap();
    let (v, vb) = find_vault_address(&s, &program()).unwrap();
    (s, sb, v, vb)
}

#[test]
fn scenario_alice_full_lifecycle() {
    let mut l = fresh(10_000_000);
    assert_eq!(init(&mut l), Ok(()));
    assert_eq!(l.vault_lamports, RENT);
    assert_eq!(deposit(&mut l, 1000), Ok(()));
    assert_eq!(l.vault_lamports, RENT + 1000);
    assert_eq!(withdraw(&mut l, 1000), Ok(()));
    assert_eq!(l.vault_lamports, RENT);
    assert_eq!(withdraw(&mut l, 1), Err(VaultError::InsufficientFunds));
    assert_eq!(l.vault_lamports, RENT);
    let before = l.user_lamports;
    assert_eq!(close(&mut l), Ok(()));
    assert_eq!(l.user_lamports, before + RENT + STATE_RENT);
    assert!(l.record.is_none());
    assert_eq!(l.vault_lamports, 0);
    assert_eq!(l.state_lamports, 0);
    assert_eq!(deposit(&mut l, 1), Err(VaultError::NotFound));
    assert_eq!(l.user_lamports, 10_000_000);
}

#[test]
fn second_init_fails_and_changes_nothing() {
    let mut l = fresh(10_000_000);
    assert_eq!(init(&mut l), Ok(()));
    let user_before = l.user_lamports;
    let vault_before = l.vault_lamports;
    let rec = l.record.unwrap();
    assert_eq!(init(&mut l), Err(VaultError::AlreadyExists));
    assert_eq!(l.user_lamports, user_before);
    assert_eq!(l.vault_lamports, vault_before);
    assert_eq!(l.record.unwrap().state, rec.state);
}

#[test]
fn init_again_after_close() {
    let mut l = fresh(10_000_000);
    assert_eq!(init(&mut l), Ok(()));
    assert_eq!(close(&mut l), Ok(()));
    assert_eq!(init(&mut l), Ok(()));
    assert_eq!(l.vault_lamports, RENT);
    assert_eq!(l.user_lamports, 10_000_000 - RENT - STATE_RENT);
}

#[test]
fn init_without_funds_fails() {
    let mut l = fresh(RENT + STATE_RENT - 1);
    assert_eq!(init(&mut l), Err(VaultError::InsufficientFunds));
    assert!(l.record.is_none());
    assert_eq!(l.user_lamports, RENT + STATE_RENT - 1);
}

#[test]
fn init_pays_both_deposits() {
    let mut l = fresh(RENT + STATE_RENT);
    assert_eq!(init(&mut l), Ok(()));
    assert_eq!(l.user_lamports, 0);
    assert_eq!(l.state_lamports, STATE_RENT);
    assert_eq!(l.vault_lamports, RENT);
}

#[test]
fn deposit_then_withdraw_round_trip() {
    let mut l = fresh(5_000_000);
    assert_eq!(init(&mut l), Ok(()));
    assert_eq!(deposit(&mut l, 250), Ok(()));
    let user_mid = l.user_lamports;
    assert_eq!(deposit(&mut l, 777), Ok(()));
    assert_eq!(l.user_lamports, user_mid - 777);
    assert_eq!(withdraw(&mut l, 777), Ok(()));
    assert_eq!(l.user_lamports, user_mid);
    assert_eq!(l.vault_lamports, RENT + 250);
}

#[test]
fn deposit_more_than_owner_holds_fails() {
    let mut l = fresh(RENT + STATE_RENT + 10);
    assert_eq!(init(&mut l), Ok(()));
    assert_eq!(deposit(&mut l, 11), Err(VaultError::InsufficientFunds));
    assert_eq!(l.vault_lamports, RENT);
    assert_eq!(deposit(&mut l, 10), Ok(()));
    assert_eq!(l.user_lamports, 0);
}

#[test]
fn withdraw_down_to_the_floor() {
    let mut l = fresh(5_000_000);
    assert_eq!(init(&mut l), Ok(()));
    assert_eq!(deposit(&mut l, 500), Ok(()));
    assert_eq!(withdraw(&mut l, 501), Err(VaultError::InsufficientFunds));
    assert_eq!(l.vault_lamports, RENT + 500);
    assert_eq!(withdraw(&mut l, 500), Ok(()));
    assert!(l.vault_lamports >= l.vault_rent);
    assert_eq!(withdraw(&mut l, u64::MAX), Err(VaultError::InsufficientFunds));
}

#[test]
fn operations_before_init_are_not_found() {
    let mut l = fresh(5_000_000);
    assert_eq!(deposit(&mut l, 1), Err(VaultError::NotFound));
    assert_eq!(withdraw(&mut l, 1), Err(VaultError::NotFound));
    assert_eq!(close(&mut l), Err(VaultError::NotFound));
    assert_eq!(l.user_lamports, 5_000_000);
}

#[test]
fn stored_bumps_rederive_allocated_addresses() {
    let mut l = fresh(5_000_000);
    assert_eq!(init(&mut l), Ok(()));
    let rec = l.record.unwrap();
    let (s, sb, v, vb) = derived(&alice());
    assert_eq!(rec.key.bytes, s.bytes);
    assert_eq!(rec.vault.bytes, v.bytes);
    assert_eq!(rec.state, VaultState { vault_bump: vb, state_bump: sb });
    assert_eq!(deposit(&mut l, 40), Ok(()));
    assert_eq!(withdraw(&mut l, 40), Ok(()));
    let rec2 = l.record.unwrap();
    assert!(is_state_address(&rec2.key, &alice(), rec2.state.state_bump, &program()));
    assert!(is_vault_address(&rec2.vault, &rec2.key, rec2.state.vault_bump, &program()));
}

#[test]
fn derivation_differs_by_owner_and_label() {
    let (sa, _, va, _) = derived(&alice());
    let (sb, _, _, _) = derived(&bob());
    assert!(!sa.same(&sb));
    assert!(!sa.same(&alice()));
    assert!(!va.same(&sa));
    let (_, bump, _, _) = derived(&alice());
    assert!(!is_state_address(&sa, &bob(), bump, &program()));
    assert!(!is_state_address(&sa, &alice(), bump, &Address::new([8u8; 32])));
}

fn init_accounts() -> Init {
    let (s, _, v, _) = derived(&alice());
    Init {
        user: alice(),
        user_is_signer: true,
        user_lamports: 10_000_000,
        vault_state: s,
        state_exists: false,
        vault: v,
    }
}

#[test]
fn init_decision_plan() {
    let (_, sb, v, vb) = derived(&alice());
    let plan = init_accounts().init(&program(), RENT, STATE_RENT).unwrap();
    assert_eq!(plan.state, VaultState { vault_bump: vb, state_bump: sb });
    assert_eq!(plan.transfer.amount, RENT);
    assert_eq!(plan.transfer.from.bytes, alice().bytes);
    assert_eq!(plan.transfer.to.bytes, v.bytes);
    assert_eq!(plan.transfer.vault_bump, None);
}

#[test]
fn init_decision_errors() {
    let mut a = init_accounts();
    a.user_is_signer = false;
    assert_eq!(a.init(&program(), RENT, STATE_RENT).unwrap_err(), VaultError::Unauthorized);
    let mut a = init_accounts();
    a.vault_state = bob();
    assert_eq!(a.init(&program(), RENT, STATE_RENT).unwrap_err(), VaultError::DerivationMismatch);
    let mut a = init_accounts();
    a.vault = bob();
    assert_eq!(a.init(&program(), RENT, STATE_RENT).unwrap_err(), VaultError::DerivationMismatch);
    let mut a = init_accounts();
    a.state_exists = true;
    assert_eq!(a.init(&program(), RENT, STATE_RENT).unwrap_err(), VaultError::AlreadyExists);
    let mut a = init_accounts();
    a.user_lamports = RENT + STATE_RENT - 1;
    assert_eq!(a.init(&program(), RENT, STATE_RENT).unwrap_err(), VaultError::InsufficientFunds);
}

fn withdraw_accounts(vault_lamports: u64) -> Withdraw {
    let (s, sb, v, vb) = derived(&alice());
    Withdraw {
        user: alice(),
        user_is_signer: true,
        vault_state: s,
        state: Some(VaultState { vault_bump: vb, state_bump: sb }),
        vault: v,
        vault_lamports,
    }
}

#[test]
fn withdraw_decision_transfer_and_errors() {
    let (_, _, v, vb) = derived(&alice());
    let t = withdraw_accounts(RENT + 100).withdraw(&program(), RENT, 100).unwrap();
    assert_eq!(t.amount, 100);
    assert_eq!(t.from.bytes, v.bytes);
    assert_eq!(t.to.bytes, alice().bytes);
    assert_eq!(t.vault_bump, Some(vb));
    assert_eq!(
        withdraw_accounts(RENT + 100).withdraw(&program(), RENT, 101).unwrap_err(),
        VaultError::InsufficientFunds
    );
    let mut a = withdraw_accounts(RENT + 100);
    a.state = None;
    assert_eq!(a.withdraw(&program(), RENT, 1).unwrap_err(), VaultError::NotFound);
    let mut a = withdraw_accounts(RENT + 100);
    a.user_is_signer = false;
    assert_eq!(a.withdraw(&program(), RENT, 1).unwrap_err(), VaultError::Unauthorized);
    let mut a = withdraw_accounts(RENT + 100);
    a.user = bob();
    assert_eq!(a.withdraw(&program(), RENT, 1).unwrap_err(), VaultError::DerivationMismatch);
    let mut a = withdraw_accounts(RENT + 100);
    a.state = Some(VaultState { vault_bump: vb.wrapping_sub(1), state_bump: a.state.unwrap().state_bump });
    assert_eq!(a.withdraw(&program(), RENT, 1).unwrap_err(), VaultError::DerivationMismatch);
}

#[test]
fn deposit_decision_transfer_and_errors() {
    let w = withdraw_accounts(RENT);
    let d = Deposit {
        user: w.user,
        user_is_signer: true,
        user_lamports: 50,
        vault_state: w.vault_state,
        state: w.state,
        vault: w.vault,
    };
    let t = d.deposit(&program(), 50).unwrap();
    assert_eq!(t.amount, 50);
    assert_eq!(t.to.bytes, w.vault.bytes);
    assert_eq!(t.vault_bump, None);
    assert_eq!(d.deposit(&program(), 51).unwrap_err(), VaultError::InsufficientFunds);
    let mut e = d;
    e.vault = bob();
    assert_eq!(e.deposit(&program(), 1).unwrap_err(), VaultError::DerivationMismatch);
    let mut e = d;
    e.state = None;
    assert_eq!(e.deposit(&program(), 1).unwrap_err(), VaultError::NotFound);
}

#[test]
fn close_decision_drains_vault() {
    let w = withdraw_accounts(RENT + 1234);
    let c = Close {
        user: w.user,
        user_is_signer: true,
        vault_state: w.vault_state,
        state: w.state,
        vault: w.vault,
        vault_lamports: w.vault_lamports,
    };
    let t = c.withdraw_and_close(&program()).unwrap();
    assert_eq!(t.amount, RENT + 1234);
    assert_eq!(t.to.bytes, alice().bytes);
    let mut e = c;
    e.vault_state = bob();
    assert_eq!(e.withdraw_and_close(&program()).unwrap_err(), VaultError::DerivationMismatch);
}
