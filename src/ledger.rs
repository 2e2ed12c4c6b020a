use crate::address::Address;
use crate::derivation::{
    derives, find_state_address, find_vault_address, found_program_address, state_seeds,
    vault_seeds,
};
use crate::instructions::{Close, Deposit, Init, VaultError, VaultState, Withdraw};
use vstd::prelude::*;

verus! {

/// A control record as it stands on the ledger: its address, the vault's
/// address, and the stored bumps.
#[derive(Clone, Copy, Debug)]
pub struct ControlRecord {
    pub key: Address,
    pub vault: Address,
    pub state: VaultState,
}

/// One owner's accounts on the host: the owner's balance, the vault's, the
/// control record with its storage deposit, and the host's minimum balances
/// of an empty vault (`vault_rent`) and of a record (`state_rent`).
#[derive(Clone, Copy, Debug)]
pub struct Ledger {
    pub program_id: Address,
    pub user: Address,
    pub vault_rent: u64,
    pub state_rent: u64,
    pub user_lamports: u64,
    pub record: Option<ControlRecord>,
    pub vault_lamports: u64,
    pub state_lamports: u64,
}

/// The record is at the addresses derived for `user`, with the bumps found
/// there, and both addresses re-derive from those bumps.
pub open spec fn record_binds(program: Seq<u8>, user: Seq<u8>, c: ControlRecord) -> bool {
    &&& found_program_address(state_seeds(user), program) == Some((c.key@, c.state.state_bump))
    &&& found_program_address(vault_seeds(c.key@), program) == Some(
        (c.vault@, c.state.vault_bump),
    )
    &&& derives(state_seeds(user), c.state.state_bump, program, c.key@)
    &&& derives(vault_seeds(c.key@), c.state.vault_bump, program, c.vault@)
}

impl Ledger {
    /// The total held by the owner's accounts fits a `u64`, a record's
    /// deposit is held only while it exists, and a record is bound to its owner.
    pub open spec fn wf(&self) -> bool {
        &&& self.user_lamports + self.vault_lamports + self.state_lamports <= u64::MAX
        &&& self.record is None ==> self.state_lamports == 0
        &&& self.record matches Some(c) ==> record_binds(self.program_id@, self.user@, c)
    }

    /// An owner with `user_lamports` and no vault yet.
    pub fn new(program_id: Address, user: Address, user_lamports: u64, vault_rent: u64, state_rent: u64) -> (r: Ledger)
        ensures
            r.wf(),
            r.program_id == program_id,
            r.user == user,
            r.user_lamports == user_lamports,
            r.vault_rent == vault_rent,
            r.state_rent == state_rent,
            r.record is None,
            r.vault_lamports == 0,
            r.state_lamports == 0,
    {
        Ledger {
            program_id,
            user,
            vault_rent,
            state_rent,
            user_lamports,
            record: None,
            vault_lamports: 0,
            state_lamports: 0,
        }
    }
}

/// What initialisation does: it fails with no effect where a record exists
/// or an address cannot be derived or the owner cannot pay both deposits;
/// else the owner pays both, the vault holds `vault_rent` more, and the
/// record holds the found addresses and bumps.
pub open spec fn init_post(o: Ledger, n: Ledger, r: Result<(), VaultError>) -> bool {
    if o.record is Some {
        r == Err::<(), VaultError>(VaultError::AlreadyExists) && n == o
    } else {
        match found_program_address(state_seeds(o.user@), o.program_id@) {
            None => r == Err::<(), VaultError>(VaultError::DerivationMismatch) && n == o,
            Some((k, sb)) => match found_program_address(vault_seeds(k), o.program_id@) {
                None => r == Err::<(), VaultError>(VaultError::DerivationMismatch) && n == o,
                Some((v, vb)) => if o.user_lamports < o.vault_rent + o.state_rent {
                    r == Err::<(), VaultError>(VaultError::InsufficientFunds) && n == o
                } else {
                    &&& r is Ok
                    &&& n.program_id == o.program_id
                    &&& n.user == o.user
                    &&& n.vault_rent == o.vault_rent
                    &&& n.state_rent == o.state_rent
                    &&& n.user_lamports == o.user_lamports - o.vault_rent - o.state_rent
                    &&& n.vault_lamports == o.vault_lamports + o.vault_rent
                    &&& n.state_lamports == o.state_rent
                    &&& n.record matches Some(c) && c.key@ == k && c.vault@ == v && c.state
                        == (VaultState { vault_bump: vb, state_bump: sb })
                },
            },
        }
    }
}

/// What a deposit does: without a record it fails with `NotFound`; where the
/// owner holds less than `amount` it fails; else `amount` moves to the vault.
pub open spec fn deposit_post(o: Ledger, n: Ledger, amount: u64, r: Result<(), VaultError>) -> bool {
    if o.record is None {
        r == Err::<(), VaultError>(VaultError::NotFound) && n == o
    } else if amount > o.user_lamports {
        r == Err::<(), VaultError>(VaultError::InsufficientFunds) && n == o
    } else {
        r is Ok && n == (Ledger {
            user_lamports: (o.user_lamports - amount) as u64,
            vault_lamports: (o.vault_lamports + amount) as u64,
            ..o
        })
    }
}

/// What a withdrawal does: without a record it fails with `NotFound`; where
/// the vault would keep less than `vault_rent` it fails; else `amount` moves
/// to the owner.
pub open spec fn withdraw_post(o: Ledger, n: Ledger, amount: u64, r: Result<(), VaultError>) -> bool {
    if o.record is None {
        r == Err::<(), VaultError>(VaultError::NotFound) && n == o
    } else if o.vault_lamports - amount < o.vault_rent {
        r == Err::<(), VaultError>(VaultError::InsufficientFunds) && n == o
    } else {
        r is Ok && n == (Ledger {
            user_lamports: (o.user_lamports + amount) as u64,
            vault_lamports: (o.vault_lamports - amount) as u64,
            ..o
        })
    }
}

/// What closing does: without a record it fails with `NotFound`; else the
/// owner receives the vault's whole balance and the record's deposit, and
/// both accounts are gone.
pub open spec fn close_post(o: Ledger, n: Ledger, r: Result<(), VaultError>) -> bool {
    if o.record is None {
        r == Err::<(), VaultError>(VaultError::NotFound) && n == o
    } else {
        r is Ok && n == (Ledger {
            user_lamports: (o.user_lamports + o.vault_lamports + o.state_lamports) as u64,
            vault_lamports: 0,
            state_lamports: 0,
            record: None,
            ..o
        })
    }
}

/// Runs the initialisation of the owner's vault: derives both addresses,
/// lets `Init` decide, and carries out its plan.
pub fn init(l: &mut Ledger) -> (r: Result<(), VaultError>)
    requires
        old(l).wf(),
    ensures
        final(l).wf(),
        init_post(*old(l), *final(l), r),
{
    let state_key = match find_state_address(&l.user, &l.program_id) {
        Some((k, _)) => k,
        None => {
            return Err(VaultError::DerivationMismatch);
        },
    };
    let vault_key = match find_vault_address(&state_key, &l.program_id) {
        Some((k, _)) => k,
        None => {
            return Err(VaultError::DerivationMismatch);
        },
    };
    let accounts = Init {
        user: l.user,
        user_is_signer: true,
        user_lamports: l.user_lamports,
        vault_state: state_key,
        state_exists: l.record.is_some(),
        vault: vault_key,
    };
    match accounts.init(&l.program_id, l.vault_rent, l.state_rent) {
        Err(e) => Err(e),
        Ok(plan) => {
            l.user_lamports = l.user_lamports - l.vault_rent - l.state_rent;
            l.vault_lamports = l.vault_lamports + plan.transfer.amount;
            l.state_lamports = l.state_rent;
            l.record = Some(ControlRecord { key: state_key, vault: vault_key, state: plan.state });
            Ok(())
        },
    }
}

/// Runs a deposit of `amount` from the owner into the vault.
pub fn deposit(l: &mut Ledger, amount: u64) -> (r: Result<(), VaultError>)
    requires
        old(l).wf(),
    ensures
        final(l).wf(),
        deposit_post(*old(l), *final(l), amount, r),
{
    let c = match l.record {
        Some(c) => c,
        None => {
            return Err(VaultError::NotFound);
        },
    };
    let accounts = Deposit {
        user: l.user,
        user_is_signer: true,
        user_lamports: l.user_lamports,
        vault_state: c.key,
        state: Some(c.state),
        vault: c.vault,
    };
    match accounts.deposit(&l.program_id, amount) {
        Err(e) => Err(e),
        Ok(t) => {
            l.user_lamports = l.user_lamports - t.amount;
            l.vault_lamports = l.vault_lamports + t.amount;
            Ok(())
        },
    }
}

/// Runs a withdrawal of `amount` from the vault to the owner. On success
/// the vault keeps at least its minimum balance; a refusal changes nothing.
pub fn withdraw(l: &mut Ledger, amount: u64) -> (r: Result<(), VaultError>)
    requires
        old(l).wf(),
    ensures
        final(l).wf(),
        withdraw_post(*old(l), *final(l), amount, r),
        r is Ok ==> final(l).vault_lamports >= final(l).vault_rent,
        r is Err ==> *final(l) == *old(l),
{
    let c = match l.record {
        Some(c) => c,
        None => {
            return Err(VaultError::NotFound);
        },
    };
    let accounts = Withdraw {
        user: l.user,
        user_is_signer: true,
        vault_state: c.key,
        state: Some(c.state),
        vault: c.vault,
        vault_lamports: l.vault_lamports,
    };
    match accounts.withdraw(&l.program_id, l.vault_rent, amount) {
        Err(e) => Err(e),
        Ok(t) => {
            l.vault_lamports = l.vault_lamports - t.amount;
            l.user_lamports = l.user_lamports + t.amount;
            Ok(())
        },
    }
}

/// Runs the closing: the vault's whole balance and the record's deposit go
/// to the owner, and both accounts are removed.
pub fn close(l: &mut Ledger) -> (r: Result<(), VaultError>)
    requires
        old(l).wf(),
    ensures
        final(l).wf(),
        close_post(*old(l), *final(l), r),
{
    let c = match l.record {
        Some(c) => c,
        None => {
            return Err(VaultError::NotFound);
        },
    };
    let accounts = Close {
        user: l.user,
        user_is_signer: true,
        vault_state: c.key,
        state: Some(c.state),
        vault: c.vault,
        vault_lamports: l.vault_lamports,
    };
    match accounts.withdraw_and_close(&l.program_id) {
        Err(e) => Err(e),
        Ok(t) => {
            l.user_lamports = l.user_lamports + t.amount + l.state_lamports;
            l.vault_lamports = 0;
            l.state_lamports = 0;
            l.record = None;
            Ok(())
        },
    }
}

/// An owner is initialised at most once: after a successful initialisation
/// a second one fails with `AlreadyExists` and changes nothing.
pub proof fn lemma_init_once(
    l0: Ledger,
    l1: Ledger,
    r1: Result<(), VaultError>,
    l2: Ledger,
    r2: Result<(), VaultError>,
)
    requires
        l0.wf(),
        init_post(l0, l1, r1),
        r1 is Ok,
        init_post(l1, l2, r2),
    ensures
        r2 == Err::<(), VaultError>(VaultError::AlreadyExists),
        l2 == l1,
{
}

/// A deposit of `amount` followed by a withdrawal of the same amount, where
/// the vault held at least its minimum before, succeeds and restores every
/// balance.
pub proof fn lemma_deposit_withdraw_round_trip(
    l0: Ledger,
    amount: u64,
    l1: Ledger,
    r1: Result<(), VaultError>,
    l2: Ledger,
    r2: Result<(), VaultError>,
)
    requires
        l0.wf(),
        amount > 0,
        l0.vault_lamports >= l0.vault_rent,
        deposit_post(l0, l1, amount, r1),
        r1 is Ok,
        withdraw_post(l1, l2, amount, r2),
    ensures
        r2 is Ok,
        l2 == l0,
        l2.vault_lamports == l0.vault_lamports,
{
}

/// After a successful withdrawal the vault holds at least its minimum
/// balance; an amount that would take it below fails and changes nothing.
pub proof fn lemma_withdraw_floor(l0: Ledger, amount: u64, l1: Ledger, r: Result<(), VaultError>)
    requires
        l0.wf(),
        withdraw_post(l0, l1, amount, r),
    ensures
        r is Ok ==> l1.vault_lamports >= l1.vault_rent,
        l0.record is Some && l0.vault_lamports - amount < l0.vault_rent ==> r == Err::<
            (),
            VaultError,
        >(VaultError::InsufficientFunds) && l1 == l0,
{
}

/// Closing hands the owner the vault's whole balance and the record's
/// deposit and removes both accounts; a deposit afterwards fails with
/// `NotFound`.
pub proof fn lemma_close_complete(
    l0: Ledger,
    l1: Ledger,
    r1: Result<(), VaultError>,
    amount: u64,
    l2: Ledger,
    r2: Result<(), VaultError>,
)
    requires
        l0.wf(),
        close_post(l0, l1, r1),
        r1 is Ok,
        deposit_post(l1, l2, amount, r2),
    ensures
        l1.user_lamports == l0.user_lamports + l0.vault_lamports + l0.state_lamports,
        l1.vault_lamports == 0,
        l1.state_lamports == 0,
        l1.record is None,
        r2 == Err::<(), VaultError>(VaultError::NotFound),
{
}

/// While a record exists, re-deriving from its stored bumps gives the
/// addresses that initialisation found and allocated, and deposits and
/// withdrawals leave the record as it is.
pub proof fn lemma_derivation_stable(l0: Ledger, amount: u64, l1: Ledger, r: Result<(), VaultError>)
    requires
        l0.wf(),
        l0.record is Some,
        deposit_post(l0, l1, amount, r) || withdraw_post(l0, l1, amount, r),
    ensures
        l1.record == l0.record,
        l0.record matches Some(c) && derives(
            state_seeds(l0.user@),
            c.state.state_bump,
            l0.program_id@,
            c.key@,
        ) && derives(vault_seeds(c.key@), c.state.vault_bump, l0.program_id@, c.vault@)
            && found_program_address(vault_seeds(c.key@), l0.program_id@) == Some(
            (c.vault@, c.state.vault_bump),
        ),
{
}

/// Initialisation stores bumps that re-derive the addresses it allocated.
pub proof fn lemma_init_binds(l0: Ledger, l1: Ledger, r: Result<(), VaultError>)
    requires
        l0.wf(),
        l1.wf(),
        init_post(l0, l1, r),
        r is Ok,
    ensures
        l1.record matches Some(c) && derives(
            state_seeds(l0.user@),
            c.state.state_bump,
            l0.program_id@,
            c.key@,
        ) && derives(vault_seeds(c.key@), c.state.vault_bump, l0.program_id@, c.vault@),
{
}

} // verus!
