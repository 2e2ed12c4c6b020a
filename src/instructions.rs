use crate::address::Address;
use crate::derivation::{
    derives, find_state_address, find_vault_address, found_program_address, is_state_address,
    is_vault_address, state_seeds, vault_seeds,
};
use vstd::prelude::*;

verus! {

/// The control record: the bumps that re-derive its own address and the vault's.
#[derive(Clone, Copy, Debug, PartialEq, Eq, Structural)]
pub struct VaultState {
    pub vault_bump: u8,
    pub state_bump: u8,
}

/// Why an instruction was refused.
#[derive(Clone, Copy, Debug, PartialEq, Eq, Structural)]
pub enum VaultError {
    /// A supplied account is not at the address that derivation gives.
    DerivationMismatch,
    /// The control record does not exist.
    NotFound,
    /// The control record exists already.
    AlreadyExists,
    /// The payer cannot cover the transfer, or the vault would fall below its floor.
    InsufficientFunds,
    /// The owner did not sign.
    Unauthorized,
}

/// A transfer for the host to carry out; `vault_bump` is set where the
/// vault is the source and the program signs for it with that bump.
#[derive(Clone, Copy, Debug)]
pub struct Transfer {
    pub from: Address,
    pub to: Address,
    pub amount: u64,
    pub vault_bump: Option<u8>,
}

/// What a successful initialisation does: store `state`, then carry out `transfer`.
#[derive(Clone, Copy, Debug)]
pub struct InitPlan {
    pub state: VaultState,
    pub transfer: Transfer,
}

/// The accounts of the initialisation, as supplied.
#[derive(Clone, Copy, Debug)]
pub struct Init {
    pub user: Address,
    pub user_is_signer: bool,
    pub user_lamports: u64,
    pub vault_state: Address,
    pub state_exists: bool,
    pub vault: Address,
}

/// The accounts of a deposit, as supplied; `state` is the record held at
/// `vault_state`, if any.
#[derive(Clone, Copy, Debug)]
pub struct Deposit {
    pub user: Address,
    pub user_is_signer: bool,
    pub user_lamports: u64,
    pub vault_state: Address,
    pub state: Option<VaultState>,
    pub vault: Address,
}

/// The accounts of a withdrawal, as supplied.
#[derive(Clone, Copy, Debug)]
pub struct Withdraw {
    pub user: Address,
    pub user_is_signer: bool,
    pub vault_state: Address,
    pub state: Option<VaultState>,
    pub vault: Address,
    pub vault_lamports: u64,
}

/// The accounts of the closing, as supplied.
#[derive(Clone, Copy, Debug)]
pub struct Close {
    pub user: Address,
    pub user_is_signer: bool,
    pub vault_state: Address,
    pub state: Option<VaultState>,
    pub vault: Address,
    pub vault_lamports: u64,
}

/// The outcome of validating an existing owner's accounts: the stored record
/// where the owner signed, the record exists and both addresses re-derive.
pub open spec fn accounts_check(
    program: Seq<u8>,
    user: Seq<u8>,
    signer: bool,
    state_key: Seq<u8>,
    state: Option<VaultState>,
    vault: Seq<u8>,
) -> Result<VaultState, VaultError> {
    if !signer {
        Err(VaultError::Unauthorized)
    } else {
        match state {
            None => Err(VaultError::NotFound),
            Some(s) => if derives(state_seeds(user), s.state_bump, program, state_key) && derives(
                vault_seeds(state_key),
                s.vault_bump,
                program,
                vault,
            ) {
                Ok(s)
            } else {
                Err(VaultError::DerivationMismatch)
            },
        }
    }
}

/// Validates an existing owner's accounts.
pub fn check_accounts(
    program: &Address,
    user: &Address,
    signer: bool,
    state_key: &Address,
    state: Option<VaultState>,
    vault: &Address,
) -> (r: Result<VaultState, VaultError>)
    ensures
        r == accounts_check(program@, user@, signer, state_key@, state, vault@),
{
    if !signer {
        return Err(VaultError::Unauthorized);
    }
    match state {
        None => Err(VaultError::NotFound),
        Some(s) => {
            if is_state_address(state_key, user, s.state_bump, program) && is_vault_address(
                vault,
                state_key,
                s.vault_bump,
                program,
            ) {
                Ok(s)
            } else {
                Err(VaultError::DerivationMismatch)
            }
        },
    }
}

/// The error of an initialisation, or `None` where it goes through.
pub open spec fn init_error(a: Init, program: Seq<u8>, vault_rent: u64, state_rent: u64) -> Option<
    VaultError,
> {
    if !a.user_is_signer {
        Some(VaultError::Unauthorized)
    } else if !(found_program_address(state_seeds(a.user@), program) matches Some((k, _))
        && k == a.vault_state@) {
        Some(VaultError::DerivationMismatch)
    } else if a.state_exists {
        Some(VaultError::AlreadyExists)
    } else if !(found_program_address(vault_seeds(a.vault_state@), program) matches Some((k, _))
        && k == a.vault@) {
        Some(VaultError::DerivationMismatch)
    } else if (a.user_lamports as int) < vault_rent + state_rent {
        Some(VaultError::InsufficientFunds)
    } else {
        None
    }
}

impl Init {
    /// Decides the initialisation: derives both addresses, and on success
    /// stores both bumps and funds the vault with `vault_rent` from the owner.
    /// `state_rent` is what allocating the record costs the owner.
    pub fn init(&self, program: &Address, vault_rent: u64, state_rent: u64) -> (r: Result<
        InitPlan,
        VaultError,
    >)
        ensures
            r is Err <==> init_error(*self, program@, vault_rent, state_rent) is Some,
            r matches Err(e) ==> init_error(*self, program@, vault_rent, state_rent) == Some(e),
            r matches Ok(p) ==> found_program_address(state_seeds(self.user@), program@) == Some(
                (self.vault_state@, p.state.state_bump),
            ) && found_program_address(vault_seeds(self.vault_state@), program@) == Some(
                (self.vault@, p.state.vault_bump),
            ) && derives(state_seeds(self.user@), p.state.state_bump, program@, self.vault_state@)
                && derives(vault_seeds(self.vault_state@), p.state.vault_bump, program@, self.vault@)
                && p.transfer.from == self.user && p.transfer.to == self.vault
                && p.transfer.amount == vault_rent && p.transfer.vault_bump is None,
    {
        if !self.user_is_signer {
            return Err(VaultError::Unauthorized);
        }
        let state_bump = match find_state_address(&self.user, program) {
            Some((k, b)) => {
                if !k.same(&self.vault_state) {
                    return Err(VaultError::DerivationMismatch);
                }
                b
            },
            None => {
                return Err(VaultError::DerivationMismatch);
            },
        };
        if self.state_exists {
            return Err(VaultError::AlreadyExists);
        }
        let vault_bump = match find_vault_address(&self.vault_state, program) {
            Some((k, b)) => {
                if !k.same(&self.vault) {
                    return Err(VaultError::DerivationMismatch);
                }
                b
            },
            None => {
                return Err(VaultError::DerivationMismatch);
            },
        };
        if (self.user_lamports as u128) < vault_rent as u128 + state_rent as u128 {
            return Err(VaultError::InsufficientFunds);
        }
        Ok(
            InitPlan {
                state: VaultState { vault_bump, state_bump },
                transfer: Transfer {
                    from: self.user,
                    to: self.vault,
                    amount: vault_rent,
                    vault_bump: None,
                },
            },
        )
    }
}

/// The transfer of a deposit, or its error.
pub open spec fn deposit_decision(a: Deposit, program: Seq<u8>, amount: u64) -> Result<
    Transfer,
    VaultError,
> {
    match accounts_check(program, a.user@, a.user_is_signer, a.vault_state@, a.state, a.vault@) {
        Err(e) => Err(e),
        Ok(_) => if amount <= a.user_lamports {
            Ok(Transfer { from: a.user, to: a.vault, amount, vault_bump: None })
        } else {
            Err(VaultError::InsufficientFunds)
        },
    }
}

impl Deposit {
    /// Decides a deposit of `amount` from the owner into the vault.
    pub fn deposit(&self, program: &Address, amount: u64) -> (r: Result<Transfer, VaultError>)
        ensures
            r == deposit_decision(*self, program@, amount),
    {
        match check_accounts(
            program,
            &self.user,
            self.user_is_signer,
            &self.vault_state,
            self.state,
            &self.vault,
        ) {
            Err(e) => Err(e),
            Ok(_) => {
                if amount <= self.user_lamports {
                    Ok(Transfer { from: self.user, to: self.vault, amount, vault_bump: None })
                } else {
                    Err(VaultError::InsufficientFunds)
                }
            },
        }
    }
}

/// The transfer of a withdrawal, or its error: the vault must keep at least
/// `vault_rent` after paying `amount`.
pub open spec fn withdraw_decision(a: Withdraw, program: Seq<u8>, vault_rent: u64, amount: u64) -> Result<
    Transfer,
    VaultError,
> {
    match accounts_check(program, a.user@, a.user_is_signer, a.vault_state@, a.state, a.vault@) {
        Err(e) => Err(e),
        Ok(s) => if a.vault_lamports - amount >= vault_rent {
            Ok(Transfer { from: a.vault, to: a.user, amount, vault_bump: Some(s.vault_bump) })
        } else {
            Err(VaultError::InsufficientFunds)
        },
    }
}

impl Withdraw {
    /// Decides a withdrawal of `amount` from the vault to the owner.
    pub fn withdraw(&self, program: &Address, vault_rent: u64, amount: u64) -> (r: Result<
        Transfer,
        VaultError,
    >)
        ensures
            r == withdraw_decision(*self, program@, vault_rent, amount),
    {
        match check_accounts(
            program,
            &self.user,
            self.user_is_signer,
            &self.vault_state,
            self.state,
            &self.vault,
        ) {
            Err(e) => Err(e),
            Ok(s) => {
                if amount <= self.vault_lamports && self.vault_lamports - amount >= vault_rent {
                    Ok(
                        Transfer {
                            from: self.vault,
                            to: self.user,
                            amount,
                            vault_bump: Some(s.vault_bump),
                        },
                    )
                } else {
                    Err(VaultError::InsufficientFunds)
                }
            },
        }
    }
}

/// The transfer of the closing, or its error: the vault's whole balance.
pub open spec fn close_decision(a: Close, program: Seq<u8>) -> Result<Transfer, VaultError> {
    match accounts_check(program, a.user@, a.user_is_signer, a.vault_state@, a.state, a.vault@) {
        Err(e) => Err(e),
        Ok(s) => Ok(
            Transfer {
                from: a.vault,
                to: a.user,
                amount: a.vault_lamports,
                vault_bump: Some(s.vault_bump),
            },
        ),
    }
}

impl Close {
    /// Decides the closing: the vault's whole balance goes to the owner; the
    /// host then removes the record and refunds its deposit to the owner.
    pub fn withdraw_and_close(&self, program: &Address) -> (r: Result<Transfer, VaultError>)
        ensures
            r == close_decision(*self, program@),
    {
        match check_accounts(
            program,
            &self.user,
            self.user_is_signer,
            &self.vault_state,
            self.state,
            &self.vault,
        ) {
            Err(e) => Err(e),
            Ok(s) => Ok(
                Transfer {
                    from: self.vault,
                    to: self.user,
                    amount: self.vault_lamports,
                    vault_bump: Some(s.vault_bump),
                },
            ),
        }
    }
}

} // verus!
