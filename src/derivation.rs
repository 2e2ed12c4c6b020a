use anchor_lang::prelude::Pubkey;
use crate::address::Address;
use vstd::prelude::*;

verus! {

/// What `Pubkey::try_find_program_address` returns for these seeds and program:
/// the first off-curve address over the bumps 255 down to 0, with its bump.
pub uninterp spec fn found_program_address(seeds: Seq<Seq<u8>>, program: Seq<u8>) -> Option<(Seq<u8>, u8)>;

/// What `Pubkey::create_program_address` returns for these seeds (the bump
/// included as the last seed) and program, `None` standing for its error.
pub uninterp spec fn created_program_address(seeds: Seq<Seq<u8>>, program: Seq<u8>) -> Option<Seq<u8>>;

/// The seed label of the control record.
pub open spec fn state_label() -> Seq<u8> {
    seq![115u8, 116u8, 97u8, 116u8, 101u8]
}

/// The seed label of the vault account.
pub open spec fn vault_label() -> Seq<u8> {
    seq![118u8, 97u8, 117u8, 108u8, 116u8]
}

/// Seeds of the control record of `user`.
pub open spec fn state_seeds(user: Seq<u8>) -> Seq<Seq<u8>> {
    seq![state_label(), user]
}

/// Seeds of the vault account bound to the control record at `state`.
pub open spec fn vault_seeds(state: Seq<u8>) -> Seq<Seq<u8>> {
    seq![vault_label(), state]
}

/// `key` is the address that `seeds`, completed by `bump`, give under `program`.
pub open spec fn derives(seeds: Seq<Seq<u8>>, bump: u8, program: Seq<u8>, key: Seq<u8>) -> bool {
    created_program_address(seeds.push(seq![bump]), program) == Some(key)
}

/// Relies on `Pubkey::try_find_program_address`: it tries the bumps from 255
/// down and returns the first address that `create_program_address` accepts
/// for the seeds with that bump appended.
#[verifier::external_body]
fn try_find_address(label: &[u8], base: &Address, program: &Address) -> (r: Option<(Address, u8)>)
    ensures
        r is None ==> found_program_address(seq![label@, base@], program@) is None,
        r matches Some((a, b)) ==> found_program_address(seq![label@, base@], program@) == Some((a@, b)),
        r matches Some((a, b)) ==> created_program_address(seq![label@, base@, seq![b]], program@) == Some(a@),
{
    Pubkey::try_find_program_address(&[label, base.bytes.as_ref()], &Pubkey::new_from_array(program.bytes))
        .map(|(a, b)| (Address { bytes: a.to_bytes() }, b))
}

/// Relies on `Pubkey::create_program_address`: the address of the seeds with
/// the bump appended, or an error where they give none.
#[verifier::external_body]
fn create_address(label: &[u8], base: &Address, bump: u8, program: &Address) -> (r: Option<Address>)
    ensures
        r is None ==> created_program_address(seq![label@, base@, seq![bump]], program@) is None,
        r matches Some(a) ==> created_program_address(seq![label@, base@, seq![bump]], program@) == Some(a@),
{
    Pubkey::create_program_address(&[label, base.bytes.as_ref(), &[bump]], &Pubkey::new_from_array(program.bytes))
        .ok()
        .map(|a| Address { bytes: a.to_bytes() })
}

fn state_label_bytes() -> (r: Vec<u8>)
    ensures
        r@ == state_label(),
{
    let r = vec![115u8, 116u8, 97u8, 116u8, 101u8];
    assert(r@ =~= state_label());
    r
}

fn vault_label_bytes() -> (r: Vec<u8>)
    ensures
        r@ == vault_label(),
{
    let r = vec![118u8, 97u8, 117u8, 108u8, 116u8];
    assert(r@ =~= vault_label());
    r
}

/// Finds the control record's address of `user` and its bump.
pub fn find_state_address(user: &Address, program: &Address) -> (r: Option<(Address, u8)>)
    ensures
        r is None ==> found_program_address(state_seeds(user@), program@) is None,
        r matches Some((a, b)) ==> found_program_address(state_seeds(user@), program@) == Some((a@, b)),
        r matches Some((a, b)) ==> derives(state_seeds(user@), b, program@, a@),
{
    let label = state_label_bytes();
    let r = try_find_address(label.as_slice(), user, program);
    match r {
        Some((a, b)) => {
            assert(state_seeds(user@).push(seq![b]) =~= seq![state_label(), user@, seq![b]]);
        },
        None => {},
    }
    r
}

/// Finds the vault's address bound to the control record at `state` and its bump.
pub fn find_vault_address(state: &Address, program: &Address) -> (r: Option<(Address, u8)>)
    ensures
        r is None ==> found_program_address(vault_seeds(state@), program@) is None,
        r matches Some((a, b)) ==> found_program_address(vault_seeds(state@), program@) == Some((a@, b)),
        r matches Some((a, b)) ==> derives(vault_seeds(state@), b, program@, a@),
{
    let label = vault_label_bytes();
    let r = try_find_address(label.as_slice(), state, program);
    match r {
        Some((a, b)) => {
            assert(vault_seeds(state@).push(seq![b]) =~= seq![vault_label(), state@, seq![b]]);
        },
        None => {},
    }
    r
}

/// Whether `key` is the control record's address of `user` under the stored `bump`.
pub fn is_state_address(key: &Address, user: &Address, bump: u8, program: &Address) -> (r: bool)
    ensures
        r == derives(state_seeds(user@), bump, program@, key@),
{
    let label = state_label_bytes();
    let c = create_address(label.as_slice(), user, bump, program);
    assert(state_seeds(user@).push(seq![bump]) =~= seq![state_label(), user@, seq![bump]]);
    match c {
        Some(a) => a.same(key),
        None => false,
    }
}

/// Whether `key` is the vault's address bound to the record at `state` under the stored `bump`.
pub fn is_vault_address(key: &Address, state: &Address, bump: u8, program: &Address) -> (r: bool)
    ensures
        r == derives(vault_seeds(state@), bump, program@, key@),
{
    let label = vault_label_bytes();
    let c = create_address(label.as_slice(), state, bump, program);
    assert(vault_seeds(state@).push(seq![bump]) =~= seq![vault_label(), state@, seq![bump]]);
    match c {
        Some(a) => a.same(key),
        None => false,
    }
}

} // verus!
