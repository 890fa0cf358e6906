//! Model of the token ledger, the external collaborator that holds the
//! reward token's supply and balances.
//!
//! The reward system never implements its own transfer primitive: it issues
//! at most one `mint_to` or `transfer` per operation and commits only if
//! that call succeeds. Both primitives are atomic and total here: each one
//! either performs its whole effect or leaves every record unchanged, and
//! its result says which of the two happened.

use vstd::prelude::*;

verus! {

/// The reward token's mint record: tracks the total supply issued so far.
#[derive(Clone, Copy, Debug, PartialEq, Eq, Structural)]
pub struct TokenMint {
    pub supply: u64,
}

/// A balance record for the reward token: the treasury and each
/// participant's holding are accounts of this shape.
#[derive(Clone, Copy, Debug, PartialEq, Eq, Structural)]
pub struct TokenAccount {
    pub amount: u64,
}

/// A mint of `amount` succeeds exactly when both the total supply and the
/// receiving balance stay representable.
pub open spec fn spec_can_mint(mint: TokenMint, to: TokenAccount, amount: u64) -> bool {
    mint.supply + amount <= u64::MAX && to.amount + amount <= u64::MAX
}

/// A transfer of `amount` succeeds exactly when the source balance suffices
/// and the receiving balance stays representable.
pub open spec fn spec_can_transfer(from: TokenAccount, to: TokenAccount, amount: u64) -> bool {
    from.amount >= amount && to.amount + amount <= u64::MAX
}

/// The whole effect of a mint: whether it succeeded, and the mint and
/// receiving records afterwards.
pub open spec fn spec_mint_to(mint: TokenMint, to: TokenAccount, amount: u64) -> (
    bool,
    TokenMint,
    TokenAccount,
) {
    if spec_can_mint(mint, to, amount) {
        (
            true,
            (TokenMint { supply: (mint.supply + amount) as u64 }),
            (TokenAccount { amount: (to.amount + amount) as u64 }),
        )
    } else {
        (false, mint, to)
    }
}

/// The whole effect of a transfer: whether it succeeded, and the source and
/// receiving records afterwards.
pub open spec fn spec_transfer(from: TokenAccount, to: TokenAccount, amount: u64) -> (
    bool,
    TokenAccount,
    TokenAccount,
) {
    if spec_can_transfer(from, to, amount) {
        (
            true,
            (TokenAccount { amount: (from.amount - amount) as u64 }),
            (TokenAccount { amount: (to.amount + amount) as u64 }),
        )
    } else {
        (false, from, to)
    }
}

impl TokenMint {
    /// A freshly created mint has issued nothing.
    pub fn new() -> (m: TokenMint)
        ensures
            m.supply == 0,
    {
        TokenMint { supply: 0 }
    }
}

impl TokenAccount {
    /// A freshly created balance record holds nothing.
    pub fn new() -> (a: TokenAccount)
        ensures
            a.amount == 0,
    {
        TokenAccount { amount: 0 }
    }
}

/// Creates `amount` new tokens in `to`, growing the supply by the same
/// amount; on failure (either counter would overflow) nothing changes.
pub fn mint_to(mint: &mut TokenMint, to: &mut TokenAccount, amount: u64) -> (ok: bool)
    ensures
        (ok, *final(mint), *final(to)) == spec_mint_to(*old(mint), *old(to), amount),
        ok == spec_can_mint(*old(mint), *old(to), amount),
        ok ==> final(mint).supply == old(mint).supply + amount,
        ok ==> final(to).amount == old(to).amount + amount,
        !ok ==> *final(mint) == *old(mint) && *final(to) == *old(to),
{
    match (mint.supply.checked_add(amount), to.amount.checked_add(amount)) {
        (Some(supply), Some(balance)) => {
            mint.supply = supply;
            to.amount = balance;
            true
        },
        _ => false,
    }
}

/// Moves `amount` tokens from `from` to `to`; the move creates nothing and
/// destroys nothing. On failure (insufficient source balance, or the
/// receiving balance would overflow) nothing changes.
pub fn transfer(from: &mut TokenAccount, to: &mut TokenAccount, amount: u64) -> (ok: bool)
    ensures
        (ok, *final(from), *final(to)) == spec_transfer(*old(from), *old(to), amount),
        ok == spec_can_transfer(*old(from), *old(to), amount),
        ok ==> final(from).amount == old(from).amount - amount,
        ok ==> final(to).amount == old(to).amount + amount,
        ok ==> final(from).amount + final(to).amount == old(from).amount + old(to).amount,
        !ok ==> *final(from) == *old(from) && *final(to) == *old(to),
{
    if amount <= from.amount {
        match to.amount.checked_add(amount) {
            Some(balance) => {
                from.amount = from.amount - amount;
                to.amount = balance;
                true
            },
            None => false,
        }
    } else {
        false
    }
}

} // verus!
