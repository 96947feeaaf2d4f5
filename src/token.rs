use vstd::prelude::*;
use crate::error::AweError;
use crate::keys::{Pubkey, same_key};

verus! {

/// A fungible token's mint: its address and its decimal precision.
#[derive(Clone, Copy, Debug, PartialEq, Eq)]
pub struct MintAccount {
    pub key: Pubkey,
    pub decimals: u8,
}

/// A token account: which mint it holds, its balance in the smallest unit, its
/// owner, and an optional delegate allowed to move up to `delegated_amount`.
#[derive(Clone, Copy, Debug, PartialEq, Eq)]
pub struct TokenAccount {
    pub key: Pubkey,
    pub mint: Pubkey,
    pub owner: Pubkey,
    pub amount: u64,
    pub delegate: Option<Pubkey>,
    pub delegated_amount: u64,
}

/// `authority` may move `amount` out of `from` as its owner.
pub open spec fn signs_as_owner(from: TokenAccount, authority: Pubkey) -> bool {
    from.owner == authority
}

/// `authority` may move `amount` out of `from` as its delegate.
pub open spec fn signs_as_delegate(from: TokenAccount, authority: Pubkey, amount: u64) -> bool {
    from.delegate == Some(authority) && amount <= from.delegated_amount
}

/// The transfer of `amount` units of `mint` from `from` to `to`, signed by
/// `authority` and checked against `decimals`, is accepted.
pub open spec fn transfer_allowed(
    from: TokenAccount,
    to: TokenAccount,
    mint: MintAccount,
    authority: Pubkey,
    amount: u64,
    decimals: u8,
) -> bool {
    &&& from.mint == mint.key
    &&& to.mint == mint.key
    &&& decimals == mint.decimals
    &&& (signs_as_owner(from, authority) || signs_as_delegate(from, authority, amount))
    &&& amount <= from.amount
    &&& (from.key == to.key || to.amount + amount <= u64::MAX)
}

/// `from` after it has paid `amount` under `authority`'s signature.
pub open spec fn debited(from: TokenAccount, authority: Pubkey, amount: u64) -> TokenAccount {
    TokenAccount {
        amount: (from.amount - amount) as u64,
        delegated_amount: if signs_as_owner(from, authority) {
            from.delegated_amount
        } else {
            (from.delegated_amount - amount) as u64
        },
        ..from
    }
}

/// `to` after it has received `amount`.
pub open spec fn credited(to: TokenAccount, amount: u64) -> TokenAccount {
    TokenAccount { amount: (to.amount + amount) as u64, ..to }
}

/// Moves `amount` units from `from` to `to`, signed by `authority`. A refused
/// transfer changes nothing; a transfer from an account to itself moves
/// nothing.
pub fn transfer_checked(
    from: &mut TokenAccount,
    to: &mut TokenAccount,
    mint: &MintAccount,
    authority: Pubkey,
    amount: u64,
    decimals: u8,
) -> (r: Result<(), AweError>)
    ensures
        r is Ok <==> transfer_allowed(*old(from), *old(to), *mint, authority, amount, decimals),
        r is Err ==> r == Err::<(), AweError>(AweError::TransferFailed),
        r is Err ==> *final(from) == *old(from) && *final(to) == *old(to),
        r is Ok && old(from).key == old(to).key ==> *final(from) == *old(from) && *final(to)
            == *old(to),
        r is Ok && old(from).key != old(to).key ==> *final(from) == debited(
            *old(from),
            authority,
            amount,
        ) && *final(to) == credited(*old(to), amount),
{
    if !same_key(&from.mint, &mint.key) || !same_key(&to.mint, &mint.key) || decimals
        != mint.decimals {
        return Err(AweError::TransferFailed);
    }
    let as_owner = same_key(&from.owner, &authority);
    let as_delegate = match from.delegate {
        Some(d) => same_key(&d, &authority) && amount <= from.delegated_amount,
        None => false,
    };
    if !as_owner && !as_delegate {
        return Err(AweError::TransferFailed);
    }
    if amount > from.amount {
        return Err(AweError::TransferFailed);
    }
    if same_key(&from.key, &to.key) {
        return Ok(());
    }
    if to.amount > u64::MAX - amount {
        return Err(AweError::TransferFailed);
    }
    from.amount = from.amount - amount;
    if !as_owner {
        from.delegated_amount = from.delegated_amount - amount;
    }
    to.amount = to.amount + amount;
    Ok(())
}

} // verus!
