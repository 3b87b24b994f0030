//! Plain models of the host's account primitives.
//!
//! The execution substrate keeps value in addressable accounts and moves it
//! only under an authorization it has checked. The ledgers read three things
//! from those accounts: an address, an owner, and a balance. This module
//! models exactly that, so every balance movement in the ledgers is ordinary
//! verified arithmetic.

use vstd::prelude::*;

verus! {

/// An account address. The substrate derives addresses deterministically;
/// the ledgers only ever compare them for equality, so a plain numeric
/// identity suffices.
#[derive(Clone, Copy, Debug, PartialEq, Eq, Structural)]
pub struct Pubkey {
    pub id: u64,
}

/// A token account: holds token value of one mint on behalf of one owner.
/// Outbound transfers are authorized by the owner — for a ledger vault the
/// owner is the window record's own address, which is what lets the window
/// move value out of its vault without any private key.
#[derive(Clone, Copy, Debug, PartialEq, Eq, Structural)]
pub struct TokenAccount {
    pub address: Pubkey,
    pub mint: Pubkey,
    pub owner: Pubkey,
    pub amount: u64,
}

/// An account holding base value (lamports), such as a buyer's wallet or the
/// presale's proceeds vault.
#[derive(Clone, Copy, Debug, PartialEq, Eq, Structural)]
pub struct SolAccount {
    pub address: Pubkey,
    pub lamports: u64,
}

} // verus!
