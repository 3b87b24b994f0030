//! Ledgers for issuing and distributing a capped-supply fungible token.
//!
//! Three coordinated ledgers share one pattern: an administrator-controlled
//! configuration record, custody vaults holding value under the ledger's
//! exclusive control, per-participant records that make operations
//! idempotent, and time/quantity gates enforced before any state mutation or
//! value movement.
//!
//! - [`cat_token`]: the supply ledger — mint, burn and transfer against a
//!   hard maximum supply.
//! - [`airdrop`]: free distribution — a fixed amount per identity, one grant
//!   per identity ever, inside a time window.
//! - [`presale`]: rate-based sale — purchases converted at a fixed integer
//!   rate, bounded per buyer and in aggregate, with a proceeds vault.
//!
//! The value-transfer substrate (the host that actually holds accounts,
//! verifies signatures and supplies the clock) is modelled by plain account
//! records: every operation takes the full set of records it touches, checks
//! its gates, and either commits every mutation or none.

pub mod accounts;

pub mod airdrop;

pub mod cat_token;

pub mod presale;

pub mod window;
