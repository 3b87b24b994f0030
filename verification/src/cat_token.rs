//! The supply ledger: issuance of the token against a hard maximum supply.
//!
//! The configuration record tracks how much value has been issued. Minting
//! is gated on the cap, burning on the ledger actually being able to account
//! for the burned value, and both on the caller being the stored authority.
//! Every operation either passes all of its gates and commits every
//! mutation, or fails with the first gate's error and changes nothing.

use vstd::prelude::*;

use crate::accounts::Pubkey;
use crate::accounts::TokenAccount;

verus! {

/// The hard cap on issued supply: one quadrillion base units.
pub const MAX_SUPPLY: u64 = 1_000_000_000_000_000;

/// The supply ledger's configuration record. Created once by the authority;
/// its counters are mutated only by mint and burn.
#[derive(Clone, Debug)]
pub struct TokenInfo {
    pub authority: Pubkey,
    pub mint: Pubkey,
    pub name: String,
    pub symbol: String,
    pub decimals: u8,
    pub total_supply: u64,
    pub max_supply: u64,
}

impl TokenInfo {
    /// The record's invariant: issued supply never exceeds the cap, and the
    /// display strings fit the space the record was provisioned with.
    pub open spec fn wf(self) -> bool {
        &&& self.total_supply <= self.max_supply
        &&& self.name@.len() <= 32
        &&& self.symbol@.len() <= 10
    }
}

/// Why a supply-ledger operation was refused. Refusals are detected before
/// any mutation: a refused operation changes nothing.
#[derive(Clone, Copy, Debug, PartialEq, Eq, Structural)]
pub enum ErrorCode {
    /// Minting the requested amount would push issued supply past the cap.
    ExceedsMaxSupply,
    /// The source account, or the supply counter itself, cannot cover the
    /// requested amount.
    InsufficientValue,
    /// The caller is not the identity the operation demands.
    Unauthorized,
}

/// The records an initialization touches: the caller becoming the
/// authority, the mint being placed under the ledger, and the freshly
/// provisioned configuration record.
#[derive(Clone, Debug)]
pub struct InitializeToken {
    pub authority: Pubkey,
    pub mint: Pubkey,
    pub token_info: TokenInfo,
}

/// The configuration record as initialization leaves it: nothing issued
/// yet, the cap fixed at [`MAX_SUPPLY`].
pub open spec fn initialized_token_info(
    authority: Pubkey,
    mint: Pubkey,
    decimals: u8,
    name: String,
    symbol: String,
) -> TokenInfo {
    TokenInfo {
        authority,
        mint,
        name,
        symbol,
        decimals,
        total_supply: 0,
        max_supply: MAX_SUPPLY,
    }
}

/// Create the supply ledger's configuration record. The provisioning
/// substrate guarantees the record is created at most once; the display
/// strings must fit the provisioned space.
pub fn initialize_token(
    ctx: &mut InitializeToken,
    decimals: u8,
    name: String,
    symbol: String,
) -> (result: Result<(), ErrorCode>)
    requires
        name@.len() <= 32,
        symbol@.len() <= 10,
    ensures
        result is Ok,
        final(ctx).token_info == initialized_token_info(
            old(ctx).authority,
            old(ctx).mint,
            decimals,
            name,
            symbol,
        ),
        final(ctx).token_info.wf(),
        final(ctx).authority == old(ctx).authority,
        final(ctx).mint == old(ctx).mint,
{
    ctx.token_info = TokenInfo {
        authority: ctx.authority,
        mint: ctx.mint,
        name,
        symbol,
        decimals,
        total_supply: 0,
        max_supply: MAX_SUPPLY,
    };
    Ok(())
}

/// The records a mint touches: the caller, the configuration record, and
/// the destination account.
#[derive(Clone, Debug)]
pub struct MintTokens {
    pub authority: Pubkey,
    pub token_info: TokenInfo,
    pub to: TokenAccount,
}

impl MintTokens {
    /// The destination holds the ledger's own mint, and the configuration
    /// record satisfies its invariant.
    pub open spec fn wf(self) -> bool {
        &&& self.token_info.wf()
        &&& self.to.mint == self.token_info.mint
    }
}

/// The gates of a mint, in order: the caller must be the stored authority,
/// and the new supply must stay within the cap.
pub open spec fn mint_check(ctx: MintTokens, amount: u64) -> Result<(), ErrorCode> {
    if ctx.authority != ctx.token_info.authority {
        Err(ErrorCode::Unauthorized)
    } else if ctx.token_info.total_supply + amount > ctx.token_info.max_supply {
        Err(ErrorCode::ExceedsMaxSupply)
    } else {
        Ok(())
    }
}

/// The committed state of a successful mint: the destination is credited
/// and the supply counter raised by exactly the minted amount.
pub open spec fn mint_apply(ctx: MintTokens, amount: u64) -> MintTokens {
    MintTokens {
        token_info: TokenInfo {
            total_supply: (ctx.token_info.total_supply + amount) as u64,
            ..ctx.token_info
        },
        to: TokenAccount { amount: (ctx.to.amount + amount) as u64, ..ctx.to },
        ..ctx
    }
}

/// Mint new value to a destination account, authority only. Rejected
/// outright — with no state change — if the new total would exceed the cap.
pub fn mint_tokens(ctx: &mut MintTokens, amount: u64) -> (result: Result<(), ErrorCode>)
    requires
        old(ctx).wf(),
        old(ctx).to.amount + amount <= u64::MAX,
    ensures
        result == mint_check(*old(ctx), amount),
        result is Ok ==> *final(ctx) == mint_apply(*old(ctx), amount),
        result is Err ==> *final(ctx) == *old(ctx),
        final(ctx).wf(),
        old(ctx).authority == old(ctx).token_info.authority
            ==> final(ctx).token_info.total_supply == apply_supply_op(
            old(ctx).token_info.total_supply,
            old(ctx).token_info.max_supply,
            SupplyOp::Mint(amount),
        ),
{
    if ctx.authority != ctx.token_info.authority {
        return Err(ErrorCode::Unauthorized);
    }
    if amount > ctx.token_info.max_supply - ctx.token_info.total_supply {
        return Err(ErrorCode::ExceedsMaxSupply);
    }
    ctx.to.amount = ctx.to.amount + amount;
    ctx.token_info.total_supply = ctx.token_info.total_supply + amount;
    Ok(())
}

/// The records a transfer touches. A transfer moves value between two
/// distinct accounts of one mint; the ledger's counters are not involved.
#[derive(Clone, Copy, Debug)]
pub struct TransferTokens {
    pub authority: Pubkey,
    pub from: TokenAccount,
    pub to: TokenAccount,
}

impl TransferTokens {
    pub open spec fn wf(self) -> bool {
        &&& self.from.address != self.to.address
        &&& self.from.mint == self.to.mint
    }
}

/// The gates of a transfer: only the source's owner may move its value, and
/// the source must cover the amount.
pub open spec fn transfer_check(ctx: TransferTokens, amount: u64) -> Result<(), ErrorCode> {
    if ctx.authority != ctx.from.owner {
        Err(ErrorCode::Unauthorized)
    } else if amount > ctx.from.amount {
        Err(ErrorCode::InsufficientValue)
    } else {
        Ok(())
    }
}

/// The committed state of a successful transfer.
pub open spec fn transfer_apply(ctx: TransferTokens, amount: u64) -> TransferTokens {
    TransferTokens {
        from: TokenAccount { amount: (ctx.from.amount - amount) as u64, ..ctx.from },
        to: TokenAccount { amount: (ctx.to.amount + amount) as u64, ..ctx.to },
        ..ctx
    }
}

/// Move value between two accounts under the source owner's authorization.
/// Pure delegation: no ledger counter changes, and the moved value is
/// conserved between the two accounts.
pub fn transfer_tokens(ctx: &mut TransferTokens, amount: u64) -> (result: Result<(), ErrorCode>)
    requires
        old(ctx).wf(),
        old(ctx).to.amount + amount <= u64::MAX,
    ensures
        result == transfer_check(*old(ctx), amount),
        result is Ok ==> *final(ctx) == transfer_apply(*old(ctx), amount),
        result is Err ==> *final(ctx) == *old(ctx),
        final(ctx).wf(),
        final(ctx).from.amount + final(ctx).to.amount == old(ctx).from.amount
            + old(ctx).to.amount,
{
    if ctx.authority != ctx.from.owner {
        return Err(ErrorCode::Unauthorized);
    }
    if amount > ctx.from.amount {
        return Err(ErrorCode::InsufficientValue);
    }
    ctx.from.amount = ctx.from.amount - amount;
    ctx.to.amount = ctx.to.amount + amount;
    Ok(())
}

/// The records a burn touches: the caller, the configuration record, and
/// the source account whose value is destroyed.
#[derive(Clone, Debug)]
pub struct BurnTokens {
    pub authority: Pubkey,
    pub token_info: TokenInfo,
    pub from: TokenAccount,
}

impl BurnTokens {
    pub open spec fn wf(self) -> bool {
        &&& self.token_info.wf()
        &&& self.from.mint == self.token_info.mint
    }
}

/// The gates of a burn: authority only; the source must cover the amount;
/// and the supply counter must cover it too, so that the counter never
/// underflows and stays consistent with the value actually destroyed.
pub open spec fn burn_check(ctx: BurnTokens, amount: u64) -> Result<(), ErrorCode> {
    if ctx.authority != ctx.token_info.authority {
        Err(ErrorCode::Unauthorized)
    } else if amount > ctx.from.amount {
        Err(ErrorCode::InsufficientValue)
    } else if amount > ctx.token_info.total_supply {
        Err(ErrorCode::InsufficientValue)
    } else {
        Ok(())
    }
}

/// The committed state of a successful burn: the source is debited and the
/// supply counter lowered by exactly the burned amount.
pub open spec fn burn_apply(ctx: BurnTokens, amount: u64) -> BurnTokens {
    BurnTokens {
        token_info: TokenInfo {
            total_supply: (ctx.token_info.total_supply - amount) as u64,
            ..ctx.token_info
        },
        from: TokenAccount { amount: (ctx.from.amount - amount) as u64, ..ctx.from },
        ..ctx
    }
}

/// Destroy value from a source account, authority only. The supply counter
/// is decremented in step with the destroyed value; a burn the counter
/// cannot account for is refused rather than allowed to underflow.
pub fn burn_tokens(ctx: &mut BurnTokens, amount: u64) -> (result: Result<(), ErrorCode>)
    requires
        old(ctx).wf(),
    ensures
        result == burn_check(*old(ctx), amount),
        result is Ok ==> *final(ctx) == burn_apply(*old(ctx), amount),
        result is Err ==> *final(ctx) == *old(ctx),
        final(ctx).wf(),
        old(ctx).authority == old(ctx).token_info.authority && amount <= old(ctx).from.amount
            ==> final(ctx).token_info.total_supply == apply_supply_op(
            old(ctx).token_info.total_supply,
            old(ctx).token_info.max_supply,
            SupplyOp::Burn(amount),
        ),
{
    if ctx.authority != ctx.token_info.authority {
        return Err(ErrorCode::Unauthorized);
    }
    if amount > ctx.from.amount {
        return Err(ErrorCode::InsufficientValue);
    }
    if amount > ctx.token_info.total_supply {
        return Err(ErrorCode::InsufficientValue);
    }
    ctx.from.amount = ctx.from.amount - amount;
    ctx.token_info.total_supply = ctx.token_info.total_supply - amount;
    Ok(())
}

/// One step of the supply ledger's counter, as mint and burn commit it: a
/// mint that would pass the cap, or a burn the counter cannot cover, leaves
/// the counter unchanged.
#[derive(Clone, Copy, Debug, PartialEq, Eq, Structural)]
pub enum SupplyOp {
    Mint(u64),
    Burn(u64),
}

/// The supply counter after one operation.
pub open spec fn apply_supply_op(total_supply: u64, max_supply: u64, op: SupplyOp) -> u64 {
    match op {
        SupplyOp::Mint(amount) => if total_supply + amount <= max_supply {
            (total_supply + amount) as u64
        } else {
            total_supply
        },
        SupplyOp::Burn(amount) => if amount <= total_supply {
            (total_supply - amount) as u64
        } else {
            total_supply
        },
    }
}

/// The supply counter after a sequence of operations, applied in order.
pub open spec fn apply_supply_ops(total_supply: u64, max_supply: u64, ops: Seq<SupplyOp>) -> u64
    decreases ops.len(),
{
    if ops.len() == 0 {
        total_supply
    } else {
        apply_supply_op(
            apply_supply_ops(total_supply, max_supply, ops.drop_last()),
            max_supply,
            ops.last(),
        )
    }
}

/// Law: starting within the cap, the issued supply stays within the cap —
/// and, being unsigned, never below zero — under any sequence of mint and
/// burn operations.
pub proof fn lemma_supply_ops_bounded(total_supply: u64, max_supply: u64, ops: Seq<SupplyOp>)
    requires
        total_supply <= max_supply,
    ensures
        apply_supply_ops(total_supply, max_supply, ops) <= max_supply,
    decreases ops.len(),
{
    if ops.len() > 0 {
        lemma_supply_ops_bounded(total_supply, max_supply, ops.drop_last());
    }
}

} // verus!
