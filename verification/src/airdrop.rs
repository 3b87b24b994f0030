//! The free-distribution ledger: fixed-amount, one-time-per-identity claims
//! inside a time window.
//!
//! A window is configured once by its authority, funded from the
//! authority's own account, and then grants each identity exactly one claim
//! of the configured amount while the window is open and capacity remains.
//! The per-identity claim record makes the grant idempotent: its flag is
//! written once and never reverts. The vault is owned by the window record
//! itself — the relational check that the vault's owner equals the window's
//! own address is what authorizes outbound transfers, with no key held.

use vstd::prelude::*;

use crate::accounts::Pubkey;
use crate::accounts::TokenAccount;
use crate::window::WindowStatus;
use crate::window::spec_window_closed;
use crate::window::spec_window_status;
use crate::window::window_closed;
use crate::window::window_status;

verus! {

/// The airdrop window's configuration record.
#[derive(Clone, Copy, Debug, PartialEq, Eq, Structural)]
pub struct AirdropInfo {
    pub authority: Pubkey,
    pub token_mint: Pubkey,
    pub token_vault: Pubkey,
    pub total_airdrop_amount: u64,
    pub claim_amount: u64,
    pub claimed_amount: u64,
    pub total_claimers: u64,
    pub start_time: i64,
    pub end_time: i64,
    pub is_active: bool,
}

impl AirdropInfo {
    /// The window's invariant: what has been granted never exceeds the
    /// supply committed to the window.
    pub open spec fn wf(self) -> bool {
        self.claimed_amount <= self.total_airdrop_amount
    }

    /// The shared window gate, evaluated against this record.
    pub open spec fn status(self, now: i64) -> WindowStatus {
        spec_window_status(self.is_active, self.start_time, self.end_time, now)
    }

    /// The sweep gate: the window no longer grants.
    pub open spec fn closed(self, now: i64) -> bool {
        spec_window_closed(self.is_active, self.end_time, now)
    }
}

/// The per-identity claim record: write-once idempotency state, created
/// zeroed on the identity's first interaction.
#[derive(Clone, Copy, Debug, PartialEq, Eq, Structural)]
pub struct ClaimRecord {
    pub user: Pubkey,
    pub has_claimed: bool,
    pub claimed_at: i64,
    pub amount_claimed: u64,
}

/// Why an airdrop operation was refused. Refusals are detected before any
/// mutation: a refused operation changes nothing.
#[derive(Clone, Copy, Debug, PartialEq, Eq, Structural)]
pub enum ErrorCode {
    /// The authority has deactivated the window.
    AirdropNotActive,
    /// The current time is before the window's start.
    AirdropNotStarted,
    /// The current time is past the window's end.
    AirdropEnded,
    /// This identity has already received its grant.
    AlreadyClaimed,
    /// Capacity or vault balance cannot cover the grant.
    InsufficientTokens,
    /// The remainder may only be swept once the window is closed.
    AirdropStillActive,
    /// The caller's own account cannot cover the funding amount.
    InsufficientValue,
    /// The caller is not the window's authority.
    Unauthorized,
}

/// The records an initialization touches. The vault is provisioned empty,
/// holding the distributed mint, owned by the window record itself.
#[derive(Clone, Copy, Debug)]
pub struct InitializeAirdrop {
    pub authority: Pubkey,
    pub token_mint: Pubkey,
    pub airdrop_key: Pubkey,
    pub airdrop_info: AirdropInfo,
    pub token_vault: TokenAccount,
}

impl InitializeAirdrop {
    pub open spec fn wf(self) -> bool {
        &&& self.token_vault.owner == self.airdrop_key
        &&& self.token_vault.mint == self.token_mint
        &&& self.token_vault.amount == 0
    }
}

/// The configuration record as initialization leaves it: counters zeroed,
/// the window active.
pub open spec fn initialized_airdrop_info(
    ctx: InitializeAirdrop,
    total_airdrop_amount: u64,
    claim_amount: u64,
    start_time: i64,
    end_time: i64,
) -> AirdropInfo {
    AirdropInfo {
        authority: ctx.authority,
        token_mint: ctx.token_mint,
        token_vault: ctx.token_vault.address,
        total_airdrop_amount,
        claim_amount,
        claimed_amount: 0,
        total_claimers: 0,
        start_time,
        end_time,
        is_active: true,
    }
}

/// Create the airdrop window's configuration record. The provisioning
/// substrate guarantees the record is created at most once.
pub fn initialize_airdrop(
    ctx: &mut InitializeAirdrop,
    total_airdrop_amount: u64,
    claim_amount: u64,
    start_time: i64,
    end_time: i64,
) -> (result: Result<(), ErrorCode>)
    requires
        old(ctx).wf(),
    ensures
        result is Ok,
        final(ctx).airdrop_info == initialized_airdrop_info(
            *old(ctx),
            total_airdrop_amount,
            claim_amount,
            start_time,
            end_time,
        ),
        final(ctx).airdrop_info.wf(),
        *final(ctx) == (InitializeAirdrop { airdrop_info: final(ctx).airdrop_info, ..*old(ctx) }),
{
    ctx.airdrop_info = AirdropInfo {
        authority: ctx.authority,
        token_mint: ctx.token_mint,
        token_vault: ctx.token_vault.address,
        total_airdrop_amount,
        claim_amount,
        claimed_amount: 0,
        total_claimers: 0,
        start_time,
        end_time,
        is_active: true,
    };
    Ok(())
}

/// The records a claim touches: the claiming identity's record and token
/// account, the window record, and the window's vault.
#[derive(Clone, Copy, Debug)]
pub struct ClaimAirdrop {
    pub user: Pubkey,
    pub airdrop_key: Pubkey,
    pub airdrop_info: AirdropInfo,
    pub claim_record: ClaimRecord,
    pub token_vault: TokenAccount,
    pub user_token_account: TokenAccount,
}

impl ClaimAirdrop {
    /// Relational identities the substrate establishes before the claim
    /// runs: the vault is the window's stored vault, owned by the window
    /// record itself (the capability for the outbound transfer), and the
    /// destination is the caller's own account of the distributed mint.
    pub open spec fn wf(self) -> bool {
        &&& self.airdrop_info.wf()
        &&& self.token_vault.address == self.airdrop_info.token_vault
        &&& self.token_vault.owner == self.airdrop_key
        &&& self.token_vault.mint == self.airdrop_info.token_mint
        &&& self.user_token_account.mint == self.airdrop_info.token_mint
        &&& self.user_token_account.owner == self.user
        &&& self.user_token_account.address != self.token_vault.address
    }
}

/// The gates of a claim, in order: the shared window gates, then the
/// identity's write-once flag, then capacity, then the vault balance.
pub open spec fn claim_check(ctx: ClaimAirdrop, now: i64) -> Result<(), ErrorCode> {
    match ctx.airdrop_info.status(now) {
        WindowStatus::NotActive => Err(ErrorCode::AirdropNotActive),
        WindowStatus::NotStarted => Err(ErrorCode::AirdropNotStarted),
        WindowStatus::Ended => Err(ErrorCode::AirdropEnded),
        WindowStatus::Open => if ctx.claim_record.has_claimed {
            Err(ErrorCode::AlreadyClaimed)
        } else if ctx.airdrop_info.claimed_amount + ctx.airdrop_info.claim_amount
            > ctx.airdrop_info.total_airdrop_amount {
            Err(ErrorCode::InsufficientTokens)
        } else if ctx.airdrop_info.claim_amount > ctx.token_vault.amount {
            Err(ErrorCode::InsufficientTokens)
        } else {
            Ok(())
        },
    }
}

/// The committed state of a successful claim: record first, then the
/// window's counters, then the value movement from vault to claimer.
pub open spec fn claim_apply(ctx: ClaimAirdrop, now: i64) -> ClaimAirdrop {
    ClaimAirdrop {
        claim_record: ClaimRecord {
            has_claimed: true,
            claimed_at: now,
            amount_claimed: ctx.airdrop_info.claim_amount,
            ..ctx.claim_record
        },
        airdrop_info: AirdropInfo {
            claimed_amount: (ctx.airdrop_info.claimed_amount + ctx.airdrop_info.claim_amount)
                as u64,
            total_claimers: (ctx.airdrop_info.total_claimers + 1) as u64,
            ..ctx.airdrop_info
        },
        token_vault: TokenAccount {
            amount: (ctx.token_vault.amount - ctx.airdrop_info.claim_amount) as u64,
            ..ctx.token_vault
        },
        user_token_account: TokenAccount {
            amount: (ctx.user_token_account.amount + ctx.airdrop_info.claim_amount) as u64,
            ..ctx.user_token_account
        },
        ..ctx
    }
}

/// Grant the calling identity its one fixed-amount claim. All gates are
/// checked before anything moves: a refused claim leaves every record and
/// balance exactly as it was. A successful claim writes the record, raises
/// the counters, and moves the grant from the vault to the claimer,
/// atomically.
pub fn claim_airdrop(ctx: &mut ClaimAirdrop, now: i64) -> (result: Result<(), ErrorCode>)
    requires
        old(ctx).wf(),
        old(ctx).user_token_account.amount + old(ctx).airdrop_info.claim_amount <= u64::MAX,
        old(ctx).airdrop_info.total_claimers < u64::MAX,
    ensures
        result == claim_check(*old(ctx), now),
        result is Ok ==> *final(ctx) == claim_apply(*old(ctx), now),
        result is Err ==> *final(ctx) == *old(ctx),
        final(ctx).wf(),
        final(ctx).airdrop_info.claimed_amount <= final(ctx).airdrop_info.total_airdrop_amount,
        old(ctx).claim_record.has_claimed ==> final(ctx).claim_record.has_claimed,
{
    let status = window_status(
        ctx.airdrop_info.is_active,
        ctx.airdrop_info.start_time,
        ctx.airdrop_info.end_time,
        now,
    );
    match status {
        WindowStatus::NotActive => {
            return Err(ErrorCode::AirdropNotActive);
        },
        WindowStatus::NotStarted => {
            return Err(ErrorCode::AirdropNotStarted);
        },
        WindowStatus::Ended => {
            return Err(ErrorCode::AirdropEnded);
        },
        WindowStatus::Open => {},
    }
    if ctx.claim_record.has_claimed {
        return Err(ErrorCode::AlreadyClaimed);
    }
    if ctx.airdrop_info.claim_amount > ctx.airdrop_info.total_airdrop_amount
        - ctx.airdrop_info.claimed_amount {
        return Err(ErrorCode::InsufficientTokens);
    }
    if ctx.airdrop_info.claim_amount > ctx.token_vault.amount {
        return Err(ErrorCode::InsufficientTokens);
    }
    ctx.claim_record.has_claimed = true;
    ctx.claim_record.claimed_at = now;
    ctx.claim_record.amount_claimed = ctx.airdrop_info.claim_amount;
    ctx.airdrop_info.claimed_amount = ctx.airdrop_info.claimed_amount
        + ctx.airdrop_info.claim_amount;
    ctx.airdrop_info.total_claimers = ctx.airdrop_info.total_claimers + 1;
    ctx.token_vault.amount = ctx.token_vault.amount - ctx.airdrop_info.claim_amount;
    ctx.user_token_account.amount = ctx.user_token_account.amount
        + ctx.airdrop_info.claim_amount;
    Ok(())
}

/// Law: a claim is granted to each identity at most once. After a
/// successful claim, a second attempt by the same identity — at any time at
/// which the window is still open — fails with the already-claimed error,
/// and therefore (by the claim's contract) moves nothing.
pub proof fn lemma_claim_idempotent(ctx: ClaimAirdrop, now1: i64, now2: i64)
    requires
        claim_check(ctx, now1) is Ok,
        claim_apply(ctx, now1).airdrop_info.status(now2) is Open,
    ensures
        claim_check(claim_apply(ctx, now1), now2) == Err::<(), ErrorCode>(
            ErrorCode::AlreadyClaimed,
        ),
{
}

/// Law: the claimed flag never reverts. Whatever a claim does, an identity
/// whose record is already marked stays marked.
pub proof fn lemma_claim_flag_monotone(ctx: ClaimAirdrop, now: i64)
    ensures
        ctx.claim_record.has_claimed ==> claim_apply(ctx, now).claim_record.has_claimed,
        claim_apply(ctx, now).claim_record.has_claimed,
{
}

/// The records a funding touches: the authority's own account and the
/// window's vault. Funding moves under the authority's own signature, not
/// the window's.
#[derive(Clone, Copy, Debug)]
pub struct FundAirdrop {
    pub authority: Pubkey,
    pub airdrop_info: AirdropInfo,
    pub authority_token_account: TokenAccount,
    pub token_vault: TokenAccount,
}

impl FundAirdrop {
    pub open spec fn wf(self) -> bool {
        &&& self.airdrop_info.wf()
        &&& self.token_vault.address == self.airdrop_info.token_vault
        &&& self.token_vault.mint == self.airdrop_info.token_mint
        &&& self.authority_token_account.mint == self.airdrop_info.token_mint
        &&& self.authority_token_account.owner == self.authority
        &&& self.authority_token_account.address != self.token_vault.address
    }
}

/// The gates of a funding: authority only, and the authority's account
/// must cover the amount.
pub open spec fn fund_check(ctx: FundAirdrop, amount: u64) -> Result<(), ErrorCode> {
    if ctx.authority != ctx.airdrop_info.authority {
        Err(ErrorCode::Unauthorized)
    } else if amount > ctx.authority_token_account.amount {
        Err(ErrorCode::InsufficientValue)
    } else {
        Ok(())
    }
}

/// The committed state of a successful funding: value moves into the
/// vault; no window counter changes.
pub open spec fn fund_apply(ctx: FundAirdrop, amount: u64) -> FundAirdrop {
    FundAirdrop {
        authority_token_account: TokenAccount {
            amount: (ctx.authority_token_account.amount - amount) as u64,
            ..ctx.authority_token_account
        },
        token_vault: TokenAccount { amount: (ctx.token_vault.amount + amount) as u64, ..ctx.token_vault },
        ..ctx
    }
}

/// Move value from the authority's account into the window's vault.
pub fn fund_airdrop(ctx: &mut FundAirdrop, amount: u64) -> (result: Result<(), ErrorCode>)
    requires
        old(ctx).wf(),
        old(ctx).token_vault.amount + amount <= u64::MAX,
    ensures
        result == fund_check(*old(ctx), amount),
        result is Ok ==> *final(ctx) == fund_apply(*old(ctx), amount),
        result is Err ==> *final(ctx) == *old(ctx),
        final(ctx).wf(),
        final(ctx).airdrop_info == old(ctx).airdrop_info,
{
    if ctx.authority != ctx.airdrop_info.authority {
        return Err(ErrorCode::Unauthorized);
    }
    if amount > ctx.authority_token_account.amount {
        return Err(ErrorCode::InsufficientValue);
    }
    ctx.authority_token_account.amount = ctx.authority_token_account.amount - amount;
    ctx.token_vault.amount = ctx.token_vault.amount + amount;
    Ok(())
}

/// The records a reconfiguration touches: only the caller and the window
/// record.
#[derive(Clone, Copy, Debug)]
pub struct UpdateAirdrop {
    pub authority: Pubkey,
    pub airdrop_info: AirdropInfo,
}

/// The window record after a sparse update: each present field overrides,
/// each absent field is left unchanged.
pub open spec fn update_airdrop_apply(
    info: AirdropInfo,
    new_claim_amount: Option<u64>,
    new_end_time: Option<i64>,
    new_is_active: Option<bool>,
) -> AirdropInfo {
    AirdropInfo {
        claim_amount: if new_claim_amount is Some {
            new_claim_amount->0
        } else {
            info.claim_amount
        },
        end_time: if new_end_time is Some {
            new_end_time->0
        } else {
            info.end_time
        },
        is_active: if new_is_active is Some {
            new_is_active->0
        } else {
            info.is_active
        },
        ..info
    }
}

/// Reconfigure the window, authority only: the grant amount, the end time
/// and the active flag may each be overridden; absent fields stay as they
/// are. Counters and capacity are never touched.
pub fn update_airdrop(
    ctx: &mut UpdateAirdrop,
    new_claim_amount: Option<u64>,
    new_end_time: Option<i64>,
    new_is_active: Option<bool>,
) -> (result: Result<(), ErrorCode>)
    requires
        old(ctx).airdrop_info.wf(),
    ensures
        result is Ok <==> old(ctx).authority == old(ctx).airdrop_info.authority,
        result is Err ==> result == Err::<(), ErrorCode>(ErrorCode::Unauthorized) && *final(ctx)
            == *old(ctx),
        result is Ok ==> final(ctx).airdrop_info == update_airdrop_apply(
            old(ctx).airdrop_info,
            new_claim_amount,
            new_end_time,
            new_is_active,
        ),
        final(ctx).authority == old(ctx).authority,
        final(ctx).airdrop_info.wf(),
{
    if ctx.authority != ctx.airdrop_info.authority {
        return Err(ErrorCode::Unauthorized);
    }
    if let Some(claim_amount) = new_claim_amount {
        ctx.airdrop_info.claim_amount = claim_amount;
    }
    if let Some(end_time) = new_end_time {
        ctx.airdrop_info.end_time = end_time;
    }
    if let Some(is_active) = new_is_active {
        ctx.airdrop_info.is_active = is_active;
    }
    Ok(())
}

/// The records a sweep touches: the window record, its vault, and the
/// authority's account receiving the remainder.
#[derive(Clone, Copy, Debug)]
pub struct WithdrawRemaining {
    pub authority: Pubkey,
    pub airdrop_key: Pubkey,
    pub airdrop_info: AirdropInfo,
    pub authority_token_account: TokenAccount,
    pub token_vault: TokenAccount,
}

impl WithdrawRemaining {
    pub open spec fn wf(self) -> bool {
        &&& self.airdrop_info.wf()
        &&& self.token_vault.address == self.airdrop_info.token_vault
        &&& self.token_vault.owner == self.airdrop_key
        &&& self.token_vault.mint == self.airdrop_info.token_mint
        &&& self.authority_token_account.mint == self.airdrop_info.token_mint
        &&& self.authority_token_account.owner == self.authority
        &&& self.authority_token_account.address != self.token_vault.address
    }
}

/// The gates of a sweep: authority only, and only once the window is
/// closed. An empty vault is not a gate — sweeping nothing succeeds.
pub open spec fn withdraw_remaining_check(ctx: WithdrawRemaining, now: i64) -> Result<
    (),
    ErrorCode,
> {
    if ctx.authority != ctx.airdrop_info.authority {
        Err(ErrorCode::Unauthorized)
    } else if !ctx.airdrop_info.closed(now) {
        Err(ErrorCode::AirdropStillActive)
    } else {
        Ok(())
    }
}

/// The committed state of a successful sweep: the vault's full remaining
/// balance moves to the authority. With an empty vault this is the
/// identity — a successful no-op.
pub open spec fn withdraw_remaining_apply(ctx: WithdrawRemaining) -> WithdrawRemaining {
    WithdrawRemaining {
        token_vault: TokenAccount { amount: 0, ..ctx.token_vault },
        authority_token_account: TokenAccount {
            amount: (ctx.authority_token_account.amount + ctx.token_vault.amount) as u64,
            ..ctx.authority_token_account
        },
        ..ctx
    }
}

/// Sweep the vault's full remaining balance to the authority once the
/// window is closed. A zero balance is swept successfully and changes
/// nothing.
pub fn withdraw_remaining(ctx: &mut WithdrawRemaining, now: i64) -> (result: Result<
    (),
    ErrorCode,
>)
    requires
        old(ctx).wf(),
        old(ctx).authority_token_account.amount + old(ctx).token_vault.amount <= u64::MAX,
    ensures
        result == withdraw_remaining_check(*old(ctx), now),
        result is Ok ==> *final(ctx) == withdraw_remaining_apply(*old(ctx)),
        result is Err ==> *final(ctx) == *old(ctx),
        final(ctx).wf(),
        result is Ok && old(ctx).token_vault.amount == 0 ==> *final(ctx) == *old(ctx),
        result is Ok ==> final(ctx).token_vault.amount == 0,
{
    if ctx.authority != ctx.airdrop_info.authority {
        return Err(ErrorCode::Unauthorized);
    }
    let closed = window_closed(ctx.airdrop_info.is_active, ctx.airdrop_info.end_time, now);
    if !closed {
        return Err(ErrorCode::AirdropStillActive);
    }
    let remaining_balance = ctx.token_vault.amount;
    if remaining_balance > 0 {
        ctx.token_vault.amount = 0;
        ctx.authority_token_account.amount = ctx.authority_token_account.amount
            + remaining_balance;
    }
    Ok(())
}

} // verus!
