//! The sale ledger: rate-based purchases against a value vault, bounded per
//! buyer and in aggregate, with a proceeds vault.
//!
//! A purchase offers base value (lamports) and receives tokens at a fixed
//! integer rate, rounded down. The full offered value moves to the proceeds
//! vault regardless of the rounding loss: the protocol does not compute or
//! refund the unconverted remainder — the floor-rounded grant is the whole
//! of what the buyer receives. Purchases are gated by the shared window
//! gates, a per-transaction minimum, a cumulative per-buyer maximum, and
//! the aggregate amount offered for sale.

use vstd::prelude::*;

use crate::accounts::Pubkey;
use crate::accounts::SolAccount;
use crate::accounts::TokenAccount;
use crate::window::WindowStatus;
use crate::window::spec_window_closed;
use crate::window::spec_window_status;
use crate::window::window_closed;
use crate::window::window_status;
use vstd::arithmetic::div_mod::lemma_div_is_ordered;
use vstd::arithmetic::div_mod::lemma_div_multiples_vanish;
use vstd::arithmetic::div_mod::lemma_fundamental_div_mod;
use vstd::arithmetic::div_mod::lemma_mod_bound;

verus! {

/// Tokens granted for one whole unit of base value.
pub const TOKENS_PER_SOL: u64 = 2_500_000;

/// Base-value subunits (lamports) in one whole unit.
pub const LAMPORTS_PER_SOL: u64 = 1_000_000_000;

/// The grant for an offered amount of base value: a fixed integer-rate
/// conversion with truncating (floor) division. A function of the offered
/// amount alone, so the conversion is deterministic.
pub open spec fn tokens_for_value(sol_amount: u64) -> int {
    sol_amount * TOKENS_PER_SOL / (LAMPORTS_PER_SOL as int)
}

/// Evaluate the rate conversion. The grant never exceeds the offered
/// value, since the rate is below one token per subunit.
pub fn calculate_token_amount(sol_amount: u64) -> (token_amount: u64)
    ensures
        token_amount == tokens_for_value(sol_amount),
        token_amount <= sol_amount,
{
    proof {
        lemma_div_is_ordered(
            sol_amount * TOKENS_PER_SOL,
            sol_amount * LAMPORTS_PER_SOL,
            LAMPORTS_PER_SOL as int,
        );
        lemma_div_multiples_vanish(sol_amount as int, LAMPORTS_PER_SOL as int);
    }
    let wide: u128 = (sol_amount as u128) * (TOKENS_PER_SOL as u128) / (LAMPORTS_PER_SOL
        as u128);
    wide as u64
}

/// Law: the conversion is floor-rounded — the grant is the greatest token
/// count whose exact cost in subunits does not exceed the offered value
/// times the rate.
pub proof fn lemma_rate_conversion_floor(sol_amount: u64)
    ensures
        tokens_for_value(sol_amount) * LAMPORTS_PER_SOL <= sol_amount * TOKENS_PER_SOL,
        sol_amount * TOKENS_PER_SOL < (tokens_for_value(sol_amount) + 1) * LAMPORTS_PER_SOL,
        0 <= tokens_for_value(sol_amount) <= sol_amount,
{
    let offered: int = sol_amount * TOKENS_PER_SOL;
    let scale: int = LAMPORTS_PER_SOL as int;
    lemma_fundamental_div_mod(offered, scale);
    lemma_mod_bound(offered, scale);
    assert(tokens_for_value(sol_amount) * scale == scale * (offered / scale));
    assert((tokens_for_value(sol_amount) + 1) * scale == scale * (offered / scale) + scale);
    lemma_div_is_ordered(0, offered, scale);
    lemma_div_is_ordered(offered, sol_amount * LAMPORTS_PER_SOL, scale);
    lemma_div_multiples_vanish(sol_amount as int, scale);
}

/// The presale window's configuration record.
#[derive(Clone, Copy, Debug, PartialEq, Eq, Structural)]
pub struct PresaleInfo {
    pub authority: Pubkey,
    pub token_mint: Pubkey,
    pub token_vault: Pubkey,
    pub sol_vault: Pubkey,
    pub token_price: u64,
    pub total_tokens_for_sale: u64,
    pub tokens_sold: u64,
    pub sol_raised: u64,
    pub total_buyers: u64,
    pub min_purchase: u64,
    pub max_purchase: u64,
    pub start_time: i64,
    pub end_time: i64,
    pub is_active: bool,
}

impl PresaleInfo {
    /// The window's invariant: what has been sold never exceeds the amount
    /// offered for sale.
    pub open spec fn wf(self) -> bool {
        self.tokens_sold <= self.total_tokens_for_sale
    }

    /// The shared window gate, evaluated against this record.
    pub open spec fn status(self, now: i64) -> WindowStatus {
        spec_window_status(self.is_active, self.start_time, self.end_time, now)
    }

    /// The sweep gate: the window no longer grants.
    pub open spec fn closed(self, now: i64) -> bool {
        spec_window_closed(self.is_active, self.end_time, now)
    }
}

/// The per-buyer accounting record: cumulative purchases, created zeroed on
/// the buyer's first interaction.
#[derive(Clone, Copy, Debug, PartialEq, Eq, Structural)]
pub struct PurchaseRecord {
    pub buyer: Pubkey,
    pub total_purchased: u64,
    pub total_sol_spent: u64,
    pub first_purchase_at: i64,
    pub last_purchase_at: i64,
}

/// Why a presale operation was refused. Refusals are detected before any
/// mutation: a refused operation changes nothing.
#[derive(Clone, Copy, Debug, PartialEq, Eq, Structural)]
pub enum ErrorCode {
    /// The authority has deactivated the window.
    PresaleNotActive,
    /// The current time is before the window's start.
    PresaleNotStarted,
    /// The current time is past the window's end.
    PresaleEnded,
    /// The converted grant is below the per-transaction minimum.
    BelowMinimumPurchase,
    /// The buyer's cumulative purchases would exceed the per-buyer maximum.
    ExceedsMaximumPurchase,
    /// Aggregate capacity or the token vault cannot cover the grant.
    InsufficientTokensForSale,
    /// The buyer's account cannot cover the offered value.
    InsufficientSOL,
    /// The proceeds vault cannot cover the requested withdrawal.
    InsufficientSOLInVault,
    /// The remainder may only be swept once the window is closed.
    PresaleStillActive,
    /// The caller's own account cannot cover the funding amount.
    InsufficientValue,
    /// The caller is not the window's authority.
    Unauthorized,
}

/// The records an initialization touches. Both vaults are provisioned
/// fresh; the token vault is owned by the window record itself.
#[derive(Clone, Copy, Debug)]
pub struct InitializePresale {
    pub authority: Pubkey,
    pub token_mint: Pubkey,
    pub presale_key: Pubkey,
    pub presale_info: PresaleInfo,
    pub token_vault: TokenAccount,
    pub sol_vault: SolAccount,
}

impl InitializePresale {
    pub open spec fn wf(self) -> bool {
        &&& self.token_vault.owner == self.presale_key
        &&& self.token_vault.mint == self.token_mint
        &&& self.token_vault.amount == 0
        &&& self.sol_vault.lamports == 0
    }
}

/// The configuration record as initialization leaves it: counters zeroed,
/// the window active.
pub open spec fn initialized_presale_info(
    ctx: InitializePresale,
    token_price: u64,
    total_tokens_for_sale: u64,
    min_purchase: u64,
    max_purchase: u64,
    start_time: i64,
    end_time: i64,
) -> PresaleInfo {
    PresaleInfo {
        authority: ctx.authority,
        token_mint: ctx.token_mint,
        token_vault: ctx.token_vault.address,
        sol_vault: ctx.sol_vault.address,
        token_price,
        total_tokens_for_sale,
        tokens_sold: 0,
        sol_raised: 0,
        total_buyers: 0,
        min_purchase,
        max_purchase,
        start_time,
        end_time,
        is_active: true,
    }
}

/// Create the presale window's configuration record. The provisioning
/// substrate guarantees the record is created at most once.
pub fn initialize_presale(
    ctx: &mut InitializePresale,
    token_price: u64,
    total_tokens_for_sale: u64,
    min_purchase: u64,
    max_purchase: u64,
    start_time: i64,
    end_time: i64,
) -> (result: Result<(), ErrorCode>)
    requires
        old(ctx).wf(),
    ensures
        result is Ok,
        final(ctx).presale_info == initialized_presale_info(
            *old(ctx),
            token_price,
            total_tokens_for_sale,
            min_purchase,
            max_purchase,
            start_time,
            end_time,
        ),
        final(ctx).presale_info.wf(),
        *final(ctx) == (InitializePresale { presale_info: final(ctx).presale_info, ..*old(ctx) }),
{
    ctx.presale_info = PresaleInfo {
        authority: ctx.authority,
        token_mint: ctx.token_mint,
        token_vault: ctx.token_vault.address,
        sol_vault: ctx.sol_vault.address,
        token_price,
        total_tokens_for_sale,
        tokens_sold: 0,
        sol_raised: 0,
        total_buyers: 0,
        min_purchase,
        max_purchase,
        start_time,
        end_time,
        is_active: true,
    };
    Ok(())
}

/// The records a purchase touches: the buyer's wallet, accounting record
/// and token account; the window record; and both of the window's vaults.
#[derive(Clone, Copy, Debug)]
pub struct BuyTokens {
    pub buyer: Pubkey,
    pub presale_key: Pubkey,
    pub presale_info: PresaleInfo,
    pub purchase_record: PurchaseRecord,
    pub token_vault: TokenAccount,
    pub sol_vault: SolAccount,
    pub buyer_sol: SolAccount,
    pub buyer_token_account: TokenAccount,
}

impl BuyTokens {
    /// Relational identities the substrate establishes before the purchase
    /// runs: both vaults are the window's stored vaults, the token vault is
    /// owned by the window record itself (the capability for the outbound
    /// transfer), and the buyer-side accounts are the caller's own.
    pub open spec fn wf(self) -> bool {
        &&& self.presale_info.wf()
        &&& self.token_vault.address == self.presale_info.token_vault
        &&& self.token_vault.owner == self.presale_key
        &&& self.token_vault.mint == self.presale_info.token_mint
        &&& self.sol_vault.address == self.presale_info.sol_vault
        &&& self.buyer_sol.address == self.buyer
        &&& self.buyer_token_account.mint == self.presale_info.token_mint
        &&& self.buyer_token_account.owner == self.buyer
        &&& self.buyer_token_account.address != self.token_vault.address
        &&& self.buyer_sol.address != self.sol_vault.address
    }
}

/// The gates of a purchase, in order: the shared window gates, then the
/// per-transaction minimum on the converted grant, the cumulative
/// per-buyer maximum, the aggregate capacity, the buyer's balance, and the
/// vault's balance.
pub open spec fn buy_check(ctx: BuyTokens, sol_amount: u64, now: i64) -> Result<(), ErrorCode> {
    let token_amount = tokens_for_value(sol_amount);
    match ctx.presale_info.status(now) {
        WindowStatus::NotActive => Err(ErrorCode::PresaleNotActive),
        WindowStatus::NotStarted => Err(ErrorCode::PresaleNotStarted),
        WindowStatus::Ended => Err(ErrorCode::PresaleEnded),
        WindowStatus::Open => if token_amount < ctx.presale_info.min_purchase {
            Err(ErrorCode::BelowMinimumPurchase)
        } else if ctx.purchase_record.total_purchased + token_amount
            > ctx.presale_info.max_purchase {
            Err(ErrorCode::ExceedsMaximumPurchase)
        } else if ctx.presale_info.tokens_sold + token_amount
            > ctx.presale_info.total_tokens_for_sale {
            Err(ErrorCode::InsufficientTokensForSale)
        } else if sol_amount > ctx.buyer_sol.lamports {
            Err(ErrorCode::InsufficientSOL)
        } else if token_amount > ctx.token_vault.amount {
            Err(ErrorCode::InsufficientTokensForSale)
        } else {
            Ok(())
        },
    }
}

/// The committed state of a successful purchase: the accounting record
/// first (stamping the buyer and the first-purchase time on a fresh
/// record), then the window's counters, then both value movements — the
/// full offered value to the proceeds vault, the grant from the token
/// vault to the buyer.
pub open spec fn buy_apply(ctx: BuyTokens, sol_amount: u64, now: i64) -> BuyTokens {
    let token_amount = tokens_for_value(sol_amount);
    let first_purchase = ctx.purchase_record.total_purchased == 0;
    BuyTokens {
        purchase_record: PurchaseRecord {
            buyer: if first_purchase {
                ctx.buyer
            } else {
                ctx.purchase_record.buyer
            },
            total_purchased: (ctx.purchase_record.total_purchased + token_amount) as u64,
            total_sol_spent: (ctx.purchase_record.total_sol_spent + sol_amount) as u64,
            first_purchase_at: if first_purchase {
                now
            } else {
                ctx.purchase_record.first_purchase_at
            },
            last_purchase_at: now,
        },
        presale_info: PresaleInfo {
            tokens_sold: (ctx.presale_info.tokens_sold + token_amount) as u64,
            sol_raised: (ctx.presale_info.sol_raised + sol_amount) as u64,
            total_buyers: if first_purchase {
                (ctx.presale_info.total_buyers + 1) as u64
            } else {
                ctx.presale_info.total_buyers
            },
            ..ctx.presale_info
        },
        buyer_sol: SolAccount {
            lamports: (ctx.buyer_sol.lamports - sol_amount) as u64,
            ..ctx.buyer_sol
        },
        sol_vault: SolAccount {
            lamports: (ctx.sol_vault.lamports + sol_amount) as u64,
            ..ctx.sol_vault
        },
        token_vault: TokenAccount {
            amount: (ctx.token_vault.amount - token_amount) as u64,
            ..ctx.token_vault
        },
        buyer_token_account: TokenAccount {
            amount: (ctx.buyer_token_account.amount + token_amount) as u64,
            ..ctx.buyer_token_account
        },
        ..ctx
    }
}

/// Purchase tokens at the fixed rate. All gates are checked before
/// anything moves: a refused purchase leaves every record and balance
/// exactly as it was. A successful purchase moves the full offered value
/// to the proceeds vault — the rounding remainder is not refunded — and
/// the floor-rounded grant to the buyer, atomically with the record and
/// counter updates.
pub fn buy_tokens(ctx: &mut BuyTokens, sol_amount: u64, now: i64) -> (result: Result<
    (),
    ErrorCode,
>)
    requires
        old(ctx).wf(),
        old(ctx).sol_vault.lamports + sol_amount <= u64::MAX,
        old(ctx).purchase_record.total_sol_spent + sol_amount <= u64::MAX,
        old(ctx).presale_info.sol_raised + sol_amount <= u64::MAX,
        old(ctx).presale_info.total_buyers < u64::MAX,
        old(ctx).buyer_token_account.amount + tokens_for_value(sol_amount) <= u64::MAX,
    ensures
        result == buy_check(*old(ctx), sol_amount, now),
        result is Ok ==> *final(ctx) == buy_apply(*old(ctx), sol_amount, now),
        result is Err ==> *final(ctx) == *old(ctx),
        final(ctx).wf(),
        final(ctx).presale_info.tokens_sold <= final(ctx).presale_info.total_tokens_for_sale,
        result is Ok ==> final(ctx).purchase_record.total_purchased
            <= final(ctx).presale_info.max_purchase,
        final(ctx).purchase_record.total_purchased >= old(ctx).purchase_record.total_purchased,
{
    let status = window_status(
        ctx.presale_info.is_active,
        ctx.presale_info.start_time,
        ctx.presale_info.end_time,
        now,
    );
    match status {
        WindowStatus::NotActive => {
            return Err(ErrorCode::PresaleNotActive);
        },
        WindowStatus::NotStarted => {
            return Err(ErrorCode::PresaleNotStarted);
        },
        WindowStatus::Ended => {
            return Err(ErrorCode::PresaleEnded);
        },
        WindowStatus::Open => {},
    }
    let token_amount = calculate_token_amount(sol_amount);
    if token_amount < ctx.presale_info.min_purchase {
        return Err(ErrorCode::BelowMinimumPurchase);
    }
    if ctx.purchase_record.total_purchased > ctx.presale_info.max_purchase || token_amount
        > ctx.presale_info.max_purchase - ctx.purchase_record.total_purchased {
        return Err(ErrorCode::ExceedsMaximumPurchase);
    }
    if token_amount > ctx.presale_info.total_tokens_for_sale - ctx.presale_info.tokens_sold {
        return Err(ErrorCode::InsufficientTokensForSale);
    }
    if sol_amount > ctx.buyer_sol.lamports {
        return Err(ErrorCode::InsufficientSOL);
    }
    if token_amount > ctx.token_vault.amount {
        return Err(ErrorCode::InsufficientTokensForSale);
    }
    let first_purchase = ctx.purchase_record.total_purchased == 0;
    if first_purchase {
        ctx.purchase_record.buyer = ctx.buyer;
        ctx.purchase_record.first_purchase_at = now;
        ctx.presale_info.total_buyers = ctx.presale_info.total_buyers + 1;
    }
    ctx.purchase_record.total_purchased = ctx.purchase_record.total_purchased + token_amount;
    ctx.purchase_record.total_sol_spent = ctx.purchase_record.total_sol_spent + sol_amount;
    ctx.purchase_record.last_purchase_at = now;
    ctx.presale_info.tokens_sold = ctx.presale_info.tokens_sold + token_amount;
    ctx.presale_info.sol_raised = ctx.presale_info.sol_raised + sol_amount;
    ctx.buyer_sol.lamports = ctx.buyer_sol.lamports - sol_amount;
    ctx.sol_vault.lamports = ctx.sol_vault.lamports + sol_amount;
    ctx.token_vault.amount = ctx.token_vault.amount - token_amount;
    ctx.buyer_token_account.amount = ctx.buyer_token_account.amount + token_amount;
    Ok(())
}

/// The records a funding touches: the authority's own account and the
/// window's token vault.
#[derive(Clone, Copy, Debug)]
pub struct FundPresale {
    pub authority: Pubkey,
    pub presale_info: PresaleInfo,
    pub authority_token_account: TokenAccount,
    pub token_vault: TokenAccount,
}

impl FundPresale {
    pub open spec fn wf(self) -> bool {
        &&& self.presale_info.wf()
        &&& self.token_vault.address == self.presale_info.token_vault
        &&& self.token_vault.mint == self.presale_info.token_mint
        &&& self.authority_token_account.mint == self.presale_info.token_mint
        &&& self.authority_token_account.owner == self.authority
        &&& self.authority_token_account.address != self.token_vault.address
    }
}

/// The gates of a funding: authority only, and the authority's account
/// must cover the amount.
pub open spec fn fund_presale_check(ctx: FundPresale, amount: u64) -> Result<(), ErrorCode> {
    if ctx.authority != ctx.presale_info.authority {
        Err(ErrorCode::Unauthorized)
    } else if amount > ctx.authority_token_account.amount {
        Err(ErrorCode::InsufficientValue)
    } else {
        Ok(())
    }
}

/// The committed state of a successful funding: value moves into the
/// vault; no window counter changes.
pub open spec fn fund_presale_apply(ctx: FundPresale, amount: u64) -> FundPresale {
    FundPresale {
        authority_token_account: TokenAccount {
            amount: (ctx.authority_token_account.amount - amount) as u64,
            ..ctx.authority_token_account
        },
        token_vault: TokenAccount {
            amount: (ctx.token_vault.amount + amount) as u64,
            ..ctx.token_vault
        },
        ..ctx
    }
}

/// Move value from the authority's account into the window's token vault.
pub fn fund_presale(ctx: &mut FundPresale, amount: u64) -> (result: Result<(), ErrorCode>)
    requires
        old(ctx).wf(),
        old(ctx).token_vault.amount + amount <= u64::MAX,
    ensures
        result == fund_presale_check(*old(ctx), amount),
        result is Ok ==> *final(ctx) == fund_presale_apply(*old(ctx), amount),
        result is Err ==> *final(ctx) == *old(ctx),
        final(ctx).wf(),
        final(ctx).presale_info == old(ctx).presale_info,
{
    if ctx.authority != ctx.presale_info.authority {
        return Err(ErrorCode::Unauthorized);
    }
    if amount > ctx.authority_token_account.amount {
        return Err(ErrorCode::InsufficientValue);
    }
    ctx.authority_token_account.amount = ctx.authority_token_account.amount - amount;
    ctx.token_vault.amount = ctx.token_vault.amount + amount;
    Ok(())
}

/// The records a reconfiguration touches: only the caller and the window
/// record.
#[derive(Clone, Copy, Debug)]
pub struct UpdatePresale {
    pub authority: Pubkey,
    pub presale_info: PresaleInfo,
}

/// The window record after a sparse update: each present field overrides,
/// each absent field is left unchanged.
pub open spec fn update_presale_apply(
    info: PresaleInfo,
    new_token_price: Option<u64>,
    new_end_time: Option<i64>,
    new_is_active: Option<bool>,
    new_min_purchase: Option<u64>,
    new_max_purchase: Option<u64>,
) -> PresaleInfo {
    PresaleInfo {
        token_price: if new_token_price is Some {
            new_token_price->0
        } else {
            info.token_price
        },
        end_time: if new_end_time is Some {
            new_end_time->0
        } else {
            info.end_time
        },
        is_active: if new_is_active is Some {
            new_is_active->0
        } else {
            info.is_active
        },
        min_purchase: if new_min_purchase is Some {
            new_min_purchase->0
        } else {
            info.min_purchase
        },
        max_purchase: if new_max_purchase is Some {
            new_max_purchase->0
        } else {
            info.max_purchase
        },
        ..info
    }
}

/// Reconfigure the window, authority only: the price, end time, active
/// flag and purchase bounds may each be overridden; absent fields stay as
/// they are. Counters and capacity are never touched.
pub fn update_presale(
    ctx: &mut UpdatePresale,
    new_token_price: Option<u64>,
    new_end_time: Option<i64>,
    new_is_active: Option<bool>,
    new_min_purchase: Option<u64>,
    new_max_purchase: Option<u64>,
) -> (result: Result<(), ErrorCode>)
    requires
        old(ctx).presale_info.wf(),
    ensures
        result is Ok <==> old(ctx).authority == old(ctx).presale_info.authority,
        result is Err ==> result == Err::<(), ErrorCode>(ErrorCode::Unauthorized) && *final(ctx)
            == *old(ctx),
        result is Ok ==> final(ctx).presale_info == update_presale_apply(
            old(ctx).presale_info,
            new_token_price,
            new_end_time,
            new_is_active,
            new_min_purchase,
            new_max_purchase,
        ),
        final(ctx).authority == old(ctx).authority,
        final(ctx).presale_info.wf(),
{
    if ctx.authority != ctx.presale_info.authority {
        return Err(ErrorCode::Unauthorized);
    }
    if let Some(token_price) = new_token_price {
        ctx.presale_info.token_price = token_price;
    }
    if let Some(end_time) = new_end_time {
        ctx.presale_info.end_time = end_time;
    }
    if let Some(is_active) = new_is_active {
        ctx.presale_info.is_active = is_active;
    }
    if let Some(min_purchase) = new_min_purchase {
        ctx.presale_info.min_purchase = min_purchase;
    }
    if let Some(max_purchase) = new_max_purchase {
        ctx.presale_info.max_purchase = max_purchase;
    }
    Ok(())
}

/// The records a proceeds withdrawal touches: the window record, the
/// proceeds vault, and the authority's wallet.
#[derive(Clone, Copy, Debug)]
pub struct WithdrawSOL {
    pub authority: Pubkey,
    pub presale_info: PresaleInfo,
    pub sol_vault: SolAccount,
    pub authority_sol: SolAccount,
}

impl WithdrawSOL {
    pub open spec fn wf(self) -> bool {
        &&& self.presale_info.wf()
        &&& self.sol_vault.address == self.presale_info.sol_vault
        &&& self.authority_sol.address == self.authority
        &&& self.authority_sol.address != self.sol_vault.address
    }
}

/// The gates of a proceeds withdrawal: authority only, and the vault must
/// cover the amount.
pub open spec fn withdraw_sol_check(ctx: WithdrawSOL, amount: u64) -> Result<(), ErrorCode> {
    if ctx.authority != ctx.presale_info.authority {
        Err(ErrorCode::Unauthorized)
    } else if amount > ctx.sol_vault.lamports {
        Err(ErrorCode::InsufficientSOLInVault)
    } else {
        Ok(())
    }
}

/// The committed state of a successful proceeds withdrawal. The raised
/// total is historical, not a live balance: no counter changes.
pub open spec fn withdraw_sol_apply(ctx: WithdrawSOL, amount: u64) -> WithdrawSOL {
    WithdrawSOL {
        sol_vault: SolAccount { lamports: (ctx.sol_vault.lamports - amount) as u64, ..ctx.sol_vault },
        authority_sol: SolAccount {
            lamports: (ctx.authority_sol.lamports + amount) as u64,
            ..ctx.authority_sol
        },
        ..ctx
    }
}

/// Withdraw raised base value from the proceeds vault to the authority.
pub fn withdraw_sol(ctx: &mut WithdrawSOL, amount: u64) -> (result: Result<(), ErrorCode>)
    requires
        old(ctx).wf(),
        old(ctx).authority_sol.lamports + amount <= u64::MAX,
    ensures
        result == withdraw_sol_check(*old(ctx), amount),
        result is Ok ==> *final(ctx) == withdraw_sol_apply(*old(ctx), amount),
        result is Err ==> *final(ctx) == *old(ctx),
        final(ctx).wf(),
        final(ctx).presale_info == old(ctx).presale_info,
        final(ctx).sol_vault.lamports + final(ctx).authority_sol.lamports
            == old(ctx).sol_vault.lamports + old(ctx).authority_sol.lamports,
{
    if ctx.authority != ctx.presale_info.authority {
        return Err(ErrorCode::Unauthorized);
    }
    if amount > ctx.sol_vault.lamports {
        return Err(ErrorCode::InsufficientSOLInVault);
    }
    ctx.sol_vault.lamports = ctx.sol_vault.lamports - amount;
    ctx.authority_sol.lamports = ctx.authority_sol.lamports + amount;
    Ok(())
}

/// The records a sweep touches: the window record, its token vault, and
/// the authority's account receiving the remainder.
#[derive(Clone, Copy, Debug)]
pub struct WithdrawRemainingTokens {
    pub authority: Pubkey,
    pub presale_key: Pubkey,
    pub presale_info: PresaleInfo,
    pub authority_token_account: TokenAccount,
    pub token_vault: TokenAccount,
}

impl WithdrawRemainingTokens {
    pub open spec fn wf(self) -> bool {
        &&& self.presale_info.wf()
        &&& self.token_vault.address == self.presale_info.token_vault
        &&& self.token_vault.owner == self.presale_key
        &&& self.token_vault.mint == self.presale_info.token_mint
        &&& self.authority_token_account.mint == self.presale_info.token_mint
        &&& self.authority_token_account.owner == self.authority
        &&& self.authority_token_account.address != self.token_vault.address
    }
}

/// The gates of a sweep: authority only, and only once the window is
/// closed. An empty vault is not a gate — sweeping nothing succeeds.
pub open spec fn withdraw_remaining_tokens_check(ctx: WithdrawRemainingTokens, now: i64) -> Result<
    (),
    ErrorCode,
> {
    if ctx.authority != ctx.presale_info.authority {
        Err(ErrorCode::Unauthorized)
    } else if !ctx.presale_info.closed(now) {
        Err(ErrorCode::PresaleStillActive)
    } else {
        Ok(())
    }
}

/// The committed state of a successful sweep: the vault's full remaining
/// balance moves to the authority. With an empty vault this is the
/// identity — a successful no-op.
pub open spec fn withdraw_remaining_tokens_apply(ctx: WithdrawRemainingTokens)
    -> WithdrawRemainingTokens {
    WithdrawRemainingTokens {
        token_vault: TokenAccount { amount: 0, ..ctx.token_vault },
        authority_token_account: TokenAccount {
            amount: (ctx.authority_token_account.amount + ctx.token_vault.amount) as u64,
            ..ctx.authority_token_account
        },
        ..ctx
    }
}

/// Sweep the token vault's full remaining balance to the authority once
/// the window is closed. A zero balance is swept successfully and changes
/// nothing.
pub fn withdraw_remaining_tokens(ctx: &mut WithdrawRemainingTokens, now: i64) -> (result: Result<
    (),
    ErrorCode,
>)
    requires
        old(ctx).wf(),
        old(ctx).authority_token_account.amount + old(ctx).token_vault.amount <= u64::MAX,
    ensures
        result == withdraw_remaining_tokens_check(*old(ctx), now),
        result is Ok ==> *final(ctx) == withdraw_remaining_tokens_apply(*old(ctx)),
        result is Err ==> *final(ctx) == *old(ctx),
        final(ctx).wf(),
        result is Ok && old(ctx).token_vault.amount == 0 ==> *final(ctx) == *old(ctx),
        result is Ok ==> final(ctx).token_vault.amount == 0,
{
    if ctx.authority != ctx.presale_info.authority {
        return Err(ErrorCode::Unauthorized);
    }
    let closed = window_closed(ctx.presale_info.is_active, ctx.presale_info.end_time, now);
    if !closed {
        return Err(ErrorCode::PresaleStillActive);
    }
    let remaining_balance = ctx.token_vault.amount;
    if remaining_balance > 0 {
        ctx.token_vault.amount = 0;
        ctx.authority_token_account.amount = ctx.authority_token_account.amount
            + remaining_balance;
    }
    Ok(())
}

} // verus!
