use cat_coin::accounts::Pubkey;
use cat_coin::accounts::TokenAccount;
use cat_coin::airdrop::AirdropInfo;
use cat_coin::airdrop::ClaimAirdrop;
use cat_coin::airdrop::ClaimRecord;
use cat_coin::airdrop::ErrorCode;
use cat_coin::airdrop::FundAirdrop;
use cat_coin::airdrop::InitializeAirdrop;
use cat_coin::airdrop::UpdateAirdrop;
use cat_coin::airdrop::WithdrawRemaining;
use cat_coin::airdrop::claim_airdrop;
use cat_coin::airdrop::fund_airdrop;
use cat_coin::airdrop::initialize_airdrop;
use cat_coin::airdrop::update_airdrop;
use cat_coin::airdrop::withdraw_remaining;

fn authority() -> Pubkey {
    Pubkey { id: 1 }
}

fn airdrop_key() -> Pubkey {
    Pubkey { id: 2 }
}

fn mint_key() -> Pubkey {
    Pubkey { id: 3 }
}

fn vault_key() -> Pubkey {
    Pubkey { id: 4 }
}

fn window_info(vault_funded: u64) -> (AirdropInfo, TokenAccount) {
    let info = AirdropInfo {
        authority: authority(),
        token_mint: mint_key(),
        token_vault: vault_key(),
        total_airdrop_amount: 100_000,
        claim_amount: 50_000,
        claimed_amount: 0,
        total_claimers: 0,
        start_time: 100,
        end_time: 200,
        is_active: true,
    };
    let vault = TokenAccount {
        address: vault_key(),
        mint: mint_key(),
        owner: airdrop_key(),
        amount: vault_funded,
    };
    (info, vault)
}

fn claim_ctx_for(user_id: u64, info: AirdropInfo, vault: TokenAccount) -> ClaimAirdrop {
    let user = Pubkey { id: user_id };
    ClaimAirdrop {
        user,
        airdrop_key: airdrop_key(),
        airdrop_info: info,
        claim_record: ClaimRecord {
            user,
            has_claimed: false,
            claimed_at: 0,
            amount_claimed: 0,
        },
        token_vault: vault,
        user_token_account: TokenAccount {
            address: Pubkey { id: 1_000 + user_id },
            mint: mint_key(),
            owner: user,
            amount: 0,
        },
    }
}

#[test]
fn initialize_airdrop_records_configuration() {
    let (_, vault) = window_info(0);
    let stale = window_info(7).0;
    let mut ctx = InitializeAirdrop {
        authority: authority(),
        token_mint: mint_key(),
        airdrop_key: airdrop_key(),
        airdrop_info: stale,
        token_vault: vault,
    };
    let result = initialize_airdrop(&mut ctx, 100_000, 50_000, 100, 200);
    assert!(result.is_ok());
    let info = ctx.airdrop_info;
    assert_eq!(info.authority, authority());
    assert_eq!(info.token_mint, mint_key());
    assert_eq!(info.token_vault, vault_key());
    assert_eq!(info.total_airdrop_amount, 100_000);
    assert_eq!(info.claim_amount, 50_000);
    assert_eq!(info.claimed_amount, 0);
    assert_eq!(info.total_claimers, 0);
    assert_eq!(info.start_time, 100);
    assert_eq!(info.end_time, 200);
    assert!(info.is_active);
}

#[test]
fn claim_before_window_not_started() {
    let (info, vault) = window_info(100_000);
    let mut ctx = claim_ctx_for(10, info, vault);
    let result = claim_airdrop(&mut ctx, 50);
    assert_eq!(result, Err(ErrorCode::AirdropNotStarted));
    assert_eq!(ctx.token_vault.amount, 100_000);
    assert_eq!(ctx.user_token_account.amount, 0);
    assert!(!ctx.claim_record.has_claimed);
}

#[test]
fn claim_inside_window_succeeds() {
    let (info, vault) = window_info(100_000);
    let mut ctx = claim_ctx_for(10, info, vault);
    let result = claim_airdrop(&mut ctx, 150);
    assert!(result.is_ok());
    assert!(ctx.claim_record.has_claimed);
    assert_eq!(ctx.claim_record.claimed_at, 150);
    assert_eq!(ctx.claim_record.amount_claimed, 50_000);
    assert_eq!(ctx.airdrop_info.claimed_amount, 50_000);
    assert_eq!(ctx.airdrop_info.total_claimers, 1);
    assert_eq!(ctx.token_vault.amount, 50_000);
    assert_eq!(ctx.user_token_account.amount, 50_000);
}

#[test]
fn claim_after_window_ended() {
    let (info, vault) = window_info(100_000);
    let mut ctx = claim_ctx_for(10, info, vault);
    let result = claim_airdrop(&mut ctx, 250);
    assert_eq!(result, Err(ErrorCode::AirdropEnded));
    assert_eq!(ctx.token_vault.amount, 100_000);
    assert_eq!(ctx.user_token_account.amount, 0);
}

#[test]
fn claim_on_inactive_window_rejected() {
    let (mut info, vault) = window_info(100_000);
    info.is_active = false;
    let mut ctx = claim_ctx_for(10, info, vault);
    let result = claim_airdrop(&mut ctx, 150);
    assert_eq!(result, Err(ErrorCode::AirdropNotActive));
}

#[test]
fn claim_at_window_bounds_succeeds() {
    let (info, vault) = window_info(100_000);
    let mut ctx = claim_ctx_for(10, info, vault);
    let result = claim_airdrop(&mut ctx, 100);
    assert!(result.is_ok());
    let (info2, vault2) = window_info(100_000);
    let mut ctx2 = claim_ctx_for(11, info2, vault2);
    let result2 = claim_airdrop(&mut ctx2, 200);
    assert!(result2.is_ok());
}

#[test]
fn second_claim_by_same_identity_rejected_with_no_movement() {
    let (info, vault) = window_info(100_000);
    let mut ctx = claim_ctx_for(10, info, vault);
    let first = claim_airdrop(&mut ctx, 150);
    assert!(first.is_ok());
    let balance_after_first = ctx.user_token_account.amount;
    let vault_after_first = ctx.token_vault.amount;
    let second = claim_airdrop(&mut ctx, 160);
    assert_eq!(second, Err(ErrorCode::AlreadyClaimed));
    assert_eq!(ctx.user_token_account.amount, balance_after_first);
    assert_eq!(ctx.token_vault.amount, vault_after_first);
    assert_eq!(ctx.airdrop_info.claimed_amount, 50_000);
    assert_eq!(ctx.airdrop_info.total_claimers, 1);
}

#[test]
fn two_claims_exhaust_capacity_third_rejected() {
    let (info, vault) = window_info(150_000);
    let mut first = claim_ctx_for(10, info, vault);
    assert!(claim_airdrop(&mut first, 150).is_ok());
    let mut second = claim_ctx_for(11, first.airdrop_info, first.token_vault);
    assert!(claim_airdrop(&mut second, 151).is_ok());
    assert_eq!(second.airdrop_info.claimed_amount, 100_000);
    assert_eq!(second.airdrop_info.total_claimers, 2);
    let mut third = claim_ctx_for(12, second.airdrop_info, second.token_vault);
    let result = claim_airdrop(&mut third, 152);
    assert_eq!(result, Err(ErrorCode::InsufficientTokens));
    assert_eq!(third.user_token_account.amount, 0);
    assert_eq!(third.token_vault.amount, 50_000);
    assert_eq!(third.airdrop_info.claimed_amount, 100_000);
    assert_eq!(third.airdrop_info.total_claimers, 2);
}

#[test]
fn claim_with_underfunded_vault_rejected() {
    let (info, vault) = window_info(49_999);
    let mut ctx = claim_ctx_for(10, info, vault);
    let result = claim_airdrop(&mut ctx, 150);
    assert_eq!(result, Err(ErrorCode::InsufficientTokens));
    assert_eq!(ctx.token_vault.amount, 49_999);
}

#[test]
fn fund_airdrop_moves_value_into_vault() {
    let (info, vault) = window_info(0);
    let mut ctx = FundAirdrop {
        authority: authority(),
        airdrop_info: info,
        authority_token_account: TokenAccount {
            address: Pubkey { id: 50 },
            mint: mint_key(),
            owner: authority(),
            amount: 500_000,
        },
        token_vault: vault,
    };
    let result = fund_airdrop(&mut ctx, 100_000);
    assert!(result.is_ok());
    assert_eq!(ctx.token_vault.amount, 100_000);
    assert_eq!(ctx.authority_token_account.amount, 400_000);
}

#[test]
fn fund_airdrop_by_non_authority_rejected() {
    let (info, vault) = window_info(0);
    let outsider = Pubkey { id: 66 };
    let mut ctx = FundAirdrop {
        authority: outsider,
        airdrop_info: info,
        authority_token_account: TokenAccount {
            address: Pubkey { id: 50 },
            mint: mint_key(),
            owner: outsider,
            amount: 500_000,
        },
        token_vault: vault,
    };
    let result = fund_airdrop(&mut ctx, 100_000);
    assert_eq!(result, Err(ErrorCode::Unauthorized));
    assert_eq!(ctx.token_vault.amount, 0);
}

#[test]
fn fund_airdrop_beyond_funder_balance_rejected() {
    let (info, vault) = window_info(0);
    let mut ctx = FundAirdrop {
        authority: authority(),
        airdrop_info: info,
        authority_token_account: TokenAccount {
            address: Pubkey { id: 50 },
            mint: mint_key(),
            owner: authority(),
            amount: 99_999,
        },
        token_vault: vault,
    };
    let result = fund_airdrop(&mut ctx, 100_000);
    assert_eq!(result, Err(ErrorCode::InsufficientValue));
    assert_eq!(ctx.token_vault.amount, 0);
    assert_eq!(ctx.authority_token_account.amount, 99_999);
}

#[test]
fn update_airdrop_applies_present_fields_only() {
    let (info, _) = window_info(0);
    let mut ctx = UpdateAirdrop {
        authority: authority(),
        airdrop_info: info,
    };
    let result = update_airdrop(&mut ctx, Some(25_000), None, Some(false));
    assert!(result.is_ok());
    assert_eq!(ctx.airdrop_info.claim_amount, 25_000);
    assert_eq!(ctx.airdrop_info.end_time, 200);
    assert!(!ctx.airdrop_info.is_active);
    assert_eq!(ctx.airdrop_info.total_airdrop_amount, 100_000);
}

#[test]
fn update_airdrop_by_non_authority_rejected() {
    let (info, _) = window_info(0);
    let mut ctx = UpdateAirdrop {
        authority: Pubkey { id: 66 },
        airdrop_info: info,
    };
    let result = update_airdrop(&mut ctx, Some(25_000), Some(300), Some(false));
    assert_eq!(result, Err(ErrorCode::Unauthorized));
    assert_eq!(ctx.airdrop_info.claim_amount, 50_000);
    assert_eq!(ctx.airdrop_info.end_time, 200);
    assert!(ctx.airdrop_info.is_active);
}

fn sweep_ctx(info: AirdropInfo, vault: TokenAccount) -> WithdrawRemaining {
    WithdrawRemaining {
        authority: authority(),
        airdrop_key: airdrop_key(),
        airdrop_info: info,
        authority_token_account: TokenAccount {
            address: Pubkey { id: 50 },
            mint: mint_key(),
            owner: authority(),
            amount: 1_000,
        },
        token_vault: vault,
    }
}

#[test]
fn sweep_after_end_moves_remainder_to_authority() {
    let (info, vault) = window_info(30_000);
    let mut ctx = sweep_ctx(info, vault);
    let result = withdraw_remaining(&mut ctx, 201);
    assert!(result.is_ok());
    assert_eq!(ctx.token_vault.amount, 0);
    assert_eq!(ctx.authority_token_account.amount, 31_000);
}

#[test]
fn sweep_of_empty_vault_after_close_is_successful_noop() {
    let (info, vault) = window_info(0);
    let mut ctx = sweep_ctx(info, vault);
    let result = withdraw_remaining(&mut ctx, 201);
    assert!(result.is_ok());
    assert_eq!(ctx.token_vault.amount, 0);
    assert_eq!(ctx.authority_token_account.amount, 1_000);
}

#[test]
fn sweep_of_deactivated_window_succeeds_before_end() {
    let (mut info, vault) = window_info(30_000);
    info.is_active = false;
    let mut ctx = sweep_ctx(info, vault);
    let result = withdraw_remaining(&mut ctx, 150);
    assert!(result.is_ok());
    assert_eq!(ctx.token_vault.amount, 0);
}

#[test]
fn sweep_while_window_open_rejected() {
    let (info, vault) = window_info(30_000);
    let mut ctx = sweep_ctx(info, vault);
    let result = withdraw_remaining(&mut ctx, 150);
    assert_eq!(result, Err(ErrorCode::AirdropStillActive));
    assert_eq!(ctx.token_vault.amount, 30_000);
    assert_eq!(ctx.authority_token_account.amount, 1_000);
}

#[test]
fn sweep_by_non_authority_rejected() {
    let (info, vault) = window_info(30_000);
    let mut ctx = sweep_ctx(info, vault);
    ctx.authority = Pubkey { id: 66 };
    ctx.authority_token_account.owner = Pubkey { id: 66 };
    let result = withdraw_remaining(&mut ctx, 201);
    assert_eq!(result, Err(ErrorCode::Unauthorized));
    assert_eq!(ctx.token_vault.amount, 30_000);
}
