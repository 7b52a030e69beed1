use token_wrapper::errors::WrapError;
use token_wrapper::state::{MintState, TokenAccountState};
use token_wrapper::wrapper::{
    create_mint, swap_is_well_formed, swap_to_source, swap_to_wrapped, CreateMint, Swap,
};

fn key(fill: u8) -> Vec<u8> {
    vec![fill; 32]
}

fn program_id() -> Vec<u8> {
    key(7)
}

fn base_mint(supply: u64) -> MintState {
    MintState {
        key: key(1),
        decimals: 9,
        supply,
        authority: key(2),
    }
}

/// Registers the base asset and assembles the swap context the way a caller
/// would: every supplied account is the one registration created.
fn registered_swap(mint_supply: u64, user_base_balance: u64) -> Swap {
    let source_mint = base_mint(mint_supply);
    let mut reg = CreateMint {
        source_mint: source_mint.clone(),
        wrapped_mint_key: key(3),
        source_mint_exists: None,
        program_id: program_id(),
    };
    let (wrapped_mint, vault) = create_mint(&mut reg).expect("registration must succeed");
    let record = reg.source_mint_exists.expect("registration fills the slot");
    let buyer = key(9);
    let swap = Swap {
        buyer: buyer.clone(),
        buyer_mint_ata: TokenAccountState {
            mint: source_mint.key.clone(),
            owner: buyer.clone(),
            balance: user_base_balance,
        },
        buyer_wrapped_mint_ata: TokenAccountState {
            mint: wrapped_mint.key.clone(),
            owner: buyer.clone(),
            balance: 0,
        },
        vault_authority: vault.owner.clone(),
        vault,
        mint_authority: wrapped_mint.authority.clone(),
        source_mint,
        wrapped_mint,
        source_mint_account: record,
        program_id: program_id(),
    };
    assert!(swap_is_well_formed(&swap));
    swap
}

/// The original instruction-chain scenarios: a passing
/// create-wrap-unwrap chain, a wrap above the user's base balance, an unwrap
/// above the user's wrapped balance, and a second registration of the same
/// base asset.
#[test]
fn passing_test_1() {
    // Passing chain: balances as in the default setup.
    let mut ctx = registered_swap(1_000_000_000_000_000, 1_000_000_000_000);
    assert_eq!(swap_to_wrapped(&mut ctx, 100_000), Ok(()));
    assert_eq!(swap_to_source(&mut ctx, 10_000), Ok(()));

    // Failing chain: the wrap amount exceeds the user's base balance.
    let mut ctx = registered_swap(1_000_000_000_000_000, 1_000_000);
    assert_eq!(
        swap_to_wrapped(&mut ctx, 100_000_000),
        Err(WrapError::InsufficientFunds)
    );

    // Failing chain: the unwrap amount exceeds the user's wrapped balance.
    let mut ctx = registered_swap(1_000_000_000_000_000, 1_000_000);
    assert_eq!(swap_to_wrapped(&mut ctx, 100_000), Ok(()));
    assert_eq!(
        swap_to_source(&mut ctx, 100_001),
        Err(WrapError::InsufficientFunds)
    );

    // Failing chain: registering the same base asset twice.
    let source_mint = base_mint(1_000_000_000_000_000);
    let mut reg = CreateMint {
        source_mint,
        wrapped_mint_key: key(3),
        source_mint_exists: None,
        program_id: program_id(),
    };
    assert!(create_mint(&mut reg).is_ok());
    assert_eq!(
        create_mint(&mut reg).unwrap_err(),
        WrapError::DuplicateRegistration
    );
}

/// The full flow with the exact balances the design promises at each stage.
#[test]
fn scenario_wrap_then_partial_unwrap() {
    let mut ctx = registered_swap(1_000_000_000_000_000, 1_000_000_000_000);
    assert_eq!(ctx.vault.balance, 0);
    assert_eq!(ctx.wrapped_mint.supply, 0);

    assert_eq!(swap_to_wrapped(&mut ctx, 100_000), Ok(()));
    assert_eq!(ctx.vault.balance, 100_000);
    assert_eq!(ctx.wrapped_mint.supply, 100_000);
    assert_eq!(ctx.buyer_mint_ata.balance, 1_000_000_000_000 - 100_000);
    assert_eq!(ctx.buyer_wrapped_mint_ata.balance, 100_000);

    assert_eq!(swap_to_source(&mut ctx, 10_000), Ok(()));
    assert_eq!(ctx.vault.balance, 90_000);
    assert_eq!(ctx.wrapped_mint.supply, 90_000);
    assert_eq!(ctx.buyer_mint_ata.balance, 1_000_000_000_000 - 90_000);
    assert_eq!(ctx.buyer_wrapped_mint_ata.balance, 90_000);
}

/// A wrap far above the user's balance is refused and moves nothing.
#[test]
fn scenario_wrap_above_balance() {
    let mut ctx = registered_swap(1_000_000_000_000_000, 1_000_000);
    assert_eq!(
        swap_to_wrapped(&mut ctx, 100_000_000),
        Err(WrapError::InsufficientFunds)
    );
    assert_eq!(ctx.vault.balance, 0);
    assert_eq!(ctx.wrapped_mint.supply, 0);
    assert_eq!(ctx.buyer_mint_ata.balance, 1_000_000);
    assert_eq!(ctx.buyer_wrapped_mint_ata.balance, 0);
}

/// The boundary just above the user's base balance fails; the boundary at
/// the balance itself succeeds.
#[test]
fn boundary_wrap_insufficient_funds() {
    let mut ctx = registered_swap(1_000_000_000_000_000, 500);
    assert_eq!(
        swap_to_wrapped(&mut ctx, 501),
        Err(WrapError::InsufficientFunds)
    );
    assert_eq!(ctx.buyer_mint_ata.balance, 500);
    assert_eq!(ctx.vault.balance, 0);
    assert_eq!(ctx.wrapped_mint.supply, 0);
    assert_eq!(ctx.buyer_wrapped_mint_ata.balance, 0);

    assert_eq!(swap_to_wrapped(&mut ctx, 500), Ok(()));
    assert_eq!(ctx.buyer_mint_ata.balance, 0);
    assert_eq!(ctx.vault.balance, 500);
}

/// The boundary just above the user's wrapped balance fails; the boundary at
/// the balance itself succeeds.
#[test]
fn boundary_unwrap_insufficient_funds() {
    let mut ctx = registered_swap(1_000_000_000_000_000, 1_000);
    assert_eq!(swap_to_wrapped(&mut ctx, 600), Ok(()));
    assert_eq!(
        swap_to_source(&mut ctx, 601),
        Err(WrapError::InsufficientFunds)
    );
    assert_eq!(ctx.vault.balance, 600);
    assert_eq!(ctx.wrapped_mint.supply, 600);
    assert_eq!(ctx.buyer_mint_ata.balance, 400);
    assert_eq!(ctx.buyer_wrapped_mint_ata.balance, 600);

    assert_eq!(swap_to_source(&mut ctx, 600), Ok(()));
    assert_eq!(ctx.vault.balance, 0);
    assert_eq!(ctx.buyer_mint_ata.balance, 1_000);
}

/// Wrapping and then unwrapping the same amount restores every balance.
#[test]
fn round_trip_restores_balances() {
    let mut ctx = registered_swap(1_000_000_000_000_000, 987_654);
    assert_eq!(swap_to_wrapped(&mut ctx, 12_345), Ok(()));
    assert_eq!(swap_to_source(&mut ctx, 12_345), Ok(()));
    assert_eq!(ctx.buyer_mint_ata.balance, 987_654);
    assert_eq!(ctx.buyer_wrapped_mint_ata.balance, 0);
    assert_eq!(ctx.vault.balance, 0);
    assert_eq!(ctx.wrapped_mint.supply, 0);
}

/// The backing invariant holds after every operation of an interleaving,
/// refused operations included.
#[test]
fn conservation_through_interleaving() {
    let mut ctx = registered_swap(1_000_000_000_000_000, 1_000_000);
    let requests: [(bool, u64); 7] = [
        (true, 250_000),
        (false, 100_000),
        (true, 500_000),
        (false, 2_000_000),
        (true, 900_000),
        (false, 650_000),
        (true, 0),
    ];
    for (to_wrapped, amount) in requests {
        let _ = if to_wrapped {
            swap_to_wrapped(&mut ctx, amount)
        } else {
            swap_to_source(&mut ctx, amount)
        };
        assert_eq!(ctx.vault.balance, ctx.wrapped_mint.supply);
    }
    assert_eq!(ctx.vault.balance, 250_000 - 100_000 + 500_000 - 650_000);
}

/// A vault balance at the top of the counter range refuses a further wrap.
#[test]
fn wrap_overflow_is_refused() {
    let mut ctx = registered_swap(1_000_000_000_000_000, 1_000);
    ctx.vault.balance = u64::MAX;
    assert_eq!(
        swap_to_wrapped(&mut ctx, 1),
        Err(WrapError::BalanceOverflow)
    );
    assert_eq!(ctx.vault.balance, u64::MAX);
    assert_eq!(ctx.buyer_mint_ata.balance, 1_000);
}

/// A user base balance at the top of the counter range refuses an unwrap.
#[test]
fn unwrap_overflow_is_refused() {
    let mut ctx = registered_swap(1_000_000_000_000_000, 1_000);
    assert_eq!(swap_to_wrapped(&mut ctx, 1_000), Ok(()));
    ctx.buyer_mint_ata.balance = u64::MAX;
    assert_eq!(
        swap_to_source(&mut ctx, 1),
        Err(WrapError::BalanceOverflow)
    );
    assert_eq!(ctx.buyer_mint_ata.balance, u64::MAX);
    assert_eq!(ctx.vault.balance, 1_000);
    assert_eq!(ctx.wrapped_mint.supply, 1_000);
}
