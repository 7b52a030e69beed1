use crate::errors::WrapError;
use crate::wrapper::{
    spec_create_mint, spec_swap_checks, spec_swap_to_source, spec_swap_to_wrapped, CreateMintView,
    RegistrationView, SwapView,
};
use vstd::prelude::*;

verus! {

/// The backing invariant: the custody vault's base-asset balance equals the
/// wrapped mint's circulating supply.
pub open spec fn conserved(ctx: SwapView) -> bool {
    ctx.vault.balance == ctx.wrapped_mint.supply
}

/// One requested operation on a registered base asset.
pub enum SwapOp {
    ToWrapped(u64),
    ToSource(u64),
}

/// What one request leaves behind: the new state when the operation
/// succeeds, the old state untouched when it is refused.
pub open spec fn spec_step(ctx: SwapView, op: SwapOp) -> SwapView {
    match op {
        SwapOp::ToWrapped(amount) => match spec_swap_to_wrapped(ctx, amount) {
            Ok(next) => next,
            Err(_) => ctx,
        },
        SwapOp::ToSource(amount) => match spec_swap_to_source(ctx, amount) {
            Ok(next) => next,
            Err(_) => ctx,
        },
    }
}

/// The state after a whole sequence of requests, first request first.
pub open spec fn spec_run(ctx: SwapView, ops: Seq<SwapOp>) -> SwapView
    decreases ops.len(),
{
    if ops.len() == 0 {
        ctx
    } else {
        spec_run(spec_step(ctx, ops[0]), ops.drop_first())
    }
}

/// Law: registration establishes the backing invariant — the custody vault
/// and the wrapped mint it creates are both empty.
pub proof fn lemma_registration_establishes_conservation(ctx: CreateMintView)
    requires
        spec_create_mint(ctx) is Ok,
    ensures
        spec_create_mint(ctx)->Ok_0.vault.balance == 0,
        spec_create_mint(ctx)->Ok_0.wrapped_mint.supply == 0,
{
}

/// Law: one wrap or unwrap request, whether it succeeds or is refused,
/// preserves the backing invariant.
pub proof fn lemma_step_preserves_conservation(ctx: SwapView, op: SwapOp)
    requires
        conserved(ctx),
    ensures
        conserved(spec_step(ctx, op)),
{
}

/// Law: for all time after registration the backing invariant holds — any
/// sequence of wrap and unwrap requests, successful or refused, leaves the
/// custody vault's balance equal to the wrapped mint's supply.
pub proof fn lemma_conservation(ctx: SwapView, ops: Seq<SwapOp>)
    requires
        conserved(ctx),
    ensures
        conserved(spec_run(ctx, ops)),
    decreases ops.len(),
{
    if ops.len() > 0 {
        lemma_step_preserves_conservation(ctx, ops[0]);
        lemma_conservation(spec_step(ctx, ops[0]), ops.drop_first());
    }
}

/// Law: for all time after registration — starting from the custody vault
/// and wrapped mint a successful registration created, any sequence of wrap
/// and unwrap requests leaves the vault's balance equal to the supply.
pub proof fn lemma_conservation_from_registration(
    reg: CreateMintView,
    ctx: SwapView,
    ops: Seq<SwapOp>,
)
    requires
        spec_create_mint(reg) is Ok,
        ctx.vault == spec_create_mint(reg)->Ok_0.vault,
        ctx.wrapped_mint == spec_create_mint(reg)->Ok_0.wrapped_mint,
    ensures
        conserved(spec_run(ctx, ops)),
{
    lemma_registration_establishes_conservation(reg);
    lemma_conservation(ctx, ops);
}

/// Law: wrapping `amount` and then unwrapping the same `amount`, with no
/// operation in between, always goes through and restores every account —
/// the user's two balances, the vault and the supply — exactly.
pub proof fn lemma_round_trip(ctx: SwapView, amount: u64)
    requires
        spec_swap_to_wrapped(ctx, amount) is Ok,
    ensures
        spec_swap_to_source(spec_swap_to_wrapped(ctx, amount)->Ok_0, amount) is Ok,
        spec_swap_to_source(spec_swap_to_wrapped(ctx, amount)->Ok_0, amount)->Ok_0 == ctx,
{
    let mid = spec_swap_to_wrapped(ctx, amount)->Ok_0;
    assert(spec_swap_checks(mid) == spec_swap_checks(ctx));
    assert(spec_swap_to_source(mid, amount)->Ok_0 =~= ctx);
}

/// Law: a base asset whose registry slot already holds a record — as it does
/// after any successful registration — cannot be registered again: the
/// second attempt is refused as a duplicate, and creates nothing.
pub proof fn lemma_duplicate_registration_refused(ctx: CreateMintView)
    requires
        ctx.source_mint_exists is Some,
    ensures
        spec_create_mint(ctx) == Err::<RegistrationView, WrapError>(
            WrapError::DuplicateRegistration,
        ),
{
}

} // verus!
