use crate::authority::{pda_of, try_derive_authority};
use crate::errors::WrapError;
use crate::ids::{
    clone_id, id_eq, is_id, mint_authority_seed, mint_authority_tag, registry_seed, registry_tag,
    vault_authority_seed, vault_authority_tag,
};
use crate::state::{
    MintState, MintView, SourceMint, SourceMintView, TokenAccountState, TokenAccountView,
};
use vstd::prelude::*;

verus! {

/// The accounts registration reads and writes: the base asset descriptor, the
/// identity chosen for the wrapped mint to be created, the registry slot for
/// the base asset, and the program identity the authorities are derived under.
pub struct CreateMint {
    pub source_mint: MintState,
    pub wrapped_mint_key: Vec<u8>,
    pub source_mint_exists: Option<SourceMint>,
    pub program_id: Vec<u8>,
}

/// Mathematical model of a [`CreateMint`] context.
#[verifier::ext_equal]
pub struct CreateMintView {
    pub source_mint: MintView,
    pub wrapped_mint_key: Seq<u8>,
    pub source_mint_exists: Option<SourceMintView>,
    pub program_id: Seq<u8>,
}

impl View for CreateMint {
    type V = CreateMintView;

    open spec fn view(&self) -> CreateMintView {
        CreateMintView {
            source_mint: self.source_mint@,
            wrapped_mint_key: self.wrapped_mint_key@,
            source_mint_exists: match self.source_mint_exists {
                Some(record) => Some(record@),
                None => None,
            },
            program_id: self.program_id@,
        }
    }
}

impl CreateMintView {
    /// Structural validity of every supplied identity.
    pub open spec fn wf(self) -> bool {
        &&& self.source_mint.wf()
        &&& is_id(self.wrapped_mint_key)
        &&& is_id(self.program_id)
        &&& match self.source_mint_exists {
            Some(record) => record.wf(),
            None => true,
        }
    }
}

/// What a successful registration creates: the registry record, the wrapped
/// asset mint and the custody vault.
#[verifier::ext_equal]
pub struct RegistrationView {
    pub record: SourceMintView,
    pub wrapped_mint: MintView,
    pub vault: TokenAccountView,
}

/// The registration transition.
///
/// A base asset with an existing registry record is refused.  Otherwise the
/// mint authority, the vault authority and the registry record's own address
/// are derived, and registration creates the wrapped mint (precision copied
/// from the base asset, supply zero, controlled by the derived mint
/// authority), the custody vault (empty, owned by the derived vault
/// authority) and the registry record binding base asset to wrapped asset.
pub open spec fn spec_create_mint(ctx: CreateMintView) -> Result<RegistrationView, WrapError> {
    if ctx.source_mint_exists is Some {
        Err(WrapError::DuplicateRegistration)
    } else if pda_of(mint_authority_tag(), ctx.wrapped_mint_key, ctx.program_id) is None
        || pda_of(vault_authority_tag(), ctx.source_mint.key, ctx.program_id) is None || pda_of(
        registry_tag(),
        ctx.source_mint.key,
        ctx.program_id,
    ) is None {
        Err(WrapError::DerivationFailed)
    } else {
        let mint_authority = pda_of(
            mint_authority_tag(),
            ctx.wrapped_mint_key,
            ctx.program_id,
        )->Some_0.0;
        let vault_authority = pda_of(
            vault_authority_tag(),
            ctx.source_mint.key,
            ctx.program_id,
        )->Some_0.0;
        let record_bump = pda_of(registry_tag(), ctx.source_mint.key, ctx.program_id)->Some_0.1;
        Ok(
            RegistrationView {
                record: SourceMintView { wrapped_mint: ctx.wrapped_mint_key, bump: record_bump },
                wrapped_mint: MintView {
                    key: ctx.wrapped_mint_key,
                    decimals: ctx.source_mint.decimals,
                    supply: 0,
                    authority: mint_authority,
                },
                vault: TokenAccountView {
                    mint: ctx.source_mint.key,
                    owner: vault_authority,
                    balance: 0,
                },
            },
        )
    }
}

/// Registration: binds a base asset to a fresh wrapped asset.
///
/// On success the registry slot is filled with the new record and the created
/// wrapped mint and custody vault are returned, both empty.  On any error the
/// context is unchanged and nothing is created.
pub fn create_mint(ctx: &mut CreateMint) -> (r: Result<(MintState, TokenAccountState), WrapError>)
    requires
        old(ctx)@.wf(),
    ensures
        match r {
            Ok(created) => {
                let reg = spec_create_mint(old(ctx)@)->Ok_0;
                &&& spec_create_mint(old(ctx)@) is Ok
                &&& created.0@ == reg.wrapped_mint
                &&& created.1@ == reg.vault
                &&& final(ctx)@ == CreateMintView {
                    source_mint_exists: Some(reg.record),
                    ..old(ctx)@
                }
            },
            Err(e) => {
                &&& spec_create_mint(old(ctx)@) == Err::<RegistrationView, WrapError>(e)
                &&& final(ctx)@ == old(ctx)@
            },
        },
        r is Ok ==> r->Ok_0.0@.supply == 0 && r->Ok_0.1@.balance == 0,
        r is Ok <==> spec_create_mint(old(ctx)@) is Ok,
{
    if ctx.source_mint_exists.is_some() {
        return Err(WrapError::DuplicateRegistration);
    }
    let mint_tag = mint_authority_seed();
    let mint_authority = match try_derive_authority(&mint_tag, &ctx.wrapped_mint_key, &ctx.program_id) {
        Some(derived) => derived,
        None => {
            return Err(WrapError::DerivationFailed);
        },
    };
    let vault_tag = vault_authority_seed();
    let vault_authority = match try_derive_authority(&vault_tag, &ctx.source_mint.key, &ctx.program_id) {
        Some(derived) => derived,
        None => {
            return Err(WrapError::DerivationFailed);
        },
    };
    let record_tag = registry_seed();
    let record_address = match try_derive_authority(&record_tag, &ctx.source_mint.key, &ctx.program_id) {
        Some(derived) => derived,
        None => {
            return Err(WrapError::DerivationFailed);
        },
    };
    let wrapped_mint = MintState {
        key: clone_id(&ctx.wrapped_mint_key),
        decimals: ctx.source_mint.decimals,
        supply: 0,
        authority: mint_authority.0,
    };
    let vault = TokenAccountState {
        mint: clone_id(&ctx.source_mint.key),
        owner: vault_authority.0,
        balance: 0,
    };
    let record = SourceMint { wrapped_mint: clone_id(&ctx.wrapped_mint_key), bump: record_address.1 };
    ctx.source_mint_exists = Some(record);
    proof {
        let reg = spec_create_mint(old(ctx)@)->Ok_0;
        assert(wrapped_mint@ =~= reg.wrapped_mint);
        assert(vault@ =~= reg.vault);
        assert(ctx@ =~= CreateMintView { source_mint_exists: Some(reg.record), ..old(ctx)@ });
    }
    Ok((wrapped_mint, vault))
}

/// The accounts a wrap or unwrap touches, in the order the host validates
/// them: the acting user, their two holding accounts, the two derived
/// authorities as the caller supplied them, the custody vault, the two asset
/// descriptors, the registry record, and the program identity.
pub struct Swap {
    pub buyer: Vec<u8>,
    pub buyer_mint_ata: TokenAccountState,
    pub buyer_wrapped_mint_ata: TokenAccountState,
    pub vault_authority: Vec<u8>,
    pub vault: TokenAccountState,
    pub mint_authority: Vec<u8>,
    pub source_mint: MintState,
    pub wrapped_mint: MintState,
    pub source_mint_account: SourceMint,
    pub program_id: Vec<u8>,
}

/// Mathematical model of a [`Swap`] context.
#[verifier::ext_equal]
pub struct SwapView {
    pub buyer: Seq<u8>,
    pub buyer_mint_ata: TokenAccountView,
    pub buyer_wrapped_mint_ata: TokenAccountView,
    pub vault_authority: Seq<u8>,
    pub vault: TokenAccountView,
    pub mint_authority: Seq<u8>,
    pub source_mint: MintView,
    pub wrapped_mint: MintView,
    pub source_mint_account: SourceMintView,
    pub program_id: Seq<u8>,
}

impl View for Swap {
    type V = SwapView;

    open spec fn view(&self) -> SwapView {
        SwapView {
            buyer: self.buyer@,
            buyer_mint_ata: self.buyer_mint_ata@,
            buyer_wrapped_mint_ata: self.buyer_wrapped_mint_ata@,
            vault_authority: self.vault_authority@,
            vault: self.vault@,
            mint_authority: self.mint_authority@,
            source_mint: self.source_mint@,
            wrapped_mint: self.wrapped_mint@,
            source_mint_account: self.source_mint_account@,
            program_id: self.program_id@,
        }
    }
}

impl SwapView {
    /// Structural validity: every identity is 32 bytes, and each holding
    /// account references the asset it was supplied for — the user's two
    /// holding accounts belong to the acting user and hold the base and the
    /// wrapped asset, and the custody vault holds the base asset.
    pub open spec fn wf(self) -> bool {
        &&& is_id(self.buyer)
        &&& self.buyer_mint_ata.wf()
        &&& self.buyer_wrapped_mint_ata.wf()
        &&& is_id(self.vault_authority)
        &&& self.vault.wf()
        &&& is_id(self.mint_authority)
        &&& self.source_mint.wf()
        &&& self.wrapped_mint.wf()
        &&& self.source_mint_account.wf()
        &&& is_id(self.program_id)
        &&& self.buyer_mint_ata.mint == self.source_mint.key
        &&& self.buyer_mint_ata.owner == self.buyer
        &&& self.buyer_wrapped_mint_ata.mint == self.wrapped_mint.key
        &&& self.buyer_wrapped_mint_ata.owner == self.buyer
        &&& self.vault.mint == self.source_mint.key
    }
}

/// The account validation both swap directions perform, in order: re-derive
/// both authorities and the registry record's address, compare each derived
/// authority with the supplied one and with the recorded owner, check the
/// registry record's nonce and its wrapped-asset binding, and check that the
/// two assets agree on their decimal scale.
pub open spec fn spec_swap_checks(ctx: SwapView) -> Option<WrapError> {
    let vault_authority = pda_of(vault_authority_tag(), ctx.source_mint.key, ctx.program_id);
    let mint_authority = pda_of(mint_authority_tag(), ctx.wrapped_mint.key, ctx.program_id);
    let record_address = pda_of(registry_tag(), ctx.source_mint.key, ctx.program_id);
    if vault_authority is None || mint_authority is None || record_address is None {
        Some(WrapError::DerivationFailed)
    } else if ctx.vault_authority != vault_authority->Some_0.0 || ctx.vault.owner
        != vault_authority->Some_0.0 {
        Some(WrapError::AuthorityMismatch)
    } else if ctx.mint_authority != mint_authority->Some_0.0 || ctx.wrapped_mint.authority
        != mint_authority->Some_0.0 {
        Some(WrapError::AuthorityMismatch)
    } else if ctx.source_mint_account.bump != record_address->Some_0.1 {
        Some(WrapError::RegistryMismatch)
    } else if ctx.source_mint_account.wrapped_mint != ctx.wrapped_mint.key {
        Some(WrapError::RegistryMismatch)
    } else if ctx.wrapped_mint.decimals != ctx.source_mint.decimals {
        Some(WrapError::PrecisionMismatch)
    } else {
        None
    }
}

/// The wrap transition: after validation, move `amount` of base asset from
/// the user into the custody vault and mint `amount` of wrapped asset to the
/// user, in lockstep.  The balance checks come in the order the ledger
/// service performs them: the user's base balance for the transfer, then the
/// three counters the step increases.
pub open spec fn spec_swap_to_wrapped(ctx: SwapView, amount: u64) -> Result<SwapView, WrapError> {
    match spec_swap_checks(ctx) {
        Some(e) => Err(e),
        None => {
            if ctx.buyer_mint_ata.balance < amount {
                Err(WrapError::InsufficientFunds)
            } else if ctx.vault.balance + amount > u64::MAX || ctx.buyer_wrapped_mint_ata.balance
                + amount > u64::MAX || ctx.wrapped_mint.supply + amount > u64::MAX {
                Err(WrapError::BalanceOverflow)
            } else {
                Ok(
                    SwapView {
                        buyer_mint_ata: TokenAccountView {
                            balance: (ctx.buyer_mint_ata.balance - amount) as u64,
                            ..ctx.buyer_mint_ata
                        },
                        vault: TokenAccountView {
                            balance: (ctx.vault.balance + amount) as u64,
                            ..ctx.vault
                        },
                        buyer_wrapped_mint_ata: TokenAccountView {
                            balance: (ctx.buyer_wrapped_mint_ata.balance + amount) as u64,
                            ..ctx.buyer_wrapped_mint_ata
                        },
                        wrapped_mint: MintView {
                            supply: (ctx.wrapped_mint.supply + amount) as u64,
                            ..ctx.wrapped_mint
                        },
                        ..ctx
                    },
                )
            }
        },
    }
}

/// The unwrap transition: after validation, release `amount` of base asset
/// from the custody vault to the user and burn `amount` of wrapped asset from
/// the user, in lockstep.  The balance checks come in the order the ledger
/// service performs them: the vault's balance and the user's base-side
/// headroom for the transfer, then the user's wrapped balance and the supply
/// for the burn.
pub open spec fn spec_swap_to_source(ctx: SwapView, amount: u64) -> Result<SwapView, WrapError> {
    match spec_swap_checks(ctx) {
        Some(e) => Err(e),
        None => {
            if ctx.vault.balance < amount {
                Err(WrapError::InsufficientFunds)
            } else if ctx.buyer_mint_ata.balance + amount > u64::MAX {
                Err(WrapError::BalanceOverflow)
            } else if ctx.buyer_wrapped_mint_ata.balance < amount {
                Err(WrapError::InsufficientFunds)
            } else if ctx.wrapped_mint.supply < amount {
                Err(WrapError::BalanceOverflow)
            } else {
                Ok(
                    SwapView {
                        vault: TokenAccountView {
                            balance: (ctx.vault.balance - amount) as u64,
                            ..ctx.vault
                        },
                        buyer_mint_ata: TokenAccountView {
                            balance: (ctx.buyer_mint_ata.balance + amount) as u64,
                            ..ctx.buyer_mint_ata
                        },
                        buyer_wrapped_mint_ata: TokenAccountView {
                            balance: (ctx.buyer_wrapped_mint_ata.balance - amount) as u64,
                            ..ctx.buyer_wrapped_mint_ata
                        },
                        wrapped_mint: MintView {
                            supply: (ctx.wrapped_mint.supply - amount) as u64,
                            ..ctx.wrapped_mint
                        },
                        ..ctx
                    },
                )
            }
        },
    }
}

/// Runs the shared validation on an executable context; `None` means every
/// check passed.
fn swap_checks(ctx: &Swap) -> (r: Option<WrapError>)
    requires
        ctx@.wf(),
    ensures
        r == spec_swap_checks(ctx@),
{
    let vault_tag = vault_authority_seed();
    let vault_authority = match try_derive_authority(&vault_tag, &ctx.source_mint.key, &ctx.program_id) {
        Some(derived) => derived,
        None => {
            return Some(WrapError::DerivationFailed);
        },
    };
    let mint_tag = mint_authority_seed();
    let mint_authority = match try_derive_authority(&mint_tag, &ctx.wrapped_mint.key, &ctx.program_id) {
        Some(derived) => derived,
        None => {
            return Some(WrapError::DerivationFailed);
        },
    };
    let record_tag = registry_seed();
    let record_address = match try_derive_authority(&record_tag, &ctx.source_mint.key, &ctx.program_id) {
        Some(derived) => derived,
        None => {
            return Some(WrapError::DerivationFailed);
        },
    };
    if !id_eq(&ctx.vault_authority, &vault_authority.0) || !id_eq(&ctx.vault.owner, &vault_authority.0) {
        return Some(WrapError::AuthorityMismatch);
    }
    if !id_eq(&ctx.mint_authority, &mint_authority.0) || !id_eq(&ctx.wrapped_mint.authority, &mint_authority.0) {
        return Some(WrapError::AuthorityMismatch);
    }
    if ctx.source_mint_account.bump != record_address.1 {
        return Some(WrapError::RegistryMismatch);
    }
    if !id_eq(&ctx.source_mint_account.wrapped_mint, &ctx.wrapped_mint.key) {
        return Some(WrapError::RegistryMismatch);
    }
    if ctx.wrapped_mint.decimals != ctx.source_mint.decimals {
        return Some(WrapError::PrecisionMismatch);
    }
    None
}

/// Wrap: move `amount` of base asset from the user into the custody vault and
/// mint `amount` of wrapped asset to the user.
///
/// The two movements commit together or not at all: on any error the context
/// is unchanged.  Success is owed exactly when every account check of
/// [`spec_swap_checks`] passes, the user's base balance covers `amount`, and
/// no 64-bit counter overflows.
pub fn swap_to_wrapped(ctx: &mut Swap, amount: u64) -> (r: Result<(), WrapError>)
    requires
        old(ctx)@.wf(),
    ensures
        match r {
            Ok(()) => {
                &&& spec_swap_to_wrapped(old(ctx)@, amount) is Ok
                &&& final(ctx)@ == spec_swap_to_wrapped(old(ctx)@, amount)->Ok_0
            },
            Err(e) => {
                &&& spec_swap_to_wrapped(old(ctx)@, amount) == Err::<SwapView, WrapError>(e)
                &&& final(ctx)@ == old(ctx)@
            },
        },
        r is Ok ==> final(ctx)@.vault.balance == old(ctx)@.vault.balance + amount,
        r is Ok ==> final(ctx)@.wrapped_mint.supply == old(ctx)@.wrapped_mint.supply + amount,
        r is Ok ==> final(ctx)@.buyer_mint_ata.balance == old(ctx)@.buyer_mint_ata.balance
            - amount,
        r is Ok ==> final(ctx)@.buyer_wrapped_mint_ata.balance == old(
            ctx,
        )@.buyer_wrapped_mint_ata.balance + amount,
{
    match swap_checks(ctx) {
        Some(e) => {
            return Err(e);
        },
        None => {},
    }
    if ctx.buyer_mint_ata.balance < amount {
        return Err(WrapError::InsufficientFunds);
    }
    if u64::MAX - ctx.vault.balance < amount || u64::MAX - ctx.buyer_wrapped_mint_ata.balance
        < amount || u64::MAX - ctx.wrapped_mint.supply < amount {
        return Err(WrapError::BalanceOverflow);
    }
    ctx.buyer_mint_ata.balance = ctx.buyer_mint_ata.balance - amount;
    ctx.vault.balance = ctx.vault.balance + amount;
    ctx.buyer_wrapped_mint_ata.balance = ctx.buyer_wrapped_mint_ata.balance + amount;
    ctx.wrapped_mint.supply = ctx.wrapped_mint.supply + amount;
    proof {
        assert(ctx@ =~= spec_swap_to_wrapped(old(ctx)@, amount)->Ok_0);
    }
    Ok(())
}

/// Unwrap: release `amount` of base asset from the custody vault to the user
/// and burn `amount` of wrapped asset from the user.
///
/// The two movements commit together or not at all: on any error the context
/// is unchanged.  Success is owed exactly when every account check of
/// [`spec_swap_checks`] passes, the vault and the user's wrapped balance both
/// cover `amount`, and the user's base balance has headroom for it.
pub fn swap_to_source(ctx: &mut Swap, amount: u64) -> (r: Result<(), WrapError>)
    requires
        old(ctx)@.wf(),
    ensures
        match r {
            Ok(()) => {
                &&& spec_swap_to_source(old(ctx)@, amount) is Ok
                &&& final(ctx)@ == spec_swap_to_source(old(ctx)@, amount)->Ok_0
            },
            Err(e) => {
                &&& spec_swap_to_source(old(ctx)@, amount) == Err::<SwapView, WrapError>(e)
                &&& final(ctx)@ == old(ctx)@
            },
        },
        r is Ok ==> final(ctx)@.vault.balance == old(ctx)@.vault.balance - amount,
        r is Ok ==> final(ctx)@.wrapped_mint.supply == old(ctx)@.wrapped_mint.supply - amount,
        r is Ok ==> final(ctx)@.buyer_mint_ata.balance == old(ctx)@.buyer_mint_ata.balance
            + amount,
        r is Ok ==> final(ctx)@.buyer_wrapped_mint_ata.balance == old(
            ctx,
        )@.buyer_wrapped_mint_ata.balance - amount,
{
    match swap_checks(ctx) {
        Some(e) => {
            return Err(e);
        },
        None => {},
    }
    if ctx.vault.balance < amount {
        return Err(WrapError::InsufficientFunds);
    }
    if u64::MAX - ctx.buyer_mint_ata.balance < amount {
        return Err(WrapError::BalanceOverflow);
    }
    if ctx.buyer_wrapped_mint_ata.balance < amount {
        return Err(WrapError::InsufficientFunds);
    }
    if ctx.wrapped_mint.supply < amount {
        return Err(WrapError::BalanceOverflow);
    }
    ctx.vault.balance = ctx.vault.balance - amount;
    ctx.buyer_mint_ata.balance = ctx.buyer_mint_ata.balance + amount;
    ctx.buyer_wrapped_mint_ata.balance = ctx.buyer_wrapped_mint_ata.balance - amount;
    ctx.wrapped_mint.supply = ctx.wrapped_mint.supply - amount;
    proof {
        assert(ctx@ =~= spec_swap_to_source(old(ctx)@, amount)->Ok_0);
    }
    Ok(())
}

/// Executable form of [`CreateMintView::wf`], for callers that assemble a
/// registration context from untrusted parts and must establish validity
/// before the operation.
pub fn create_mint_is_well_formed(ctx: &CreateMint) -> (r: bool)
    ensures
        r == ctx@.wf(),
{
    ctx.source_mint.key.len() == 32 && ctx.source_mint.authority.len() == 32
        && ctx.wrapped_mint_key.len() == 32 && ctx.program_id.len() == 32 && match &ctx
        .source_mint_exists {
        Some(record) => record.wrapped_mint.len() == 32,
        None => true,
    }
}

/// Executable form of [`SwapView::wf`], for callers that assemble a context
/// from untrusted parts and must establish validity before an operation.
pub fn swap_is_well_formed(ctx: &Swap) -> (r: bool)
    ensures
        r == ctx@.wf(),
{
    ctx.buyer.len() == 32 && ctx.buyer_mint_ata.mint.len() == 32 && ctx.buyer_mint_ata.owner.len()
        == 32 && ctx.buyer_wrapped_mint_ata.mint.len() == 32
        && ctx.buyer_wrapped_mint_ata.owner.len() == 32 && ctx.vault_authority.len() == 32
        && ctx.vault.mint.len() == 32 && ctx.vault.owner.len() == 32 && ctx.mint_authority.len()
        == 32 && ctx.source_mint.key.len() == 32 && ctx.source_mint.authority.len() == 32
        && ctx.wrapped_mint.key.len() == 32 && ctx.wrapped_mint.authority.len() == 32
        && ctx.source_mint_account.wrapped_mint.len() == 32 && ctx.program_id.len() == 32
        && id_eq(&ctx.buyer_mint_ata.mint, &ctx.source_mint.key) && id_eq(
        &ctx.buyer_mint_ata.owner,
        &ctx.buyer,
    ) && id_eq(&ctx.buyer_wrapped_mint_ata.mint, &ctx.wrapped_mint.key) && id_eq(
        &ctx.buyer_wrapped_mint_ata.owner,
        &ctx.buyer,
    ) && id_eq(&ctx.vault.mint, &ctx.source_mint.key)
}

} // verus!
