use crate::ids::is_id;
use vstd::prelude::*;

verus! {

/// A token-type descriptor: its identity, decimal scale, circulating supply
/// and controlling mint authority.
#[derive(Clone, Debug)]
pub struct MintState {
    pub key: Vec<u8>,
    pub decimals: u8,
    pub supply: u64,
    pub authority: Vec<u8>,
}

/// Mathematical model of a [`MintState`].
#[verifier::ext_equal]
pub struct MintView {
    pub key: Seq<u8>,
    pub decimals: u8,
    pub supply: u64,
    pub authority: Seq<u8>,
}

impl View for MintState {
    type V = MintView;

    open spec fn view(&self) -> MintView {
        MintView {
            key: self.key@,
            decimals: self.decimals,
            supply: self.supply,
            authority: self.authority@,
        }
    }
}

impl MintView {
    /// Structural validity: both identities are 32 bytes.
    pub open spec fn wf(self) -> bool {
        is_id(self.key) && is_id(self.authority)
    }
}

/// An account holding a balance of one asset on behalf of one owner.
#[derive(Clone, Debug)]
pub struct TokenAccountState {
    pub mint: Vec<u8>,
    pub owner: Vec<u8>,
    pub balance: u64,
}

/// Mathematical model of a [`TokenAccountState`].
#[verifier::ext_equal]
pub struct TokenAccountView {
    pub mint: Seq<u8>,
    pub owner: Seq<u8>,
    pub balance: u64,
}

impl View for TokenAccountState {
    type V = TokenAccountView;

    open spec fn view(&self) -> TokenAccountView {
        TokenAccountView { mint: self.mint@, owner: self.owner@, balance: self.balance }
    }
}

impl TokenAccountView {
    /// Structural validity: both identities are 32 bytes.
    pub open spec fn wf(self) -> bool {
        is_id(self.mint) && is_id(self.owner)
    }
}

/// The registry record: the persistent binding from one base asset to its one
/// wrapped asset, created once by registration and never mutated.
///
/// The record's own address is derived from the base asset identity, so the
/// base asset is the record's implicit key; the record stores the bound
/// wrapped asset identity and the verification nonce ("bump") proving its
/// address was legitimately derived.
#[derive(Clone, Debug)]
pub struct SourceMint {
    pub wrapped_mint: Vec<u8>,
    pub bump: u8,
}

/// Mathematical model of a [`SourceMint`] registry record.
#[verifier::ext_equal]
pub struct SourceMintView {
    pub wrapped_mint: Seq<u8>,
    pub bump: u8,
}

impl View for SourceMint {
    type V = SourceMintView;

    open spec fn view(&self) -> SourceMintView {
        SourceMintView { wrapped_mint: self.wrapped_mint@, bump: self.bump }
    }
}

impl SourceMintView {
    /// Structural validity: the bound identity is 32 bytes.
    pub open spec fn wf(self) -> bool {
        is_id(self.wrapped_mint)
    }
}

} // verus!
