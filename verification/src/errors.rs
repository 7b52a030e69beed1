use vstd::prelude::*;

verus! {

/// Why an operation was refused.
///
/// Every operation is atomic: when it returns an error, no account state has
/// changed at all.
#[derive(Clone, Copy, Debug, PartialEq, Eq, Structural)]
pub enum WrapError {
    /// The base asset already has a registry record bound to it.
    DuplicateRegistration,
    /// A supplied or recorded authority does not match the re-derived one.
    AuthorityMismatch,
    /// The supplied wrapped mint is not the one bound in the registry record,
    /// or the registry record's stored nonce is not the derived one.
    RegistryMismatch,
    /// A balance is too small for the requested transfer or burn.
    InsufficientFunds,
    /// The wrapped mint's decimal scale disagrees with the base mint's.
    PrecisionMismatch,
    /// A balance or a supply would leave the range of a 64-bit counter.
    BalanceOverflow,
    /// No valid verification nonce exists in the bounded search space.
    DerivationFailed,
}

} // verus!
