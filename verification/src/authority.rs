use vstd::prelude::*;

verus! {

/// The program derived address scheme of the host chain, as an abstract name.
///
/// Given a seed tag, an owning identity and a program identity it yields the
/// derived authority identity and its verification nonce ("bump"), or `None`
/// in the statistically improbable event that no valid nonce exists.
pub uninterp spec fn pda_of(tag: Seq<u8>, owner: Seq<u8>, program: Seq<u8>) -> Option<
    (Seq<u8>, u8),
>;

/// Relies on `Pubkey::try_find_program_address` (anchor_lang's re-export of
/// solana_pubkey): the result is a function of the seed pair and the program
/// identity alone; a derived address is 32 bytes; `None` comes back only when
/// no verification nonce in the bounded search space yields a valid address
/// or a seed exceeds the scheme's bounds.
#[verifier::external_body]
pub(crate) fn try_derive_authority(tag: &Vec<u8>, owner: &Vec<u8>, program: &Vec<u8>) -> (r:
    Option<(Vec<u8>, u8)>)
    requires
        program@.len() == 32,
    ensures
        r is Some <==> pda_of(tag@, owner@, program@) is Some,
        r is Some ==> pda_of(tag@, owner@, program@)->Some_0 == (r->Some_0.0@, r->Some_0.1),
        r is Some ==> r->Some_0.0@.len() == 32,
{
    let pid = anchor_lang::prelude::Pubkey::try_from(program.as_slice()).ok()?;
    let (key, bump) = anchor_lang::prelude::Pubkey::try_find_program_address(
        &[tag.as_slice(), owner.as_slice()],
        &pid,
    )?;
    Some((key.to_bytes().to_vec(), bump))
}

} // verus!
