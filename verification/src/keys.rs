use vstd::prelude::*;

verus! {

/// The 32-byte account address of `anchor_lang`. The crate only carries such
/// addresses from one record to another and never looks inside them.
#[verifier::external_type_specification]
#[verifier::external_body]
pub struct ExPubkey(anchor_lang::prelude::Pubkey);

} // verus!
