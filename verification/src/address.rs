//! Address validation: an address must parse as a ledger account identifier
//! before any network call is made on its behalf.

use vstd::prelude::*;

use crate::PipelineError;

verus! {

/// Whether a string is a well-formed ledger account address. The answer
/// depends on the characters alone; what it is, the ledger's key format
/// decides.
pub uninterp spec fn address_valid(s: Seq<char>) -> bool;

/// Relies on `solana_sdk::pubkey::Pubkey::from_str`: whether a string
/// parses as an account address (base58 text of a 32-byte key) is a
/// function of the characters alone.
#[verifier::external_body]
fn address_parses(s: &str) -> (r: bool)
    ensures
        r == address_valid(s@),
{
    <solana_sdk::pubkey::Pubkey as core::str::FromStr>::from_str(s).is_ok()
}

/// Validates an address string: `Ok` exactly on well-formed addresses, and
/// the `InvalidAddress` error on everything else, before any network call.
pub fn validate_address(s: &str) -> (r: Result<(), PipelineError>)
    ensures
        r is Ok <==> address_valid(s@),
        r is Err ==> r->Err_0 == PipelineError::InvalidAddress,
{
    if address_parses(s) {
        Ok(())
    } else {
        Err(PipelineError::InvalidAddress)
    }
}

} // verus!
