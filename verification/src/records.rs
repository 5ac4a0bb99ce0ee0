//! The data the pipeline moves between its stages.

use vstd::prelude::*;

verus! {

/// One entry of an account's signature history, as the ledger reports it:
/// the transaction's signature, whether it succeeded, and the slot it
/// landed in. Immutable once fetched.
#[derive(Debug)]
pub struct SignatureRecord {
    pub signature: String,
    pub succeeded: bool,
    pub slot: u64,
}

impl Clone for SignatureRecord {
    fn clone(&self) -> (r: Self)
        ensures
            r == *self,
    {
        SignatureRecord { signature: self.signature.clone(), succeeded: self.succeeded, slot: self.slot }
    }
}

/// One transaction as the enrichment service describes it: the signature it
/// belongs to, a free-text description, and the transaction's timestamp in
/// epoch seconds. Only the fields the later stages read are kept.
#[derive(Debug)]
pub struct EnrichedTransaction {
    pub signature: String,
    pub description: String,
    pub timestamp: i64,
}

impl Clone for EnrichedTransaction {
    fn clone(&self) -> (r: Self)
        ensures
            r == *self,
    {
        EnrichedTransaction {
            signature: self.signature.clone(),
            description: self.description.clone(),
            timestamp: self.timestamp,
        }
    }
}

} // verus!
