//! SuccessFilter: keep the successful transactions of a fetched history and
//! project them to bare signature identifiers.

use vstd::prelude::*;

use crate::records::SignatureRecord;

verus! {

/// The records of `s` whose `succeeded` flag is set, in their relative order.
pub open spec fn succeeded_only(s: Seq<SignatureRecord>) -> Seq<SignatureRecord> {
    s.filter(|r: SignatureRecord| r.succeeded)
}

/// The signatures of a record sequence, in order.
pub open spec fn signatures_of(s: Seq<SignatureRecord>) -> Seq<String> {
    s.map_values(|r: SignatureRecord| r.signature)
}

/// Keeps exactly the successful records, preserving relative order.
pub fn filter_succeeded_records(records: &Vec<SignatureRecord>) -> (kept: Vec<SignatureRecord>)
    ensures
        kept@ == succeeded_only(records@),
{
    let mut kept: Vec<SignatureRecord> = Vec::new();
    let n = records.len();
    let mut i: usize = 0;
    while i < n
        invariant
            n == records@.len(),
            i <= n,
            kept@ == succeeded_only(records@.take(i as int)),
        decreases n - i,
    {
        proof {
            reveal(Seq::filter);
            assert(records@.take(i + 1).drop_last() =~= records@.take(i as int));
            assert(records@.take(i + 1).last() == records@[i as int]);
        }
        if records[i].succeeded {
            kept.push(records[i].clone());
        }
        i = i + 1;
    }
    proof {
        assert(records@.take(n as int) =~= records@);
    }
    kept
}

/// Projects records to the identifiers of the successful ones, preserving
/// relative order.
pub fn filter_succeeded(records: &Vec<SignatureRecord>) -> (ids: Vec<String>)
    ensures
        ids@ == signatures_of(succeeded_only(records@)),
{
    let kept = filter_succeeded_records(records);
    let mut ids: Vec<String> = Vec::new();
    let n = kept.len();
    let mut i: usize = 0;
    while i < n
        invariant
            n == kept@.len(),
            i <= n,
            ids@ == signatures_of(kept@.take(i as int)),
        decreases n - i,
    {
        ids.push(kept[i].signature.clone());
        proof {
            assert(signatures_of(kept@.take(i + 1)) =~= signatures_of(kept@.take(i as int)).push(kept@[i as int].signature));
        }
        i = i + 1;
    }
    proof {
        assert(kept@.take(n as int) =~= kept@);
    }
    ids
}

/// Law: keeping the successful records is idempotent; a second pass removes
/// nothing, because every record the first pass keeps has its flag set.
pub proof fn lemma_succeeded_only_idempotent(s: Seq<SignatureRecord>)
    ensures
        succeeded_only(succeeded_only(s)) == succeeded_only(s),
    decreases s.len(),
{
    reveal(Seq::filter);
    let pred = |r: SignatureRecord| r.succeeded;
    if s.len() == 0 {
        assert(s.filter(pred) =~= s);
    } else {
        lemma_succeeded_only_idempotent(s.drop_last());
        let kept = s.filter(pred);
        let kept_prefix = s.drop_last().filter(pred);
        if pred(s.last()) {
            assert(kept == kept_prefix.push(s.last()));
            assert(kept.drop_last() =~= kept_prefix);
            assert(kept.last() == s.last());
            assert(kept.filter(pred) =~= kept_prefix.filter(pred).push(s.last()));
        } else {
            assert(kept == kept_prefix);
        }
    }
}

} // verus!
