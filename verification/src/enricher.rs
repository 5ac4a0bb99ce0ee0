//! BatchEnricher: partitions an identifier list into fixed-size batches for
//! a rate-limited enrichment service, and concatenates the per-batch results
//! in order. Enrichment is all-or-nothing: if one batch call fails, the
//! whole operation fails with the failing batch's index and no partial
//! result is returned.

use vstd::prelude::*;

use crate::records::EnrichedTransaction;
use crate::PipelineError;

verus! {

/// How many batches `n` identifiers fill at `b` per batch: the ceiling of
/// `n / b`.
pub open spec fn batch_count(n: int, b: int) -> int {
    (n + b - 1) / b
}

/// A batch list flattened back into one identifier list.
pub open spec fn batches_flat(batches: Seq<Vec<String>>) -> Seq<String>
    decreases batches.len(),
{
    if batches.len() == 0 {
        Seq::empty()
    } else {
        batches_flat(batches.drop_last()) + batches.last()@
    }
}

/// The concatenation of per-batch enrichment results, in batch order.
pub open spec fn results_flat(rs: Seq<Option<Vec<EnrichedTransaction>>>) -> Seq<
    EnrichedTransaction,
>
    decreases rs.len(),
{
    if rs.len() == 0 {
        Seq::empty()
    } else {
        results_flat(rs.drop_last()) + rs.last().unwrap()@
    }
}

/// Clones `v[from..to]`.
fn clone_strings_range(v: &Vec<String>, from: usize, to: usize) -> (r: Vec<String>)
    requires
        from <= to <= v@.len(),
    ensures
        r@ == v@.subrange(from as int, to as int),
{
    let mut r: Vec<String> = Vec::new();
    let mut j: usize = from;
    while j < to
        invariant
            from <= j <= to <= v@.len(),
            r@ == v@.subrange(from as int, j as int),
        decreases to - j,
    {
        r.push(v[j].clone());
        proof {
            assert(v@.subrange(from as int, j + 1) =~= v@.subrange(from as int, j as int).push(
                v@[j as int],
            ));
        }
        j = j + 1;
    }
    r
}

/// Clones a whole batch result.
pub fn clone_transactions(v: &Vec<EnrichedTransaction>) -> (r: Vec<EnrichedTransaction>)
    ensures
        r@ == v@,
{
    let mut r: Vec<EnrichedTransaction> = Vec::new();
    let mut j: usize = 0;
    while j < v.len()
        invariant
            j <= v@.len(),
            r@ == v@.take(j as int),
        decreases v@.len() - j,
    {
        r.push(v[j].clone());
        proof {
            assert(v@.take(j + 1) =~= v@.take(j as int).push(v@[j as int]));
        }
        j = j + 1;
    }
    proof {
        assert(v@.take(v@.len() as int) =~= v@);
    }
    r
}

/// Cuts `ids` into consecutive batches of at most `batch_size`: a strict
/// partition. Exactly `ceil(n / batch_size)` batches come out; their
/// concatenation is `ids` itself (no drops, no duplicates, order kept);
/// every batch but possibly the last is full, and none is empty.
pub fn make_batches(ids: &Vec<String>, batch_size: usize) -> (batches: Vec<Vec<String>>)
    requires
        1 <= batch_size,
    ensures
        batches_flat(batches@) == ids@,
        batches@.len() == batch_count(ids@.len() as int, batch_size as int),
        forall|i: int|
            0 <= i < batches@.len() ==> 1 <= (#[trigger] batches@[i])@.len() <= batch_size,
        forall|i: int| 0 <= i < batches@.len() - 1 ==> (#[trigger] batches@[i])@.len() == batch_size,
{
    let n = ids.len();
    let mut batches: Vec<Vec<String>> = Vec::new();
    let mut start: usize = 0;
    proof {
        assert(batches_flat(batches@) =~= ids@.take(0));
        assert(batch_count(0, batch_size as int) == 0) by (nonlinear_arith)
            requires
                batch_size >= 1,
        ;
    }
    while start < n
        invariant
            1 <= batch_size,
            n == ids@.len(),
            start <= n,
            batches_flat(batches@) == ids@.take(start as int),
            batches@.len() == batch_count(start as int, batch_size as int),
            start < n ==> start == batches@.len() * batch_size,
            forall|i: int|
                0 <= i < batches@.len() ==> 1 <= (#[trigger] batches@[i])@.len() <= batch_size,
            forall|i: int|
                0 <= i < batches@.len() ==> ((#[trigger] batches@[i])@.len() == batch_size || (i
                    == batches@.len() - 1 && start == n)),
        decreases n - start,
    {
        let end = if n - start < batch_size {
            n
        } else {
            start + batch_size
        };
        let chunk = clone_strings_range(ids, start, end);
        let ghost old_batches = batches@;
        let ghost old_start = start as int;
        let ghost k = batches@.len() as int;
        batches.push(chunk);
        start = end;
        proof {
            assert(batches@.drop_last() =~= old_batches);
            assert(batches@.last()@ == ids@.subrange(old_start, start as int));
            assert(batches_flat(batches@) == batches_flat(old_batches) + ids@.subrange(
                old_start,
                start as int,
            ));
            assert(batches_flat(batches@) =~= ids@.take(start as int));
            assert(old_start == k * batch_size);
            assert(batch_count(start as int, batch_size as int) == k + 1) by (nonlinear_arith)
                requires
                    batch_size >= 1,
                    k >= 0,
                    k * batch_size < start as int <= k * batch_size + batch_size,
            ;
            if start < n {
                assert(start == old_start + batch_size);
                assert((k + 1) * batch_size == k * batch_size + batch_size) by (nonlinear_arith);
            }
        }
    }
    proof {
        assert(ids@.take(n as int) =~= ids@);
    }
    batches
}

/// Bounds an enrichment run to the first `slice_size` identifiers of the
/// filtered set (all of them when fewer), to bound latency and cost.
pub fn take_prefix(ids: &Vec<String>, slice_size: usize) -> (r: Vec<String>)
    ensures
        r@ == ids@.take(if slice_size <= ids@.len() {
            slice_size as int
        } else {
            ids@.len() as int
        }),
{
    let end = if slice_size <= ids.len() {
        slice_size
    } else {
        ids.len()
    };
    let r = clone_strings_range(ids, 0, end);
    proof {
        assert(r@ =~= ids@.take(end as int));
    }
    r
}

/// Issues the batches of one enrichment run in order and accumulates the
/// service's results. The caller fetches each pending batch from the
/// service and feeds the outcome back; on the first failure it stops and
/// reports the failing batch's index, discarding what came before.
pub struct BatchEnricher {
    pub batches: Vec<Vec<String>>,
    pub issued: usize,
    pub results: Vec<EnrichedTransaction>,
}

impl BatchEnricher {
    pub open spec fn well_formed(self) -> bool {
        self.issued <= self.batches@.len()
    }

    pub open spec fn finished(self) -> bool {
        self.issued == self.batches@.len()
    }

    /// Plans the enrichment of `ids` in batches of at most `batch_size`:
    /// exactly `ceil(ids.len() / batch_size)` calls will be issued, over
    /// exactly the identifiers of `ids`, in order.
    pub fn new(ids: &Vec<String>, batch_size: usize) -> (e: Self)
        requires
            1 <= batch_size,
        ensures
            e.well_formed(),
            e.issued == 0,
            e.results@ =~= Seq::<EnrichedTransaction>::empty(),
            batches_flat(e.batches@) == ids@,
            e.batches@.len() == batch_count(ids@.len() as int, batch_size as int),
            forall|i: int|
                0 <= i < e.batches@.len() ==> 1 <= (#[trigger] e.batches@[i])@.len() <= batch_size,
    {
        let batches = make_batches(ids, batch_size);
        BatchEnricher { batches, issued: 0, results: Vec::new() }
    }

    /// The next batch to send to the enrichment service, or `None` when all
    /// batches have been issued.
    pub fn next_batch(&self) -> (b: Option<&Vec<String>>)
        requires
            self.well_formed(),
        ensures
            match b {
                Some(v) => !self.finished() && v@ == self.batches@[self.issued as int]@,
                None => self.finished(),
            },
    {
        if self.issued < self.batches.len() {
            Some(&self.batches[self.issued])
        } else {
            None
        }
    }

    /// The index of the batch whose call is pending or just failed.
    pub fn current_batch_index(&self) -> (i: usize)
        ensures
            i == self.issued,
    {
        self.issued
    }

    /// Records one successful batch call: its results are appended after all
    /// earlier ones, so batch order and within-batch order are preserved.
    pub fn on_batch_result(&mut self, txs: Vec<EnrichedTransaction>)
        requires
            old(self).well_formed(),
            !old(self).finished(),
        ensures
            final(self).well_formed(),
            final(self).batches == old(self).batches,
            final(self).issued == old(self).issued + 1,
            final(self).results@ == old(self).results@ + txs@,
    {
        let mut txs = txs;
        self.results.append(&mut txs);
        let total = self.batches.len();
        assert(self.issued < total);
        self.issued = self.issued + 1;
    }

    /// Hands out the concatenated results of a run whose calls all
    /// succeeded.
    pub fn into_results(self) -> (r: Vec<EnrichedTransaction>)
        requires
            self.finished(),
        ensures
            r@ == self.results@,
    {
        self.results
    }
}

/// Law: enriching `n` identifiers with batch size `b` against a synthetic
/// service (one pre-supplied outcome per call, `None` standing for a failed
/// call) issues exactly `ceil(n / b)` calls; when every call succeeds, the
/// result is the concatenation of the per-call results in call order; and
/// when some call fails, the run reports the first failing batch's index
/// and returns no record at all — in particular none from later calls.
pub fn enrich_all_synthetic(
    ids: &Vec<String>,
    batch_size: usize,
    responses: &Vec<Option<Vec<EnrichedTransaction>>>,
) -> (r: Result<Vec<EnrichedTransaction>, PipelineError>)
    requires
        1 <= batch_size,
        responses@.len() == batch_count(ids@.len() as int, batch_size as int),
    ensures
        (r is Ok) == (forall|i: int| 0 <= i < responses@.len() ==> (#[trigger] responses@[i]) is Some),
        r is Ok ==> r->Ok_0@ == results_flat(responses@),
        r is Err ==> {
            &&& r->Err_0 matches PipelineError::EnrichmentFailed(j)
            &&& 0 <= (r->Err_0->EnrichmentFailed_0 as int) < responses@.len()
            &&& responses@[r->Err_0->EnrichmentFailed_0 as int] is None
            &&& forall|i: int|
                0 <= i < r->Err_0->EnrichmentFailed_0 as int ==> (#[trigger] responses@[i]) is Some
        },
{
    let mut enricher = BatchEnricher::new(ids, batch_size);
    proof {
        assert(responses@.take(0) =~= Seq::<Option<Vec<EnrichedTransaction>>>::empty());
    }
    while enricher.issued < enricher.batches.len()
        invariant
            enricher.well_formed(),
            enricher.batches@.len() == responses@.len(),
            enricher.results@ == results_flat(responses@.take(enricher.issued as int)),
            forall|i: int| 0 <= i < enricher.issued ==> (#[trigger] responses@[i]) is Some,
        decreases enricher.batches@.len() - enricher.issued,
    {
        let idx = enricher.current_batch_index();
        match &responses[idx] {
            Some(txs) => {
                let ghost old_issued = enricher.issued as int;
                let cloned = clone_transactions(txs);
                enricher.on_batch_result(cloned);
                proof {
                    assert(responses@.take(old_issued + 1).drop_last() =~= responses@.take(
                        old_issued,
                    ));
                    assert(responses@.take(old_issued + 1).last() == responses@[old_issued]);
                }
            },
            None => {
                return Err(PipelineError::EnrichmentFailed(idx));
            },
        }
    }
    proof {
        assert(responses@.take(responses@.len() as int) =~= responses@);
    }
    Ok(enricher.into_results())
}

} // verus!
