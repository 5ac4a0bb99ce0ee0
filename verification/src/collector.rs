//! HistoryCollector: drives cursor-based pagination to exhaustion.
//!
//! The caller fetches one page at a time from the ledger and feeds it to
//! [`HistoryCollector::on_page`]; the collector accumulates the pages,
//! decides termination, and derives the cursor for the next request. A page
//! shorter than the requested size is the only end-of-history signal, and an
//! empty page always terminates the loop, so a cursor is never derived from
//! a nonexistent last entry.

use vstd::prelude::*;

use crate::records::SignatureRecord;

verus! {

/// Where the collection stands: still fetching (with the cursor for the next
/// request, `None` meaning "start from newest"), or complete.
pub enum CollectState {
    InProgress { cursor: Option<String> },
    Done,
}

/// Accumulates an address's signature history page by page.
pub struct HistoryCollector {
    pub page_size: usize,
    pub records: Vec<SignatureRecord>,
    pub state: CollectState,
}

impl HistoryCollector {
    pub open spec fn well_formed(self) -> bool {
        1 <= self.page_size <= 1000
    }

    pub open spec fn is_done(self) -> bool {
        self.state is Done
    }

    /// Starts a collection that will request pages of `page_size` records,
    /// beginning with no cursor (the newest transactions).
    pub fn new(page_size: usize) -> (c: Self)
        requires
            1 <= page_size <= 1000,
        ensures
            c.well_formed(),
            c.page_size == page_size,
            c.records@ =~= Seq::<SignatureRecord>::empty(),
            c.state == (CollectState::InProgress { cursor: Option::<String>::None }),
    {
        HistoryCollector {
            page_size,
            records: Vec::new(),
            state: CollectState::InProgress { cursor: None },
        }
    }

    /// The cursor to pass to the next page fetch; `None` means "start from
    /// the newest transaction".
    pub fn next_cursor(&self) -> (cur: &Option<String>)
        requires
            !self.is_done(),
        ensures
            self.state == (CollectState::InProgress { cursor: *cur }),
    {
        match &self.state {
            CollectState::InProgress { cursor } => cursor,
            CollectState::Done => vstd::pervasive::unreached(),
        }
    }

    /// Extends the history with one fetched page and decides termination:
    /// the loop is over exactly when the page is shorter than the requested
    /// size, so an empty page always terminates with a zero-length extension
    /// and a cursor is derived only from a page that has a last entry.
    pub fn on_page(&mut self, page: Vec<SignatureRecord>) -> (done: bool)
        requires
            !old(self).is_done(),
            old(self).well_formed(),
        ensures
            final(self).well_formed(),
            final(self).page_size == old(self).page_size,
            final(self).records@ == old(self).records@ + page@,
            done == (page@.len() < old(self).page_size),
            done == final(self).is_done(),
            !done ==> page@.len() > 0 && final(self).state == (CollectState::InProgress {
                cursor: Some(page@.last().signature),
            }),
    {
        let done = page.len() < self.page_size;
        if done {
            self.state = CollectState::Done;
        } else {
            let cursor = page[page.len() - 1].signature.clone();
            self.state = CollectState::InProgress { cursor: Some(cursor) };
        }
        let mut page = page;
        self.records.append(&mut page);
        done
    }

    /// Hands the accumulated history out, in fetch order (newest first).
    pub fn into_records(self) -> (records: Vec<SignatureRecord>)
        requires
            self.is_done(),
        ensures
            records@ == self.records@,
    {
        self.records
    }
}

/// Clones `v[from..to]`.
pub fn clone_records_range(v: &Vec<SignatureRecord>, from: usize, to: usize) -> (r: Vec<
    SignatureRecord,
>)
    requires
        from <= to <= v@.len(),
    ensures
        r@ == v@.subrange(from as int, to as int),
{
    let mut r: Vec<SignatureRecord> = Vec::new();
    let mut j: usize = from;
    while j < to
        invariant
            from <= j <= to <= v@.len(),
            r@ == v@.subrange(from as int, j as int),
        decreases to - j,
    {
        r.push(v[j].clone());
        proof {
            assert(v@.subrange(from as int, j + 1) =~= v@.subrange(from as int, j as int).push(
                v@[j as int],
            ));
        }
        j = j + 1;
    }
    r
}

/// Law: collecting a synthetic history of `k` records served in pages of at
/// most `page_size` returns exactly the `k` records in their original
/// (newest-first) order, whatever the page size; it issues exactly
/// `k / page_size + 1` page fetches, so a history shorter than one page is
/// collected with a single fetch; and the loop never derives a cursor from
/// an empty page, because an empty page terminates it at once.
pub fn collect_all_synthetic(history: &Vec<SignatureRecord>, page_size: usize) -> (r: (
    Vec<SignatureRecord>,
    usize,
))
    requires
        1 <= page_size <= 1000,
        history@.len() < usize::MAX,
    ensures
        r.0@ == history@,
        r.1 == history@.len() as int / (page_size as int) + 1,
        history@.len() < page_size ==> r.1 == 1,
{
    let mut collector = HistoryCollector::new(page_size);
    let mut pos: usize = 0;
    let mut fetches: usize = 0;
    loop
        invariant_except_break
            !collector.is_done(),
            pos == fetches * page_size,
        invariant
            collector.well_formed(),
            collector.page_size == page_size,
            1 <= page_size <= 1000,
            history@.len() < usize::MAX,
            pos <= history@.len(),
            collector.records@ == history@.take(pos as int),
        ensures
            collector.is_done(),
            pos == history@.len(),
            fetches == history@.len() as int / (page_size as int) + 1,
        decreases history@.len() - pos + 1,
    {
        let end = if history.len() - pos < page_size {
            history.len()
        } else {
            pos + page_size
        };
        let page = clone_records_range(history, pos, end);
        let ghost old_pos = pos as int;
        let ghost old_fetches = fetches as int;
        proof {
            assert(fetches <= fetches * page_size) by (nonlinear_arith)
                requires
                    page_size >= 1,
                    fetches >= 0,
            ;
        }
        fetches = fetches + 1;
        let done = collector.on_page(page);
        pos = end;
        proof {
            assert(history@.take(old_pos) + history@.subrange(old_pos, pos as int)
                =~= history@.take(pos as int));
        }
        if done {
            proof {
                assert(pos == history@.len());
                assert(pos - old_pos < page_size);
                assert(old_fetches * page_size <= history@.len() < old_fetches * page_size
                    + page_size);
                assert(history@.len() as int / (page_size as int) == old_fetches) by (nonlinear_arith)
                    requires
                        page_size >= 1,
                        old_fetches >= 0,
                        old_fetches * page_size <= history@.len() < old_fetches * page_size
                            + page_size,
                ;
            }
            break;
        }
        proof {
            assert(pos == old_pos + page_size);
            assert((old_fetches + 1) * page_size == old_fetches * page_size + page_size)
                by (nonlinear_arith);
        }
    }
    let records = collector.into_records();
    proof {
        assert(history@.take(history@.len() as int) =~= history@);
        if history@.len() < page_size {
            assert(history@.len() as int / (page_size as int) == 0) by (nonlinear_arith)
                requires
                    1 <= page_size,
                    0 <= history@.len() < page_size,
            ;
        }
    }
    (records, fetches)
}

} // verus!
