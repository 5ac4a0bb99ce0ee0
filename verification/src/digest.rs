//! DigestFormatter: renders the surviving transactions as one line each, in
//! input order — a local-time rendering of the transaction's timestamp,
//! a space, the description, and a line break.

use vstd::prelude::*;

use crate::records::EnrichedTransaction;

verus! {

/// How a pipeline run that reached the formatter ends: with a rendered
/// digest, or with one of the two informational outcomes — the address has
/// no transactions at all, or the relevance filter removed everything.
pub enum DigestOutcome {
    Digest(String),
    EmptyHistory,
    NoRelevantResults,
}

/// One digest line: a timestamp rendering, a space, the description, and a
/// line break.
pub open spec fn line_of(time: Seq<char>, desc: Seq<char>) -> Seq<char> {
    time + " "@ + desc + "\n"@
}

/// `lines` renders `txs` one to one: each line carries the matching
/// description behind some timestamp rendering.
pub open spec fn lines_render(
    lines: Seq<String>,
    times: Seq<Seq<char>>,
    txs: Seq<EnrichedTransaction>,
) -> bool {
    &&& lines.len() == txs.len()
    &&& times.len() == txs.len()
    &&& forall|i: int| 0 <= i < txs.len() ==> lines[i]@ == line_of(times[i], txs[i].description@)
}

/// The concatenation of a line list.
pub open spec fn lines_joined(lines: Seq<String>) -> Seq<char>
    decreases lines.len(),
{
    if lines.len() == 0 {
        Seq::empty()
    } else {
        lines_joined(lines.drop_last()) + lines.last()@
    }
}

/// Relies on chrono's `DateTime::from_timestamp` and `with_timezone`: turns
/// epoch seconds (UTC) into the rendering of that instant in the machine's
/// local time zone, or `None` for a timestamp chrono cannot represent. The
/// result depends on the machine's time zone, so nothing is promised of it.
#[verifier::external_body]
fn local_time_display(epoch_secs: i64) -> (r: Option<String>) {
    match chrono::DateTime::<chrono::Utc>::from_timestamp(epoch_secs, 0) {
        Some(dt) => Some(dt.with_timezone(&chrono::Local).to_string()),
        None => None,
    }
}

/// Renders one line per transaction, in input order: some local-time
/// rendering of the timestamp (empty where the timestamp cannot be
/// represented), a space, the description, and a line break.
pub fn render_lines(txs: &Vec<EnrichedTransaction>) -> (lines: Vec<String>)
    ensures
        exists|times: Seq<Seq<char>>| lines_render(lines@, times, txs@),
{
    let mut lines: Vec<String> = Vec::new();
    let ghost mut times: Seq<Seq<char>> = Seq::empty();
    let n = txs.len();
    let mut i: usize = 0;
    while i < n
        invariant
            n == txs@.len(),
            i <= n,
            lines@.len() == i,
            times.len() == i,
            forall|k: int| 0 <= k < i ==> lines@[k]@ == line_of(times[k], txs@[k].description@),
        decreases n - i,
    {
        let mut line = match local_time_display(txs[i].timestamp) {
            Some(t) => t,
            None => String::new(),
        };
        proof {
            times = times.push(line@);
        }
        line.append(" ");
        line.append(txs[i].description.as_str());
        line.append("\n");
        lines.push(line);
        i = i + 1;
    }
    proof {
        assert(lines_render(lines@, times, txs@));
    }
    lines
}

/// Renders the whole digest as one text block: the concatenation of the
/// lines of [`render_lines`], and the empty string when no transaction is
/// left to show.
pub fn render(txs: &Vec<EnrichedTransaction>) -> (digest: String)
    ensures
        exists|lines: Seq<String>, times: Seq<Seq<char>>|
            lines_render(lines, times, txs@) && digest@ == lines_joined(lines),
        txs@.len() == 0 ==> digest@ == Seq::<char>::empty(),
{
    let lines = render_lines(txs);
    let ghost times = choose|t: Seq<Seq<char>>| lines_render(lines@, t, txs@);
    let mut digest = String::new();
    let n = lines.len();
    let mut i: usize = 0;
    while i < n
        invariant
            n == lines@.len(),
            i <= n,
            digest@ == lines_joined(lines@.take(i as int)),
        decreases n - i,
    {
        digest.append(lines[i].as_str());
        proof {
            assert(lines@.take(i + 1).drop_last() =~= lines@.take(i as int));
            assert(lines@.take(i + 1).last() == lines@[i as int]);
        }
        i = i + 1;
    }
    proof {
        assert(lines@.take(n as int) =~= lines@);
        assert(lines_render(lines@, times, txs@) && digest@ == lines_joined(lines@));
    }
    digest
}

/// Classifies the end of a run from the number of fetched records and the
/// transactions that survived the relevance filter: a history with zero
/// records is the `EmptyHistory` outcome; a non-empty history whose
/// relevant set is empty is `NoRelevantResults`; otherwise the digest is
/// the rendered survivors.
pub fn finish(history_len: usize, relevant: &Vec<EnrichedTransaction>) -> (o: DigestOutcome)
    ensures
        (o is EmptyHistory) <==> history_len == 0,
        (o is NoRelevantResults) <==> (history_len > 0 && relevant@.len() == 0),
        (o is Digest) ==> exists|lines: Seq<String>, times: Seq<Seq<char>>|
            lines_render(lines, times, relevant@) && o->Digest_0@ == lines_joined(lines),
{
    if history_len == 0 {
        DigestOutcome::EmptyHistory
    } else if relevant.len() == 0 {
        DigestOutcome::NoRelevantResults
    } else {
        DigestOutcome::Digest(render(relevant))
    }
}

} // verus!
