use tx_digest::collector::{collect_all_synthetic, HistoryCollector};
use tx_digest::enricher::{enrich_all_synthetic, make_batches, take_prefix, BatchEnricher};
use tx_digest::records::{EnrichedTransaction, SignatureRecord};
use tx_digest::relevance::{contains_str, RelevanceConfig};
use tx_digest::success::{filter_succeeded, filter_succeeded_records};
use tx_digest::PipelineError;

fn record(sig: &str, succeeded: bool, slot: u64) -> SignatureRecord {
    SignatureRecord { signature: sig.to_string(), succeeded, slot }
}

fn history(k: usize) -> Vec<SignatureRecord> {
    (0..k).map(|i| record(&format!("sig{i}"), i % 5 != 0, 1000 - i as u64)).collect()
}

fn tx(sig: &str, desc: &str, timestamp: i64) -> EnrichedTransaction {
    EnrichedTransaction { signature: sig.to_string(), description: desc.to_string(), timestamp }
}

#[test]
fn short_history_takes_one_fetch() {
    let h = history(7);
    let (records, fetches) = collect_all_synthetic(&h, 10);
    assert_eq!(fetches, 1);
    assert_eq!(records.len(), 7);
}

#[test]
fn empty_history_takes_one_fetch_and_yields_nothing() {
    let h = history(0);
    let (records, fetches) = collect_all_synthetic(&h, 1000);
    assert_eq!(fetches, 1);
    assert!(records.is_empty());
}

#[test]
fn collect_returns_all_records_in_order_for_every_page_size() {
    let h = history(25);
    for page_size in [1usize, 2, 3, 5, 10, 24, 25, 26, 1000] {
        let (records, _) = collect_all_synthetic(&h, page_size);
        assert_eq!(records.len(), 25);
        for (got, want) in records.iter().zip(h.iter()) {
            assert_eq!(got.signature, want.signature);
            assert_eq!(got.succeeded, want.succeeded);
            assert_eq!(got.slot, want.slot);
        }
    }
}

#[test]
fn fetch_count_is_pages_plus_trailing_probe() {
    let h = history(20);
    let (_, fetches) = collect_all_synthetic(&h, 10);
    // two full pages, then the empty page that signals the end
    assert_eq!(fetches, 3);
    let (_, fetches) = collect_all_synthetic(&h, 7);
    assert_eq!(fetches, 3);
}

#[test]
fn full_page_then_empty_page_terminates_with_first_page() {
    let mut collector = HistoryCollector::new(3);
    let first: Vec<SignatureRecord> =
        vec![record("a", true, 3), record("b", true, 2), record("c", false, 1)];
    let done = collector.on_page(first);
    assert!(!done);
    assert_eq!(collector.next_cursor().as_deref(), Some("c"));
    let done = collector.on_page(Vec::new());
    assert!(done);
    let records = collector.into_records();
    assert_eq!(records.len(), 3);
    assert_eq!(records[0].signature, "a");
    assert_eq!(records[1].signature, "b");
    assert_eq!(records[2].signature, "c");
}

#[test]
fn short_page_terminates_without_another_fetch() {
    let mut collector = HistoryCollector::new(1000);
    let done = collector.on_page(vec![record("only", true, 9)]);
    assert!(done);
    assert_eq!(collector.into_records().len(), 1);
}

#[test]
fn filter_succeeded_keeps_only_successes_in_order() {
    let records = vec![
        record("a", true, 5),
        record("b", false, 4),
        record("c", true, 3),
        record("d", false, 2),
        record("e", true, 1),
    ];
    let ids = filter_succeeded(&records);
    assert_eq!(ids, vec!["a".to_string(), "c".to_string(), "e".to_string()]);
}

#[test]
fn filter_succeeded_is_idempotent() {
    let records = vec![
        record("a", true, 5),
        record("b", false, 4),
        record("c", true, 3),
        record("d", false, 2),
    ];
    let once = filter_succeeded_records(&records);
    let twice = filter_succeeded_records(&once);
    assert_eq!(once.len(), twice.len());
    for (x, y) in once.iter().zip(twice.iter()) {
        assert_eq!(x.signature, y.signature);
        assert_eq!(x.succeeded, y.succeeded);
        assert_eq!(x.slot, y.slot);
    }
}

fn ids(n: usize) -> Vec<String> {
    (0..n).map(|i| format!("id{i}")).collect()
}

#[test]
fn batches_partition_preserves_order_and_count() {
    let ids = ids(25);
    let batches = make_batches(&ids, 5);
    assert_eq!(batches.len(), 5);
    let flat: Vec<String> = batches.concat();
    assert_eq!(flat, ids);

    let seven = vec!["a".to_string(), "b".to_string(), "c".to_string(), "d".to_string(),
        "e".to_string(), "f".to_string(), "g".to_string()];
    let batches = make_batches(&seven, 3);
    assert_eq!(batches.len(), 3);
    assert_eq!(batches[0].len(), 3);
    assert_eq!(batches[1].len(), 3);
    assert_eq!(batches[2].len(), 1);
    assert_eq!(batches.concat(), seven);
}

#[test]
fn take_prefix_bounds_the_slice() {
    let all = ids(30);
    let sliced = take_prefix(&all, 20);
    assert_eq!(sliced, all[0..20].to_vec());
    let few = ids(4);
    let sliced = take_prefix(&few, 20);
    assert_eq!(sliced, few);
}

#[test]
fn enrich_all_concatenates_batch_results_in_order() {
    let ids = ids(5);
    // ceil(5 / 2) = 3 calls
    let responses = vec![
        Some(vec![tx("id0", "zero", 10), tx("id1", "one", 11)]),
        Some(vec![tx("id2", "two", 12)]),
        Some(vec![tx("id4", "four", 14)]),
    ];
    let out = enrich_all_synthetic(&ids, 2, &responses).unwrap();
    let descs: Vec<&str> = out.iter().map(|t| t.description.as_str()).collect();
    assert_eq!(descs, vec!["zero", "one", "two", "four"]);
}

#[test]
fn enrich_failure_reports_batch_index_and_discards_everything() {
    let ids = ids(5);
    let responses = vec![
        Some(vec![tx("id0", "zero", 10), tx("id1", "one", 11)]),
        None,
        Some(vec![tx("id4", "four", 14)]),
    ];
    let err = enrich_all_synthetic(&ids, 2, &responses).unwrap_err();
    assert_eq!(err, PipelineError::EnrichmentFailed(1));
}

#[test]
fn enricher_machine_issues_every_batch_once() {
    let ids = ids(5);
    let mut enricher = BatchEnricher::new(&ids, 2);
    let mut calls = 0;
    while let Some(batch) = enricher.next_batch().cloned() {
        let fetched: Vec<EnrichedTransaction> =
            batch.iter().map(|s| tx(s, &format!("desc of {s}"), 7)).collect();
        enricher.on_batch_result(fetched);
        calls += 1;
    }
    assert_eq!(calls, 3);
    let results = enricher.into_results();
    assert_eq!(results.len(), 5);
    assert_eq!(results[0].signature, "id0");
    assert_eq!(results[4].signature, "id4");
}

#[test]
fn relevance_rejects_noise_and_accepts_the_rest() {
    let cfg = RelevanceConfig::standard();
    assert!(!cfg.is_relevant(&tx("s", "", 1)));
    assert!(!cfg.is_relevant(&tx("s", "bought an nft on a marketplace", 1)));
    assert!(!cfg.is_relevant(&tx("s", "transferred to multiple accounts", 1)));
    assert!(!cfg.is_relevant(&tx("s", "sent 0.000000001 SOL to a wallet", 1)));
    assert!(!cfg.is_relevant(&tx("s", "sent 0 SOL to a wallet", 1)));
    assert!(!cfg.is_relevant(&tx("s", "sent 0.0001 SOL to a wallet", 1)));
    assert!(cfg.is_relevant(&tx("s", "swapped 5 SOL for 600 USDC", 1)));
}

#[test]
fn substring_search_is_exact_and_case_sensitive() {
    assert!(contains_str("hello world", "lo wo"));
    assert!(contains_str("hello", ""));
    assert!(contains_str("hello", "hello"));
    assert!(!contains_str("hello", "hello!"));
    assert!(!contains_str("NFT", "nft"));
    assert!(!contains_str("", "a"));
}
