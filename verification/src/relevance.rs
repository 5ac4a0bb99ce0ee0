//! RelevanceFilter: an ordered conjunction of content predicates over the
//! free-text description of an enriched transaction. A record survives only
//! if its description is non-empty, references no NFT-category activity,
//! does not indicate an aggregated multi-party transfer, and matches no
//! dust-value pattern. The matching is plain case-sensitive substring
//! search; the pattern list is configuration, not a hidden constant.

use vstd::prelude::*;

use crate::records::EnrichedTransaction;

verus! {

/// `n` occurs in `h` starting at position `i`.
pub open spec fn matches_at(h: Seq<char>, n: Seq<char>, i: int) -> bool {
    0 <= i && i + n.len() <= h.len() && h.subrange(i, i + n.len()) == n
}

/// `n` occurs somewhere in `h` as a contiguous substring.
pub open spec fn contains_seq(h: Seq<char>, n: Seq<char>) -> bool {
    exists|i: int| matches_at(h, n, i)
}

/// Whether `n` occurs in `h` at position `i`.
fn match_at(h: &str, n: &str, i: usize, hl: usize, nl: usize) -> (r: bool)
    requires
        hl == h@.len(),
        nl == n@.len(),
        i + nl <= hl,
    ensures
        r == matches_at(h@, n@, i as int),
{
    let mut j: usize = 0;
    while j < nl
        invariant
            j <= nl,
            i + nl <= hl,
            hl == h@.len(),
            nl == n@.len(),
            forall|m: int| 0 <= m < j ==> h@[i + m] == n@[m],
        decreases nl - j,
    {
        if h.get_char(i + j) != n.get_char(j) {
            proof {
                assert(h@.subrange(i as int, i + nl)[j as int] == h@[i + j]);
            }
            return false;
        }
        j = j + 1;
    }
    proof {
        assert(h@.subrange(i as int, i + nl) =~= n@);
    }
    true
}

/// Case-sensitive substring search, character by character.
pub fn contains_str(h: &str, n: &str) -> (r: bool)
    ensures
        r == contains_seq(h@, n@),
{
    let hl = h.unicode_len();
    let nl = n.unicode_len();
    if nl > hl {
        proof {
            assert(forall|i: int| !matches_at(h@, n@, i));
        }
        return false;
    }
    if nl == 0 {
        proof {
            assert(h@.subrange(0, 0) =~= n@);
            assert(matches_at(h@, n@, 0));
        }
        return true;
    }
    let mut i: usize = 0;
    while i <= hl - nl
        invariant
            1 <= nl <= hl,
            hl == h@.len(),
            nl == n@.len(),
            i <= hl - nl + 1,
            forall|k: int| 0 <= k < i ==> !matches_at(h@, n@, k),
        decreases hl - nl + 1 - i,
    {
        if match_at(h, n, i, hl, nl) {
            return true;
        }
        i = i + 1;
    }
    proof {
        assert forall|k: int| !matches_at(h@, n@, k) by {
            if 0 <= k < i {
            } else if k > hl - nl {
                assert(k + nl > hl);
            }
        }
    }
    false
}

/// The configured pattern lists of the relevance filter. Matching is exact
/// (case-sensitive), as the descriptions come from the service.
pub struct RelevanceConfig {
    /// A description mentioning this marker is NFT-category activity.
    pub nft_marker: String,
    /// A description mentioning this marker summarises an aggregated
    /// multi-party transfer.
    pub aggregate_marker: String,
    /// Substrings standing for zero or dust-level native-currency amounts.
    pub dust_patterns: Vec<String>,
}

/// The relevance predicate: the description is non-empty and contains none
/// of the configured markers or dust-value patterns.
pub open spec fn spec_is_relevant(desc: Seq<char>, cfg: RelevanceConfig) -> bool {
    &&& desc.len() > 0
    &&& !contains_seq(desc, cfg.nft_marker@)
    &&& !contains_seq(desc, cfg.aggregate_marker@)
    &&& forall|i: int|
        0 <= i < cfg.dust_patterns@.len() ==> !contains_seq(desc, (#[trigger] cfg.dust_patterns@[i])@)
}

impl RelevanceConfig {
    /// The stock configuration: NFT marker `nft`, aggregate marker
    /// `multiple`, and the dust amounts `0.000000001 SOL`, `0 SOL` and
    /// `0.0001`.
    pub fn standard() -> (cfg: RelevanceConfig)
        ensures
            cfg.nft_marker@ == "nft"@,
            cfg.aggregate_marker@ == "multiple"@,
            cfg.dust_patterns@.len() == 3,
            cfg.dust_patterns@[0]@ == "0.000000001 SOL"@,
            cfg.dust_patterns@[1]@ == "0 SOL"@,
            cfg.dust_patterns@[2]@ == "0.0001"@,
    {
        let mut dust_patterns: Vec<String> = Vec::new();
        dust_patterns.push("0.000000001 SOL".to_owned());
        dust_patterns.push("0 SOL".to_owned());
        dust_patterns.push("0.0001".to_owned());
        RelevanceConfig {
            nft_marker: "nft".to_owned(),
            aggregate_marker: "multiple".to_owned(),
            dust_patterns,
        }
    }

    /// Whether an enriched transaction survives the filter chain: its
    /// description must be non-empty, reference no NFT activity, indicate
    /// no aggregated multi-transfer, and match no dust-value pattern.
    pub fn is_relevant(&self, tx: &EnrichedTransaction) -> (r: bool)
        ensures
            r == spec_is_relevant(tx.description@, *self),
    {
        let desc = tx.description.as_str();
        if desc.unicode_len() == 0 {
            return false;
        }
        if contains_str(desc, self.nft_marker.as_str()) {
            return false;
        }
        if contains_str(desc, self.aggregate_marker.as_str()) {
            return false;
        }
        let mut i: usize = 0;
        let n = self.dust_patterns.len();
        while i < n
            invariant
                n == self.dust_patterns@.len(),
                i <= n,
                desc@ == tx.description@,
                forall|k: int|
                    0 <= k < i ==> !contains_seq(tx.description@, (#[trigger] self.dust_patterns@[k])@),
            decreases n - i,
        {
            if contains_str(desc, self.dust_patterns[i].as_str()) {
                return false;
            }
            i = i + 1;
        }
        true
    }
}

/// The transactions of `txs` that survive the filter chain, in their
/// relative order.
pub open spec fn relevant_only(txs: Seq<EnrichedTransaction>, cfg: RelevanceConfig) -> Seq<
    EnrichedTransaction,
> {
    txs.filter(|t: EnrichedTransaction| spec_is_relevant(t.description@, cfg))
}

/// Keeps exactly the relevant transactions, preserving relative order.
pub fn filter_relevant(txs: &Vec<EnrichedTransaction>, cfg: &RelevanceConfig) -> (kept: Vec<
    EnrichedTransaction,
>)
    ensures
        kept@ == relevant_only(txs@, *cfg),
{
    let mut kept: Vec<EnrichedTransaction> = Vec::new();
    let n = txs.len();
    let mut i: usize = 0;
    while i < n
        invariant
            n == txs@.len(),
            i <= n,
            kept@ == relevant_only(txs@.take(i as int), *cfg),
        decreases n - i,
    {
        proof {
            reveal(Seq::filter);
            assert(txs@.take(i + 1).drop_last() =~= txs@.take(i as int));
            assert(txs@.take(i + 1).last() == txs@[i as int]);
        }
        if cfg.is_relevant(&txs[i]) {
            kept.push(txs[i].clone());
        }
        i = i + 1;
    }
    proof {
        assert(txs@.take(n as int) =~= txs@);
    }
    kept
}

} // verus!
