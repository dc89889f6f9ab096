//! Risk classification of abuse-confidence scores.
//!
//! A score is an abuse-confidence percentage between 0 and 100 reported by
//! the reputation service. Scores are classified into three non-overlapping
//! buckets: high (score > 75), medium (25 < score <= 75) and low
//! (score <= 25). Records without a score fall into no bucket.

use vstd::prelude::*;

use crate::enrich::IpReputationReport;

verus! {

/// Risk bucket for an abuse-confidence score.
#[derive(Clone, Copy, Debug, PartialEq, Eq, Structural)]
pub enum RiskBucket {
    High,
    Medium,
    Low,
}

/// Bucket that a given abuse-confidence score falls into.
pub open spec fn spec_risk_bucket(score: u8) -> RiskBucket {
    if score > 75 {
        RiskBucket::High
    } else if score > 25 {
        RiskBucket::Medium
    } else {
        RiskBucket::Low
    }
}

/// Classify an abuse-confidence score into its risk bucket.
///
/// The boundaries are inclusive/exclusive exactly as stated: a score of
/// exactly 75 is medium, not high, and a score of exactly 25 is low,
/// not medium.
pub fn classify_risk(score: u8) -> (bucket: RiskBucket)
    ensures
        bucket == spec_risk_bucket(score),
        bucket == RiskBucket::High <==> score > 75,
        bucket == RiskBucket::Medium <==> 25 < score <= 75,
        bucket == RiskBucket::Low <==> score <= 25,
{
    if score > 75 {
        RiskBucket::High
    } else if score > 25 {
        RiskBucket::Medium
    } else {
        RiskBucket::Low
    }
}

/// How many results carry a score in the given bucket.
pub open spec fn spec_count_bucket(reports: Seq<IpReputationReport>, b: RiskBucket) -> nat
    decreases reports.len(),
{
    if reports.len() == 0 {
        0
    } else {
        spec_count_bucket(reports.drop_last(), b) + match reports.last().abuse_confidence {
            Some(s) => if spec_risk_bucket(s) == b {
                1nat
            } else {
                0nat
            },
            None => 0nat,
        }
    }
}

/// How many results carry no score (their lookup failed or the service
/// omitted the score): they fall into no bucket and are reported separately.
pub open spec fn spec_count_unscored(reports: Seq<IpReputationReport>) -> nat
    decreases reports.len(),
{
    if reports.len() == 0 {
        0
    } else {
        spec_count_unscored(reports.drop_last()) + if reports.last().abuse_confidence is None {
            1nat
        } else {
            0nat
        }
    }
}

/// The risk buckets of a batch of results: how many scored results fall into
/// each bucket, and how many results have no score.
pub struct RiskSummary {
    pub high: usize,
    pub medium: usize,
    pub low: usize,
    pub unscored: usize,
}

/// Count the results of a batch into the three risk buckets; every result
/// lands in exactly one bucket or is counted as unscored.
pub fn risk_summary(reports: &Vec<IpReputationReport>) -> (r: RiskSummary)
    ensures
        r.high == spec_count_bucket(reports@, RiskBucket::High),
        r.medium == spec_count_bucket(reports@, RiskBucket::Medium),
        r.low == spec_count_bucket(reports@, RiskBucket::Low),
        r.unscored == spec_count_unscored(reports@),
        r.high + r.medium + r.low + r.unscored == reports@.len(),
{
    let mut high: usize = 0;
    let mut medium: usize = 0;
    let mut low: usize = 0;
    let mut unscored: usize = 0;
    let mut i: usize = 0;
    while i < reports.len()
        invariant
            i <= reports@.len(),
            high == spec_count_bucket(reports@.take(i as int), RiskBucket::High),
            medium == spec_count_bucket(reports@.take(i as int), RiskBucket::Medium),
            low == spec_count_bucket(reports@.take(i as int), RiskBucket::Low),
            unscored == spec_count_unscored(reports@.take(i as int)),
            high + medium + low + unscored == i,
        decreases reports@.len() - i,
    {
        proof {
            assert(reports@.take(i + 1).drop_last() =~= reports@.take(i as int));
            assert(reports@.take(i + 1).last() == reports@[i as int]);
        }
        match reports[i].abuse_confidence {
            Some(score) => {
                match classify_risk(score) {
                    RiskBucket::High => {
                        high += 1;
                    },
                    RiskBucket::Medium => {
                        medium += 1;
                    },
                    RiskBucket::Low => {
                        low += 1;
                    },
                }
            },
            None => {
                unscored += 1;
            },
        }
        i += 1;
    }
    proof {
        assert(reports@.take(reports@.len() as int) =~= reports@);
    }
    RiskSummary { high, medium, low, unscored }
}

/// Indexes of the results whose score classifies as high risk, in order.
pub open spec fn spec_high_indices(reports: Seq<IpReputationReport>) -> Seq<int>
    decreases reports.len(),
{
    if reports.len() == 0 {
        Seq::empty()
    } else {
        let prev = spec_high_indices(reports.drop_last());
        match reports.last().abuse_confidence {
            Some(s) => if spec_risk_bucket(s) == RiskBucket::High {
                prev.push(reports.len() - 1)
            } else {
                prev
            },
            None => prev,
        }
    }
}

/// Collect the indexes of the high-risk results, in order, for the
/// operator-facing summary.
pub fn high_risk_indices(reports: &Vec<IpReputationReport>) -> (r: Vec<usize>)
    ensures
        r@.len() == spec_high_indices(reports@).len(),
        forall|k: int| 0 <= k < r@.len() ==> #[trigger] r@[k] == spec_high_indices(reports@)[k],
{
    let mut out: Vec<usize> = Vec::new();
    let mut i: usize = 0;
    while i < reports.len()
        invariant
            i <= reports@.len(),
            out@.len() == spec_high_indices(reports@.take(i as int)).len(),
            forall|k: int|
                0 <= k < out@.len() ==> #[trigger] out@[k] == spec_high_indices(
                    reports@.take(i as int),
                )[k],
        decreases reports@.len() - i,
    {
        proof {
            assert(reports@.take(i + 1).drop_last() =~= reports@.take(i as int));
            assert(reports@.take(i + 1).last() == reports@[i as int]);
        }
        match reports[i].abuse_confidence {
            Some(score) => {
                if score > 75 {
                    out.push(i);
                }
            },
            None => {},
        }
        i += 1;
    }
    proof {
        assert(reports@.take(reports@.len() as int) =~= reports@);
    }
    out
}

} // verus!
