//! Progress of a job, as the caller is told of it after each chunk.

use vstd::prelude::*;

verus! {

/// How far a job has come: `bytes_processed` of `bytes_total`.
#[derive(Clone, Copy, Debug, PartialEq, Eq, Structural)]
pub struct ProgressSample {
    /// Bytes handled so far.
    pub bytes_processed: u64,
    /// Bytes the job has to handle in all.
    pub bytes_total: u64,
}

/// The share of the work that is done, in hundredths of a percent, rounded
/// down. It has no value where there is no work.
pub open spec fn hundredths(processed: nat, total: nat) -> Option<nat> {
    if total == 0 {
        None
    } else {
        Some(processed * 10000 / total)
    }
}

/// The share is at most 10000, and is 10000 only when all is processed.
pub proof fn lemma_hundredths_bounds(processed: nat, total: nat)
    requires
        processed <= total,
        total > 0,
    ensures
        processed * 10000 <= total * 10000,
        processed * 10000 / total <= 10000,
        processed * 10000 / total == 10000 <==> processed == total,
{
    let q = processed * 10000 / total;
    let r = processed * 10000 % total;
    assert(processed * 10000 <= total * 10000) by (nonlinear_arith)
        requires
            processed <= total,
    ;
    assert(processed * 10000 == total * q + r && 0 <= r < total) by {
        vstd::arithmetic::div_mod::lemma_fundamental_div_mod(processed as int * 10000, total as int);
    }
    assert(q <= 10000 && (q == 10000 <==> processed == total)) by (nonlinear_arith)
        requires
            processed * 10000 == total * q + r,
            0 <= r < total,
            processed <= total,
            total > 0,
    ;
}

impl ProgressSample {
    /// No more is processed than there is.
    pub open spec fn wf(&self) -> bool {
        self.bytes_processed <= self.bytes_total
    }

    /// Whether the job has handled everything.
    pub fn is_complete(&self) -> (done: bool)
        ensures
            done == (self.bytes_processed == self.bytes_total),
    {
        self.bytes_processed == self.bytes_total
    }

    /// The share that is done in hundredths of a percent, rounded down, so
    /// that 10000 shows only when everything is done. `None` where the
    /// total is zero.
    pub fn percent_hundredths(&self) -> (share: Option<u64>)
        requires
            self.wf(),
        ensures
            share.is_some() == (self.bytes_total != 0),
            share matches Some(h) ==> Some(h as nat) == hundredths(
                self.bytes_processed as nat,
                self.bytes_total as nat,
            ) && h <= 10000 && (h == 10000 <==> self.bytes_processed == self.bytes_total),
    {
        if self.bytes_total == 0 {
            return None;
        }
        let processed: u128 = self.bytes_processed as u128;
        let total: u128 = self.bytes_total as u128;
        proof {
            lemma_hundredths_bounds(processed as nat, total as nat);
        }
        let scaled: u128 = processed * 10000 / total;
        Some(scaled as u64)
    }
}

} // verus!
