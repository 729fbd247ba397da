//! The run-level policy over the formatted batches: bodies are handed out
//! one at a time, each must be acknowledged before the next, and the first
//! failed acknowledgement withholds every remaining body.

use vstd::prelude::*;
use crate::error::RunError;
use crate::publish::{response_outcome, success_status, no_detail_msg};
use crate::sample::{batch_count, batch_hi, batch_lo, batch_spec, format_batches, Sample};

verus! {

/// The state of one publishing run: the bodies still to send, the position
/// of the next one, and whether a failure has already ended the run.
pub struct BatchRun {
    pub bodies: Vec<String>,
    pub next: usize,
    pub failed: bool,
}

impl BatchRun {
    /// A body index that has been handed out or acknowledged already.
    pub open spec fn well_formed(self) -> bool {
        self.next <= self.bodies@.len()
    }

    /// Formats the rows into batch bodies and stands ready to publish them,
    /// starting from the first.
    pub fn start(samples: &Vec<Sample>, name: &str) -> (r: BatchRun)
        ensures
            r.well_formed(),
            r.bodies@.len() == batch_count(samples@.len()),
            forall|i: int|
                0 <= i < r.bodies@.len() ==> r.bodies@[i]@ == batch_spec(
                    samples@.subrange(batch_lo(i), batch_hi(samples@.len(), i)),
                    name@,
                ),
            r.next == 0,
            !r.failed,
    {
        let bodies = format_batches(samples, name);
        BatchRun { bodies, next: 0, failed: false }
    }

    /// The next body to send, if any. Once a response has been rejected, or
    /// every body has been acknowledged, no further body is handed out.
    pub fn next_body(&self) -> (r: Option<String>)
        ensures
            r is Some <==> (!self.failed && self.next < self.bodies@.len()),
            r matches Some(b) ==> b@ == self.bodies@[self.next as int]@,
    {
        if self.failed || self.next >= self.bodies.len() {
            None
        } else {
            Some(self.bodies[self.next].clone())
        }
    }

    /// Records the sink's response to the body last handed out. A success
    /// status moves the run to the next body; any other status ends the run,
    /// and the returned error carries the response body or a placeholder.
    pub fn record_response(&mut self, status: u16, body: Option<String>) -> (r: Result<
        (),
        RunError,
    >)
        requires
            old(self).well_formed(),
            !old(self).failed,
            old(self).next < old(self).bodies@.len(),
        ensures
            final(self).well_formed(),
            final(self).bodies == old(self).bodies,
            final(self).next == old(self).next + 1,
            final(self).failed == !success_status(status),
            r is Ok <==> success_status(status),
            r matches Err(e) ==> e matches RunError::PublishHttp(m) && m@ == (match body {
                Some(b) => b@,
                None => no_detail_msg(),
            }),
    {
        let outcome = response_outcome(status, body);
        let n = self.bodies.len();
        assert(self.next < n);
        self.next = self.next + 1;
        if outcome.is_err() {
            self.failed = true;
        }
        outcome
    }
}

} // verus!
