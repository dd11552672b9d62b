//! The resilient downloader's decision core: per-attempt length validation
//! and the bounded retry policy.
//!
//! The network work itself (opening the response, streaming chunks) happens
//! outside the library; what is verified here is every decision the
//! downloader takes: when an attempt counts as failed, when another attempt
//! may be made, how long to wait before it, and what the whole download
//! returns for any sequence of attempt outcomes.

use vstd::prelude::*;
use crate::config::{MAX_ATTEMPTS, RETRY_DELAY_SECS};

verus! {

/// Why a single download attempt failed. Both kinds are retryable.
#[derive(Clone, Copy, Debug, PartialEq, Eq, Structural)]
pub enum AttemptError {
    /// Connection failure, non-success status, or a failed stream read.
    Network,
    /// The received byte count differs from the advertised content length.
    Validation,
}

/// Every attempt of one download failed; wraps the last attempt's error.
#[derive(Clone, Copy, Debug, PartialEq, Eq, Structural)]
pub struct DownloadExhausted {
    pub last: AttemptError,
}

/// An advertised content length, when present, must equal the received count.
pub open spec fn length_ok(received: nat, advertised: Option<u64>) -> bool {
    advertised matches Some(n) ==> received == n
}

/// Close one attempt: accept the received body exactly when it matches the
/// advertised content length; absence of an advertised length never rejects.
/// A mismatch is a failed attempt (retryable), not an accepted download.
pub fn validate_received(body: Vec<u8>, advertised: Option<u64>) -> (r: Result<
    Vec<u8>,
    AttemptError,
>)
    ensures
        r is Ok <==> length_ok(body@.len(), advertised),
        r matches Ok(b) ==> b@ == body@,
        r is Err ==> r->Err_0 == AttemptError::Validation,
{
    match advertised {
        Some(n) => {
            if body.len() as u64 == n {
                Ok(body)
            } else {
                Err(AttemptError::Validation)
            }
        },
        None => Ok(body),
    }
}

/// Progress of one download through its fixed retry budget.
pub struct RetryState {
    pub attempts_made: u32,
}

impl RetryState {
    /// A fresh download: no attempt made yet.
    pub fn new() -> (r: RetryState)
        ensures
            r.attempts_made == 0,
    {
        RetryState { attempts_made: 0 }
    }

    /// Delay, in seconds, owed before the next attempt: none before the
    /// first, the fixed delay before every retry.
    pub fn delay_before_next(&self) -> (r: Option<u64>)
        ensures
            self.attempts_made == 0 ==> r is None,
            self.attempts_made > 0 ==> r == Some(RETRY_DELAY_SECS),
    {
        if self.attempts_made == 0 {
            None
        } else {
            Some(RETRY_DELAY_SECS)
        }
    }

    /// Record a failed attempt; the result says whether the budget still
    /// allows another one.
    pub fn record_failure(&mut self) -> (more: bool)
        requires
            old(self).attempts_made < MAX_ATTEMPTS,
        ensures
            final(self).attempts_made == old(self).attempts_made + 1,
            more <==> final(self).attempts_made < MAX_ATTEMPTS,
    {
        self.attempts_made = self.attempts_made + 1;
        self.attempts_made < MAX_ATTEMPTS
    }
}

/// The whole retry policy over a run of attempt outcomes: attempts are taken
/// in order; the first success wins and its bytes are returned; once the
/// fixed budget is spent on failures, the download is exhausted and wraps
/// the last attempt's error.
///
/// `attempts[i]` is the outcome the `i`-th attempt would have; entries past
/// the first success are never looked at.
pub fn download_outcome(attempts: &Vec<Result<Vec<u8>, AttemptError>>) -> (r: Result<
    Vec<u8>,
    DownloadExhausted,
>)
    requires
        attempts@.len() >= MAX_ATTEMPTS,
    ensures
        forall|i: int|
            0 <= i < MAX_ATTEMPTS && #[trigger] attempts@[i] is Ok && (forall|j: int|
                0 <= j < i ==> #[trigger] attempts@[j] is Err) ==> (r matches Ok(b) && b@
                == attempts@[i]->Ok_0@),
        r matches Err(e) ==> ((forall|j: int| 0 <= j < MAX_ATTEMPTS ==> #[trigger] attempts@[j]
            is Err) && e.last == attempts@[MAX_ATTEMPTS - 1]->Err_0),
        r matches Ok(b) ==> (exists|i: int|
            0 <= i < MAX_ATTEMPTS && #[trigger] attempts@[i] is Ok && b@ == attempts@[i]->Ok_0@
                && (forall|j: int| 0 <= j < i ==> #[trigger] attempts@[j] is Err)),
{
    let mut st = RetryState::new();
    let mut i: usize = 0;
    loop
        invariant
            attempts@.len() >= MAX_ATTEMPTS,
            st.attempts_made == i,
            i < MAX_ATTEMPTS,
            forall|j: int| 0 <= j < i ==> #[trigger] attempts@[j] is Err,
        decreases MAX_ATTEMPTS - i,
    {
        match attempts.get(i).unwrap() {
            Ok(b) => {
                let out = b.clone();
                proof {
                    assert(attempts@[i as int] is Ok);
                }
                return Ok(out);
            },
            Err(e) => {
                let last = *e;
                let more = st.record_failure();
                if !more {
                    proof {
                        assert(i + 1 == MAX_ATTEMPTS);
                    }
                    return Err(DownloadExhausted { last });
                }
                i += 1;
            },
        }
    }
}

} // verus!
