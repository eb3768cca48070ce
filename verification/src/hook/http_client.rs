//! The retry policy of API `GET` requests: what to do after each answer (or
//! failure) of the server, and how long to wait before trying again.
use vstd::prelude::*;
use vstd::arithmetic::power2::pow2;
use crate::text::{contains_seq, str_contains};

verus! {

/// How many times a request is tried at most.
pub const MAX_ATTEMPTS: u32 = 4;

/// The wait before the first retry, in milliseconds.
pub const FIRST_DELAY_MS: u64 = 500;

/// Where a request stands: how many tries were made, and how long the next
/// wait is.
#[derive(Clone, Copy, Debug, PartialEq, Eq, Structural)]
pub struct RetryState {
    pub attempt: u32,
    pub delay_ms: u64,
}

/// What came back from one try.
#[derive(Clone, Copy, Debug, PartialEq, Eq, Structural)]
pub enum Outcome {
    /// The request could not be sent or no answer came.
    TransportError,
    /// The server answered with this status.
    Status(u16),
}

/// What to do next.
#[derive(Clone, Copy, Debug, PartialEq, Eq, Structural)]
pub enum Decision {
    /// Read the answer as JSON and return it.
    Accept,
    /// Wait this many milliseconds, then try again.
    Retry(u64),
    /// The server refused the request (status 400 or 404).
    ClientError,
    /// The server answered with another failing status.
    CallFailed,
    /// No answer came, and no try is left.
    RequestFailed,
}

/// A state that the retry loop can be in: each wait doubles the one before.
pub open spec fn reachable(s: RetryState) -> bool {
    s.attempt < MAX_ATTEMPTS && s.delay_ms == FIRST_DELAY_MS * pow2(s.attempt as nat)
}

pub open spec fn is_success(status: u16) -> bool {
    200 <= status <= 299
}

pub open spec fn is_server_error(status: u16) -> bool {
    500 <= status <= 599
}

/// A refusal that says the request's precondition failed, which the server
/// may lift.
pub open spec fn failed_precondition(body: Seq<char>) -> bool {
    contains_seq(body, "failedPrecondition"@) || contains_seq(body, "FAILED_PRECONDITION"@)
}

/// The decision after the try numbered `s.attempt + 1`, with its outcome and
/// the text of the answer.
pub open spec fn decide(s: RetryState, outcome: Outcome, body: Seq<char>) -> Decision {
    let tries = s.attempt + 1;
    match outcome {
        Outcome::Status(code) => if is_success(code) {
            Decision::Accept
        } else if code == 404 || code == 400 {
            if code == 400 && failed_precondition(body) && tries < MAX_ATTEMPTS {
                Decision::Retry(s.delay_ms)
            } else {
                Decision::ClientError
            }
        } else if tries < MAX_ATTEMPTS && is_server_error(code) {
            Decision::Retry(s.delay_ms)
        } else {
            Decision::CallFailed
        },
        Outcome::TransportError => if tries < MAX_ATTEMPTS {
            Decision::Retry(s.delay_ms)
        } else {
            Decision::RequestFailed
        },
    }
}

impl RetryState {
    /// Before the first try.
    pub fn start() -> (r: RetryState)
        ensures
            r == (RetryState { attempt: 0, delay_ms: FIRST_DELAY_MS }),
            reachable(r),
    {
        proof {
            vstd::arithmetic::power2::lemma2_to64();
        }
        RetryState { attempt: 0, delay_ms: FIRST_DELAY_MS }
    }

    /// Decides what follows a try and moves to the next state: after a retry
    /// one more try has been made and the wait has doubled.
    pub fn step(&self, outcome: Outcome, body: &str) -> (r: (RetryState, Decision))
        requires
            reachable(*self),
        ensures
            r.1 == decide(*self, outcome, body@),
            r.1 matches Decision::Retry(_) ==> r.0 == (RetryState {
                attempt: (self.attempt + 1) as u32,
                delay_ms: (self.delay_ms * 2) as u64,
            }) && reachable(r.0),
    {
        proof {
            vstd::arithmetic::power2::lemma2_to64();
            reveal_strlit("failedPrecondition");
            reveal_strlit("FAILED_PRECONDITION");
        }
        let tries = self.attempt + 1;
        let decision = match outcome {
            Outcome::Status(code) => {
                if 200 <= code && code <= 299 {
                    Decision::Accept
                } else if code == 404 || code == 400 {
                    if code == 400 && (str_contains(body, "failedPrecondition") || str_contains(
                        body,
                        "FAILED_PRECONDITION",
                    )) && tries < MAX_ATTEMPTS {
                        Decision::Retry(self.delay_ms)
                    } else {
                        Decision::ClientError
                    }
                } else if tries < MAX_ATTEMPTS && 500 <= code && code <= 599 {
                    Decision::Retry(self.delay_ms)
                } else {
                    Decision::CallFailed
                }
            },
            Outcome::TransportError => {
                if tries < MAX_ATTEMPTS {
                    Decision::Retry(self.delay_ms)
                } else {
                    Decision::RequestFailed
                }
            },
        };
        match decision {
            Decision::Retry(_) => {
                proof {
                    vstd::arithmetic::power2::lemma_pow2_adds(self.attempt as nat, 1);
                }
                (RetryState { attempt: tries, delay_ms: self.delay_ms * 2 }, decision)
            },
            _ => (*self, decision),
        }
    }
}

/// A request is tried at most four times: no retry follows the fourth try,
/// and the waits before the retries are 500, 1000 and 2000 milliseconds.
pub proof fn lemma_retries_bounded(s: RetryState, outcome: Outcome, body: Seq<char>)
    requires
        reachable(s),
    ensures
        decide(s, outcome, body) matches Decision::Retry(w) ==> s.attempt + 1 < MAX_ATTEMPTS
            && w == FIRST_DELAY_MS * pow2(s.attempt as nat),
        s.attempt + 1 == MAX_ATTEMPTS ==> !(decide(s, outcome, body) is Retry),
{
}

/// A success is accepted on any try, and a refusal other than a failed
/// precondition is never retried.
pub proof fn lemma_no_retry_on_success_or_refusal(s: RetryState, code: u16, body: Seq<char>)
    ensures
        is_success(code) ==> decide(s, Outcome::Status(code), body) == Decision::Accept,
        code == 404 ==> decide(s, Outcome::Status(code), body) == Decision::ClientError,
        code == 400 && !failed_precondition(body) ==> decide(s, Outcome::Status(code), body)
            == Decision::ClientError,
{
}

} // verus!
