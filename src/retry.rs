use vstd::prelude::*;

use crate::error::ApifyApiError;

verus! {

/// How many answers with status 429 a call may retry.
pub const MAX_RATE_LIMIT_RETRIES: u8 = 8;

/// How many answers with a status of 500 or above a call may retry.
pub const MAX_SERVER_FAIL_RETRIES: u8 = 8;

/// How many transport timeouts a call may retry.
pub const MAX_TIMEOUT_RETRIES: u8 = 5;

/// What one attempt to send a request came to.
#[derive(Debug)]
pub enum AttemptOutcome {
    /// The server answered with this HTTP status.
    Status(u16),
    /// The transport gave up waiting for an answer.
    Timeout,
    /// Any other transport failure, with its description.
    TransportFailure(String),
}

/// What the caller of the engine does after an attempt.
#[derive(Debug, PartialEq)]
pub enum RetryAction {
    /// Sleep this many milliseconds, then start the next attempt.
    Wait(u64),
    /// The answer is a success: decode it.
    Deliver,
    /// The answer is a terminal error: read its error body and turn it into
    /// an error with `api_error_from_body`.
    ReadErrorBody,
    /// Give up with this error.
    Fail(ApifyApiError),
}

/// The error body the API sends with a failing status: `{"type", "message"}`.
#[derive(Debug)]
pub struct ApifyApiErrorRaw {
    pub error_type: String,
    pub message: String,
}

/// The envelope of an error body: `{"error": {...}}`.
#[derive(Debug)]
pub struct ApifyApiErrorRawWrapper {
    pub error: ApifyApiErrorRaw,
}

/// The per-call state of the retry engine: one counter per kind of transient
/// failure, and the base of the exponential backoff.
#[derive(Debug, Clone, Copy)]
pub struct RetryState {
    pub rate_limit_retries: u8,
    pub server_failed_retries: u8,
    pub timeout_retries: u8,
    pub base_delay_ms: u32,
}

pub open spec fn pow2(n: nat) -> nat
    decreases n,
{
    if n == 0 {
        1
    } else {
        2 * pow2((n - 1) as nat)
    }
}

/// The wait before the `n`-th retry of one kind: `base * 2^n` milliseconds.
pub open spec fn backoff_delay(base: u32, n: u8) -> int {
    base * pow2(n as nat)
}

impl RetryState {
    /// No counter is past its ceiling.
    pub open spec fn well_formed(self) -> bool {
        &&& self.rate_limit_retries <= MAX_RATE_LIMIT_RETRIES
        &&& self.server_failed_retries <= MAX_SERVER_FAIL_RETRIES
        &&& self.timeout_retries <= MAX_TIMEOUT_RETRIES
    }

    /// Every counter is below its ceiling, so another attempt may be made.
    pub open spec fn may_attempt(self) -> bool {
        &&& self.rate_limit_retries < MAX_RATE_LIMIT_RETRIES
        &&& self.server_failed_retries < MAX_SERVER_FAIL_RETRIES
        &&& self.timeout_retries < MAX_TIMEOUT_RETRIES
    }

    /// The error that ends the call before the next attempt, checked in the
    /// order rate limit, server failure, timeout.
    pub open spec fn ceiling_error(self) -> Option<ApifyApiError> {
        if self.rate_limit_retries >= MAX_RATE_LIMIT_RETRIES {
            Some(ApifyApiError::MaxRateLimitRetriesReached(self.rate_limit_retries))
        } else if self.server_failed_retries >= MAX_SERVER_FAIL_RETRIES {
            Some(ApifyApiError::MaxServerFailedRetriesReached(self.server_failed_retries))
        } else if self.timeout_retries >= MAX_TIMEOUT_RETRIES {
            Some(ApifyApiError::MaxTimeoutRetriesReached(self.timeout_retries))
        } else {
            None
        }
    }

    /// A fresh state: no retries yet.
    pub fn new(base_delay_ms: u32) -> (r: RetryState)
        ensures
            r.well_formed(),
            r.rate_limit_retries == 0,
            r.server_failed_retries == 0,
            r.timeout_retries == 0,
            r.base_delay_ms == base_delay_ms,
    {
        RetryState {
            rate_limit_retries: 0,
            server_failed_retries: 0,
            timeout_retries: 0,
            base_delay_ms,
        }
    }

    /// Checked before every attempt: fails with the exhausted kind's error
    /// once one counter has reached its ceiling.
    pub fn begin_attempt(&self) -> (r: Result<(), ApifyApiError>)
        ensures
            match self.ceiling_error() {
                Some(e) => r == Err::<(), ApifyApiError>(e),
                None => r is Ok,
            },
            r is Ok <==> self.may_attempt(),
    {
        if self.rate_limit_retries >= MAX_RATE_LIMIT_RETRIES {
            Err(ApifyApiError::MaxRateLimitRetriesReached(self.rate_limit_retries))
        } else if self.server_failed_retries >= MAX_SERVER_FAIL_RETRIES {
            Err(ApifyApiError::MaxServerFailedRetriesReached(self.server_failed_retries))
        } else if self.timeout_retries >= MAX_TIMEOUT_RETRIES {
            Err(ApifyApiError::MaxTimeoutRetriesReached(self.timeout_retries))
        } else {
            Ok(())
        }
    }

    /// Takes the outcome of an attempt and decides what follows. Status 429,
    /// a status of 500 or above, and a timeout each count one retry of their
    /// kind and wait `base * 2^count`; other statuses from 300 up end the call
    /// with the error from the body; lower ones are a success; any other
    /// transport failure ends the call at once.
    pub fn record(&mut self, outcome: &AttemptOutcome) -> (a: RetryAction)
        requires
            old(self).may_attempt(),
        ensures
            final(self).well_formed(),
            final(self).base_delay_ms == old(self).base_delay_ms,
            match *outcome {
                AttemptOutcome::Status(code) => if code == 429 {
                    &&& final(self).rate_limit_retries == old(self).rate_limit_retries + 1
                    &&& final(self).server_failed_retries == old(self).server_failed_retries
                    &&& final(self).timeout_retries == old(self).timeout_retries
                    &&& a matches RetryAction::Wait(d) && d == backoff_delay(
                        old(self).base_delay_ms,
                        final(self).rate_limit_retries,
                    )
                } else if code >= 500 {
                    &&& final(self).rate_limit_retries == old(self).rate_limit_retries
                    &&& final(self).server_failed_retries == old(self).server_failed_retries + 1
                    &&& final(self).timeout_retries == old(self).timeout_retries
                    &&& a matches RetryAction::Wait(d) && d == backoff_delay(
                        old(self).base_delay_ms,
                        final(self).server_failed_retries,
                    )
                } else if code >= 300 {
                    *final(self) == *old(self) && a == RetryAction::ReadErrorBody
                } else {
                    *final(self) == *old(self) && a == RetryAction::Deliver
                },
                AttemptOutcome::Timeout => {
                    &&& final(self).rate_limit_retries == old(self).rate_limit_retries
                    &&& final(self).server_failed_retries == old(self).server_failed_retries
                    &&& final(self).timeout_retries == old(self).timeout_retries + 1
                    &&& a matches RetryAction::Wait(d) && d == backoff_delay(
                        old(self).base_delay_ms,
                        final(self).timeout_retries,
                    )
                },
                AttemptOutcome::TransportFailure(cause) => {
                    &&& *final(self) == *old(self)
                    &&& a matches RetryAction::Fail(ApifyApiError::ApiFailure(m))
                    &&& m@ == unknown_failure_message(cause@)
                },
            },
    {
        match outcome {
            AttemptOutcome::Status(code) => {
                if *code == 429 {
                    self.rate_limit_retries = self.rate_limit_retries + 1;
                    RetryAction::Wait(delay_for(self.base_delay_ms, self.rate_limit_retries))
                } else if *code >= 500 {
                    self.server_failed_retries = self.server_failed_retries + 1;
                    RetryAction::Wait(delay_for(self.base_delay_ms, self.server_failed_retries))
                } else if *code >= 300 {
                    RetryAction::ReadErrorBody
                } else {
                    RetryAction::Deliver
                }
            },
            AttemptOutcome::Timeout => {
                self.timeout_retries = self.timeout_retries + 1;
                RetryAction::Wait(delay_for(self.base_delay_ms, self.timeout_retries))
            },
            AttemptOutcome::TransportFailure(cause) => {
                let message = String::from_str(
                    "Uknown error, please create an issue on GitHub! ",
                ).concat(cause.as_str());
                RetryAction::Fail(ApifyApiError::ApiFailure(message))
            },
        }
    }
}

pub open spec fn unknown_failure_message(cause: Seq<char>) -> Seq<char> {
    "Uknown error, please create an issue on GitHub! "@ + cause
}

pub open spec fn malformed_error_body_message(cause: Seq<char>) -> Seq<char> {
    "Apify API did not return correct error format. Something is very wrong. Please contact support@apify.com\n"@
        + cause
}

proof fn lemma_pow2_bound(n: nat)
    requires
        n <= 8,
    ensures
        1 <= pow2(n) <= 256,
    decreases 8 - n,
{
    if n == 8 {
        reveal_with_fuel(pow2, 9);
    } else {
        lemma_pow2_bound(n + 1);
        assert(pow2(n + 1) == 2 * pow2(n));
    }
}

/// `base * 2^n`, which fits in 64 bits for the ceilings in use.
fn delay_for(base: u32, n: u8) -> (d: u64)
    requires
        n <= 8,
    ensures
        d == backoff_delay(base, n),
{
    let mut factor: u64 = 1;
    let mut i: u8 = 0;
    while i < n
        invariant
            i <= n <= 8,
            factor == pow2(i as nat),
        decreases n - i,
    {
        proof {
            lemma_pow2_bound(i as nat);
        }
        factor = factor * 2;
        i = i + 1;
    }
    proof {
        lemma_pow2_bound(n as nat);
        assert(base * factor <= 0xffff_ffff * 256) by (nonlinear_arith)
            requires
                base <= 0xffff_ffff,
                factor <= 256,
        ;
    }
    (base as u64) * factor
}

/// The error a terminal answer ends the call with, from its decoded error
/// body: 404 gives `NotFound`, any other status `RawError`, each with the
/// body's message; a body that could not be decoded gives `ApiFailure` with
/// the decoder's complaint.
pub fn api_error_from_body(
    status: u16,
    body: Result<ApifyApiErrorRawWrapper, String>,
) -> (r: ApifyApiError)
    ensures
        match body {
            Ok(w) => if status == 404 {
                r matches ApifyApiError::NotFound(m) && m@ == w.error.message@
            } else {
                r matches ApifyApiError::RawError(m) && m@ == w.error.message@
            },
            Err(cause) => r matches ApifyApiError::ApiFailure(m) && m@
                == malformed_error_body_message(cause@),
        },
{
    match body {
        Ok(w) => {
            if status == 404 {
                ApifyApiError::NotFound(w.error.message)
            } else {
                ApifyApiError::RawError(w.error.message)
            }
        },
        Err(cause) => {
            let message = String::from_str(
                "Apify API did not return correct error format. Something is very wrong. Please contact support@apify.com\n",
            ).concat(cause.as_str());
            ApifyApiError::ApiFailure(message)
        },
    }
}

} // verus!
