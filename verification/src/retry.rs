//! Bounded retry with exponential backoff.
//!
//! The library decides; the caller acts. [`RetryState::start`] opens a run,
//! the caller performs the operation and reports each outcome to
//! [`RetryState::next`], which either ends the run or names the delay to
//! wait before the operation is tried again.

use crate::text::{
    chars_of, contains_str, decimal_digits, has_substring, lowercase_of, push_decimal,
};
use crate::time::duration_nanos;
use std::time::Duration;
use vstd::prelude::*;

verus! {

/// Default number of retry attempts.
pub const DEFAULT_MAX_RETRIES: u32 = 3;

/// Default base delay for exponential backoff, in milliseconds.
pub const DEFAULT_BASE_DELAY_MS: u64 = 100;

/// Default cap on the backoff delay, in milliseconds.
pub const DEFAULT_MAX_DELAY_MS: u64 = 5000;

/// Configuration for retry behavior.
#[derive(Clone, Copy, Debug, PartialEq, Eq, Structural)]
pub struct RetryConfig {
    /// Maximum number of retries, not counting the first attempt.
    pub max_retries: u32,
    /// Base delay for exponential backoff in milliseconds.
    pub base_delay_ms: u64,
    /// Cap on the delay in milliseconds.
    pub max_delay_ms: u64,
}

/// Two to the power `n`.
pub open spec fn pow2(n: nat) -> nat
    decreases n,
{
    if n == 0 {
        1
    } else {
        2 * pow2((n - 1) as nat)
    }
}

/// The backoff delay in milliseconds before retry number `attempt`
/// (counted from zero): the base delay doubled `attempt` times, capped.
pub open spec fn backoff_ms(config: RetryConfig, attempt: nat) -> nat {
    if config.base_delay_ms * pow2(attempt) <= config.max_delay_ms {
        (config.base_delay_ms * pow2(attempt)) as nat
    } else {
        config.max_delay_ms as nat
    }
}

/// Powers of two grow with the exponent.
pub proof fn lemma_pow2_monotonic(a: nat, b: nat)
    requires
        a <= b,
    ensures
        1 <= pow2(a) <= pow2(b),
    decreases b,
{
    if b > a {
        lemma_pow2_monotonic(a, (b - 1) as nat);
    } else if a > 0 {
        lemma_pow2_monotonic((a - 1) as nat, (a - 1) as nat);
    }
}

impl Default for RetryConfig {
    fn default() -> (r: Self)
        ensures
            r.max_retries == DEFAULT_MAX_RETRIES,
            r.base_delay_ms == DEFAULT_BASE_DELAY_MS,
            r.max_delay_ms == DEFAULT_MAX_DELAY_MS,
    {
        RetryConfig {
            max_retries: DEFAULT_MAX_RETRIES,
            base_delay_ms: DEFAULT_BASE_DELAY_MS,
            max_delay_ms: DEFAULT_MAX_DELAY_MS,
        }
    }
}

impl RetryConfig {
    /// A retry configuration.
    pub fn new(max_retries: u32, base_delay_ms: u64, max_delay_ms: u64) -> (r: Self)
        ensures
            r.max_retries == max_retries,
            r.base_delay_ms == base_delay_ms,
            r.max_delay_ms == max_delay_ms,
    {
        RetryConfig { max_retries, base_delay_ms, max_delay_ms }
    }

    /// The backoff delay in milliseconds before retry number `attempt`:
    /// `base_delay * 2^attempt`, capped at `max_delay`.
    pub fn delay_ms_for_attempt(&self, attempt: u32) -> (r: u64)
        ensures
            r == backoff_ms(*self, attempt as nat),
    {
        if self.base_delay_ms == 0 {
            assert(0 * pow2(attempt as nat) == 0) by (nonlinear_arith);
            return 0;
        }
        let mut delay: u64 = self.base_delay_ms;
        let mut i: u32 = 0;
        assert(delay * 1 == delay);
        while i < attempt
            invariant
                i <= attempt,
                delay == self.base_delay_ms * pow2(i as nat),
                self.base_delay_ms > 0,
            decreases attempt - i,
        {
            proof {
                lemma_pow2_monotonic(i as nat, attempt as nat);
                lemma_pow2_monotonic((i + 1) as nat, attempt as nat);
                assert(self.base_delay_ms * pow2(i as nat) <= self.base_delay_ms * pow2(
                    attempt as nat,
                )) by (nonlinear_arith)
                    requires
                        pow2(i as nat) <= pow2(attempt as nat),
                ;
                assert(self.base_delay_ms * pow2((i + 1) as nat) <= self.base_delay_ms * pow2(
                    attempt as nat,
                )) by (nonlinear_arith)
                    requires
                        pow2((i + 1) as nat) <= pow2(attempt as nat),
                ;
                assert(self.base_delay_ms * pow2((i + 1) as nat) == 2 * (self.base_delay_ms * pow2(
                    i as nat,
                ))) by (nonlinear_arith)
                    requires
                        pow2((i + 1) as nat) == 2 * pow2(i as nat),
                ;
            }
            if delay >= self.max_delay_ms || delay > u64::MAX / 2 {
                return self.max_delay_ms;
            }
            delay = delay * 2;
            i += 1;
        }
        if delay <= self.max_delay_ms {
            delay
        } else {
            self.max_delay_ms
        }
    }

    /// The backoff delay before retry number `attempt`.
    pub fn delay_for_attempt(&self, attempt: u32) -> (r: Duration)
        ensures
            duration_nanos(r) == backoff_ms(*self, attempt as nat) * 1_000_000,
    {
        Duration::from_millis(self.delay_ms_for_attempt(attempt))
    }
}

/// The last error of a run of attempts that all failed.
#[derive(Clone, Debug)]
pub struct RetryError {
    /// The message of the last error.
    pub last_error: String,
    /// Number of attempts made.
    pub attempts: u32,
    /// Description of the operation that failed.
    pub operation: String,
}

impl RetryError {
    /// `<operation> failed after <attempts> attempts: <last error>`.
    pub fn to_string(&self) -> (r: String)
        ensures
            r@ == self.operation@ + " failed after "@ + decimal_digits(self.attempts as nat)
                + " attempts: "@ + self.last_error@,
    {
        let mut out = self.operation.clone();
        out.append(" failed after ");
        push_decimal(&mut out, self.attempts as u64);
        out.append(" attempts: ");
        out.append(self.last_error.as_str());
        out
    }
}

/// Result of a retried operation.
#[derive(Debug)]
pub enum RetryResult<T> {
    /// The operation succeeded.
    Success(T),
    /// The operation failed on every attempt.
    Failed {
        /// The message of the last error.
        last_error: String,
        /// Number of attempts made.
        attempts: u32,
    },
}

impl<T> RetryResult<T> {
    /// Whether the operation succeeded.
    pub fn is_success(&self) -> (r: bool)
        ensures
            r == (self is Success),
    {
        match self {
            RetryResult::Success(_) => true,
            RetryResult::Failed { .. } => false,
        }
    }

    /// Whether the operation failed.
    pub fn is_failed(&self) -> (r: bool)
        ensures
            r == (self is Failed),
    {
        match self {
            RetryResult::Success(_) => false,
            RetryResult::Failed { .. } => true,
        }
    }

    /// The value of a success; the error of a failure is dropped.
    pub fn ok(self) -> (r: Option<T>)
        ensures
            r == (match self {
                RetryResult::Success(v) => Some(v),
                RetryResult::Failed { .. } => None,
            }),
    {
        match self {
            RetryResult::Success(v) => Some(v),
            RetryResult::Failed { .. } => None,
        }
    }

    /// The value of a success, or the failure as a `RetryError` that names
    /// the operation.
    pub fn into_result(self, operation: &str) -> (r: Result<T, RetryError>)
        ensures
            match self {
                RetryResult::Success(v) => r == Ok::<T, RetryError>(v),
                RetryResult::Failed { last_error, attempts } => r is Err && r->Err_0.last_error
                    == last_error && r->Err_0.attempts == attempts && r->Err_0.operation@
                    == operation@,
            },
    {
        match self {
            RetryResult::Success(v) => Ok(v),
            RetryResult::Failed { last_error, attempts } => Err(
                RetryError { last_error, attempts, operation: operation.to_owned() },
            ),
        }
    }
}

/// A run of attempts in progress: the configuration and the number of
/// attempts that have failed so far.
#[derive(Clone, Copy, Debug, PartialEq, Eq, Structural)]
pub struct RetryState {
    /// The configuration of the run.
    pub config: RetryConfig,
    /// Attempts that have failed so far.
    pub failures: u32,
}

/// What follows an attempt.
#[derive(Debug)]
pub enum RetryStep<T> {
    /// Wait for `delay`, then try the operation again and report to
    /// `state`.
    Retry {
        /// The run, with the failure counted.
        state: RetryState,
        /// How long to wait before the next attempt.
        delay: Duration,
    },
    /// The run is over.
    Done(RetryResult<T>),
}

impl RetryState {
    /// A run can go on: it has not yet used up its attempts.
    pub open spec fn wf(self) -> bool {
        self.failures <= self.config.max_retries && self.config.max_retries < u32::MAX
    }

    /// Opens a run: the first attempt is due at once. The number of
    /// attempts, `max_retries + 1`, must fit in 32 bits.
    pub fn start(config: &RetryConfig) -> (r: RetryState)
        requires
            config.max_retries < u32::MAX,
        ensures
            r.wf(),
            r.config == *config,
            r.failures == 0,
    {
        RetryState { config: *config, failures: 0 }
    }

    /// What a failure leads to: the run with the failure counted, or
    /// nothing once `max_retries + 1` attempts have been made.
    pub open spec fn after_failure(self) -> Option<RetryState> {
        if self.failures >= self.config.max_retries {
            None
        } else {
            Some(RetryState { config: self.config, failures: (self.failures + 1) as u32 })
        }
    }

    /// Takes the outcome of an attempt. A success ends the run. A failure
    /// ends it once `max_retries + 1` attempts have been made, and reports
    /// that number; until then it is followed by a retry after the backoff
    /// delay for the number of failures before this one.
    pub fn next<T>(self, outcome: Result<T, String>) -> (r: RetryStep<T>)
        requires
            self.wf(),
        ensures
            match outcome {
                Ok(v) => r == RetryStep::Done(RetryResult::Success(v)),
                Err(e) => match self.after_failure() {
                    None => r == RetryStep::<T>::Done(
                        RetryResult::Failed {
                            last_error: e,
                            attempts: (self.config.max_retries + 1) as u32,
                        },
                    ),
                    Some(next) => {
                        &&& r is Retry
                        &&& r->state == next
                        &&& next.wf()
                        &&& duration_nanos(r->delay) == backoff_ms(
                            self.config,
                            self.failures as nat,
                        ) * 1_000_000
                    },
                },
            },
    {
        match outcome {
            Ok(v) => RetryStep::Done(RetryResult::Success(v)),
            Err(e) => {
                if self.failures >= self.config.max_retries {
                    RetryStep::Done(
                        RetryResult::Failed {
                            last_error: e,
                            attempts: self.config.max_retries + 1,
                        },
                    )
                } else {
                    RetryStep::Retry {
                        state: RetryState { config: self.config, failures: self.failures + 1 },
                        delay: self.config.delay_for_attempt(self.failures),
                    }
                }
            },
        }
    }
}

/// How a run ends on a script of outcomes of its attempts (`true` for a
/// success): whether it succeeded and after how many attempts in all;
/// nothing if the script ends before the run does.
pub open spec fn run_outcome(state: RetryState, script: Seq<bool>) -> Option<(bool, nat)>
    decreases script.len(),
{
    if script.len() == 0 {
        None
    } else if script[0] {
        Some((true, (state.failures + 1) as nat))
    } else {
        match state.after_failure() {
            None => Some((false, (state.config.max_retries + 1) as nat)),
            Some(next) => run_outcome(next, script.drop_first()),
        }
    }
}

/// A run in which `k` attempts fail and the next succeeds, `k` no more
/// than the retries left, succeeds after `k + 1` attempts more: a run that
/// succeeds on its first call has made exactly one attempt.
pub proof fn lemma_success_after_failures(state: RetryState, script: Seq<bool>, k: nat)
    requires
        state.wf(),
        state.failures + k <= state.config.max_retries,
        script.len() == k + 1,
        forall|i: int| 0 <= i < k ==> !script[i],
        script[k as int],
    ensures
        run_outcome(state, script) == Some((true, (state.failures + k + 1) as nat)),
    decreases k,
{
    if k > 0 {
        let rest = script.drop_first();
        assert forall|i: int| 0 <= i < k - 1 implies !rest[i] by {
            assert(rest[i] == script[i + 1]);
        }
        lemma_success_after_failures(state.after_failure()->0, rest, (k - 1) as nat);
    }
}

/// A run in which every attempt fails ends after `max_retries + 1`
/// attempts in all and reports exactly that number.
pub proof fn lemma_total_failure(state: RetryState, script: Seq<bool>)
    requires
        state.wf(),
        script.len() == state.config.max_retries + 1 - state.failures,
        forall|i: int| 0 <= i < script.len() ==> !script[i],
    ensures
        run_outcome(state, script) == Some((false, (state.config.max_retries + 1) as nat)),
    decreases script.len(),
{
    if state.failures < state.config.max_retries {
        let rest = script.drop_first();
        assert forall|i: int| 0 <= i < rest.len() implies !rest[i] by {
            assert(rest[i] == script[i + 1]);
        }
        lemma_total_failure(state.after_failure()->0, rest);
    }
}

/// The message, in lower case, names a failure that is likely to pass.
pub open spec fn retryable_text(lower: Seq<char>) -> bool {
    ||| has_substring(lower, "connection refused"@)
    ||| has_substring(lower, "connection reset"@)
    ||| has_substring(lower, "connection timed out"@)
    ||| has_substring(lower, "timeout"@)
    ||| has_substring(lower, "temporarily unavailable"@)
    ||| has_substring(lower, "network unreachable"@)
    ||| has_substring(lower, "host unreachable"@)
    ||| has_substring(lower, "no route to host"@)
    ||| has_substring(lower, "broken pipe"@)
    ||| has_substring(lower, "connection aborted"@)
    ||| has_substring(lower, "would block"@)
    ||| has_substring(lower, "try again"@)
    ||| has_substring(lower, "interrupted"@)
    ||| has_substring(lower, "dns"@)
    ||| has_substring(lower, "resolve"@)
}

/// Whether a message already in lower case names a failure that is likely
/// to pass.
pub fn is_retryable_text(lower: &Vec<char>) -> (r: bool)
    ensures
        r == retryable_text(lower@),
{
    contains_str(lower, "connection refused") || contains_str(lower, "connection reset")
        || contains_str(lower, "connection timed out") || contains_str(lower, "timeout")
        || contains_str(lower, "temporarily unavailable") || contains_str(
        lower,
        "network unreachable",
    ) || contains_str(lower, "host unreachable") || contains_str(lower, "no route to host")
        || contains_str(lower, "broken pipe") || contains_str(lower, "connection aborted")
        || contains_str(lower, "would block") || contains_str(lower, "try again") || contains_str(
        lower,
        "interrupted",
    ) || contains_str(lower, "dns") || contains_str(lower, "resolve")
}

/// Whether an error with this message is likely to be transient and worth
/// retrying. The message is compared in lower case.
pub fn is_retryable_error(message: &str) -> (r: bool)
    ensures
        r == retryable_text(lowercase_of(message@)),
{
    let lower = message.to_lowercase();
    let chars = chars_of(lower.as_str());
    is_retryable_text(&chars)
}

} // verus!
