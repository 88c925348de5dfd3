//! The retry state machine: total classification of transport errors, the
//! jittered delay drawn from a seeded generator, the counters, and the
//! escalation threshold. The exponential base delay is computed by the caller
//! (it is a floating-point schedule) and handed in as nanoseconds.

use vstd::prelude::*;

use crate::foundation::core_types::error::{TransportError, TransportErrorClass};

verus! {

/// Retry policy class of a transport error.
#[derive(Debug, Clone, Copy, PartialEq, Eq, Hash, Structural)]
pub enum RetryClass {
    /// Transient server error (5xx): retry after backoff; counts toward escalation.
    Transient,
    /// Timeout or connection error: retry after backoff; offline, never escalates.
    Offline,
    /// Busy, queue full or 429: normal delay, retry; never escalates.
    Backpressure,
    /// HTTP 401: no retry, counters unchanged.
    AuthFailed,
    /// Fatal family: no retry. Never produced on the transport path.
    Permanent,
}

/// Whether full jitter applies.
#[derive(Debug, Clone, Copy, PartialEq, Eq, Structural)]
pub enum JitterMode {
    /// Uniform in `[0, base]`.
    Full,
    /// No jitter: the delay is the base delay.
    Off,
}

/// The class of a transport error class.
pub open spec fn spec_classify(c: TransportErrorClass) -> RetryClass {
    match c {
        TransportErrorClass::AuthFailed => RetryClass::AuthFailed,
        TransportErrorClass::ServerError => RetryClass::Transient,
        TransportErrorClass::Backpressure => RetryClass::Backpressure,
        TransportErrorClass::Timeout => RetryClass::Offline,
        TransportErrorClass::Network => RetryClass::Offline,
    }
}

/// Classifies a transport error (total; never `Permanent`).
pub fn classify(err: &TransportError) -> (c: RetryClass)
    ensures
        c == spec_classify(err.class),
        c != RetryClass::Permanent,
{
    match err.class {
        TransportErrorClass::AuthFailed => RetryClass::AuthFailed,
        TransportErrorClass::ServerError => RetryClass::Transient,
        TransportErrorClass::Backpressure => RetryClass::Backpressure,
        TransportErrorClass::Timeout => RetryClass::Offline,
        TransportErrorClass::Network => RetryClass::Offline,
    }
}

/// One retry judgment, delays in nanoseconds.
#[derive(Debug, Clone, Copy, PartialEq, Eq, Structural)]
pub struct RetryDecision {
    /// Delay before the retry; `None` means no retry.
    pub retry_after: Option<u64>,
    /// Grounds for `OperationalState::Offline`.
    pub is_offline: bool,
    /// Consecutive-failure escalation signal.
    pub escalate: bool,
}

/// The splitmix64 state after one draw.
pub open spec fn spec_mix_state(s: u64) -> u64 {
    s.wrapping_add(0x9E37_79B9_7F4A_7C15)
}

/// The splitmix64 output of a state that was just advanced.
pub open spec fn spec_mix_output(s: u64) -> u64 {
    let z1 = (s ^ (s >> 30u64)).wrapping_mul(0xBF58_476D_1CE4_E5B9);
    let z2 = (z1 ^ (z1 >> 27u64)).wrapping_mul(0x94D0_49BB_1331_11EB);
    z2 ^ (z2 >> 31u64)
}

/// A small deterministic generator (splitmix64): same seed and same calls,
/// same numbers.
#[derive(Debug, Clone, Copy, PartialEq, Eq, Structural)]
pub struct SplitMix64 {
    /// Generator state.
    pub state: u64,
}

impl SplitMix64 {
    /// A generator seeded with `seed`.
    pub fn new(seed: u64) -> (g: Self)
        ensures
            g.state == seed,
    {
        SplitMix64 { state: seed }
    }

    /// The next 64-bit number.
    pub fn next_u64(&mut self) -> (r: u64)
        ensures
            final(self).state == spec_mix_state(old(self).state),
            r == spec_mix_output(final(self).state),
    {
        self.state = self.state.wrapping_add(0x9E37_79B9_7F4A_7C15);
        let mut z = self.state;
        z = (z ^ (z >> 30u64)).wrapping_mul(0xBF58_476D_1CE4_E5B9);
        z = (z ^ (z >> 27u64)).wrapping_mul(0x94D0_49BB_1331_11EB);
        z ^ (z >> 31u64)
    }
}

/// `n + 1` saturated at `u32::MAX`.
pub open spec fn spec_sat_inc(n: u32) -> u32 {
    if n == u32::MAX {
        u32::MAX
    } else {
        (n + 1) as u32
    }
}

/// The counters and generator of the retry machine.
#[derive(Debug, Clone, Copy, PartialEq, Eq, Structural)]
pub struct RetryState {
    /// Escalation threshold `N` (`notify_consecutive_failures`).
    pub escalation_threshold: u32,
    /// Retryable failures since the last success (the backoff exponent).
    pub attempt: u32,
    /// Consecutive retryable failures (reset by a success).
    pub consecutive_failures: u32,
    /// Jitter generator.
    pub rng: SplitMix64,
}

/// The delay drawn for a base delay: the base itself without jitter, else
/// the next generator output modulo `base + 1` (saturated), with the
/// generator advanced once.
pub open spec fn spec_jitter(rng: u64, base: u64, jitter: JitterMode) -> (u64, u64) {
    match jitter {
        JitterMode::Off => (base, rng),
        JitterMode::Full => {
            let s = spec_mix_state(rng);
            let modulus = if base == u64::MAX {
                u64::MAX
            } else {
                (base + 1) as u64
            };
            ((spec_mix_output(s) % modulus) as u64, s)
        },
    }
}

/// One failure of the given class, with the base delay of the current
/// attempt: the next state and the judgment. `AuthFailed` and `Permanent`
/// change nothing and do not retry; the three retryable classes bump both
/// counters (saturating) and draw the delay; only `Transient` escalates,
/// exactly when the new count reached the threshold; only `Offline` is
/// offline.
pub open spec fn spec_on_failure(s: RetryState, class: RetryClass, base: u64, jitter: JitterMode) -> (
    RetryState,
    RetryDecision,
) {
    match class {
        RetryClass::AuthFailed | RetryClass::Permanent => (
            s,
            RetryDecision { retry_after: None, is_offline: false, escalate: false },
        ),
        _ => {
            let (delay, rng) = spec_jitter(s.rng.state, base, jitter);
            let c = spec_sat_inc(s.consecutive_failures);
            let next = RetryState {
                escalation_threshold: s.escalation_threshold,
                attempt: spec_sat_inc(s.attempt),
                consecutive_failures: c,
                rng: SplitMix64 { state: rng },
            };
            (
                next,
                RetryDecision {
                    retry_after: Some(delay),
                    is_offline: class == RetryClass::Offline,
                    escalate: class == RetryClass::Transient && c >= s.escalation_threshold,
                },
            )
        },
    }
}

impl RetryState {
    /// A machine with threshold `n`, jitter seed `seed` and zero counters.
    pub fn new(n: u32, seed: u64) -> (s: Self)
        ensures
            s.escalation_threshold == n,
            s.attempt == 0,
            s.consecutive_failures == 0,
            s.rng.state == seed,
    {
        RetryState {
            escalation_threshold: n,
            attempt: 0,
            consecutive_failures: 0,
            rng: SplitMix64::new(seed),
        }
    }

    /// Draws the delay for a base delay (see `spec_jitter`).
    fn draw(&mut self, base: u64, jitter: JitterMode) -> (d: u64)
        ensures
            (d, final(self).rng.state) == spec_jitter(old(self).rng.state, base, jitter),
            final(self).escalation_threshold == old(self).escalation_threshold,
            final(self).attempt == old(self).attempt,
            final(self).consecutive_failures == old(self).consecutive_failures,
    {
        match jitter {
            JitterMode::Off => base,
            JitterMode::Full => {
                let modulus = base.saturating_add(1);
                let r = self.rng.next_u64();
                r % modulus
            },
        }
    }

    /// Handles one failure (see `spec_on_failure`); `base_delay` is the
    /// schedule's delay for the current `attempt`, in nanoseconds.
    pub fn on_failure(&mut self, class: RetryClass, base_delay: u64, jitter: JitterMode) -> (step:
        RetryDecision)
        ensures
            (*final(self), step) == spec_on_failure(*old(self), class, base_delay, jitter),
            class != RetryClass::AuthFailed && class != RetryClass::Permanent ==> final(self).attempt
                == (if old(self).attempt == u32::MAX {
                u32::MAX as int
            } else {
                old(self).attempt + 1
            }),
    {
        match class {
            RetryClass::AuthFailed | RetryClass::Permanent => RetryDecision {
                retry_after: None,
                is_offline: false,
                escalate: false,
            },
            _ => {
                let delay = self.draw(base_delay, jitter);
                self.attempt = self.attempt.saturating_add(1);
                self.consecutive_failures = self.consecutive_failures.saturating_add(1);
                let escalate = class == RetryClass::Transient && self.consecutive_failures
                    >= self.escalation_threshold;
                RetryDecision {
                    retry_after: Some(delay),
                    is_offline: class == RetryClass::Offline,
                    escalate,
                }
            },
        }
    }

    /// A success resets the backoff and both counters.
    pub fn on_success(&mut self)
        ensures
            *final(self) == (RetryState { attempt: 0, consecutive_failures: 0, ..*old(self) }),
    {
        self.attempt = 0;
        self.consecutive_failures = 0;
    }

    /// The consecutive failure count.
    pub fn consecutive_failures(&self) -> (n: u32)
        ensures
            n == self.consecutive_failures,
    {
        self.consecutive_failures
    }

    /// The backoff exponent (retryable failures since the last success).
    pub fn attempt(&self) -> (n: u32)
        ensures
            n == self.attempt,
    {
        self.attempt
    }
}

/// The judgment invariants: no retry exactly for `AuthFailed`/`Permanent`,
/// and then the counters are unchanged; offline never escalates; only
/// `Transient` escalates, at the threshold; a retry delay never exceeds its
/// base delay.
pub proof fn lemma_retry_step_invariants(s: RetryState, class: RetryClass, base: u64, jitter: JitterMode)
    ensures
        ({
            let (next, step) = spec_on_failure(s, class, base, jitter);
            &&& (step.retry_after is None <==> (class == RetryClass::AuthFailed || class
                == RetryClass::Permanent))
            &&& (step.retry_after is None ==> next == s)
            &&& (step.is_offline ==> !step.escalate)
            &&& (step.escalate <==> (class == RetryClass::Transient && spec_sat_inc(
                s.consecutive_failures,
            ) >= s.escalation_threshold))
            &&& (step.retry_after matches Some(d) ==> d <= base)
        }),
{
    let (d, r) = spec_jitter(s.rng.state, base, jitter);
    if jitter == JitterMode::Full {
        let m = if base == u64::MAX {
            u64::MAX
        } else {
            (base + 1) as u64
        };
        assert(spec_mix_output(spec_mix_state(s.rng.state)) % m < m);
    }
}

/// Escalation counts only transient failures in a row: from zero counters,
/// `k` transient failures escalate exactly on the ones where the count
/// reached `N` (that is, at the `N`-th and later).
pub proof fn lemma_transient_escalates_at_threshold(s: RetryState, base: u64, jitter: JitterMode)
    requires
        s.consecutive_failures < u32::MAX,
    ensures
        spec_on_failure(s, RetryClass::Transient, base, jitter).1.escalate == (
        s.consecutive_failures + 1 >= s.escalation_threshold),
        spec_on_failure(s, RetryClass::Transient, base, jitter).0.consecutive_failures
            == s.consecutive_failures + 1,
{
}

/// Whether a class is retried (it grows the backoff).
pub open spec fn is_retryable(c: RetryClass) -> bool {
    c == RetryClass::Transient || c == RetryClass::Offline || c == RetryClass::Backpressure
}

/// The state after handling the failures `cs` in order from `s`.
pub open spec fn spec_after_failures(
    s: RetryState,
    cs: Seq<RetryClass>,
    base: u64,
    jitter: JitterMode,
) -> RetryState
    decreases cs.len(),
{
    if cs.len() == 0 {
        s
    } else {
        spec_on_failure(spec_after_failures(s, cs.drop_last(), base, jitter), cs.last(), base, jitter).0
    }
}

/// How many of the classes are retried.
pub open spec fn retryable_count(cs: Seq<RetryClass>) -> nat
    decreases cs.len(),
{
    if cs.len() == 0 {
        0
    } else {
        retryable_count(cs.drop_last()) + if is_retryable(cs.last()) {
            1nat
        } else {
            0nat
        }
    }
}

/// One failure grows the backoff exponent and the consecutive count by one
/// (saturating at `u32::MAX`) exactly for a retried class, and leaves them
/// unchanged for `AuthFailed` and `Permanent`.
pub proof fn lemma_failure_grows_attempt(s: RetryState, class: RetryClass, base: u64, jitter: JitterMode)
    ensures
        ({
            let next = spec_on_failure(s, class, base, jitter).0;
            &&& is_retryable(class) ==> next.attempt == (if s.attempt == u32::MAX {
                u32::MAX as int
            } else {
                s.attempt + 1
            })
            &&& is_retryable(class) ==> next.consecutive_failures == (if s.consecutive_failures
                == u32::MAX {
                u32::MAX as int
            } else {
                s.consecutive_failures + 1
            })
            &&& !is_retryable(class) ==> next.attempt == s.attempt && next.consecutive_failures
                == s.consecutive_failures
        }),
{
}

/// After a success (or from a new machine), the backoff exponent is the
/// number of retried failures handled since, capped at `u32::MAX`; so the
/// caller's next base delay uses that many doublings.
pub proof fn lemma_attempt_counts_retried_failures(
    s: RetryState,
    cs: Seq<RetryClass>,
    base: u64,
    jitter: JitterMode,
)
    requires
        s.attempt == 0,
    ensures
        spec_after_failures(s, cs, base, jitter).attempt == (if retryable_count(cs) > u32::MAX {
            u32::MAX as nat
        } else {
            retryable_count(cs)
        }),
    decreases cs.len(),
{
    if cs.len() > 0 {
        lemma_attempt_counts_retried_failures(s, cs.drop_last(), base, jitter);
        lemma_failure_grows_attempt(
            spec_after_failures(s, cs.drop_last(), base, jitter),
            cs.last(),
            base,
            jitter,
        );
    }
}

/// A failure is reported offline exactly for the `Offline` class (timeouts
/// and connection errors), and is retried exactly for a retried class.
pub proof fn lemma_offline_and_retry_by_class(s: RetryState, class: RetryClass, base: u64, jitter: JitterMode)
    ensures
        spec_on_failure(s, class, base, jitter).1.is_offline <==> class == RetryClass::Offline,
        spec_on_failure(s, class, base, jitter).1.retry_after is Some <==> is_retryable(class),
{
}

} // verus!
