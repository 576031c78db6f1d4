//! Reconnection policy: validation and the backoff schedule.
//!
//! Reconnection never retries an in-flight JSON-RPC request. Calls that were
//! pending when the connection failed complete with their terminal error.

use vstd::prelude::*;
use vstd::arithmetic::power2::pow2;

use crate::text::owned;
use crate::time::{max_nanos, min_nat, Duration};

verus! {

/// Controls whether and how a client reconnects after an unexpected
/// WebSocket close or transport failure.
#[derive(Clone, Copy, Debug, PartialEq, Eq, Structural)]
#[non_exhaustive]
pub enum ReconnectPolicy {
    /// Do not reconnect automatically. This is the default.
    Never,
    /// Retry connections after a constant delay. `max_attempts: None` means
    /// retry forever; a configured value must be greater than zero.
    Fixed {
        /// Delay before every reconnect attempt.
        delay: Duration,
        /// Maximum reconnect attempts after one disconnection.
        max_attempts: Option<usize>,
    },
    /// Retry connections using exponential backoff capped at `max_delay`.
    Exponential {
        /// Delay before the first reconnect attempt.
        initial_delay: Duration,
        /// Largest delay used by the backoff schedule.
        max_delay: Duration,
        /// Maximum reconnect attempts after one disconnection.
        max_attempts: Option<usize>,
    },
}

impl Default for ReconnectPolicy {
    fn default() -> (r: ReconnectPolicy)
        ensures
            r == ReconnectPolicy::Never,
    {
        ReconnectPolicy::Never
    }
}

/// Whether `attempt` is within the optional attempt limit.
pub open spec fn attempt_allowed(max_attempts: Option<usize>, attempt: usize) -> bool {
    match max_attempts {
        None => true,
        Some(maximum) => attempt <= maximum,
    }
}

/// The doubling exponent used before `attempt` (attempts begin at one).
pub open spec fn backoff_exponent(attempt: usize) -> nat {
    if attempt == 0 {
        0
    } else if attempt - 1 > 63 {
        63
    } else {
        (attempt - 1) as nat
    }
}

/// The multiplier applied to the initial delay: `2^exponent`, or `u32::MAX`
/// once the power no longer fits in 32 bits.
pub open spec fn backoff_factor(attempt: usize) -> nat {
    let e = backoff_exponent(attempt);
    if e < 32 {
        pow2(e)
    } else {
        0xffff_ffff
    }
}

/// The exponential delay, in nanoseconds, before `attempt`.
pub open spec fn backoff_nanos(initial: nat, maximum: nat, attempt: usize) -> nat {
    min_nat(min_nat(initial * backoff_factor(attempt), max_nanos()), maximum)
}

/// The delay before `attempt`, in nanoseconds, or `None` when no further
/// attempt is made.
pub open spec fn delay_spec(policy: ReconnectPolicy, attempt: usize) -> Option<nat> {
    match policy {
        ReconnectPolicy::Never => None,
        ReconnectPolicy::Fixed { delay, max_attempts } => {
            if attempt_allowed(max_attempts, attempt) {
                Some(delay@)
            } else {
                None
            }
        },
        ReconnectPolicy::Exponential { initial_delay, max_delay, max_attempts } => {
            if attempt_allowed(max_attempts, attempt) {
                Some(backoff_nanos(initial_delay@, max_delay@, attempt))
            } else {
                None
            }
        },
    }
}

/// The first rule that `policy` breaks, as the message reported for it.
pub open spec fn policy_violation(policy: ReconnectPolicy) -> Option<Seq<char>> {
    match policy {
        ReconnectPolicy::Never => None,
        ReconnectPolicy::Fixed { delay, max_attempts } => {
            if delay@ == 0 {
                Some("reconnect delay must be greater than zero"@)
            } else if max_attempts == Some(0usize) {
                Some("reconnect max_attempts must be greater than zero when set"@)
            } else {
                None
            }
        },
        ReconnectPolicy::Exponential { initial_delay, max_delay, max_attempts } => {
            if initial_delay@ == 0 {
                Some("reconnect initial_delay must be greater than zero"@)
            } else if max_delay@ == 0 {
                Some("reconnect max_delay must be greater than zero"@)
            } else if initial_delay@ > max_delay@ {
                Some("reconnect initial_delay must not exceed max_delay"@)
            } else if max_attempts == Some(0usize) {
                Some("reconnect max_attempts must be greater than zero when set"@)
            } else {
                None
            }
        },
    }
}

/// Whether the policy's timings and attempt limit are acceptable.
pub open spec fn policy_is_valid(policy: ReconnectPolicy) -> bool {
    policy_violation(policy) is None
}

/// Returns whether `attempt` is within the optional attempt limit.
pub fn allowed(max_attempts: Option<usize>, attempt: usize) -> (r: bool)
    ensures
        r == attempt_allowed(max_attempts, attempt),
{
    match max_attempts {
        None => true,
        Some(maximum) => attempt <= maximum,
    }
}

fn backoff_factor_exec(attempt: usize) -> (r: u32)
    ensures
        r == backoff_factor(attempt),
{
    let exponent: u32 = if attempt == 0 {
        0
    } else if attempt - 1 > 63 {
        63
    } else {
        (attempt - 1) as u32
    };
    if exponent >= 32 {
        u32::MAX
    } else {
        proof {
            vstd::bits::lemma_u32_pow2_no_overflow(exponent as nat);
            vstd::bits::lemma_u32_shl_is_mul(1, exponent);
        }
        1u32 << exponent
    }
}

impl ReconnectPolicy {
    /// Returns a fixed-delay reconnect policy.
    pub fn fixed(delay: Duration, max_attempts: Option<usize>) -> (r: ReconnectPolicy)
        ensures
            r == (ReconnectPolicy::Fixed { delay, max_attempts }),
    {
        ReconnectPolicy::Fixed { delay, max_attempts }
    }

    /// Returns an exponential-backoff reconnect policy.
    pub fn exponential(
        initial_delay: Duration,
        max_delay: Duration,
        max_attempts: Option<usize>,
    ) -> (r: ReconnectPolicy)
        ensures
            r == (ReconnectPolicy::Exponential { initial_delay, max_delay, max_attempts }),
    {
        ReconnectPolicy::Exponential { initial_delay, max_delay, max_attempts }
    }

    /// Returns whether the client should attempt automatic reconnection.
    pub fn is_enabled(&self) -> (r: bool)
        ensures
            r == !(*self is Never),
    {
        match self {
            ReconnectPolicy::Never => false,
            _ => true,
        }
    }

    /// Validates user-supplied timing and attempt limits, reporting the first
    /// rule that is broken.
    pub fn validate(&self) -> (r: Result<(), String>)
        ensures
            match r {
                Ok(()) => policy_violation(*self) is None,
                Err(message) => policy_violation(*self) == Some(message@),
            },
    {
        match self {
            ReconnectPolicy::Never => Ok(()),
            ReconnectPolicy::Fixed { delay, max_attempts } => {
                if delay.is_zero() {
                    return Err(owned("reconnect delay must be greater than zero"));
                }
                if *max_attempts == Some(0usize) {
                    return Err(owned("reconnect max_attempts must be greater than zero when set"));
                }
                Ok(())
            },
            ReconnectPolicy::Exponential { initial_delay, max_delay, max_attempts } => {
                if initial_delay.is_zero() {
                    return Err(owned("reconnect initial_delay must be greater than zero"));
                }
                if max_delay.is_zero() {
                    return Err(owned("reconnect max_delay must be greater than zero"));
                }
                if !initial_delay.le(max_delay) {
                    return Err(owned("reconnect initial_delay must not exceed max_delay"));
                }
                if *max_attempts == Some(0usize) {
                    return Err(owned("reconnect max_attempts must be greater than zero when set"));
                }
                Ok(())
            },
        }
    }

    /// Returns the delay before `attempt`, where attempts begin at one.
    pub fn delay_for_attempt(&self, attempt: usize) -> (r: Option<Duration>)
        ensures
            match r {
                Some(d) => delay_spec(*self, attempt) == Some(d@),
                None => delay_spec(*self, attempt) is None,
            },
    {
        match self {
            ReconnectPolicy::Never => None,
            ReconnectPolicy::Fixed { delay, max_attempts } => {
                if allowed(*max_attempts, attempt) {
                    Some(*delay)
                } else {
                    None
                }
            },
            ReconnectPolicy::Exponential { initial_delay, max_delay, max_attempts } => {
                if !allowed(*max_attempts, attempt) {
                    return None;
                }
                let factor = backoff_factor_exec(attempt);
                Some(initial_delay.saturating_mul(factor).min(*max_delay))
            },
        }
    }
}

/// Every delay of a valid exponential policy lies between its initial delay
/// and its maximum delay.
pub proof fn lemma_backoff_bounded(
    initial: nat,
    maximum: nat,
    attempt: usize,
)
    requires
        0 < initial <= maximum <= max_nanos(),
    ensures
        initial <= backoff_nanos(initial, maximum, attempt) <= maximum,
{
    let e = backoff_exponent(attempt);
    if e < 32 {
        vstd::arithmetic::power2::lemma_pow2_pos(e);
    }
    assert(backoff_factor(attempt) >= 1);
    assert(initial * backoff_factor(attempt) >= initial) by (nonlinear_arith)
        requires
            backoff_factor(attempt) >= 1,
    ;
}

proof fn lemma_factor_monotone(a: usize, b: usize)
    requires
        a <= b,
    ensures
        backoff_factor(a) <= backoff_factor(b),
{
    let ea = backoff_exponent(a);
    let eb = backoff_exponent(b);
    assert(ea <= eb);
    if eb < 32 {
        if ea < eb {
            vstd::arithmetic::power2::lemma_pow2_strictly_increases(ea, eb);
        }
    } else if ea < 32 {
        vstd::bits::lemma_u32_pow2_no_overflow(ea);
    }
}

/// The exponential schedule never shortens: a later attempt waits at least
/// as long as an earlier one.
pub proof fn lemma_backoff_monotone(initial: nat, maximum: nat, a: usize, b: usize)
    requires
        a <= b,
    ensures
        backoff_nanos(initial, maximum, a) <= backoff_nanos(initial, maximum, b),
{
    lemma_factor_monotone(a, b);
    assert(initial * backoff_factor(a) <= initial * backoff_factor(b)) by (nonlinear_arith)
        requires
            backoff_factor(a) <= backoff_factor(b),
    ;
}

/// Within the first 32 attempts each exponential delay is the previous one
/// doubled, capped at the maximum delay.
pub proof fn lemma_backoff_doubles(initial: nat, maximum: nat, attempt: usize)
    requires
        1 <= attempt < 32,
        maximum <= max_nanos(),
    ensures
        backoff_nanos(initial, maximum, (attempt + 1) as usize) == min_nat(
            2 * backoff_nanos(initial, maximum, attempt),
            maximum,
        ),
{
    let e = (attempt - 1) as nat;
    assert(backoff_exponent(attempt) == e);
    assert(backoff_exponent((attempt + 1) as usize) == e + 1);
    vstd::arithmetic::power2::lemma_pow2_unfold(e + 1);
    assert(initial * pow2(e + 1) == 2 * (initial * pow2(e))) by (nonlinear_arith)
        requires
            pow2(e + 1) == 2 * pow2(e),
    ;
}

/// The first delay of an exponential policy is its initial delay, capped at
/// the maximum delay.
pub proof fn lemma_backoff_first(initial: nat, maximum: nat)
    requires
        initial <= max_nanos(),
    ensures
        backoff_nanos(initial, maximum, 1) == min_nat(initial, maximum),
{
    vstd::arithmetic::power2::lemma2_to64();
    assert(backoff_exponent(1) == 0);
    assert(backoff_factor(1) == 1);
    assert(initial * 1 == initial);
}

/// A valid policy is enabled exactly when it is not `Never`, and it offers a
/// delay for every attempt up to its limit (forever when unlimited).
pub proof fn lemma_valid_policy_offers_delays(policy: ReconnectPolicy, attempt: usize)
    requires
        policy_is_valid(policy),
        !(policy is Never),
        match policy {
            ReconnectPolicy::Fixed { max_attempts, .. } => attempt_allowed(max_attempts, attempt),
            ReconnectPolicy::Exponential { max_attempts, .. } => attempt_allowed(
                max_attempts,
                attempt,
            ),
            ReconnectPolicy::Never => false,
        },
    ensures
        delay_spec(policy, attempt) is Some,
        delay_spec(policy, attempt).unwrap() > 0,
{
    match policy {
        ReconnectPolicy::Exponential { initial_delay, max_delay, .. } => {
            if initial_delay@ <= max_nanos() && max_delay@ <= max_nanos() {
                lemma_backoff_bounded(initial_delay@, max_delay@, attempt);
            } else {
                let e = backoff_exponent(attempt);
                if e < 32 {
                    vstd::arithmetic::power2::lemma_pow2_pos(e);
                }
                assert(initial_delay@ * backoff_factor(attempt) >= initial_delay@) by (nonlinear_arith)
                    requires
                        backoff_factor(attempt) >= 1,
                ;
            }
        },
        _ => {},
    }
}

} // verus!
