//! Retry orchestration: the exponential-backoff schedule, the decision of
//! whether a failed attempt is worth repeating, and the recovery advice the
//! application surfaces to the user.
use vstd::prelude::*;

verus! {

use vstd::string::StringExecFns;
use crate::errors::MilkError;
use crate::errors::MilkResult;
use crate::errors::is_recoverable_spec;
use crate::errors::error_text_spec;

/// Maximum number of attempts for recoverable errors.
pub open spec fn max_retries() -> int {
    3
}

/// Base delay of the exponential backoff, in milliseconds.
pub open spec fn base_delay_ms() -> int {
    1000
}

/// Powers of two.
pub open spec fn pow2(k: nat) -> int
    decreases k,
{
    if k == 0 {
        1
    } else {
        2 * pow2((k - 1) as nat)
    }
}

/// The backoff delay before retry number `attempt + 1`: the base delay
/// doubled after every failed attempt, with no jitter.
pub open spec fn backoff_delay_spec(attempt: int) -> int {
    base_delay_ms() * pow2((attempt - 1) as nat)
}

/// Computes the backoff delay after the given failed attempt (1-based).
pub fn backoff_delay_ms(attempt: u32) -> (r: u64)
    requires
        1 <= attempt <= max_retries(),
    ensures
        r == backoff_delay_spec(attempt as int),
{
    let mut d: u64 = 1000;
    let mut i: u32 = 1;
    while i < attempt
        invariant
            1 <= i <= attempt <= 3,
            d == base_delay_ms() * pow2((i - 1) as nat),
            d <= 4000,
        decreases attempt - i,
    {
        proof {
            assert(pow2(0) == 1);
            assert(pow2(1) == 2);
            assert(pow2(2) == 4);
            assert(i == 1 || i == 2);
        }
        d = d * 2;
        i += 1;
    }
    d
}

/// What the retry loop does after one more outcome of the operation.
#[derive(Debug)]
pub enum RetryStep {
    /// Propagate a non-recoverable error unchanged, at once.
    Abort,
    /// Wait that many milliseconds, then try again.
    RetryAfter(u64),
    /// Attempts are exhausted: report a terminal failure.
    GiveUp,
}

/// The retry decision after `attempts` failed tries (1-based): stop at once
/// on a non-recoverable error; back off and try again while attempts
/// remain; give up after the last one.
pub fn retry_step(attempts: u32, recoverable: bool) -> (r: RetryStep)
    requires
        1 <= attempts <= max_retries(),
    ensures
        !recoverable ==> r is Abort,
        recoverable && attempts < max_retries() ==> (r matches RetryStep::RetryAfter(d) && d
            == backoff_delay_spec(attempts as int)),
        recoverable && attempts >= max_retries() ==> r is GiveUp,
{
    if !recoverable {
        RetryStep::Abort
    } else if attempts < 3 {
        RetryStep::RetryAfter(backoff_delay_ms(attempts))
    } else {
        RetryStep::GiveUp
    }
}

/// The fixed wait after a rate-limit response, in milliseconds: vendors'
/// rate-limit windows are about a minute, so the exponential schedule is
/// not used.
pub fn rate_limit_wait_ms() -> (r: u64)
    ensures
        r == 60000,
{
    60000
}

/// Whether an outcome is a recoverable failure, after which the retry loop
/// keeps going.
pub open spec fn rec_fail(o: Result<String, MilkError>) -> bool {
    match o {
        Ok(_) => false,
        Err(e) => is_recoverable_spec(&e),
    }
}

/// Runs the whole retry schedule against a script of outcomes, one per
/// attempt, and returns the final result with the sequence of waits that
/// the schedule asked for.
///
/// Retry law: the first outcome that is a success or a non-recoverable
/// failure is returned as is, after exactly one backoff wait (1000ms, then
/// 2000ms) per preceding recoverable failure; when every attempt fails
/// recoverably, the last error is wrapped in a terminal internal failure
/// after the two waits.
pub fn run_retry(outcomes: Vec<Result<String, MilkError>>) -> (r: (MilkResult<String>, Vec<u64>))
    requires
        outcomes@.len() >= max_retries(),
    ensures
        forall|k: int|
            (0 <= k < max_retries() && (forall|j: int| 0 <= j < k ==> rec_fail(
                #[trigger] outcomes@[j],
            )) && !rec_fail(#[trigger] outcomes@[k])) ==> (r.0 == outcomes@[k] && r.1@ == Seq::new(
                k as nat,
                |i: int| backoff_delay_spec(i + 1) as u64,
            )),
        (forall|j: int| 0 <= j < max_retries() ==> rec_fail(#[trigger] outcomes@[j])) ==> r.1@
            == Seq::new((max_retries() - 1) as nat, |i: int| backoff_delay_spec(i + 1) as u64),
        (forall|j: int| 0 <= j < max_retries() ==> rec_fail(#[trigger] outcomes@[j])) ==> (
        r.0 matches Err(e) && e matches MilkError::Internal(m) && (outcomes@[max_retries()
            - 1] matches Err(last) && m@ == error_text_spec(&last))),
{
    let mut rest = outcomes;
    let mut delays: Vec<u64> = Vec::new();
    let mut attempts: u32 = 0;
    while attempts < 3
        invariant
            outcomes@.len() >= 3,
            0 <= attempts < 3,
            rest@ =~= outcomes@.skip(attempts as int),
            delays@ =~= Seq::new(attempts as nat, |i: int| backoff_delay_spec(i + 1) as u64),
            forall|j: int| 0 <= j < attempts ==> rec_fail(#[trigger] outcomes@[j]),
        decreases 3 - attempts,
    {
        let outcome = rest.remove(0);
        proof {
            assert(outcome == outcomes@[attempts as int]);
            assert(rest@ =~= outcomes@.skip(attempts + 1));
        }
        match outcome {
            Ok(v) => {
                proof {
                    assert(!rec_fail(outcomes@[attempts as int]));
                    assert forall|k: int|
                        (0 <= k < 3 && (forall|j: int| 0 <= j < k ==> rec_fail(
                            #[trigger] outcomes@[j],
                        )) && !rec_fail(#[trigger] outcomes@[k])) implies k == attempts by {
                        if k < attempts {
                            assert(rec_fail(outcomes@[k]));
                        }
                        if k > attempts {
                            assert(rec_fail(outcomes@[attempts as int]));
                        }
                    }
                    if forall|j: int| 0 <= j < 3 ==> rec_fail(#[trigger] outcomes@[j]) {
                        assert(rec_fail(outcomes@[attempts as int]));
                    }
                }
                return (Ok(v), delays);
            },
            Err(e) => {
                let recoverable = e.is_recoverable();
                if !recoverable {
                    proof {
                        assert(!rec_fail(outcomes@[attempts as int]));
                        assert forall|k: int|
                            (0 <= k < 3 && (forall|j: int| 0 <= j < k ==> rec_fail(
                                #[trigger] outcomes@[j],
                            )) && !rec_fail(#[trigger] outcomes@[k])) implies k == attempts by {
                            if k < attempts {
                                assert(rec_fail(outcomes@[k]));
                            }
                            if k > attempts {
                                assert(rec_fail(outcomes@[attempts as int]));
                            }
                        }
                        if forall|j: int| 0 <= j < 3 ==> rec_fail(#[trigger] outcomes@[j]) {
                            assert(rec_fail(outcomes@[attempts as int]));
                        }
                    }
                    return (Err(e), delays);
                }
                proof {
                    assert(rec_fail(outcomes@[attempts as int]));
                }
                attempts = attempts + 1;
                if attempts < 3 {
                    let d = backoff_delay_ms(attempts);
                    delays.push(d);
                    proof {
                        assert(delays@ =~= Seq::new(
                            attempts as nat,
                            |i: int| backoff_delay_spec(i + 1) as u64,
                        ));
                    }
                } else {
                    let text = e.error_text();
                    proof {
                        assert(attempts == 3);
                        assert(rec_fail(outcomes@[2]));
                        assert forall|k: int| 0 <= k < 3 implies rec_fail(#[trigger] outcomes@[k]) by {
                        }
                        assert forall|k: int|
                            !(0 <= k < 3 && (forall|j: int| 0 <= j < k ==> rec_fail(
                                #[trigger] outcomes@[j],
                            )) && !rec_fail(#[trigger] outcomes@[k])) by {
                            if 0 <= k < 3 {
                                assert(rec_fail(outcomes@[k]));
                            }
                        }
                        assert(outcomes@[2] matches Err(last) && text@ == error_text_spec(&last));
                    }
                    return (Err(MilkError::Internal(text)), delays);
                }
            },
        }
    }
    proof {
        assert(false);
    }
    (Err(MilkError::Internal(String::new())), delays)
}

/// What to do about a configuration error: a scrambled, corrupted or
/// missing configuration is replaced by the default one; any other error is
/// not recovered here.
#[derive(Debug, PartialEq, Eq, Structural)]
pub enum ConfigRecovery {
    UseDefault,
    Fail,
}

/// Error recovery strategies.
pub struct ErrorRecovery;

impl ErrorRecovery {
    /// The configuration-recovery decision.
    pub fn config_recovery_action(error: &MilkError) -> (r: ConfigRecovery)
        ensures
            r == ConfigRecovery::UseDefault <==> (error matches MilkError::ConfigParseError(_)
                || error matches MilkError::CorruptedFile(_)
                || error matches MilkError::MissingConfig(_)),
    {
        match error {
            MilkError::ConfigParseError(_)
            | MilkError::CorruptedFile(_)
            | MilkError::MissingConfig(_) => ConfigRecovery::UseDefault,
            _ => ConfigRecovery::Fail,
        }
    }

    /// The user-facing recovery suggestion for an error.
    pub fn get_recovery_suggestion(error: &MilkError) -> (r: String)
        ensures
            r@ == recovery_suggestion_spec(error),
    {
        match error {
            MilkError::NetworkTimeout(_) | MilkError::NetworkError(_) => String::from_str(
                "Check your internet connection and try again.",
            ),
            MilkError::AuthenticationFailed(_) => String::from_str(
                "Please log in again to refresh your credentials.",
            ),
            MilkError::InvalidPath(_) => String::from_str("Please select a valid directory path."),
            MilkError::PermissionDenied(_) => String::from_str(
                "Please check file permissions or run as administrator.",
            ),
            MilkError::DiskFull(_) => String::from_str("Free up some disk space and try again."),
            MilkError::CorruptedFile(_) | MilkError::ConfigParseError(_) => String::from_str(
                "The file is corrupted. I'll create a fresh one for you.",
            ),
            MilkError::RateLimitExceeded => String::from_str(
                "Too many requests. Let's wait a moment and try again.",
            ),
            MilkError::AudioDeviceUnavailable => String::from_str(
                "No audio device found. Please check your speakers or headphones.",
            ),
            MilkError::SkinParseError(_) | MilkError::InvalidSkinFormat(_) => String::from_str(
                "That skin file didn't work. I'll use the default look instead.",
            ),
            _ => String::from_str("Let's try that again."),
        }
    }
}

/// The recovery suggestion texts.
pub open spec fn recovery_suggestion_spec(e: &MilkError) -> Seq<char> {
    match e {
        MilkError::NetworkTimeout(_) | MilkError::NetworkError(_) => "Check your internet connection and try again."@,
        MilkError::AuthenticationFailed(_) => "Please log in again to refresh your credentials."@,
        MilkError::InvalidPath(_) => "Please select a valid directory path."@,
        MilkError::PermissionDenied(_) => "Please check file permissions or run as administrator."@,
        MilkError::DiskFull(_) => "Free up some disk space and try again."@,
        MilkError::CorruptedFile(_) | MilkError::ConfigParseError(_) => "The file is corrupted. I'll create a fresh one for you."@,
        MilkError::RateLimitExceeded => "Too many requests. Let's wait a moment and try again."@,
        MilkError::AudioDeviceUnavailable => "No audio device found. Please check your speakers or headphones."@,
        MilkError::SkinParseError(_) | MilkError::InvalidSkinFormat(_) => "That skin file didn't work. I'll use the default look instead."@,
        _ => "Let's try that again."@,
    }
}

} // verus!
