use crate::error::SandboxError;
use vstd::prelude::*;

verus! {

/// What one successful invocation produced and what it cost.
#[derive(Clone, Copy, Debug, PartialEq, Eq, Structural)]
pub struct ExectionReport {
    /// The 32-bit integer the function returned.
    pub result: i32,
    /// Fuel the run used up; never more than the budget it was given.
    pub fuel_consumed: u64,
    /// The memory ceiling the run was held to, in bytes.
    pub memory_consumed: usize,
    /// Wall-clock time of the call, in nanoseconds.
    pub time_consumed: u64,
}

/// How the call into the guest ended, as the runtime reported it.
#[derive(Clone, Copy, Debug, PartialEq, Eq, Structural)]
pub enum CallOutcome {
    /// The function returned; the value is present if it is a 32-bit integer.
    Returned(Option<i32>),
    /// The guest was stopped because its fuel ran out.
    OutOfFuel,
    /// The call failed for any other reason.
    Trapped,
}

/// One more than the largest nanosecond count a report can hold.
pub open spec fn nanos_modulus() -> int {
    0x1_0000_0000_0000_0000
}

/// Fuel used up by a run that was given `budget` and has `remaining` left.
/// A runtime that cannot tell what is left counts as having none left, and
/// one that claims more than the budget as having used none.
pub open spec fn fuel_spent(budget: u64, remaining: Option<u64>) -> u64 {
    let left = match remaining {
        Some(left) => left,
        None => 0,
    };
    if left <= budget {
        (budget - left) as u64
    } else {
        0
    }
}

/// The nanosecond count as a report holds it: its low 64 bits.
pub open spec fn reported_nanos(nanos: u128) -> u64 {
    (nanos as int % nanos_modulus()) as u64
}

/// The outcome of an invocation whose call ended as `call`, during which a
/// growth request was refused or not, and after which `remaining` fuel was
/// left of `fuel_limit`.
///
/// A refused growth request fails the run whatever else happened. Otherwise
/// the run fails as the call did, and succeeds only if the call returned one
/// 32-bit integer.
pub open spec fn settled(
    call: CallOutcome,
    growth_denied: bool,
    remaining: Option<u64>,
    mem_limit: usize,
    fuel_limit: u64,
    nanos: u128,
) -> Result<ExectionReport, SandboxError> {
    if growth_denied {
        Err(SandboxError::ResourceLimitExceeded)
    } else {
        match call {
            CallOutcome::OutOfFuel => Err(SandboxError::FuelExhausted),
            CallOutcome::Trapped => Err(SandboxError::GuestTrap),
            CallOutcome::Returned(None) => Err(SandboxError::ResultType),
            CallOutcome::Returned(Some(value)) => Ok(
                ExectionReport {
                    result: value,
                    fuel_consumed: fuel_spent(fuel_limit, remaining),
                    memory_consumed: mem_limit,
                    time_consumed: reported_nanos(nanos),
                },
            ),
        }
    }
}

/// Computes the fuel a run used up.
pub fn fuel_consumed(budget: u64, remaining: Option<u64>) -> (spent: u64)
    ensures
        spent == fuel_spent(budget, remaining),
        spent <= budget,
{
    let left = remaining.unwrap_or(0);
    if left <= budget {
        budget - left
    } else {
        0
    }
}

/// Narrows a nanosecond count to the 64 bits of a report.
pub fn nanos_to_u64(nanos: u128) -> (low: u64)
    ensures
        low == reported_nanos(nanos),
{
    let low = (nanos & 0xffff_ffff_ffff_ffff) as u64;
    assert(nanos & 0xffff_ffff_ffff_ffff == nanos % 0x1_0000_0000_0000_0000) by (bit_vector);
    low
}

/// Decides the outcome of an invocation from what the runtime reported.
pub fn settle(
    call: CallOutcome,
    growth_denied: bool,
    remaining: Option<u64>,
    mem_limit: usize,
    fuel_limit: u64,
    nanos: u128,
) -> (outcome: Result<ExectionReport, SandboxError>)
    ensures
        outcome == settled(call, growth_denied, remaining, mem_limit, fuel_limit, nanos),
        outcome matches Ok(report) ==> report.fuel_consumed <= fuel_limit,
{
    if growth_denied {
        return Err(SandboxError::ResourceLimitExceeded);
    }
    match call {
        CallOutcome::OutOfFuel => Err(SandboxError::FuelExhausted),
        CallOutcome::Trapped => Err(SandboxError::GuestTrap),
        CallOutcome::Returned(None) => Err(SandboxError::ResultType),
        CallOutcome::Returned(Some(value)) => Ok(
            ExectionReport {
                result: value,
                fuel_consumed: fuel_consumed(fuel_limit, remaining),
                memory_consumed: mem_limit,
                time_consumed: nanos_to_u64(nanos),
            },
        ),
    }
}

/// A report never shows more fuel used than the budget, and every report
/// shows the memory ceiling of its run.
pub proof fn lemma_report_within_budget(
    call: CallOutcome,
    growth_denied: bool,
    remaining: Option<u64>,
    mem_limit: usize,
    fuel_limit: u64,
    nanos: u128,
)
    ensures
        settled(call, growth_denied, remaining, mem_limit, fuel_limit, nanos) matches Ok(report)
            ==> 0 <= report.fuel_consumed <= fuel_limit && report.memory_consumed == mem_limit,
{
}

/// A run during which a growth request was refused fails with
/// `ResourceLimitExceeded`, however the call ended: it never succeeds, and
/// no other failure hides the breach.
pub proof fn lemma_refused_growth_fails_the_run(
    call: CallOutcome,
    remaining: Option<u64>,
    mem_limit: usize,
    fuel_limit: u64,
    nanos: u128,
)
    ensures
        settled(call, true, remaining, mem_limit, fuel_limit, nanos) == Err::<
            ExectionReport,
            SandboxError,
        >(SandboxError::ResourceLimitExceeded),
{
}

/// A guest that was stopped because its fuel ran out, and was refused no
/// growth, fails the run with `FuelExhausted`, whatever budget it had been
/// given and whatever is said to be left of it.
pub proof fn lemma_fuel_exhaustion_is_reported(
    remaining: Option<u64>,
    mem_limit: usize,
    fuel_limit: u64,
    nanos: u128,
)
    ensures
        settled(CallOutcome::OutOfFuel, false, remaining, mem_limit, fuel_limit, nanos) == Err::<
            ExectionReport,
            SandboxError,
        >(SandboxError::FuelExhausted),
{
}

/// A run succeeds exactly when no growth request was refused and the call
/// returned one 32-bit integer, and then the report shows that integer.
pub proof fn lemma_success_needs_a_clean_return(
    call: CallOutcome,
    growth_denied: bool,
    remaining: Option<u64>,
    mem_limit: usize,
    fuel_limit: u64,
    nanos: u128,
)
    ensures
        settled(call, growth_denied, remaining, mem_limit, fuel_limit, nanos) is Ok <==> !growth_denied
            && call matches CallOutcome::Returned(Some(_)),
        settled(call, growth_denied, remaining, mem_limit, fuel_limit, nanos) matches Ok(report)
            ==> call == CallOutcome::Returned(Some(report.result)),
{
}

/// Two outcomes are alike but for the time a report shows: the same error,
/// or reports with the same result, the same fuel used and the same memory
/// ceiling.
pub open spec fn alike_but_for_time(
    a: Result<ExectionReport, SandboxError>,
    b: Result<ExectionReport, SandboxError>,
) -> bool {
    match (a, b) {
        (Ok(a), Ok(b)) => a.result == b.result && a.fuel_consumed == b.fuel_consumed
            && a.memory_consumed == b.memory_consumed,
        (Err(a), Err(b)) => a == b,
        _ => false,
    }
}

/// Two runs that the runtime reports alike fare alike, however long each
/// took. Only the time in the report may differ.
pub proof fn lemma_outcome_is_independent_of_time(
    call: CallOutcome,
    growth_denied: bool,
    remaining: Option<u64>,
    mem_limit: usize,
    fuel_limit: u64,
    nanos_a: u128,
    nanos_b: u128,
)
    ensures
        alike_but_for_time(
            settled(call, growth_denied, remaining, mem_limit, fuel_limit, nanos_a),
            settled(call, growth_denied, remaining, mem_limit, fuel_limit, nanos_b),
        ),
{
}

} // verus!
