use vstd::prelude::*;

verus! {

/// How many times one download is attempted at most.
pub const MAX_ATTEMPTS: u8 = 3;

/// What one call of the streaming download reported.
#[derive(Clone, Copy, Debug, PartialEq, Eq, Structural)]
pub enum AttemptResult {
    /// The file was written.
    Completed,
    /// The target file is already there.
    FileExists,
    /// The target could not be written for lack of permission.
    PermissionDenied,
    /// Any other failure.
    Failed,
}

/// Where one request stands or ended.
#[derive(Clone, Copy, Debug, PartialEq, Eq, Structural)]
pub enum Outcome {
    Success,
    AlreadyExists,
    PermissionDenied,
    /// The attempt with this number failed and the next one is due.
    TransientFailure(u8),
    /// Every attempt failed.
    Exhausted,
    /// The listing page holds no download location for the request.
    NoMatch,
    /// The listing page was not served successfully.
    BadResponse,
}

impl Outcome {
    pub open spec fn is_terminal(self) -> bool {
        !(self is TransientFailure)
    }
}

/// The decision taken after attempt number `attempt` reported `result`.
pub open spec fn next_step_spec(attempt: u8, result: AttemptResult) -> Outcome {
    match result {
        AttemptResult::Completed => Outcome::Success,
        AttemptResult::FileExists => Outcome::AlreadyExists,
        AttemptResult::PermissionDenied => Outcome::PermissionDenied,
        AttemptResult::Failed => if attempt < MAX_ATTEMPTS {
            Outcome::TransientFailure(attempt)
        } else {
            Outcome::Exhausted
        },
    }
}

/// Decides what follows attempt number `attempt` (counted from 1): a terminal
/// outcome, or `TransientFailure(attempt)` when attempt `attempt + 1` is due.
pub fn next_step(attempt: u8, result: AttemptResult) -> (r: Outcome)
    requires
        1 <= attempt <= MAX_ATTEMPTS,
    ensures
        r == next_step_spec(attempt, result),
        r is TransientFailure ==> r == Outcome::TransientFailure(attempt) && attempt < MAX_ATTEMPTS,
{
    match result {
        AttemptResult::Completed => Outcome::Success,
        AttemptResult::FileExists => Outcome::AlreadyExists,
        AttemptResult::PermissionDenied => Outcome::PermissionDenied,
        AttemptResult::Failed => {
            if attempt < MAX_ATTEMPTS {
                Outcome::TransientFailure(attempt)
            } else {
                Outcome::Exhausted
            }
        },
    }
}

/// The run of the retry policy from attempt `attempt` on, where `results[i]`
/// is what attempt `i + 1` reports: the terminal outcome and the number of
/// calls made from `attempt` on.
pub open spec fn run_from(results: Seq<AttemptResult>, attempt: u8) -> (Outcome, nat)
    recommends
        1 <= attempt <= MAX_ATTEMPTS,
        results.len() >= MAX_ATTEMPTS,
    decreases MAX_ATTEMPTS - attempt,
{
    if attempt < 1 || attempt > MAX_ATTEMPTS {
        (Outcome::Exhausted, 0)
    } else {
        match next_step_spec(attempt, results[attempt - 1]) {
            Outcome::TransientFailure(_) => {
                let rest = run_from(results, (attempt + 1) as u8);
                (rest.0, rest.1 + 1)
            },
            o => (o, 1),
        }
    }
}

/// The whole run of the retry policy for one download.
pub open spec fn run(results: Seq<AttemptResult>) -> (Outcome, nat) {
    run_from(results, 1)
}

/// The download is attempted at least once and at most three times, ends in
/// a terminal outcome, and is attempted exactly once when the first attempt
/// completes, finds the file present or is denied permission.
pub proof fn lemma_attempts_bounded(results: Seq<AttemptResult>)
    requires
        results.len() >= MAX_ATTEMPTS,
    ensures
        1 <= run(results).1 <= MAX_ATTEMPTS,
        run(results).0.is_terminal(),
        results[0] != AttemptResult::Failed ==> run(results).1 == 1,
{
    reveal_with_fuel(run_from, 4);
}

/// Two failed attempts followed by a completed one end in success after
/// exactly three calls.
pub proof fn lemma_third_attempt_succeeds(results: Seq<AttemptResult>)
    requires
        results.len() >= MAX_ATTEMPTS,
        results[0] == AttemptResult::Failed,
        results[1] == AttemptResult::Failed,
        results[2] == AttemptResult::Completed,
    ensures
        run(results) == (Outcome::Success, 3nat),
{
    reveal_with_fuel(run_from, 4);
}

} // verus!
