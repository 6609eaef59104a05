//! The launcher's decisions: which candidate file to use, and how long to
//! wait for the game process.
use vstd::prelude::*;

verus! {

/// The index of the first candidate that exists, if any.
pub fn first_existing(exists: &[bool]) -> (r: Option<usize>)
    ensures
        match r {
            Some(i) => i < exists@.len() && exists@[i as int] && forall|k: int|
                0 <= k < i ==> !exists@[k],
            None => forall|k: int| 0 <= k < exists@.len() ==> !exists@[k],
        },
{
    let mut i: usize = 0;
    while i < exists.len()
        invariant
            i <= exists@.len(),
            forall|k: int| 0 <= k < i ==> !exists@[k],
        decreases exists.len() - i,
    {
        if exists[i] {
            return Some(i);
        }
        i += 1;
    }
    None
}

/// How many one-second attempts the launcher makes to find the game.
pub const WAIT_ATTEMPTS: u32 = 90;

/// Every how many attempts the launcher reports that it is still waiting.
pub const WAIT_REPORT_EVERY: u32 = 10;

/// Seconds the game is given to load before the client is injected.
pub const LOAD_GRACE_SECONDS: u32 = 15;

/// What the launcher does after one attempt to find the game process.
pub enum WaitStep {
    /// The game runs with this process id.
    Found(u32),
    /// Not yet: report progress or not, and give up if this was the last
    /// attempt.
    Waiting { report: bool, give_up: bool },
}

/// The decision after attempt number `attempt` (counted from 1), given the
/// process id found, if any.
pub fn wait_step(attempt: u32, found: Option<u32>) -> (r: WaitStep)
    requires
        1 <= attempt <= WAIT_ATTEMPTS,
    ensures
        match found {
            Some(pid) => r == WaitStep::Found(pid),
            None => r == WaitStep::Waiting {
                report: attempt % WAIT_REPORT_EVERY == 0,
                give_up: attempt == WAIT_ATTEMPTS,
            },
        },
{
    match found {
        Some(pid) => WaitStep::Found(pid),
        None => WaitStep::Waiting {
            report: attempt % WAIT_REPORT_EVERY == 0,
            give_up: attempt == WAIT_ATTEMPTS,
        },
    }
}

} // verus!
