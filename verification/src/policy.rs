//! What a derivation may cost. The handlers take the caller's cost
//! parameters as they come; whether that is acceptable is a decision, and
//! it is made here and nowhere else.

use vstd::prelude::*;
use vstd::string::*;

verus! {

/// What the server lets a caller spend on one derivation.
#[derive(Clone, Copy, Debug, PartialEq, Eq, Structural)]
pub enum CostPolicy {
    /// Whatever the primitive takes is taken: what it costs is the caller's
    /// risk.
    AcceptCallerRisk,
    /// A derivation that needs more memory than `memory` KiB, or more
    /// iterations than `iterations`, is turned down.
    Capped { memory: u32, iterations: u32 },
}

impl CostPolicy {
    /// The message with which the policy turns a derivation of `bytes`
    /// bytes of memory and `iterations` iterations down, or `None` where it
    /// lets the derivation pass. Memory is judged first.
    pub open spec fn failure(self, bytes: int, iterations: int) -> Option<Seq<char>> {
        match self {
            CostPolicy::AcceptCallerRisk => None,
            CostPolicy::Capped { memory, iterations: most } => if bytes > 1024 * memory {
                Some("Memory cost exceeds the limit"@)
            } else if iterations > most {
                Some("Iteration count exceeds the limit"@)
            } else {
                None
            },
        }
    }

    /// Judges what a derivation would cost.
    pub fn check(&self, bytes: u128, iterations: u64) -> (outcome: Result<(), String>)
        ensures
            match outcome {
                Ok(()) => self.failure(bytes as int, iterations as int) is None,
                Err(message) => self.failure(bytes as int, iterations as int) == Some(message@),
            },
    {
        match self {
            CostPolicy::AcceptCallerRisk => Ok(()),
            CostPolicy::Capped { memory, iterations: most } => {
                if bytes > 1024 * (*memory as u128) {
                    Err(String::from_str("Memory cost exceeds the limit"))
                } else if iterations > *most as u64 {
                    Err(String::from_str("Iteration count exceeds the limit"))
                } else {
                    Ok(())
                }
            },
        }
    }
}

/// Under a cap, whatever passes stays within it.
pub proof fn lemma_capped_costs_are_bounded(
    memory: u32,
    most: u32,
    bytes: int,
    iterations: int,
)
    requires
        (CostPolicy::Capped { memory, iterations: most }).failure(bytes, iterations) is None,
    ensures
        bytes <= 1024 * memory,
        iterations <= most,
{
}

} // verus!
