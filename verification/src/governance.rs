//! What the ledgers take from the governance oracle.

use vstd::prelude::*;

verus! {

/// The oracle's answer to a proposal. How the answer was reached is not the
/// ledger's business.
#[derive(Clone, Copy, Debug, PartialEq, Eq, Structural)]
pub enum Verdict {
    Passed,
    Failed,
}

} // verus!
