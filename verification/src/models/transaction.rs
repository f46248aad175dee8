//! Stored history of accepted deposits. Only deposits are recorded, so only
//! deposits can later be disputed, resolved or charged back.

use vstd::prelude::*;

verus! {

/// A recorded deposit: the owning client, the amount in centimes (always
/// positive), and whether it is currently under dispute.
#[derive(Debug, Clone, Copy, PartialEq, Eq, Structural)]
pub struct Transaction {
    pub client: u16,
    pub amount: u32,
    pub disputed: bool,
}

} // verus!
