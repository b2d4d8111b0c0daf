//! The fee of a transaction.

use vstd::prelude::*;

verus! {

/// A fee: an amount of the fee asset.
#[derive(Clone, Copy, Debug, PartialEq, Eq)]
pub struct Fee(pub u64);

} // verus!
