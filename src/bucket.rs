//! Assets as the curves exchange them: an asset's identity, a quantity of a
//! fungible asset, and a set of fair-launch receipts.

use crate::decimal::Dec;
use vstd::prelude::*;

verus! {

/// The identity of an asset.
#[derive(Clone, Copy, Debug, PartialEq, Eq, Structural)]
pub struct AssetId {
    pub id: u64,
}

/// A quantity of one fungible asset.
#[derive(Clone, Copy, Debug, PartialEq, Eq, Structural)]
pub struct Bucket {
    pub resource: AssetId,
    pub amount: Dec,
}

impl Bucket {
    /// A bucket of `amount` of `resource`.
    pub fn new(resource: AssetId, amount: Dec) -> (r: Bucket)
        ensures
            r.resource == resource,
            r.amount == amount,
    {
        Bucket { resource, amount }
    }
}

/// Fair-launch receipts, named by their ids.
#[derive(Debug)]
pub struct ReceiptBucket {
    pub resource: AssetId,
    pub ids: Vec<u64>,
}

/// What a purchase hands out: the tokens themselves, or during the fair
/// launch the receipts that claim them later.
#[derive(Debug)]
pub enum Minted {
    Tokens(Bucket),
    Receipts(ReceiptBucket),
}

} // verus!
