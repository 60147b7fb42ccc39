//! Order lifecycle core: the order status machine and the order aggregate.
use vstd::prelude::*;

pub mod enums;
pub mod events;
pub mod identifiers;
pub mod orders;
pub mod status;
pub mod types;

verus! {

} // verus!
