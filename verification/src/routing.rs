use vstd::prelude::*;

verus! {

/// The order router that splits a parent order between a dark pool and a
/// lit venue.
pub struct SchurRouter;

} // verus!
