use vstd::prelude::*;

verus! {

/// The Bybit exchange client.
pub struct BybitClient;

} // verus!
