use vstd::prelude::*;

verus! {

/// Redis stream on which the JAX brain publishes its signals.
pub const STREAM_JAX_SIGNALS: &'static str = "jax:signals";

/// Redis stream of cleaned ticks.
pub const STREAM_CLEAN_TICKS: &'static str = "clean:ticks";

/// Redis key under which the pipeline state is kept.
pub const STATE_KEY: &'static str = "quimeria:state";

/// Bars over which the average true range is taken.
pub const ATR_PERIOD: usize = 20;

/// Width of a tick bucket, in milliseconds.
pub const BUCKET_MS: i64 = 60_000;

/// One-minute bars in a day.
pub const BARS_PER_DAY: usize = 1440;

/// The IPDA lookbacks, in days.
pub const LOOKBACK_DAYS: [usize; 3] = [20, 40, 60];

/// Kill zones as (start hour, end hour): London, then New York.
pub const KILL_ZONES: [(u32, u32); 2] = [(8, 12), (12, 18)];

} // verus!
