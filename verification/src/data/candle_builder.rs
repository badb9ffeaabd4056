use vstd::prelude::*;
use vstd::string::*;

verus! {

/// Length of a bar: one minute, in nanoseconds.
pub const BAR_DURATION_NS: i128 = 60_000_000_000;

/// What one tick does to the bar being built.
#[derive(Debug, Clone, Copy, PartialEq, Eq, Structural)]
pub enum BarStep {
    /// The first tick ever seen opens the first bar.
    Opened,
    /// The tick falls inside the current bar and extends it.
    Extended,
    /// The bar that started at `bar_start` is complete; the tick opens the
    /// next bar.
    Closed { bar_start: i128 },
}

/// The clock of the candle builder: when the current bar started, on a
/// timeline of nanoseconds.
pub struct BarClock {
    bar_start: Option<i128>,
    bar_duration_ns: i128,
}

/// Whether a tick at `time` lies a full bar after a bar that started at
/// `start`.
pub open spec fn spec_bar_elapsed(start: i128, time: i128, duration: i128) -> bool {
    time - start >= duration
}

/// When the current bar starts after a tick at `time`: the first tick and
/// a tick a full bar after the start open a bar at the tick's time; any
/// other tick leaves the start where it was.
pub open spec fn spec_next_start(start: Option<i128>, time: i128, duration: i128) -> Option<i128> {
    match start {
        None => Some(time),
        Some(s) => if spec_bar_elapsed(s, time, duration) {
            Some(time)
        } else {
            Some(s)
        },
    }
}

/// When the current bar starts after a sequence of ticks, oldest first.
pub open spec fn spec_start_after(start: Option<i128>, times: Seq<i128>, duration: i128) -> Option<
    i128,
>
    decreases times.len(),
{
    if times.len() == 0 {
        start
    } else {
        spec_next_start(spec_start_after(start, times.drop_last(), duration), times.last(), duration)
    }
}

impl BarClock {
    /// When the current bar started, if a tick has been seen.
    pub closed spec fn spec_bar_start(&self) -> Option<i128> {
        self.bar_start
    }

    /// The length of a bar.
    pub closed spec fn spec_duration(&self) -> i128 {
        self.bar_duration_ns
    }

    #[verifier::type_invariant]
    closed spec fn duration_positive(&self) -> bool {
        self.bar_duration_ns > 0
    }

    /// A clock that has seen no tick, with one-minute bars.
    pub fn new() -> (c: BarClock)
        ensures
            c.spec_bar_start() is None,
            c.spec_duration() == BAR_DURATION_NS,
    {
        BarClock { bar_start: None, bar_duration_ns: BAR_DURATION_NS }
    }

    /// Feeds the time of a tick to the clock. The first tick opens a bar at
    /// its time; a tick a full bar or more after the current bar's start
    /// closes that bar and opens the next one at the tick's time; any other
    /// tick extends the current bar.
    pub fn step(&mut self, time: i128) -> (s: BarStep)
        ensures
            final(self).spec_duration() == old(self).spec_duration(),
            old(self).spec_duration() > 0,
            final(self).spec_bar_start() == spec_next_start(
                old(self).spec_bar_start(),
                time,
                old(self).spec_duration(),
            ),
            match old(self).spec_bar_start() {
                None => s == BarStep::Opened && final(self).spec_bar_start() == Some(time),
                Some(start) => if spec_bar_elapsed(start, time, old(self).spec_duration()) {
                    s == (BarStep::Closed { bar_start: start }) && final(self).spec_bar_start()
                        == Some(time)
                } else {
                    s == BarStep::Extended && final(self).spec_bar_start() == Some(start)
                },
            },
    {
        proof {
            use_type_invariant(&*self);
        }
        match self.bar_start {
            None => {
                self.bar_start = Some(time);
                BarStep::Opened
            },
            Some(start) => {
                let elapsed = match start.checked_add(self.bar_duration_ns) {
                    Some(limit) => time >= limit,
                    None => false,
                };
                if elapsed {
                    self.bar_start = Some(time);
                    BarStep::Closed { bar_start: start }
                } else {
                    BarStep::Extended
                }
            },
        }
    }
}

/// A bar closes only on a tick later than its start, so the start of the
/// current bar never moves back in time.
pub proof fn lemma_bar_start_advances(start: i128, time: i128, duration: i128)
    requires
        duration > 0,
        spec_bar_elapsed(start, time, duration),
    ensures
        time > start,
{
}

/// On a new clock, a bar opens at the first tick `times[0]` and stays open
/// as long as no later tick comes a full bar after it; the next tick then
/// closes it exactly when it lies a full bar or more after `times[0]`.
pub proof fn lemma_bar_timing(times: Seq<i128>, duration: i128, next: i128)
    requires
        duration > 0,
        times.len() >= 1,
        forall|i: int| 1 <= i < times.len() ==> !spec_bar_elapsed(times[0], #[trigger] times[i], duration),
    ensures
        spec_start_after(None, times, duration) == Some(times[0]),
        spec_next_start(spec_start_after(None, times, duration), next, duration) == (if next
            - times[0] >= duration {
            Some(next)
        } else {
            Some(times[0])
        }),
    decreases times.len(),
{
    if times.len() > 1 {
        let prefix = times.drop_last();
        assert forall|i: int| 1 <= i < prefix.len() implies !spec_bar_elapsed(
            prefix[0],
            #[trigger] prefix[i],
            duration,
        ) by {
            assert(prefix[i] == times[i]);
        }
        lemma_bar_timing(prefix, duration, times.last());
        assert(prefix[0] == times[0]);
        assert(!spec_bar_elapsed(times[0], times[times.len() - 1], duration));
        assert(spec_start_after(None, times, duration) == spec_next_start(
            spec_start_after(None, prefix, duration),
            times.last(),
            duration,
        ));
    } else {
        assert(times.drop_last().len() == 0);
        assert(spec_start_after(None, times.drop_last(), duration) == None::<i128>);
        assert(times.last() == times[0]);
    }
}

/// Readings of a finished bar, each already decided against its threshold:
/// - `doji`: the body is less than 10% of the range;
/// - `rising` / `falling`: the last price is above / below the open;
/// - `strong`: the body is more than 60% of the range.
#[derive(Debug, Clone, Copy, PartialEq, Eq, Structural)]
pub struct PatternReadings {
    pub doji: bool,
    pub rising: bool,
    pub falling: bool,
    pub strong: bool,
}

/// The name of the candlestick pattern of a bar. An upward surge is named
/// `B` (Expansion) when its body dominates the bar and `U` (Upward)
/// otherwise; a doji and the downward bars keep their candlestick names.
pub open spec fn spec_pattern_name(r: PatternReadings) -> Seq<char> {
    if r.doji {
        "DOJI"@
    } else if r.rising && r.strong {
        "B"@
    } else if r.falling && r.strong {
        "BEARISH_MARUBOZU"@
    } else if r.rising {
        "U"@
    } else {
        "BEARISH"@
    }
}

/// Names the candlestick pattern of a finished bar from its readings.
pub fn pattern_name(r: PatternReadings) -> (name: String)
    ensures
        name@ == spec_pattern_name(r),
{
    if r.doji {
        String::from_str("DOJI")
    } else if r.rising && r.strong {
        String::from_str("B")
    } else if r.falling && r.strong {
        String::from_str("BEARISH_MARUBOZU")
    } else if r.rising {
        String::from_str("U")
    } else {
        String::from_str("BEARISH")
    }
}

/// A bar that closes above its open without being a doji is an upward
/// pattern, `U` or `B`; it is `B` exactly when its body is strong.
pub proof fn lemma_upward_patterns(r: PatternReadings)
    requires
        r.rising,
        !r.doji,
    ensures
        spec_pattern_name(r) == "U"@ || spec_pattern_name(r) == "B"@,
        r.strong ==> spec_pattern_name(r) == "B"@,
        !r.strong ==> spec_pattern_name(r) == "U"@,
{
}

/// A doji is named `DOJI` whatever its direction or strength, and no other
/// bar is: the body test comes before any reading of direction.
pub proof fn lemma_doji_pattern(r: PatternReadings)
    ensures
        r.doji ==> spec_pattern_name(r) == "DOJI"@,
        !r.doji ==> spec_pattern_name(r) != "DOJI"@,
{
    reveal_strlit("DOJI");
    reveal_strlit("B");
    reveal_strlit("BEARISH_MARUBOZU");
    reveal_strlit("U");
    reveal_strlit("BEARISH");
    assert("DOJI"@.len() == 4);
    assert("B"@.len() == 1);
    assert("U"@.len() == 1);
    assert("BEARISH"@.len() == 7);
    assert("BEARISH_MARUBOZU"@.len() == 16);
}

/// A bar that is not a doji and does not close above its open is named
/// `BEARISH_MARUBOZU` when its body is strong and falling, and `BEARISH`
/// otherwise.
pub proof fn lemma_downward_patterns(r: PatternReadings)
    requires
        !r.doji,
        !r.rising,
    ensures
        r.falling && r.strong ==> spec_pattern_name(r) == "BEARISH_MARUBOZU"@,
        !(r.falling && r.strong) ==> spec_pattern_name(r) == "BEARISH"@,
{
}

} // verus!
