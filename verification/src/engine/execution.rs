use vstd::prelude::*;
use crate::types::{Action, Phase};
use crate::engine::state::{spec_after_push, spec_push_all, lemma_push_all_window, EngineState};

verus! {

/// Candles the engine must hold before it looks for a breakout.
pub const MIN_SIGNAL_CANDLES: usize = 3;

/// Readings of the newest candle against the one before it, each already
/// decided against its threshold:
/// - `strong_body`: the body is more than 65% of the range;
/// - `rising` / `falling`: the candle closed above / below its open;
/// - `above_prev_high` / `below_prev_low`: the close is above the previous
///   candle's high / below its low.
#[derive(Debug, Clone, Copy, PartialEq, Eq, Structural)]
pub struct BreakoutReadings {
    pub strong_body: bool,
    pub rising: bool,
    pub falling: bool,
    pub above_prev_high: bool,
    pub below_prev_low: bool,
}

impl BreakoutReadings {
    /// Readings in which no threshold is crossed.
    pub fn neutral() -> (r: BreakoutReadings)
        ensures
            !r.strong_body,
            !r.rising,
            !r.falling,
            !r.above_prev_high,
            !r.below_prev_low,
    {
        BreakoutReadings {
            strong_body: false,
            rising: false,
            falling: false,
            above_prev_high: false,
            below_prev_low: false,
        }
    }
}

/// The trade that a breakout calls for, and the phase it is tagged with.
#[derive(Debug, Clone, Copy, PartialEq, Eq, Structural)]
pub struct SignalKind {
    pub action: Action,
    pub phase: Phase,
}

/// The engine's breakout rule on a buffer of `n_candles` candles: with at
/// least three candles, a strong rising candle closing above the previous
/// high is a buy tagged Expansion, a strong falling candle closing below
/// the previous low is a sell tagged Distribution, and nothing else
/// signals.
pub open spec fn spec_breakout(n_candles: nat, r: BreakoutReadings) -> Option<SignalKind> {
    if n_candles < MIN_SIGNAL_CANDLES {
        None
    } else if r.strong_body && r.rising && r.above_prev_high {
        Some(SignalKind { action: Action::Buy, phase: Phase::Expansion })
    } else if r.strong_body && r.falling && r.below_prev_low {
        Some(SignalKind { action: Action::Sell, phase: Phase::Distribution })
    } else {
        None
    }
}

/// Decides whether the newest candle is a breakout, and which trade it
/// calls for.
pub fn breakout(n_candles: usize, readings: BreakoutReadings) -> (s: Option<SignalKind>)
    ensures
        s == spec_breakout(n_candles as nat, readings),
{
    if n_candles < MIN_SIGNAL_CANDLES {
        return None;
    }
    if readings.strong_body && readings.rising && readings.above_prev_high {
        return Some(SignalKind { action: Action::Buy, phase: Phase::Expansion });
    }
    if readings.strong_body && readings.falling && readings.below_prev_low {
        return Some(SignalKind { action: Action::Sell, phase: Phase::Distribution });
    }
    None
}

/// The execution engine: the buffer of recent candles and the breakout
/// rule applied to each new candle.
pub struct ExecutionEngine<T> {
    pub state: EngineState<T>,
}

impl<T> ExecutionEngine<T> {
    /// An engine whose buffer keeps at most `capacity` candles.
    pub fn new(capacity: usize) -> (e: Self)
        ensures
            e.state.candles@ == Seq::<T>::empty(),
            e.state.capacity == capacity,
    {
        ExecutionEngine { state: EngineState::new(capacity) }
    }

    /// Records a new candle and applies the breakout rule to it.
    /// `readings` compare the new candle with the newest candle held
    /// before it.
    pub fn process_candle(&mut self, candle: T, readings: BreakoutReadings) -> (s: Option<SignalKind>)
        ensures
            final(self).state.candles@ == spec_after_push(
                old(self).state.candles@,
                candle,
                old(self).state.capacity as nat,
            ),
            final(self).state.capacity == old(self).state.capacity,
            s == spec_breakout(final(self).state.candles@.len(), readings),
    {
        self.state.push(candle);
        breakout(self.state.candles.len(), readings)
    }
}

/// Whenever the buffer holds enough candles for a breakout, the candle
/// before the newest one is the newest candle held before the push, so the
/// readings taken against it before the push are the ones the rule needs.
pub proof fn lemma_previous_candle<T>(items: Seq<T>, item: T, capacity: nat)
    requires
        spec_after_push(items, item, capacity).len() >= MIN_SIGNAL_CANDLES,
    ensures
        ({
            let after = spec_after_push(items, item, capacity);
            &&& after.last() == item
            &&& after[after.len() - 2] == items.last()
        }),
{
}

/// An engine whose buffer keeps fewer than three candles never signals:
/// after any sequence of candles fed to a new engine, the buffer is too
/// short for the breakout rule, whatever the readings.
pub proof fn lemma_small_engine_silent<T>(pushed: Seq<T>, capacity: nat, readings: BreakoutReadings)
    requires
        capacity < MIN_SIGNAL_CANDLES,
    ensures
        spec_push_all(Seq::<T>::empty(), pushed, capacity).len() <= capacity,
        spec_breakout(spec_push_all(Seq::<T>::empty(), pushed, capacity).len(), readings) is None,
{
    lemma_push_all_window(pushed, capacity);
}

/// Every signal is a buy tagged Expansion or a sell tagged Distribution;
/// a buy needs a strong rising candle above the previous high, a sell a
/// strong falling candle below the previous low; the engine never signals
/// Flat.
pub proof fn lemma_signal_shape(n_candles: nat, r: BreakoutReadings)
    ensures
        spec_breakout(n_candles, r) matches Some(k) ==> {
            &&& n_candles >= MIN_SIGNAL_CANDLES
            &&& r.strong_body
            &&& k.action != Action::Flat
            &&& k.action == Action::Buy ==> (k.phase == Phase::Expansion && r.rising
                && r.above_prev_high)
            &&& k.action == Action::Sell ==> (k.phase == Phase::Distribution && r.falling
                && r.below_prev_low)
        },
{
}

/// Once the buffer holds three candles, the rule depends on the readings
/// alone: the signal on a buffer of any length from three up is the same,
/// there is one exactly when a strong candle breaks the previous high
/// upward or the previous low downward, and a strong rising candle above
/// the previous high is always a buy tagged Expansion.
pub proof fn lemma_breakout_by_readings(n_candles: nat, m_candles: nat, r: BreakoutReadings)
    requires
        n_candles >= MIN_SIGNAL_CANDLES,
        m_candles >= MIN_SIGNAL_CANDLES,
    ensures
        spec_breakout(n_candles, r) == spec_breakout(m_candles, r),
        spec_breakout(n_candles, r) is Some <==> ((r.strong_body && r.rising && r.above_prev_high)
            || (r.strong_body && r.falling && r.below_prev_low)),
        r.strong_body && r.rising && r.above_prev_high ==> spec_breakout(n_candles, r) == Some(
            SignalKind { action: Action::Buy, phase: Phase::Expansion },
        ),
        r.strong_body && r.falling && r.below_prev_low && !(r.rising && r.above_prev_high)
            ==> spec_breakout(n_candles, r) == Some(
            SignalKind { action: Action::Sell, phase: Phase::Distribution },
        ),
{
}

} // verus!
