use hyperion_adco::continuum::{transition, PhaseGuards, Transition};
use hyperion_adco::data::candle_builder::{pattern_name, BarClock, BarStep, PatternReadings, BAR_DURATION_NS};
use hyperion_adco::data::realtime::Replay;
use hyperion_adco::engine::execution::{breakout, BreakoutReadings, ExecutionEngine, SignalKind};
use hyperion_adco::engine::state::EngineState;
use hyperion_adco::phase::{detect_phase, PhaseReadings, MAX_BUFFER_BARS, MIN_PHASE_BARS};
use hyperion_adco::state::{in_kill_zone, GlobalState};
use hyperion_adco::types::{Action, Phase};

fn guards(veto: bool, energized: bool, near_erl_target: bool, near_equilibrium: bool) -> PhaseGuards {
    PhaseGuards { veto, energized, near_erl_target, near_equilibrium }
}

#[test]
fn phase_and_action_names() {
    assert_eq!(Phase::Accumulation.to_string(), "ACCUMULATION");
    assert_eq!(Phase::Manipulation.to_string(), "MANIPULATION");
    assert_eq!(Phase::Distribution.to_string(), "DISTRIBUTION");
    assert_eq!(Phase::Expansion.to_string(), "EXPANSION");
    assert_eq!(Phase::Retracement.to_string(), "RETRACEMENT");
    assert_eq!(Phase::Reversal.to_string(), "REVERSAL");
    assert_eq!(Phase::Consolidation.to_string(), "CONSOLIDATION");
    assert_eq!(Phase::Flat.to_string(), "FLAT");
    assert_eq!(Action::Buy.to_string(), "BUY");
    assert_eq!(Action::Sell.to_string(), "SELL");
    assert_eq!(Action::Flat.to_string(), "FLAT");
}

#[test]
fn signal_text_selects_action() {
    assert_eq!(Action::from_signal("BUY"), Action::Buy);
    assert_eq!(Action::from_signal("SELL"), Action::Sell);
    assert_eq!(Action::from_signal("buy"), Action::Sell);
    assert_eq!(Action::from_signal("BUY "), Action::Sell);
    assert_eq!(Action::from_signal(""), Action::Sell);
}

#[test]
fn consolidation_breaks_out_when_energized_without_veto() {
    let t = transition(Phase::Consolidation, guards(false, true, false, false));
    assert_eq!(t, Transition { phase: Phase::Expansion, reset_energy: true });
}

#[test]
fn veto_holds_consolidation() {
    let t = transition(Phase::Consolidation, guards(true, true, false, false));
    assert_eq!(t, Transition { phase: Phase::Consolidation, reset_energy: false });
    let t = transition(Phase::Consolidation, guards(false, false, true, false));
    assert_eq!(t, Transition { phase: Phase::Consolidation, reset_energy: false });
}

#[test]
fn expansion_reverses_at_erl_target() {
    let t = transition(Phase::Expansion, guards(false, true, true, true));
    assert_eq!(t, Transition { phase: Phase::Reversal, reset_energy: false });
    let t = transition(Phase::Expansion, guards(false, true, false, false));
    assert_eq!(t, Transition { phase: Phase::Expansion, reset_energy: false });
}

#[test]
fn equilibrium_returns_to_consolidation() {
    for p in [Phase::Retracement, Phase::Reversal, Phase::Flat, Phase::Accumulation] {
        let t = transition(p, guards(false, true, false, true));
        assert_eq!(t, Transition { phase: Phase::Consolidation, reset_energy: false });
    }
    let t = transition(Phase::Reversal, guards(false, true, true, false));
    assert_eq!(t, Transition { phase: Phase::Reversal, reset_energy: false });
}

#[test]
fn expansion_retraces_at_equilibrium() {
    let t = transition(Phase::Expansion, guards(false, false, false, true));
    assert_eq!(t, Transition { phase: Phase::Retracement, reset_energy: false });
    let t = transition(Phase::Retracement, guards(false, false, false, true));
    assert_eq!(t, Transition { phase: Phase::Consolidation, reset_energy: false });
    let t = transition(Phase::Retracement, guards(false, true, true, false));
    assert_eq!(t, Transition { phase: Phase::Retracement, reset_energy: false });
    let t = transition(Phase::Expansion, guards(false, false, true, true));
    assert_eq!(t, Transition { phase: Phase::Reversal, reset_energy: false });
}

#[test]
fn short_history_is_flat() {
    let all = PhaseReadings { displacement: true, violent: true, quiet: true, expanding: true };
    assert_eq!(detect_phase(0, all), Phase::Flat);
    assert_eq!(detect_phase(39, all), Phase::Flat);
    assert_eq!(MIN_PHASE_BARS, 40);
    assert_eq!(MAX_BUFFER_BARS, 86_400);
}

#[test]
fn phase_decision_order() {
    let r = |displacement, violent, quiet, expanding| PhaseReadings { displacement, violent, quiet, expanding };
    assert_eq!(detect_phase(40, r(true, true, true, true)), Phase::Manipulation);
    assert_eq!(detect_phase(40, r(true, false, true, true)), Phase::Expansion);
    assert_eq!(detect_phase(100, r(false, true, true, true)), Phase::Accumulation);
    assert_eq!(detect_phase(100, r(false, true, false, true)), Phase::Distribution);
    assert_eq!(detect_phase(100, r(false, true, false, false)), Phase::Consolidation);
    assert_eq!(detect_phase(100, PhaseReadings::neutral()), Phase::Consolidation);
}

#[test]
fn engine_state_keeps_last_capacity() {
    let mut s: EngineState<u32> = EngineState::new(3);
    assert!(s.candles.is_empty());
    for i in 1..=5u32 {
        s.push(i);
    }
    assert_eq!(s.candles, vec![3, 4, 5]);
    assert_eq!(s.capacity, 3);
    s.push(6);
    assert_eq!(s.candles, vec![4, 5, 6]);
}

#[test]
fn engine_state_zero_capacity_holds_nothing() {
    let mut s: EngineState<u32> = EngineState::new(0);
    s.push(7);
    assert!(s.candles.is_empty());
}

#[test]
fn latest_returns_tail() {
    let mut s: EngineState<String> = EngineState::new(100);
    for name in ["a", "b", "c", "d"] {
        s.push(name.to_string());
    }
    assert_eq!(s.latest(2), vec!["c".to_string(), "d".to_string()]);
    assert_eq!(s.latest(10), vec!["a", "b", "c", "d"]);
    assert!(s.latest(0).is_empty());
}

#[test]
fn bar_clock_opens_extends_and_closes() {
    let mut c = BarClock::new();
    assert_eq!(c.step(1_000), BarStep::Opened);
    assert_eq!(c.step(1_000 + BAR_DURATION_NS - 1), BarStep::Extended);
    assert_eq!(c.step(1_000 + BAR_DURATION_NS), BarStep::Closed { bar_start: 1_000 });
    assert_eq!(c.step(1_000 + 2 * BAR_DURATION_NS - 1), BarStep::Extended);
    assert_eq!(
        c.step(1_000 + 5 * BAR_DURATION_NS),
        BarStep::Closed { bar_start: 1_000 + BAR_DURATION_NS }
    );
}

#[test]
fn bar_clock_ignores_earlier_ticks_and_extremes() {
    let mut c = BarClock::new();
    assert_eq!(c.step(i128::MAX - 5), BarStep::Opened);
    assert_eq!(c.step(i128::MAX), BarStep::Extended);
    assert_eq!(c.step(i128::MIN), BarStep::Extended);
    let mut d = BarClock::new();
    assert_eq!(d.step(i128::MIN), BarStep::Opened);
    assert_eq!(d.step(i128::MAX), BarStep::Closed { bar_start: i128::MIN });
}

#[test]
fn pattern_names() {
    let r = |doji, rising, falling, strong| PatternReadings { doji, rising, falling, strong };
    assert_eq!(pattern_name(r(true, true, false, true)), "DOJI");
    assert_eq!(pattern_name(r(false, true, false, true)), "B");
    assert_eq!(pattern_name(r(false, false, true, true)), "BEARISH_MARUBOZU");
    assert_eq!(pattern_name(r(false, true, false, false)), "U");
    assert_eq!(pattern_name(r(false, false, true, false)), "BEARISH");
    assert_eq!(pattern_name(r(false, false, false, true)), "BEARISH");
}

#[test]
fn replay_hands_out_in_order_then_stops() {
    let mut r = Replay::new(vec![10u8, 20, 30]);
    assert_eq!(r.next(), Some((10, 0)));
    assert_eq!(r.next(), Some((20, 1)));
    assert_eq!(r.next(), Some((30, 2)));
    assert_eq!(r.next(), None);
    assert_eq!(r.next(), None);
}

#[test]
fn breakout_rules() {
    let strong_up = BreakoutReadings {
        strong_body: true,
        rising: true,
        falling: false,
        above_prev_high: true,
        below_prev_low: false,
    };
    assert_eq!(breakout(2, strong_up), None);
    assert_eq!(
        breakout(3, strong_up),
        Some(SignalKind { action: Action::Buy, phase: Phase::Expansion })
    );
    let strong_down = BreakoutReadings {
        strong_body: true,
        rising: false,
        falling: true,
        above_prev_high: false,
        below_prev_low: true,
    };
    assert_eq!(
        breakout(50, strong_down),
        Some(SignalKind { action: Action::Sell, phase: Phase::Distribution })
    );
    let weak = BreakoutReadings { strong_body: false, ..strong_up };
    assert_eq!(breakout(50, weak), None);
    let inside = BreakoutReadings { above_prev_high: false, ..strong_up };
    assert_eq!(breakout(50, inside), None);
    assert_eq!(breakout(50, BreakoutReadings::neutral()), None);
}

#[test]
fn global_state_default_and_passes() {
    let mut s = GlobalState::default();
    assert_eq!(s.ipda_phase, Phase::Flat);
    assert!(!s.kill_zone_active);
    assert_eq!(s.mandra_gate_level, 0);
    assert_eq!(s.ipda_lookback, 20);
    assert_eq!(s.accumulation_start_ts, None);
    assert!(s.open_positions.is_empty());
    s.advance_ipda();
    assert_eq!(s.ipda_phase, Phase::Accumulation);
    s.ipda_phase = Phase::Distribution;
    s.advance_ipda();
    assert_eq!(s.ipda_phase, Phase::Distribution);
    s.update_kill_zone(9);
    assert!(s.kill_zone_active);
    assert_eq!(s.ipda_phase, Phase::Distribution);
    s.update_kill_zone(20);
    assert!(!s.kill_zone_active);
    assert_eq!(s.ipda_lookback, 20);
}

#[test]
fn execution_engine_records_and_signals() {
    let up = BreakoutReadings {
        strong_body: true,
        rising: true,
        falling: false,
        above_prev_high: true,
        below_prev_low: false,
    };
    let mut e: ExecutionEngine<u32> = ExecutionEngine::new(3);
    assert_eq!(e.state.capacity, 3);
    assert_eq!(e.process_candle(1, up), None);
    assert_eq!(e.process_candle(2, up), None);
    assert_eq!(
        e.process_candle(3, up),
        Some(SignalKind { action: Action::Buy, phase: Phase::Expansion })
    );
    assert_eq!(e.process_candle(4, BreakoutReadings::neutral()), None);
    assert_eq!(e.state.candles, vec![2, 3, 4]);
}

#[test]
fn small_engine_never_signals() {
    let up = BreakoutReadings {
        strong_body: true,
        rising: true,
        falling: false,
        above_prev_high: true,
        below_prev_low: false,
    };
    let mut e: ExecutionEngine<u32> = ExecutionEngine::new(2);
    for i in 0..10 {
        assert_eq!(e.process_candle(i, up), None);
    }
    assert_eq!(e.state.candles, vec![8, 9]);
}

#[test]
fn kill_zone_sessions() {
    assert!(!in_kill_zone(0));
    assert!(!in_kill_zone(7));
    assert!(in_kill_zone(8));
    assert!(in_kill_zone(11));
    assert!(in_kill_zone(12));
    assert!(in_kill_zone(17));
    assert!(!in_kill_zone(18));
    assert!(!in_kill_zone(23));
    assert!(!in_kill_zone(u32::MAX));
}
