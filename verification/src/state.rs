use vstd::prelude::*;
use crate::types::Phase;
use crate::config::KILL_ZONES;

verus! {

/// The shared state of the Adelic pipeline that its tasks read and update:
/// the current IPDA phase, whether a kill zone is active, the Mandra level,
/// the IPDA lookback in days, when accumulation started and the open
/// positions.
pub struct GlobalState {
    pub ipda_phase: Phase,
    pub kill_zone_active: bool,
    pub mandra_gate_level: i32,
    pub ipda_lookback: usize,
    pub accumulation_start_ts: Option<i64>,
    pub open_positions: Vec<String>,
}

impl Default for GlobalState {
    /// A flat market, no kill zone, Mandra level 0, a twenty-day lookback, no
    /// accumulation start and no open position.
    fn default() -> (s: GlobalState)
        ensures
            s.ipda_phase == Phase::Flat,
            !s.kill_zone_active,
            s.mandra_gate_level == 0,
            s.ipda_lookback == 20,
            s.accumulation_start_ts is None,
            s.open_positions@ == Seq::<String>::empty(),
    {
        GlobalState {
            ipda_phase: Phase::Flat,
            kill_zone_active: false,
            mandra_gate_level: 0,
            ipda_lookback: 20,
            accumulation_start_ts: None,
            open_positions: Vec::new(),
        }
    }
}

/// The phase that the IPDA core publishes: a flat market is taken to be
/// accumulating, any other phase is kept.
pub open spec fn spec_ipda_phase(phase: Phase) -> Phase {
    if phase == Phase::Flat {
        Phase::Accumulation
    } else {
        phase
    }
}

impl GlobalState {
    /// One pass of the IPDA core over the shared state.
    pub fn advance_ipda(&mut self)
        ensures
            final(self).ipda_phase == spec_ipda_phase(old(self).ipda_phase),
            final(self).kill_zone_active == old(self).kill_zone_active,
            final(self).mandra_gate_level == old(self).mandra_gate_level,
            final(self).ipda_lookback == old(self).ipda_lookback,
            final(self).accumulation_start_ts == old(self).accumulation_start_ts,
            final(self).open_positions@ == old(self).open_positions@,
    {
        if self.ipda_phase == Phase::Flat {
            self.ipda_phase = Phase::Accumulation;
        }
    }

    /// One pass of the kill-zone monitor at the given UTC hour: the kill
    /// zone is active exactly when the hour falls inside one of the
    /// configured sessions.
    pub fn update_kill_zone(&mut self, hour_utc: u32)
        ensures
            final(self).kill_zone_active == spec_in_kill_zone(hour_utc),
            final(self).ipda_phase == old(self).ipda_phase,
            final(self).mandra_gate_level == old(self).mandra_gate_level,
            final(self).ipda_lookback == old(self).ipda_lookback,
            final(self).accumulation_start_ts == old(self).accumulation_start_ts,
            final(self).open_positions@ == old(self).open_positions@,
    {
        self.kill_zone_active = in_kill_zone(hour_utc);
    }
}

/// Whether a UTC hour falls inside a kill zone: a session `(start, end)`
/// covers the hours from `start` up to, not including, `end`.
pub open spec fn spec_in_kill_zone(hour_utc: u32) -> bool {
    (KILL_ZONES[0].0 <= hour_utc < KILL_ZONES[0].1) || (KILL_ZONES[1].0 <= hour_utc
        < KILL_ZONES[1].1)
}

/// Decides whether a UTC hour falls inside a kill zone.
pub fn in_kill_zone(hour_utc: u32) -> (active: bool)
    ensures
        active == spec_in_kill_zone(hour_utc),
{
    let zones = KILL_ZONES;
    (zones[0].0 <= hour_utc && hour_utc < zones[0].1) || (zones[1].0 <= hour_utc && hour_utc
        < zones[1].1)
}

/// With the London (08-12) and New York (12-18) sessions, the kill zone is
/// active exactly from 08:00 to 17:59 UTC.
pub proof fn lemma_kill_zone_hours(hour_utc: u32)
    ensures
        spec_in_kill_zone(hour_utc) <==> 8 <= hour_utc < 18,
{
}

/// After the IPDA core has run, the published phase is never Flat, and
/// running it again changes nothing.
pub proof fn lemma_ipda_phase_settles(phase: Phase)
    ensures
        spec_ipda_phase(phase) != Phase::Flat,
        spec_ipda_phase(spec_ipda_phase(phase)) == spec_ipda_phase(phase),
{
}

/// The IPDA core changes only a flat market, which it takes to be
/// accumulating; every other phase is published as it is.
pub proof fn lemma_ipda_phase_keeps_non_flat(phase: Phase)
    ensures
        phase != Phase::Flat ==> spec_ipda_phase(phase) == phase,
        phase == Phase::Flat ==> spec_ipda_phase(phase) == Phase::Accumulation,
{
}

} // verus!
