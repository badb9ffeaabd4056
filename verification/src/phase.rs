use vstd::prelude::*;
use crate::types::Phase;

verus! {

/// Bars that the phase buffer holds at most: sixty days of one-minute bars.
pub const MAX_BUFFER_BARS: usize = 1440 * 60;

/// Bars of history below which no phase is detected.
pub const MIN_PHASE_BARS: usize = 40;

/// Readings of the last bar against the twenty-bar ATR and the
/// twenty-bar average volume, each already decided against its threshold:
/// - `displacement`: the body is more than 70% of the range and the range is
///   more than 1.2 ATR;
/// - `violent`: the range is more than 2.5 ATR and the volume more than 1.5
///   times the average;
/// - `quiet`: the range is less than 0.8 ATR and the volume below average;
/// - `expanding`: the range is more than 1.5 ATR and the volume above
///   average.
#[derive(Debug, Clone, Copy, PartialEq, Eq, Structural)]
pub struct PhaseReadings {
    pub displacement: bool,
    pub violent: bool,
    pub quiet: bool,
    pub expanding: bool,
}

impl PhaseReadings {
    /// Readings in which no threshold is crossed.
    pub fn neutral() -> (r: PhaseReadings)
        ensures
            !r.displacement,
            !r.violent,
            !r.quiet,
            !r.expanding,
    {
        PhaseReadings { displacement: false, violent: false, quiet: false, expanding: false }
    }
}

/// The IPDA phase of a history of `n_bars` bars whose last bar gave
/// `readings`:
/// - with fewer than forty bars, Flat;
/// - a displacement is Manipulation when it is violent, Expansion otherwise;
/// - a quiet bar is Accumulation;
/// - an expanding bar is Distribution;
/// - anything else is Consolidation.
pub open spec fn spec_detect_phase(n_bars: nat, readings: PhaseReadings) -> Phase {
    if n_bars < MIN_PHASE_BARS {
        Phase::Flat
    } else if readings.displacement {
        if readings.violent {
            Phase::Manipulation
        } else {
            Phase::Expansion
        }
    } else if readings.quiet {
        Phase::Accumulation
    } else if readings.expanding {
        Phase::Distribution
    } else {
        Phase::Consolidation
    }
}

/// Classifies the IPDA phase of a bar history from its length and the
/// readings of its last bar.
pub fn detect_phase(n_bars: usize, readings: PhaseReadings) -> (p: Phase)
    ensures
        p == spec_detect_phase(n_bars as nat, readings),
{
    if n_bars < MIN_PHASE_BARS {
        return Phase::Flat;
    }
    if readings.displacement {
        if readings.violent {
            return Phase::Manipulation;
        }
        return Phase::Expansion;
    }
    if readings.quiet {
        return Phase::Accumulation;
    }
    if readings.expanding {
        return Phase::Distribution;
    }
    Phase::Consolidation
}

/// Manipulation and Expansion are only ever detected on a displacement bar,
/// and a displacement bar on a long enough history is always one of them.
pub proof fn lemma_displacement_phases(n_bars: nat, readings: PhaseReadings)
    ensures
        ({
            let p = spec_detect_phase(n_bars, readings);
            (p == Phase::Manipulation || p == Phase::Expansion) <==> (n_bars >= MIN_PHASE_BARS
                && readings.displacement)
        }),
{
}

/// The detector never reports Retracement or Reversal, and reports Flat
/// exactly on a history that is too short.
pub proof fn lemma_detected_range(n_bars: nat, readings: PhaseReadings)
    ensures
        spec_detect_phase(n_bars, readings) != Phase::Retracement,
        spec_detect_phase(n_bars, readings) != Phase::Reversal,
        (spec_detect_phase(n_bars, readings) == Phase::Flat) <==> n_bars < MIN_PHASE_BARS,
{
}

/// On a history of at least forty bars, each reading decides the phase on
/// its own terms, whatever the later readings say: a violent displacement is
/// Manipulation, any other displacement Expansion; without displacement a
/// quiet bar is Accumulation, an expanding bar that is not quiet is
/// Distribution, and a bar with none of these readings is Consolidation.
/// On a shorter history the phase is Flat, whatever the readings.
pub proof fn lemma_phase_by_readings(n_bars: nat, r: PhaseReadings)
    ensures
        n_bars < MIN_PHASE_BARS ==> spec_detect_phase(n_bars, r) == Phase::Flat,
        n_bars >= MIN_PHASE_BARS && r.displacement && r.violent ==> spec_detect_phase(n_bars, r)
            == Phase::Manipulation,
        n_bars >= MIN_PHASE_BARS && r.displacement && !r.violent ==> spec_detect_phase(n_bars, r)
            == Phase::Expansion,
        n_bars >= MIN_PHASE_BARS && !r.displacement && r.quiet ==> spec_detect_phase(n_bars, r)
            == Phase::Accumulation,
        n_bars >= MIN_PHASE_BARS && !r.displacement && !r.quiet && r.expanding
            ==> spec_detect_phase(n_bars, r) == Phase::Distribution,
        n_bars >= MIN_PHASE_BARS && !r.displacement && !r.quiet && !r.expanding
            ==> spec_detect_phase(n_bars, r) == Phase::Consolidation,
{
}

/// The phase of a history of at least forty bars does not depend on how
/// long the history is beyond that.
pub proof fn lemma_phase_length_independent(n_bars: nat, m_bars: nat, r: PhaseReadings)
    requires
        n_bars >= MIN_PHASE_BARS,
        m_bars >= MIN_PHASE_BARS,
    ensures
        spec_detect_phase(n_bars, r) == spec_detect_phase(m_bars, r),
{
}

} // verus!
