use vstd::prelude::*;
use crate::types::Phase;

verus! {

/// What the Hamiltonian engine observed on one price update, each reading
/// already decided against its threshold:
/// - `veto`: the displacement veto is active (the move is not an
///   institutional displacement);
/// - `energized`: the engine's energy is above its expansion threshold;
/// - `near_erl_target`: the price is within reach of the External Range
///   Liquidity target;
/// - `near_equilibrium`: the price is within reach of the 50% equilibrium.
#[derive(Debug, Clone, Copy, PartialEq, Eq, Structural)]
pub struct PhaseGuards {
    pub veto: bool,
    pub energized: bool,
    pub near_erl_target: bool,
    pub near_equilibrium: bool,
}

/// The outcome of one update: the next phase, and whether the energy
/// accumulated so far is spent (set back to zero).
#[derive(Debug, Clone, Copy, PartialEq, Eq, Structural)]
pub struct Transition {
    pub phase: Phase,
    pub reset_energy: bool,
}

/// The phase state machine of the Hamiltonian engine.
///
/// Consolidation moves to Expansion, spending the energy, when the energy
/// is high and no veto is active; Expansion moves to Reversal when the
/// price reaches the ERL target, and to Retracement when the price falls
/// back to equilibrium instead (a pull-back to the 50% level during an
/// expansion is what retracing that expansion means, and equilibrium is the
/// only level the engine watches besides the ERL target); in every other
/// case a price at
/// equilibrium brings the engine back to Consolidation, and otherwise the
/// phase stays where it is.
pub open spec fn spec_transition(state: Phase, guards: PhaseGuards) -> Transition {
    if state == Phase::Consolidation && !guards.veto && guards.energized {
        Transition { phase: Phase::Expansion, reset_energy: true }
    } else if state == Phase::Expansion && guards.near_erl_target {
        Transition { phase: Phase::Reversal, reset_energy: false }
    } else if state == Phase::Expansion && guards.near_equilibrium {
        Transition { phase: Phase::Retracement, reset_energy: false }
    } else if guards.near_equilibrium {
        Transition { phase: Phase::Consolidation, reset_energy: false }
    } else {
        Transition { phase: state, reset_energy: false }
    }
}

/// Computes the engine's next phase from its current phase and the
/// readings of one price update.
pub fn transition(state: Phase, guards: PhaseGuards) -> (t: Transition)
    ensures
        t == spec_transition(state, guards),
{
    match state {
        Phase::Consolidation if !guards.veto && guards.energized => {
            Transition { phase: Phase::Expansion, reset_energy: true }
        },
        Phase::Expansion if guards.near_erl_target => {
            Transition { phase: Phase::Reversal, reset_energy: false }
        },
        Phase::Expansion if guards.near_equilibrium => {
            Transition { phase: Phase::Retracement, reset_energy: false }
        },
        _ => {
            if guards.near_equilibrium {
                Transition { phase: Phase::Consolidation, reset_energy: false }
            } else {
                Transition { phase: state, reset_energy: false }
            }
        },
    }
}

/// The engine enters Expansion only from Consolidation, and only when the
/// energy is above its threshold and no displacement veto is active.
pub proof fn lemma_expansion_entry(state: Phase, guards: PhaseGuards)
    requires
        state != Phase::Expansion,
        spec_transition(state, guards).phase == Phase::Expansion,
    ensures
        state == Phase::Consolidation,
        !guards.veto,
        guards.energized,
{
}

/// The engine enters Reversal only from Expansion, when the price reaches
/// the ERL target.
pub proof fn lemma_reversal_entry(state: Phase, guards: PhaseGuards)
    requires
        state != Phase::Reversal,
        spec_transition(state, guards).phase == Phase::Reversal,
    ensures
        state == Phase::Expansion,
        guards.near_erl_target,
{
}

/// The energy is spent exactly when the engine breaks out of
/// Consolidation into Expansion.
pub proof fn lemma_energy_spent_on_breakout(state: Phase, guards: PhaseGuards)
    ensures
        spec_transition(state, guards).reset_energy <==> (state == Phase::Consolidation
            && spec_transition(state, guards).phase == Phase::Expansion),
{
}

/// The engine enters Retracement only from Expansion, when the price falls
/// back to equilibrium without reaching the ERL target.
pub proof fn lemma_retracement_entry(state: Phase, guards: PhaseGuards)
    requires
        state != Phase::Retracement,
        spec_transition(state, guards).phase == Phase::Retracement,
    ensures
        state == Phase::Expansion,
        guards.near_equilibrium,
        !guards.near_erl_target,
{
}

/// From Consolidation, the engine passes through Expansion into
/// Retracement and back to Consolidation: a breakout followed by a return
/// to equilibrium, held there for one more update.
pub proof fn lemma_retracement_cycle(veto_free_breakout: PhaseGuards, at_equilibrium: PhaseGuards)
    requires
        !veto_free_breakout.veto,
        veto_free_breakout.energized,
        at_equilibrium.near_equilibrium,
        !at_equilibrium.near_erl_target,
    ensures
        spec_transition(Phase::Consolidation, veto_free_breakout).phase == Phase::Expansion,
        spec_transition(Phase::Expansion, at_equilibrium).phase == Phase::Retracement,
        spec_transition(Phase::Retracement, at_equilibrium).phase == Phase::Consolidation,
{
}

/// A single update never leads to a phase other than the current one,
/// Expansion, Reversal, Retracement or Consolidation.
pub proof fn lemma_reachable_phases(state: Phase, guards: PhaseGuards)
    ensures
        ({
            let next = spec_transition(state, guards).phase;
            next == state || next == Phase::Expansion || next == Phase::Reversal || next
                == Phase::Retracement || next == Phase::Consolidation
        }),
{
}

/// With the price away from both targets and no breakout, the phase is
/// left as it is.
pub proof fn lemma_quiet_update_keeps_phase(state: Phase, guards: PhaseGuards)
    requires
        !guards.near_equilibrium,
        !guards.near_erl_target,
        guards.veto || !guards.energized,
    ensures
        spec_transition(state, guards) == (Transition { phase: state, reset_energy: false }),
{
}

/// Each update is decided by the guards that matter in the current phase,
/// whatever the others read: a veto-free, energized Consolidation breaks
/// out into Expansion and spends the energy; an Expansion that reaches the
/// ERL target reverses, and one that falls back to equilibrium short of the
/// target retraces; in any other phase that is not breaking out, a price at
/// equilibrium returns the engine to Consolidation. None of these moves
/// but the breakout spends the energy.
pub proof fn lemma_transition_by_guards(state: Phase, g: PhaseGuards)
    ensures
        state == Phase::Consolidation && !g.veto && g.energized ==> spec_transition(state, g)
            == (Transition { phase: Phase::Expansion, reset_energy: true }),
        state == Phase::Expansion && g.near_erl_target ==> spec_transition(state, g) == (
        Transition { phase: Phase::Reversal, reset_energy: false }),
        state == Phase::Expansion && !g.near_erl_target && g.near_equilibrium ==> spec_transition(
            state,
            g,
        ) == (Transition { phase: Phase::Retracement, reset_energy: false }),
        state != Phase::Expansion && !(state == Phase::Consolidation && !g.veto && g.energized)
            && g.near_equilibrium ==> spec_transition(state, g) == (Transition {
            phase: Phase::Consolidation,
            reset_energy: false,
        }),
{
}

} // verus!
