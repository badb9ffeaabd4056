use vstd::prelude::*;
use vstd::string::*;

verus! {

/// Phase of the Interbank Price Delivery cycle that the engine believes
/// the market to be in.
#[derive(Debug, Clone, Copy, PartialEq, Eq, Structural)]
pub enum Phase {
    Accumulation,
    Manipulation,
    Distribution,
    Expansion,
    Retracement,
    Reversal,
    Consolidation,
    Flat,
}

impl Phase {
    /// The upper-case name under which a phase is shown.
    pub open spec fn label(self) -> Seq<char> {
        match self {
            Phase::Accumulation => "ACCUMULATION"@,
            Phase::Manipulation => "MANIPULATION"@,
            Phase::Distribution => "DISTRIBUTION"@,
            Phase::Expansion => "EXPANSION"@,
            Phase::Retracement => "RETRACEMENT"@,
            Phase::Reversal => "REVERSAL"@,
            Phase::Consolidation => "CONSOLIDATION"@,
            Phase::Flat => "FLAT"@,
        }
    }

    /// The phase's name in upper case, as it is displayed.
    pub fn to_string(&self) -> (s: String)
        ensures
            s@ == self.label(),
    {
        match self {
            Phase::Accumulation => String::from_str("ACCUMULATION"),
            Phase::Manipulation => String::from_str("MANIPULATION"),
            Phase::Distribution => String::from_str("DISTRIBUTION"),
            Phase::Expansion => String::from_str("EXPANSION"),
            Phase::Retracement => String::from_str("RETRACEMENT"),
            Phase::Reversal => String::from_str("REVERSAL"),
            Phase::Consolidation => String::from_str("CONSOLIDATION"),
            Phase::Flat => String::from_str("FLAT"),
        }
    }
}

/// Direction of a trade decision.
#[derive(Debug, Clone, Copy, PartialEq, Eq, Structural)]
pub enum Action {
    Buy,
    Sell,
    Flat,
}

impl Action {
    /// The upper-case name under which an action is shown.
    pub open spec fn label(self) -> Seq<char> {
        match self {
            Action::Buy => "BUY"@,
            Action::Sell => "SELL"@,
            Action::Flat => "FLAT"@,
        }
    }

    /// The action's name in upper case, as it is displayed.
    pub fn to_string(&self) -> (s: String)
        ensures
            s@ == self.label(),
    {
        match self {
            Action::Buy => String::from_str("BUY"),
            Action::Sell => String::from_str("SELL"),
            Action::Flat => String::from_str("FLAT"),
        }
    }

    /// The action that an execution request names: exactly the text `BUY`
    /// buys, any other text sells.
    pub open spec fn spec_from_signal(signal: Seq<char>) -> Action {
        if signal == "BUY"@ {
            Action::Buy
        } else {
            Action::Sell
        }
    }

    /// Reads the action of an execution request from its signal text.
    pub fn from_signal(signal: &str) -> (a: Action)
        ensures
            a == Action::spec_from_signal(signal@),
    {
        if str_equal(signal, "BUY") {
            Action::Buy
        } else {
            Action::Sell
        }
    }
}

/// Distinct phases are shown under distinct names.
pub proof fn lemma_phase_labels_distinct(a: Phase, b: Phase)
    requires
        a != b,
    ensures
        a.label() != b.label(),
{
    reveal_strlit("ACCUMULATION");
    reveal_strlit("MANIPULATION");
    reveal_strlit("DISTRIBUTION");
    reveal_strlit("EXPANSION");
    reveal_strlit("RETRACEMENT");
    reveal_strlit("REVERSAL");
    reveal_strlit("CONSOLIDATION");
    reveal_strlit("FLAT");
    if a.label() == b.label() {
        assert(a.label()[0] == b.label()[0]);
        assert(a.label()[2] == b.label()[2]);
        assert(a.label().len() == b.label().len());
    }
}

/// Distinct actions are shown under distinct names.
pub proof fn lemma_action_labels_distinct(a: Action, b: Action)
    requires
        a != b,
    ensures
        a.label() != b.label(),
{
    reveal_strlit("BUY");
    reveal_strlit("SELL");
    reveal_strlit("FLAT");
    if a.label() == b.label() {
        assert(a.label()[0] == b.label()[0]);
    }
}

/// An execution request buys exactly when its signal is the text `BUY`;
/// every other signal sells, and no signal reads as Flat.
pub proof fn lemma_signal_actions(signal: Seq<char>)
    ensures
        Action::spec_from_signal(signal) == Action::Buy <==> signal == "BUY"@,
        Action::spec_from_signal(signal) == Action::Sell <==> signal != "BUY"@,
        Action::spec_from_signal(signal) != Action::Flat,
{
}

/// Character-wise equality of two string slices.
pub(crate) fn str_equal(a: &str, b: &str) -> (r: bool)
    ensures
        r == (a@ == b@),
{
    let n = a.unicode_len();
    let m = b.unicode_len();
    if n != m {
        return false;
    }
    let mut i: usize = 0;
    while i < n
        invariant
            n == a@.len(),
            m == b@.len(),
            n == m,
            i <= n,
            forall|j: int| 0 <= j < i ==> a@[j] == b@[j],
        decreases n - i,
    {
        if a.get_char(i) != b.get_char(i) {
            return false;
        }
        i = i + 1;
    }
    assert(a@ =~= b@);
    true
}

} // verus!
