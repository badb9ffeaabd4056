use vstd::prelude::*;

verus! {

/// A request to the engine's run loop.
#[derive(Debug, Clone, Copy, PartialEq, Eq, Structural)]
pub enum RunRequest {
    Start,
    Stop,
}

/// The engine's answer to a run request: whether it is running afterwards,
/// and whether a worker must be spawned for it.
#[derive(Debug, Clone, Copy, PartialEq, Eq, Structural)]
pub struct RunStep {
    pub running: bool,
    pub spawn: bool,
}

/// Starting an engine that runs changes nothing; starting a stopped one
/// marks it running and spawns its worker; stopping marks it stopped.
pub open spec fn spec_run_step(running: bool, request: RunRequest) -> RunStep {
    match request {
        RunRequest::Start => RunStep { running: true, spawn: !running },
        RunRequest::Stop => RunStep { running: false, spawn: false },
    }
}

/// Decides what a start or stop request does to the run flag.
pub fn run_state_step(running: bool, request: RunRequest) -> (s: RunStep)
    ensures
        s == spec_run_step(running, request),
{
    match request {
        RunRequest::Start => {
            if running {
                RunStep { running: true, spawn: false }
            } else {
                RunStep { running: true, spawn: true }
            }
        },
        RunRequest::Stop => RunStep { running: false, spawn: false },
    }
}

/// Starting twice spawns one worker, as starting once does; a stop always
/// leaves the engine stopped, and a start after it spawns again.
pub proof fn lemma_start_idempotent(running: bool)
    ensures
        spec_run_step(spec_run_step(running, RunRequest::Start).running, RunRequest::Start)
            == (RunStep { running: true, spawn: false }),
        !spec_run_step(running, RunRequest::Stop).running,
        spec_run_step(spec_run_step(running, RunRequest::Stop).running, RunRequest::Start).spawn,
{
}

/// Which exchange the engine trades on.
#[derive(Debug, Clone, Copy, PartialEq, Eq, Structural)]
pub enum BrokerChoice {
    /// No broker: the engine runs on simulated ticks.
    Simulation,
    /// Bitget, with the API key found.
    Bitget,
    /// Bitget was asked for but no API key was found: simulated ticks.
    MissingKey,
}

/// Bitget is used when it is asked for and an API key is present.
pub open spec fn spec_choose_broker(use_bitget: bool, api_key: Seq<char>) -> BrokerChoice {
    if !use_bitget {
        BrokerChoice::Simulation
    } else if api_key.len() == 0 {
        BrokerChoice::MissingKey
    } else {
        BrokerChoice::Bitget
    }
}

/// Chooses the broker from the request flag and the API key found.
pub fn choose_broker(use_bitget: bool, api_key: &str) -> (c: BrokerChoice)
    ensures
        c == spec_choose_broker(use_bitget, api_key@),
{
    if !use_bitget {
        BrokerChoice::Simulation
    } else if api_key.is_empty() {
        BrokerChoice::MissingKey
    } else {
        BrokerChoice::Bitget
    }
}

/// Bitget is chosen exactly when it is asked for and an API key is present;
/// a request for Bitget without a key is reported as such, and a request
/// without Bitget always simulates, whatever the key.
pub proof fn lemma_broker_choice(use_bitget: bool, api_key: Seq<char>)
    ensures
        spec_choose_broker(use_bitget, api_key) == BrokerChoice::Bitget <==> (use_bitget
            && api_key.len() > 0),
        spec_choose_broker(use_bitget, api_key) == BrokerChoice::MissingKey <==> (use_bitget
            && api_key.len() == 0),
        spec_choose_broker(use_bitget, api_key) == BrokerChoice::Simulation <==> !use_bitget,
{
}

/// A start request on a stopped engine spawns one worker and leaves it
/// running; a stop request never spawns.
pub proof fn lemma_run_requests(running: bool)
    ensures
        spec_run_step(false, RunRequest::Start) == (RunStep { running: true, spawn: true }),
        spec_run_step(running, RunRequest::Start).running,
        !spec_run_step(running, RunRequest::Stop).spawn,
{
}

} // verus!
