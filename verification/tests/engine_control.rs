use hyperion_adco::sentinel::{choose_broker, run_state_step, BrokerChoice, RunRequest, RunStep};

#[test]
fn start_twice_spawns_once() {
    let s = run_state_step(false, RunRequest::Start);
    assert_eq!(s, RunStep { running: true, spawn: true });
    let s = run_state_step(s.running, RunRequest::Start);
    assert_eq!(s, RunStep { running: true, spawn: false });
    let s = run_state_step(s.running, RunRequest::Stop);
    assert_eq!(s, RunStep { running: false, spawn: false });
    assert_eq!(run_state_step(false, RunRequest::Stop), RunStep { running: false, spawn: false });
    assert_eq!(run_state_step(s.running, RunRequest::Start), RunStep { running: true, spawn: true });
}

#[test]
fn broker_choice() {
    assert_eq!(choose_broker(false, "key"), BrokerChoice::Simulation);
    assert_eq!(choose_broker(false, ""), BrokerChoice::Simulation);
    assert_eq!(choose_broker(true, ""), BrokerChoice::MissingKey);
    assert_eq!(choose_broker(true, "key"), BrokerChoice::Bitget);
}
