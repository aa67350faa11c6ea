use fly_ruler::rpc::{step_turn, RpcAction, RpcArgs, RpcSession, RunSignal, StepTurn};

fn error_of(a: RpcAction) -> (String, String) {
    match a {
        RpcAction::ReplyError { name, message } => (name, message),
        other => panic!("expected an error reply, got {:?}", other),
    }
}

#[test]
fn model_infos_are_always_answered() {
    let mut s = RpcSession::new(0);
    assert!(matches!(s.decide("GetModelInfos", RpcArgs::Absent, &mut RunSignal::Green), RpcAction::ReplyModelInfos));
    s.record_plane(&mut RunSignal::Red);
    assert!(matches!(s.decide("GetModelInfos", RpcArgs::PushPlane, &mut RunSignal::Green), RpcAction::ReplyModelInfos));
}

#[test]
fn push_plane_once_per_client() {
    let mut s = RpcSession::new(0);
    assert!(!s.has_plane);
    assert!(matches!(s.decide("PushPlane", RpcArgs::PushPlane, &mut RunSignal::Green), RpcAction::PushPlane));
    s.record_plane(&mut RunSignal::Red);
    assert!(s.has_plane);
    assert!(matches!(s.decide("PushPlane", RpcArgs::PushPlane, &mut RunSignal::Green), RpcAction::Ignore));
    assert!(matches!(s.decide("PushPlane", RpcArgs::Absent, &mut RunSignal::Green), RpcAction::Ignore));
}

#[test]
fn push_plane_with_wrong_args_is_an_error() {
    let s = RpcSession::new(0);
    let (name, message) = error_of(s.decide("PushPlane", RpcArgs::SendControl, &mut RunSignal::Green));
    assert_eq!(name, "PushPlane");
    assert_eq!(message, "Invalid RPC args");
    let (name, message) = error_of(s.decide("PushPlane", RpcArgs::Absent, &mut RunSignal::Green));
    assert_eq!(name, "PushPlane");
    assert_eq!(message, "Invalid RPC args");
}

#[test]
fn controls_need_a_plane() {
    let mut s = RpcSession::new(0);
    assert!(matches!(s.decide("SendControl", RpcArgs::SendControl, &mut RunSignal::Green), RpcAction::Ignore));
    assert!(matches!(s.decide("SendControl", RpcArgs::Absent, &mut RunSignal::Green), RpcAction::Ignore));
    s.record_plane(&mut RunSignal::Red);
    assert!(matches!(s.decide("SendControl", RpcArgs::SendControl, &mut RunSignal::Green), RpcAction::ForwardControl));
    let (name, message) = error_of(s.decide("SendControl", RpcArgs::PushPlane, &mut RunSignal::Green));
    assert_eq!(name, "SendControl");
    assert_eq!(message, "Invalid RPC args");
}

#[test]
fn tick_restarts_the_timer() {
    let s = RpcSession::new(0);
    assert!(matches!(s.decide("Tick", RpcArgs::Absent, &mut RunSignal::Green), RpcAction::RecordTick));
}

#[test]
fn unknown_commands_are_answered_with_their_name() {
    let s = RpcSession::new(0);
    let (name, message) = error_of(s.decide("Fly", RpcArgs::Absent, &mut RunSignal::Green));
    assert_eq!(name, "Fly");
    assert_eq!(message, "Invalid RPC command: Fly");
    let (name, message) = error_of(s.decide("tick", RpcArgs::Absent, &mut RunSignal::Green));
    assert_eq!(name, "tick");
    assert_eq!(message, "Invalid RPC command: tick");
    let (name, message) = error_of(s.decide("", RpcArgs::Absent, &mut RunSignal::Green));
    assert_eq!(name, "");
    assert_eq!(message, "Invalid RPC command: ");
}

#[test]
fn a_session_times_out_without_ticks() {
    let mut s = RpcSession::new(1_000);
    // a timeout of 500 ms
    assert!(!s.tick_timed_out(1_000, 500));
    assert!(!s.tick_timed_out(1_000 + 500_000_000, 500));
    assert!(s.tick_timed_out(1_000 + 500_000_001, 500));
    s.record_tick(400_000_000);
    assert_eq!(s.last_tick, 400_000_000);
    assert!(!s.tick_timed_out(900_000_000, 500));
    assert!(s.tick_timed_out(900_000_001, 500));
    // an instant before the last tick means no time passed
    assert!(!s.tick_timed_out(0, 0));
}

#[test]
fn recording_a_plane_keeps_the_last_tick() {
    let mut s = RpcSession::new(77);
    s.record_plane(&mut RunSignal::Red);
    assert!(s.has_plane);
    assert_eq!(s.last_tick, 77);
}

#[test]
fn pushing_a_plane_stops_the_run_until_it_is_pushed() {
    let mut s = RpcSession::new(0);
    let mut signal = RunSignal::Green;
    assert!(matches!(s.decide("Tick", RpcArgs::Absent, &mut signal), RpcAction::RecordTick));
    assert_eq!(signal, RunSignal::Green);
    assert!(matches!(s.decide("PushPlane", RpcArgs::PushPlane, &mut signal), RpcAction::PushPlane));
    assert_eq!(signal, RunSignal::Red);
    s.record_plane(&mut signal);
    assert_eq!(signal, RunSignal::Green);
    // a client with a plane does not stop the run again
    assert!(matches!(s.decide("PushPlane", RpcArgs::PushPlane, &mut signal), RpcAction::Ignore));
    assert_eq!(signal, RunSignal::Green);
}

#[test]
fn wrong_push_arguments_leave_the_run_stopped() {
    let s = RpcSession::new(0);
    let mut signal = RunSignal::Green;
    let a = s.decide("PushPlane", RpcArgs::SendControl, &mut signal);
    assert!(matches!(a, RpcAction::ReplyError { .. }));
    assert_eq!(signal, RunSignal::Red);
    assert!(matches!(s.decide("GetModelInfos", RpcArgs::Absent, &mut signal), RpcAction::ReplyModelInfos));
    assert_eq!(signal, RunSignal::Red);
}

#[test]
fn the_server_steps_only_with_planes_and_a_green_signal() {
    use_turn(step_turn(false, 1, RunSignal::Green), StepTurn::Step);
    use_turn(step_turn(false, 3, RunSignal::Green), StepTurn::Step);
    use_turn(step_turn(false, 0, RunSignal::Green), StepTurn::Yield);
    use_turn(step_turn(false, 2, RunSignal::Red), StepTurn::Yield);
    use_turn(step_turn(true, 2, RunSignal::Green), StepTurn::Stop);
}

fn use_turn(got: StepTurn, expected: StepTurn) {
    assert_eq!(got, expected);
}
