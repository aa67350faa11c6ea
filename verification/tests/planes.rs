use fly_ruler::error::FatalCoreError;
use fly_ruler::planes::{plane_step, received_kind, CommandKind, PlaneRegistry, PlaneStep};
use std::collections::HashMap;

#[test]
fn planes_are_keyed_by_arrival() {
    let mut reg = PlaneRegistry::new();
    assert_eq!(reg.plane_count(), 0);
    assert_eq!(reg.push_plane(7), 0);
    assert_eq!(reg.push_plane(7), 1);
    assert_eq!(reg.push_plane(3), 2);
    assert_eq!(reg.plane_count(), 3);
    let ids = reg.get_ids();
    assert_eq!(ids.len(), 3);
    assert_eq!(ids[&0], 7);
    assert_eq!(ids[&1], 7);
    assert_eq!(ids[&2], 3);
}

#[test]
fn every_plane_needs_a_controller() {
    let mut reg = PlaneRegistry::new();
    reg.push_plane(1);
    reg.push_plane(2);
    let mut controllers: HashMap<usize, &str> = HashMap::new();
    controllers.insert(0, "stick");
    match reg.check_controllers(&controllers) {
        Err(FatalCoreError::Controller(k)) => assert_eq!(k, 1),
        Ok(()) => panic!("plane 1 has no controller"),
    }
    controllers.insert(1, "net");
    assert!(reg.check_controllers(&controllers).is_ok());
    controllers.insert(9, "spare");
    assert!(reg.check_controllers(&controllers).is_ok());
}

#[test]
fn no_planes_need_no_controllers() {
    let reg = PlaneRegistry::new();
    let controllers: HashMap<usize, ()> = HashMap::new();
    assert!(reg.check_controllers(&controllers).is_ok());
}

#[test]
fn finish_run_removes_joined_planes_and_keeps_the_last_error() {
    let mut reg = PlaneRegistry::new();
    reg.push_plane(10);
    reg.push_plane(11);
    reg.push_plane(12);
    let joined: Vec<Option<(usize, Result<(), String>)>> = vec![
        Some((1, Err("first".to_string()))),
        None,
        Some((0, Ok(()))),
        Some((2, Err("second".to_string()))),
    ];
    let r = reg.finish_run(joined);
    assert_eq!(r, Err("second".to_string()));
    assert_eq!(reg.plane_count(), 0);
}

#[test]
fn finish_run_keeps_planes_that_were_not_joined() {
    let mut reg = PlaneRegistry::new();
    reg.push_plane(10);
    reg.push_plane(11);
    let joined: Vec<Option<(usize, Result<(), String>)>> = vec![Some((1, Ok(()))), None];
    assert_eq!(reg.finish_run(joined), Ok(()));
    let ids = reg.get_ids();
    assert_eq!(ids.len(), 1);
    assert_eq!(ids[&0], 10);
}

#[test]
fn a_key_freed_by_a_run_is_reused_by_the_next_plane() {
    let mut reg = PlaneRegistry::new();
    reg.push_plane(10);
    reg.push_plane(11);
    let joined: Vec<Option<(usize, Result<(), ()>)>> = vec![Some((0, Ok(())))];
    assert_eq!(reg.finish_run(joined), Ok(()));
    // one plane is left, under key 1; the next plane is keyed by the count
    assert_eq!(reg.push_plane(12), 1);
    let ids = reg.get_ids();
    assert_eq!(ids.len(), 1);
    assert_eq!(ids[&1], 12);
}

#[test]
fn plane_steps_follow_commands() {
    assert_eq!(plane_step(false, CommandKind::Control), PlaneStep::Update);
    assert_eq!(plane_step(false, CommandKind::Extra), PlaneStep::Skip);
    assert_eq!(plane_step(false, CommandKind::Exit), PlaneStep::Finish);
    assert_eq!(plane_step(true, CommandKind::Control), PlaneStep::Finish);
    assert_eq!(plane_step(true, CommandKind::Extra), PlaneStep::Finish);
}

#[test]
fn a_gone_controller_means_exit() {
    use_kind(received_kind(false, CommandKind::Control), CommandKind::Exit);
    use_kind(received_kind(true, CommandKind::Control), CommandKind::Control);
    use_kind(received_kind(true, CommandKind::Extra), CommandKind::Extra);
}

fn use_kind(got: CommandKind, expected: CommandKind) {
    assert_eq!(got, expected);
}

#[test]
fn joining_a_failed_plane_cancels_the_run() {
    let mut reg = PlaneRegistry::new();
    reg.push_plane(10);
    reg.push_plane(11);
    reg.push_plane(12);
    let mut run: Result<(), String> = Ok(());
    assert!(!reg.join_plane(Some((0, Ok(()))), &mut run));
    assert_eq!(run, Ok(()));
    assert!(!reg.join_plane(None, &mut run));
    assert!(reg.join_plane(Some((2, Err("update failed".to_string()))), &mut run));
    assert_eq!(run, Err("update failed".to_string()));
    assert!(!reg.join_plane(Some((1, Ok(()))), &mut run));
    assert_eq!(run, Err("update failed".to_string()));
    assert_eq!(reg.plane_count(), 0);
}
