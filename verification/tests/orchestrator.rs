use home_api::group::{GroupAction, GroupOutcome, GroupPhase};
use home_api::orchestrator::GroupRun;
use home_api::sequence::{best_effort_step, required_step, Command, Target};
use home_api::topology::TopologyEntry;

fn household() -> Vec<Vec<TopologyEntry>> {
    let entry = |name: &str, location: &str| TopologyEntry {
        name: name.to_string(),
        location: location.to_string(),
    };
    vec![
        vec![entry("Kitchen", "http://10.0.0.2:1400/xml"), entry("den", "http://10.0.0.3:1400/xml")],
        vec![entry("Attic", "http://10.0.0.4:1400/xml")],
    ]
}

fn resolved(handles: &[u8]) -> Vec<Result<Option<u8>, String>> {
    handles.iter().map(|h| Ok(Some(*h))).collect()
}

fn request(names: &[&str], volume: Option<u16>) -> GroupRun {
    GroupRun::new(names.iter().map(|n| n.to_string()).collect(), volume)
}

#[test]
fn run_without_rooms_is_over_at_once() {
    let mut run = request(&[], Some(10));
    assert_eq!(run.action(), GroupAction::Return(GroupOutcome::NoCoordinator));
    assert_eq!(run.coordinator_room(), None);
    run.coordinator_found(true);
    run.volume_read(3);
    run.step_done(true);
    assert_eq!(run.phase(), GroupPhase::Finished(GroupOutcome::NoCoordinator));
    assert_eq!(run.current_step(), None);
}

#[test]
fn run_groups_the_requested_rooms() {
    let mut run = request(&["kitchen", "DEN", "Cellar"], None);
    assert_eq!(run.action(), GroupAction::FindCoordinator { timeout_secs: 3 });
    assert_eq!(run.coordinator_room(), Some(&"kitchen".to_string()));
    run.coordinator_found(true);
    assert_eq!(run.action(), GroupAction::ReadTopology);
    run.topology_read(&household());
    assert_eq!(run.action(), GroupAction::ResolveMembers);
    assert_eq!(run.to_resolve().len(), 1);
    assert_eq!(run.to_resolve()[0].name, "den");
    assert_eq!(run.to_resolve()[0].location, "http://10.0.0.3:1400/xml");
    let handles = run.members_resolved(vec![Err("unreachable".to_string()), Ok(None), Ok(Some(9u8))]);
    assert_eq!(handles, vec![9]);
    assert_eq!(run.action(), GroupAction::ReadVolume);
    assert_eq!(run.current_step(), None);
    run.volume_read(22);
    assert_eq!(run.action(), GroupAction::RunJoinSequence);

    let expected = vec![
        required_step(Target::Coordinator, Command::Leave),
        required_step(Target::Coordinator, Command::SetVolume(22)),
        required_step(Target::Member(0), Command::Leave),
        required_step(Target::Member(0), Command::SetVolume(22)),
        best_effort_step(Target::Member(0), Command::JoinCoordinator),
    ];
    for step in expected {
        assert_eq!(run.phase(), GroupPhase::Joining);
        assert_eq!(run.current_step(), Some(step));
        run.step_done(true);
    }
    assert_eq!(run.action(), GroupAction::Return(GroupOutcome::Grouped));
    assert_eq!(run.current_step(), None);
}

#[test]
fn run_uses_the_requested_volume() {
    let mut run = request(&["Kitchen"], Some(35));
    run.coordinator_found(true);
    run.topology_read(&household());
    assert!(run.to_resolve().is_empty());
    run.members_resolved(resolved(&[]));
    run.volume_read(80);
    assert_eq!(run.current_step(), Some(required_step(Target::Coordinator, Command::Leave)));
    run.step_done(true);
    assert_eq!(
        run.current_step(),
        Some(required_step(Target::Coordinator, Command::SetVolume(35)))
    );
    run.step_done(true);
    assert_eq!(run.phase(), GroupPhase::Finished(GroupOutcome::Grouped));
}

#[test]
fn run_survives_a_failed_join() {
    let mut run = request(&["Kitchen", "Den", "Attic"], Some(5));
    run.coordinator_found(true);
    run.topology_read(&household());
    assert_eq!(run.to_resolve().len(), 2);
    assert_eq!(run.members_resolved(resolved(&[1, 2])), vec![1, 2]);
    run.volume_read(50);
    for k in 0..8 {
        assert_eq!(run.phase(), GroupPhase::Joining);
        run.step_done(k != 4);
    }
    assert_eq!(run.phase(), GroupPhase::Finished(GroupOutcome::Grouped));
}

#[test]
fn run_fails_on_a_failed_leave() {
    let mut run = request(&["Kitchen", "Den"], Some(5));
    run.coordinator_found(true);
    run.topology_read(&household());
    run.members_resolved(resolved(&[1]));
    run.volume_read(50);
    run.step_done(true);
    run.step_done(true);
    run.step_done(false);
    assert_eq!(run.action(), GroupAction::Return(GroupOutcome::Failed));
    assert_eq!(run.current_step(), None);
    run.step_done(true);
    assert_eq!(run.phase(), GroupPhase::Finished(GroupOutcome::Failed));
}

#[test]
fn run_ends_when_the_coordinator_is_missing() {
    let mut run = request(&["Kitchen", "Den"], None);
    run.coordinator_found(false);
    assert_eq!(run.action(), GroupAction::Return(GroupOutcome::NoCoordinator));
}

#[test]
fn run_fails_on_transport_errors() {
    let mut lookup = request(&["Kitchen"], None);
    lookup.transport_error();
    assert_eq!(lookup.phase(), GroupPhase::Finished(GroupOutcome::Failed));

    let mut topology = request(&["Kitchen"], None);
    topology.coordinator_found(true);
    topology.transport_error();
    assert_eq!(topology.phase(), GroupPhase::Finished(GroupOutcome::Failed));

    let mut volume = request(&["Kitchen"], None);
    volume.coordinator_found(true);
    volume.topology_read(&household());
    volume.transport_error();
    assert_eq!(volume.phase(), GroupPhase::Resolving);
    volume.members_resolved(resolved(&[]));
    volume.transport_error();
    assert_eq!(volume.phase(), GroupPhase::Finished(GroupOutcome::Failed));
}

#[test]
fn run_ignores_answers_it_does_not_wait_for() {
    let mut run = request(&["Kitchen", "Den"], None);
    run.topology_read(&household());
    assert_eq!(run.members_resolved(resolved(&[1, 2, 3, 4])), vec![1, 2, 3, 4]);
    run.volume_read(9);
    run.step_done(false);
    assert_eq!(run.phase(), GroupPhase::Discovering);
    assert!(run.to_resolve().is_empty());
    assert_eq!(run.current_step(), None);
}
