use home_api::group::{
    action_for, begin, collect_resolved, coordinator_room, join_event, join_plan, next_phase,
    target_volume, GroupAction, GroupEvent, GroupOutcome, GroupPhase, DISCOVERY_TIMEOUT_SECS,
};
use home_api::names::{eq_ignore_case, is_named_from};
use home_api::sequence::{
    best_effort_step, replay, required_step, Command, OnFailure, Sequencer, Status, Step, Target,
};
use home_api::topology::{flatten_groups, select_members, TopologyEntry};

fn entry(name: &str, location: &str) -> TopologyEntry {
    TopologyEntry { name: name.to_string(), location: location.to_string() }
}

fn rooms(names: &[&str]) -> Vec<String> {
    names.iter().map(|n| n.to_string()).collect()
}

#[test]
fn empty_request_has_no_coordinator() {
    let none: Vec<String> = Vec::new();
    assert!(coordinator_room(&none).is_none());
    let phase = begin(none.len());
    assert_eq!(phase, GroupPhase::Finished(GroupOutcome::NoCoordinator));
    assert_eq!(next_phase(phase, GroupEvent::CoordinatorFound), phase);
    assert_eq!(action_for(phase), GroupAction::Return(GroupOutcome::NoCoordinator));
}

#[test]
fn each_phase_asks_for_one_thing() {
    assert_eq!(
        action_for(GroupPhase::Discovering),
        GroupAction::FindCoordinator { timeout_secs: 3 }
    );
    assert_eq!(action_for(GroupPhase::ReadingTopology), GroupAction::ReadTopology);
    assert_eq!(action_for(GroupPhase::Resolving), GroupAction::ResolveMembers);
    assert_eq!(action_for(GroupPhase::ReadingVolume), GroupAction::ReadVolume);
    assert_eq!(action_for(GroupPhase::Joining), GroupAction::RunJoinSequence);
    assert_eq!(
        action_for(GroupPhase::Finished(GroupOutcome::Failed)),
        GroupAction::Return(GroupOutcome::Failed)
    );
    assert_eq!(
        action_for(GroupPhase::Finished(GroupOutcome::Grouped)),
        GroupAction::Return(GroupOutcome::Grouped)
    );
}

#[test]
fn coordinator_is_first_room() {
    let wanted = rooms(&["Kitchen", "Den", "Kitchen"]);
    assert_eq!(coordinator_room(&wanted), Some(&"Kitchen".to_string()));
    assert_eq!(begin(wanted.len()), GroupPhase::Discovering);
    assert_eq!(DISCOVERY_TIMEOUT_SECS, 3);
}

#[test]
fn names_match_without_case() {
    assert!(eq_ignore_case("Kitchen", "kitchen"));
    assert!(eq_ignore_case("KITCHEN", "kItChEn"));
    assert!(eq_ignore_case("", ""));
    assert!(!eq_ignore_case("Kitchen", "Kitchens"));
    assert!(!eq_ignore_case("Kitchen", "Kitchem"));
    assert!(!eq_ignore_case("@", "`"));
    assert!(!eq_ignore_case("[", "{"));
    assert!(eq_ignore_case("Z", "z"));
    assert!(eq_ignore_case("Küche", "küche"));
    assert!(!eq_ignore_case("KÜCHE", "küche"));
}

#[test]
fn names_match_as_std_does() {
    let samples = ["", "a", "A", "Den", "dEN", "den ", "@", "`", "[", "{", "é", "É", "Z9", "z9"];
    for a in samples.iter() {
        for b in samples.iter() {
            assert_eq!(eq_ignore_case(a, b), a.eq_ignore_ascii_case(b));
        }
    }
}

#[test]
fn first_room_is_not_searched() {
    let wanted = rooms(&["Kitchen", "Den"]);
    assert!(!is_named_from(&wanted, 1, "kitchen"));
    assert!(is_named_from(&wanted, 1, "DEN"));
    assert!(is_named_from(&wanted, 0, "kitchen"));
    assert!(!is_named_from(&wanted, 2, "den"));
    assert!(!is_named_from(&wanted, 7, "den"));
}

#[test]
fn members_are_the_tail_rooms() {
    let groups = vec![
        vec![entry("kitchen", "http://10.0.0.2:1400/xml"), entry("Office", "http://10.0.0.3:1400/xml")],
        vec![],
        vec![entry("DEN", "http://10.0.0.4:1400/xml")],
    ];
    let flat = flatten_groups(&groups);
    let names: Vec<&str> = flat.iter().map(|e| e.name.as_str()).collect();
    assert_eq!(names, vec!["kitchen", "Office", "DEN"]);
    assert_eq!(flat[2].location, "http://10.0.0.4:1400/xml");

    let members = select_members(&flat, &rooms(&["Kitchen", "den", "Attic"]));
    assert_eq!(members.len(), 1);
    assert_eq!(members[0].name, "DEN");
    assert_eq!(members[0].location, "http://10.0.0.4:1400/xml");

    assert!(select_members(&flat, &rooms(&["Kitchen"])).is_empty());
    assert!(select_members(&flat, &rooms(&[])).is_empty());
}

#[test]
fn repeated_first_room_is_matched_through_the_tail() {
    let flat = vec![entry("kitchen", "a"), entry("den", "b")];
    let members = select_members(&flat, &rooms(&["Kitchen", "KITCHEN"]));
    assert_eq!(members.len(), 1);
    assert_eq!(members[0].name, "kitchen");
}

#[test]
fn failed_resolutions_are_dropped() {
    let results: Vec<Result<Option<u32>, String>> =
        vec![Ok(Some(1)), Err("unreachable".to_string()), Ok(None), Ok(Some(4))];
    assert_eq!(collect_resolved(results), vec![1, 4]);
    let nothing: Vec<Result<Option<u32>, String>> = Vec::new();
    assert!(collect_resolved(nothing).is_empty());
}

#[test]
fn volume_defaults_to_the_coordinators() {
    assert_eq!(target_volume(None, 17), 17);
    assert_eq!(target_volume(Some(30), 17), 30);
    assert_eq!(target_volume(Some(0), 17), 0);
}

#[test]
fn join_plan_keeps_its_order() {
    let plan = join_plan(2, 25);
    let expected = vec![
        required_step(Target::Coordinator, Command::Leave),
        required_step(Target::Coordinator, Command::SetVolume(25)),
        required_step(Target::Member(0), Command::Leave),
        required_step(Target::Member(0), Command::SetVolume(25)),
        best_effort_step(Target::Member(0), Command::JoinCoordinator),
        required_step(Target::Member(1), Command::Leave),
        required_step(Target::Member(1), Command::SetVolume(25)),
        best_effort_step(Target::Member(1), Command::JoinCoordinator),
    ];
    assert_eq!(plan, expected);
    assert_eq!(join_plan(0, 9).len(), 2);
    assert_eq!(
        plan[4],
        Step { target: Target::Member(0), command: Command::JoinCoordinator, on_failure: OnFailure::Ignore }
    );
}

#[test]
fn join_failure_does_not_fail_the_group() {
    let plan = join_plan(2, 25);
    let all_ok = vec![true; 8];
    let mut one_join_fails = all_ok.clone();
    one_join_fails[4] = false;
    assert_eq!(replay(&plan, &all_ok), Status::Completed);
    assert_eq!(replay(&plan, &one_join_fails), Status::Completed);
    assert_eq!(join_event(Status::Completed), Some(GroupEvent::JoinCompleted));
    assert_eq!(
        next_phase(GroupPhase::Joining, GroupEvent::JoinCompleted),
        GroupPhase::Finished(GroupOutcome::Grouped)
    );
}

#[test]
fn member_volume_failure_aborts() {
    let plan = join_plan(2, 25);
    let results = vec![true, true, true, false, true, true, true, true];
    assert_eq!(replay(&plan, &results), Status::Aborted(3));
    assert_eq!(join_event(Status::Aborted(3)), Some(GroupEvent::JoinAborted));
    assert_eq!(join_event(Status::Pending(3)), None);
    assert_eq!(
        next_phase(GroupPhase::Joining, GroupEvent::JoinAborted),
        GroupPhase::Finished(GroupOutcome::Failed)
    );
}

#[test]
fn grouping_phases_follow_in_order() {
    let mut phase = begin(2);
    assert_eq!(phase, GroupPhase::Discovering);
    phase = next_phase(phase, GroupEvent::CoordinatorFound);
    assert_eq!(phase, GroupPhase::ReadingTopology);
    phase = next_phase(phase, GroupEvent::TopologyRead);
    assert_eq!(phase, GroupPhase::Resolving);
    assert_eq!(next_phase(phase, GroupEvent::TransportError), GroupPhase::Resolving);
    phase = next_phase(phase, GroupEvent::MembersResolved);
    assert_eq!(phase, GroupPhase::ReadingVolume);
    phase = next_phase(phase, GroupEvent::VolumeRead);
    assert_eq!(phase, GroupPhase::Joining);
    phase = next_phase(phase, GroupEvent::JoinCompleted);
    assert_eq!(phase, GroupPhase::Finished(GroupOutcome::Grouped));
    assert_eq!(next_phase(phase, GroupEvent::TransportError), phase);
}

#[test]
fn grouping_stops_on_transport_errors() {
    let failed = GroupPhase::Finished(GroupOutcome::Failed);
    assert_eq!(next_phase(GroupPhase::Discovering, GroupEvent::TransportError), failed);
    assert_eq!(next_phase(GroupPhase::ReadingTopology, GroupEvent::TransportError), failed);
    assert_eq!(next_phase(GroupPhase::ReadingVolume, GroupEvent::TransportError), failed);
    assert_eq!(
        next_phase(GroupPhase::Discovering, GroupEvent::CoordinatorMissing),
        GroupPhase::Finished(GroupOutcome::NoCoordinator)
    );
    assert_eq!(next_phase(GroupPhase::Discovering, GroupEvent::VolumeRead), GroupPhase::Discovering);
}

#[test]
fn sequencer_walks_its_steps() {
    let mut run = Sequencer::new(join_plan(1, 40));
    assert_eq!(run.status(), Status::Pending(0));
    assert_eq!(run.current(), Some(required_step(Target::Coordinator, Command::Leave)));
    assert_eq!(run.report(true), Status::Pending(1));
    assert_eq!(run.current(), Some(required_step(Target::Coordinator, Command::SetVolume(40))));
    assert_eq!(run.report(true), Status::Pending(2));
    assert_eq!(run.report(true), Status::Pending(3));
    assert_eq!(run.report(true), Status::Pending(4));
    assert_eq!(run.current(), Some(best_effort_step(Target::Member(0), Command::JoinCoordinator)));
    assert_eq!(run.report(false), Status::Completed);
    assert_eq!(run.current(), None);
    assert_eq!(run.report(false), Status::Completed);
}

#[test]
fn sequencer_stops_at_a_required_failure() {
    let mut run = Sequencer::new(join_plan(1, 40));
    assert_eq!(run.report(false), Status::Aborted(0));
    assert_eq!(run.current(), None);
    assert_eq!(run.report(true), Status::Aborted(0));
    assert_eq!(run.status(), Status::Aborted(0));
}

#[test]
fn empty_sequence_is_complete() {
    let run = Sequencer::new(Vec::new());
    assert_eq!(run.status(), Status::Completed);
    assert_eq!(run.current(), None);
    assert_eq!(replay(&Vec::new(), &vec![false, true]), Status::Completed);
}

#[test]
fn replay_stops_reading_after_the_end() {
    let plan = join_plan(0, 5);
    assert_eq!(replay(&plan, &vec![]), Status::Pending(0));
    assert_eq!(replay(&plan, &vec![true]), Status::Pending(1));
    assert_eq!(replay(&plan, &vec![true, true, false]), Status::Completed);
    assert_eq!(replay(&plan, &vec![true, false, true]), Status::Aborted(1));
}

#[test]
fn grouping_twice_plans_alike() {
    let flat = vec![entry("kitchen", "a"), entry("den", "b"), entry("attic", "c")];
    let wanted = rooms(&["Kitchen", "Den", "Attic"]);
    let first = select_members(&flat, &wanted);
    let second = select_members(&flat, &wanted);
    assert_eq!(first.len(), second.len());
    let plan_one = join_plan(first.len(), target_volume(Some(20), 33));
    let plan_two = join_plan(second.len(), target_volume(Some(20), 20));
    assert_eq!(plan_one, plan_two);
    let results = vec![true; plan_one.len()];
    assert_eq!(replay(&plan_one, &results), replay(&plan_two, &results));
    assert_eq!(replay(&plan_two, &results), Status::Completed);
}
