//! Merging a coordinator and its resolved members into one playback group.
//!
//! The coordinator is the first requested room. It is looked up, asked for
//! its household's topology, and the members asked for are resolved. Then
//! the coordinator's volume is read, and only after that is anything
//! changed: the coordinator leaves its group and takes the target volume,
//! and each member in turn leaves, takes the volume and joins.

use vstd::prelude::*;
use crate::sequence::{
    best_effort, best_effort_step, fatal_at, lemma_ignored_failures_absorbed,
    lemma_status_meaning, required, required_step, status_after, Command, OnFailure, Status, Step,
    Target,
};

verus! {

/// Seconds that the lookup of the coordinator may take.
pub const DISCOVERY_TIMEOUT_SECS: u64 = 3;

/// How a grouping run ended.
#[derive(Clone, Copy, Debug, PartialEq, Eq, Structural)]
pub enum GroupOutcome {
    /// No room was requested, or the first room did not answer in time.
    NoCoordinator,
    /// The coordinator leads the group; members that failed to join are
    /// left out without an error.
    Grouped,
    /// A device call failed and stopped the run.
    Failed,
}

/// What a grouping run is waiting for.
#[derive(Clone, Copy, Debug, PartialEq, Eq, Structural)]
pub enum GroupPhase {
    /// Looking up the first room on the network.
    Discovering,
    /// Asking the coordinator for its zone groups.
    ReadingTopology,
    /// Turning the selected entries into device handles, all at once.
    Resolving,
    /// Reading the coordinator's volume, before anything is changed.
    ReadingVolume,
    /// Running the join sequence.
    Joining,
    /// The run is over.
    Finished(GroupOutcome),
}

/// What a grouping run asks of its caller.
#[derive(Clone, Copy, Debug, PartialEq, Eq, Structural)]
pub enum GroupAction {
    /// Look up the first room, giving up after this many seconds.
    FindCoordinator { timeout_secs: u64 },
    /// Ask the coordinator for its zone groups.
    ReadTopology,
    /// Resolve the selected entries, all at once, and wait for all of them.
    ResolveMembers,
    /// Read the coordinator's volume.
    ReadVolume,
    /// Run the join sequence, step by step.
    RunJoinSequence,
    /// Contact nothing any more and hand the outcome back.
    Return(GroupOutcome),
}

/// What happened while a grouping run was waiting.
#[derive(Clone, Copy, Debug, PartialEq, Eq, Structural)]
pub enum GroupEvent {
    /// The first room answered.
    CoordinatorFound,
    /// The first room did not answer in time.
    CoordinatorMissing,
    /// The zone groups were read.
    TopologyRead,
    /// Every resolution has ended, in success or not.
    MembersResolved,
    /// The coordinator's volume was read.
    VolumeRead,
    /// The join sequence ran to its end.
    JoinCompleted,
    /// A required step of the join sequence failed.
    JoinAborted,
    /// The call that the phase was waiting for failed.
    TransportError,
}

/// The phase a run starts in: with no room requested it is over at once,
/// before any device is contacted.
pub open spec fn first_phase(rooms: nat) -> GroupPhase {
    if rooms == 0 {
        GroupPhase::Finished(GroupOutcome::NoCoordinator)
    } else {
        GroupPhase::Discovering
    }
}

/// What the run asks for in `phase`. A finished run asks for nothing but
/// to be handed back.
pub open spec fn action_in(phase: GroupPhase) -> GroupAction {
    match phase {
        GroupPhase::Discovering => GroupAction::FindCoordinator {
            timeout_secs: DISCOVERY_TIMEOUT_SECS,
        },
        GroupPhase::ReadingTopology => GroupAction::ReadTopology,
        GroupPhase::Resolving => GroupAction::ResolveMembers,
        GroupPhase::ReadingVolume => GroupAction::ReadVolume,
        GroupPhase::Joining => GroupAction::RunJoinSequence,
        GroupPhase::Finished(outcome) => GroupAction::Return(outcome),
    }
}

/// The phase that follows `phase` on `event`. An event that the phase does
/// not wait for changes nothing, and a failed resolution is no transport
/// error: it only makes for one member fewer.
pub open spec fn phase_after(phase: GroupPhase, event: GroupEvent) -> GroupPhase {
    match (phase, event) {
        (GroupPhase::Discovering, GroupEvent::CoordinatorFound) => GroupPhase::ReadingTopology,
        (GroupPhase::Discovering, GroupEvent::CoordinatorMissing) => GroupPhase::Finished(
            GroupOutcome::NoCoordinator,
        ),
        (GroupPhase::Discovering, GroupEvent::TransportError) => GroupPhase::Finished(
            GroupOutcome::Failed,
        ),
        (GroupPhase::ReadingTopology, GroupEvent::TopologyRead) => GroupPhase::Resolving,
        (GroupPhase::ReadingTopology, GroupEvent::TransportError) => GroupPhase::Finished(
            GroupOutcome::Failed,
        ),
        (GroupPhase::Resolving, GroupEvent::MembersResolved) => GroupPhase::ReadingVolume,
        (GroupPhase::ReadingVolume, GroupEvent::VolumeRead) => GroupPhase::Joining,
        (GroupPhase::ReadingVolume, GroupEvent::TransportError) => GroupPhase::Finished(
            GroupOutcome::Failed,
        ),
        (GroupPhase::Joining, GroupEvent::JoinCompleted) => GroupPhase::Finished(
            GroupOutcome::Grouped,
        ),
        (GroupPhase::Joining, GroupEvent::JoinAborted) => GroupPhase::Finished(
            GroupOutcome::Failed,
        ),
        _ => phase,
    }
}

/// The volume that the whole group is set to: the requested one, or else
/// the coordinator's own as it was read before the run changed anything.
pub open spec fn volume_for(requested: Option<u16>, coordinator_volume: u16) -> u16 {
    match requested {
        Some(v) => v,
        None => coordinator_volume,
    }
}

/// Step `i` of the join sequence at volume `volume`.
///
/// The coordinator leaves its group and takes the volume. Then each member
/// in turn leaves its group, takes the volume and joins the coordinator.
/// Only the join may fail without stopping the sequence.
pub open spec fn join_step_at(i: int, volume: u16) -> Step {
    if i == 0 {
        required(Target::Coordinator, Command::Leave)
    } else if i == 1 {
        required(Target::Coordinator, Command::SetVolume(volume))
    } else {
        let member = Target::Member(((i - 2) / 3) as usize);
        if (i - 2) % 3 == 0 {
            required(member, Command::Leave)
        } else if (i - 2) % 3 == 1 {
            required(member, Command::SetVolume(volume))
        } else {
            best_effort(member, Command::JoinCoordinator)
        }
    }
}

/// The join sequence for `members` resolved members at volume `volume`.
pub open spec fn join_steps(members: nat, volume: u16) -> Seq<Step> {
    Seq::new(2 + 3 * members, |i: int| join_step_at(i, volume))
}

/// The handles among `results`, in order: failed and empty resolutions are
/// left out.
pub open spec fn resolved_of<T, E>(results: Seq<Result<Option<T>, E>>) -> Seq<T>
    decreases results.len(),
{
    if results.len() == 0 {
        Seq::empty()
    } else {
        match results.first() {
            Ok(Some(handle)) => seq![handle] + resolved_of(results.drop_first()),
            _ => resolved_of(results.drop_first()),
        }
    }
}

/// The room that names the coordinator: the first one, if there is any.
pub fn coordinator_room(rooms: &Vec<String>) -> (first: Option<&String>)
    ensures
        rooms@.len() == 0 ==> first is None,
        rooms@.len() > 0 ==> first == Some(&rooms@[0]),
{
    if rooms.len() == 0 {
        None
    } else {
        Some(&rooms[0])
    }
}

/// Starts a grouping run for a request with `rooms` rooms.
pub fn begin(rooms: usize) -> (phase: GroupPhase)
    ensures
        phase == first_phase(rooms as nat),
{
    if rooms == 0 {
        GroupPhase::Finished(GroupOutcome::NoCoordinator)
    } else {
        GroupPhase::Discovering
    }
}

/// What the run asks for in `phase`.
pub fn action_for(phase: GroupPhase) -> (action: GroupAction)
    ensures
        action == action_in(phase),
{
    match phase {
        GroupPhase::Discovering => GroupAction::FindCoordinator {
            timeout_secs: DISCOVERY_TIMEOUT_SECS,
        },
        GroupPhase::ReadingTopology => GroupAction::ReadTopology,
        GroupPhase::Resolving => GroupAction::ResolveMembers,
        GroupPhase::ReadingVolume => GroupAction::ReadVolume,
        GroupPhase::Joining => GroupAction::RunJoinSequence,
        GroupPhase::Finished(outcome) => GroupAction::Return(outcome),
    }
}

/// Moves a grouping run on by one event.
pub fn next_phase(phase: GroupPhase, event: GroupEvent) -> (next: GroupPhase)
    ensures
        next == phase_after(phase, event),
{
    match phase {
        GroupPhase::Discovering => match event {
            GroupEvent::CoordinatorFound => GroupPhase::ReadingTopology,
            GroupEvent::CoordinatorMissing => GroupPhase::Finished(GroupOutcome::NoCoordinator),
            GroupEvent::TransportError => GroupPhase::Finished(GroupOutcome::Failed),
            _ => phase,
        },
        GroupPhase::ReadingTopology => match event {
            GroupEvent::TopologyRead => GroupPhase::Resolving,
            GroupEvent::TransportError => GroupPhase::Finished(GroupOutcome::Failed),
            _ => phase,
        },
        GroupPhase::Resolving => match event {
            GroupEvent::MembersResolved => GroupPhase::ReadingVolume,
            _ => phase,
        },
        GroupPhase::ReadingVolume => match event {
            GroupEvent::VolumeRead => GroupPhase::Joining,
            GroupEvent::TransportError => GroupPhase::Finished(GroupOutcome::Failed),
            _ => phase,
        },
        GroupPhase::Joining => match event {
            GroupEvent::JoinCompleted => GroupPhase::Finished(GroupOutcome::Grouped),
            GroupEvent::JoinAborted => GroupPhase::Finished(GroupOutcome::Failed),
            _ => phase,
        },
        GroupPhase::Finished(_) => phase,
    }
}

/// The event that a join sequence's status stands for, once it is over.
pub fn join_event(status: Status) -> (event: Option<GroupEvent>)
    ensures
        event == match status {
            Status::Pending(_) => None::<GroupEvent>,
            Status::Completed => Some(GroupEvent::JoinCompleted),
            Status::Aborted(_) => Some(GroupEvent::JoinAborted),
        },
{
    match status {
        Status::Pending(_) => None,
        Status::Completed => Some(GroupEvent::JoinCompleted),
        Status::Aborted(_) => Some(GroupEvent::JoinAborted),
    }
}

/// Keeps the handles of the resolutions that succeeded, in order, and drops
/// the rest without a word.
pub fn collect_resolved<T, E>(results: Vec<Result<Option<T>, E>>) -> (handles: Vec<T>)
    ensures
        handles@ == resolved_of(results@),
{
    let mut rest = results;
    let mut handles: Vec<T> = Vec::new();
    assert(handles@ + resolved_of(rest@) =~= resolved_of(results@));
    while rest.len() > 0
        invariant
            handles@ + resolved_of(rest@) == resolved_of(results@),
        decreases rest.len(),
    {
        let ghost before = rest@;
        let ghost kept = handles@;
        let head = rest.remove(0);
        assert(rest@ =~= before.drop_first());
        match head {
            Ok(Some(handle)) => {
                handles.push(handle);
                assert(handles@ + resolved_of(rest@) =~= kept + resolved_of(before));
            },
            _ => {},
        }
    }
    assert(handles@ + resolved_of(rest@) =~= handles@);
    handles
}

/// The volume that the whole group is set to.
pub fn target_volume(requested: Option<u16>, coordinator_volume: u16) -> (volume: u16)
    ensures
        volume == volume_for(requested, coordinator_volume),
{
    match requested {
        Some(v) => v,
        None => coordinator_volume,
    }
}

/// Lays out the join sequence for `members` resolved members, each of which
/// is aimed at by its index.
pub fn join_plan(members: usize, volume: u16) -> (steps: Vec<Step>)
    ensures
        steps@ == join_steps(members as nat, volume),
{
    let mut steps: Vec<Step> = Vec::new();
    steps.push(required_step(Target::Coordinator, Command::Leave));
    steps.push(required_step(Target::Coordinator, Command::SetVolume(volume)));
    let mut m: usize = 0;
    while m < members
        invariant
            m <= members,
            steps@.len() == 2 + 3 * m,
            forall|i: int| 0 <= i < steps@.len() ==> #[trigger] steps@[i] == join_step_at(i, volume),
        decreases members - m,
    {
        steps.push(required_step(Target::Member(m), Command::Leave));
        steps.push(required_step(Target::Member(m), Command::SetVolume(volume)));
        steps.push(best_effort_step(Target::Member(m), Command::JoinCoordinator));
        m += 1;
    }
    assert(steps@ =~= join_steps(members as nat, volume));
    steps
}

/// The positions of the steps that concern member `m` in a join sequence:
/// leave, set volume, join.
pub open spec fn member_steps(m: int) -> (int, int, int) {
    (2 + 3 * m, 3 + 3 * m, 4 + 3 * m)
}

/// A request without rooms ends as "no coordinator" in its first phase:
/// the one thing it asks for is to hand that outcome back, and no event
/// moves it on, so that nothing is ever asked of a device.
pub proof fn lemma_empty_request_contacts_nothing(event: GroupEvent)
    ensures
        first_phase(0) == GroupPhase::Finished(GroupOutcome::NoCoordinator),
        action_in(first_phase(0)) == GroupAction::Return(GroupOutcome::NoCoordinator),
        phase_after(first_phase(0), event) == first_phase(0),
{
}

/// The coordinator is looked up with the fixed timeout of three seconds,
/// in the first phase of every request that names a room.
pub proof fn lemma_discovery_is_bounded(rooms: nat)
    requires
        rooms > 0,
    ensures
        action_in(first_phase(rooms)) == (GroupAction::FindCoordinator { timeout_secs: 3 }),
{
}

/// Nothing is changed on any device before the coordinator's volume was
/// read: a run enters the joining phase from the reading of the volume
/// alone, and only on the event that the volume was read.
pub proof fn lemma_volume_read_before_join(phase: GroupPhase, event: GroupEvent)
    requires
        phase != GroupPhase::Joining,
        phase_after(phase, event) == GroupPhase::Joining,
    ensures
        phase == GroupPhase::ReadingVolume,
        event == GroupEvent::VolumeRead,
{
}

/// Every volume that the join sequence sets is the target volume, the
/// coordinator takes it in the second step, right after leaving, and each
/// member takes it before it joins.
pub proof fn lemma_join_volume_uniform(members: nat, volume: u16)
    ensures
        forall|i: int|
            0 <= i < join_steps(members, volume).len() ==> (#[trigger] join_steps(
                members,
                volume,
            )[i].command matches Command::SetVolume(v) ==> v == volume),
        join_steps(members, volume)[0] == required(Target::Coordinator, Command::Leave),
        join_steps(members, volume)[1] == required(
            Target::Coordinator,
            Command::SetVolume(volume),
        ),
        forall|m: int|
            #![trigger member_steps(m)]
            0 <= m < members && m <= usize::MAX ==> {
                let (leave, set, join) = member_steps(m);
                &&& join_steps(members, volume)[leave] == required(
                    Target::Member(m as usize),
                    Command::Leave,
                )
                &&& join_steps(members, volume)[set] == required(
                    Target::Member(m as usize),
                    Command::SetVolume(volume),
                )
                &&& join_steps(members, volume)[join] == best_effort(
                    Target::Member(m as usize),
                    Command::JoinCoordinator,
                )
            },
{
    assert forall|m: int|
        #![trigger member_steps(m)]
        0 <= m < members && m <= usize::MAX implies {
            let (leave, set, join) = member_steps(m);
            &&& join_steps(members, volume)[leave] == required(
                Target::Member(m as usize),
                Command::Leave,
            )
            &&& join_steps(members, volume)[set] == required(
                Target::Member(m as usize),
                Command::SetVolume(volume),
            )
            &&& join_steps(members, volume)[join] == best_effort(
                Target::Member(m as usize),
                Command::JoinCoordinator,
            )
        } by {
        assert((3 * m) / 3 == m && (3 * m) % 3 == 0);
        assert((3 * m + 1) / 3 == m && (3 * m + 1) % 3 == 1);
        assert((3 * m + 2) / 3 == m && (3 * m + 2) % 3 == 2);
    }
}

/// A join sequence that ran to its end has set the target volume on the
/// coordinator and on every member.
pub proof fn lemma_completed_join_set_every_volume(
    members: nat,
    volume: u16,
    results: Seq<bool>,
    m: int,
)
    requires
        2 + 3 * members <= usize::MAX,
        status_after(join_steps(members, volume), results) == Status::Completed,
        0 <= m < members,
    ensures
        results.len() >= 2 + 3 * members,
        results[1],
        results[member_steps(m).1],
{
    let steps = join_steps(members, volume);
    lemma_status_meaning(steps, results);
    lemma_join_volume_uniform(members, volume);
    let (leave, set, join) = member_steps(m);
    assert(!fatal_at(steps, results, 1));
    assert(!fatal_at(steps, results, set));
}

/// A member's failure to join changes nothing about how the run ends: two
/// runs whose results differ only at join steps end alike.
pub proof fn lemma_join_failure_absorbed(
    members: nat,
    volume: u16,
    first: Seq<bool>,
    second: Seq<bool>,
)
    requires
        2 + 3 * members <= usize::MAX,
        first.len() == second.len(),
        forall|j: int|
            0 <= j < first.len() && j < 2 + 3 * members && first[j] != second[j]
                ==> #[trigger] join_steps(members, volume)[j].command
                == Command::JoinCoordinator,
    ensures
        status_after(join_steps(members, volume), first) == status_after(
            join_steps(members, volume),
            second,
        ),
{
    let steps = join_steps(members, volume);
    assert forall|j: int|
        0 <= j < first.len() && j < steps.len() && first[j] != second[j]
            implies #[trigger] steps[j].on_failure == OnFailure::Ignore by {
        assert(steps[j].command == Command::JoinCoordinator);
    }
    lemma_ignored_failures_absorbed(steps, first, second);
}

/// When every leave and every volume change succeeds, the group is formed
/// however many members fail to join.
pub proof fn lemma_grouped_despite_join_failures(members: nat, volume: u16, results: Seq<bool>)
    requires
        2 + 3 * members <= usize::MAX,
        results.len() == 2 + 3 * members,
        forall|j: int|
            0 <= j < results.len() && !results[j] ==> #[trigger] join_steps(
                members,
                volume,
            )[j].command == Command::JoinCoordinator,
    ensures
        status_after(join_steps(members, volume), results) == Status::Completed,
        phase_after(GroupPhase::Joining, GroupEvent::JoinCompleted) == GroupPhase::Finished(
            GroupOutcome::Grouped,
        ),
{
    let steps = join_steps(members, volume);
    lemma_status_meaning(steps, results);
    assert forall|j: int| 0 <= j < steps.len() implies !fatal_at(steps, results, j) by {
        if !results[j] {
            assert(steps[j].command == Command::JoinCoordinator);
        }
    }
}

} // verus!
