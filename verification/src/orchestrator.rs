//! One grouping run from request to outcome, with everything it learns on
//! the way.
//!
//! The run says what it asks for next; the caller does it on the network
//! and hands the answer back through the method for that answer. An answer
//! that the run is not waiting for changes nothing.

use vstd::prelude::*;
use crate::group::{
    action_for, action_in, begin, collect_resolved, coordinator_room, first_phase, join_event,
    join_plan, join_steps, next_phase, phase_after, resolved_of, target_volume, volume_for,
    GroupAction, GroupEvent, GroupOutcome, GroupPhase,
};
use crate::names::names_of;
use crate::sequence::{after_report, initial_status, Sequencer, Status, Step};
use crate::topology::{
    entries_of, flatten_groups, flattened, groups_of, members_among, select_members, EntryView,
    TopologyEntry,
};

verus! {

/// A grouping run.
pub struct GroupRun {
    rooms: Vec<String>,
    requested: Option<u16>,
    phase: GroupPhase,
    wanted: Vec<TopologyEntry>,
    members: usize,
    joiner: Sequencer,
}

/// A grouping run as plain values.
pub struct GroupRunView {
    /// The requested rooms; the first names the coordinator.
    pub rooms: Seq<Seq<char>>,
    /// The requested volume, if any.
    pub requested: Option<u16>,
    /// What the run is waiting for.
    pub phase: GroupPhase,
    /// The topology entries that the request asks for as members.
    pub wanted: Seq<EntryView>,
    /// How many of them were resolved to a device.
    pub members: nat,
    /// The join sequence; empty until the coordinator's volume was read.
    pub steps: Seq<Step>,
    /// Where the join sequence stands.
    pub status: Status,
}

impl View for GroupRun {
    type V = GroupRunView;

    closed spec fn view(&self) -> GroupRunView {
        GroupRunView {
            rooms: names_of(self.rooms@),
            requested: self.requested,
            phase: self.phase,
            wanted: entries_of(self.wanted@),
            members: self.members as nat,
            steps: self.joiner.steps(),
            status: self.joiner.state(),
        }
    }
}

/// A run that has learned nothing yet.
pub open spec fn fresh(rooms: Seq<Seq<char>>, requested: Option<u16>) -> GroupRunView {
    GroupRunView {
        rooms,
        requested,
        phase: first_phase(rooms.len()),
        wanted: Seq::empty(),
        members: 0,
        steps: Seq::empty(),
        status: Status::Completed,
    }
}

/// The run with its phase moved on by `event` and nothing else changed.
pub open spec fn moved(run: GroupRunView, event: GroupEvent) -> GroupRunView {
    GroupRunView { phase: phase_after(run.phase, event), ..run }
}

/// The run after the zone groups `groups` were read: the entries that the
/// rooms after the first ask for are kept for resolution.
pub open spec fn after_topology(run: GroupRunView, groups: Seq<Seq<EntryView>>) -> GroupRunView {
    if run.phase == GroupPhase::ReadingTopology {
        GroupRunView {
            wanted: members_among(flattened(groups), run.rooms),
            ..moved(run, GroupEvent::TopologyRead)
        }
    } else {
        run
    }
}

/// The run after every resolution has ended and `members` of them gave a
/// device: the join will be laid out for that many members.
pub open spec fn after_resolution(run: GroupRunView, members: nat) -> GroupRunView {
    if run.phase == GroupPhase::Resolving {
        GroupRunView { members, ..moved(run, GroupEvent::MembersResolved) }
    } else {
        run
    }
}

/// The run after the coordinator's volume was read as `current`: the join
/// sequence is laid out at the requested volume, or at `current` if none
/// was requested, and its first step is pending.
pub open spec fn after_volume(run: GroupRunView, current: u16) -> GroupRunView {
    if run.phase == GroupPhase::ReadingVolume {
        let steps = join_steps(run.members, volume_for(run.requested, current));
        GroupRunView {
            steps,
            status: initial_status(steps),
            ..moved(run, GroupEvent::VolumeRead)
        }
    } else {
        run
    }
}

/// The run after the pending step of the join sequence ended. When that
/// was the last step the group stands; when a required step failed the
/// run has failed.
pub open spec fn after_step(run: GroupRunView, ok: bool) -> GroupRunView {
    if run.phase == GroupPhase::Joining {
        let status = after_report(run.steps, run.status, ok);
        GroupRunView {
            status,
            phase: match status {
                Status::Pending(_) => GroupPhase::Joining,
                Status::Completed => GroupPhase::Finished(GroupOutcome::Grouped),
                Status::Aborted(_) => GroupPhase::Finished(GroupOutcome::Failed),
            },
            ..run
        }
    } else {
        run
    }
}

/// The step that the run wants performed: the pending step of the join
/// sequence while the run is joining, and none otherwise.
pub open spec fn pending_step(run: GroupRunView) -> Option<Step> {
    match (run.phase, run.status) {
        (GroupPhase::Joining, Status::Pending(i)) => Some(run.steps[i as int]),
        _ => None,
    }
}

impl GroupRun {
    /// Starts a run for the rooms `rooms` at the volume `requested`.
    pub fn new(rooms: Vec<String>, requested: Option<u16>) -> (run: GroupRun)
        ensures
            run@ == fresh(names_of(rooms@), requested),
    {
        let phase = begin(rooms.len());
        assert(names_of(rooms@).len() == rooms@.len());
        let run = GroupRun {
            rooms,
            requested,
            phase,
            wanted: Vec::new(),
            members: 0,
            joiner: Sequencer::new(Vec::new()),
        };
        assert(run@.wanted =~= Seq::empty());
        run
    }

    /// What the run asks for next.
    pub fn action(&self) -> (action: GroupAction)
        ensures
            action == action_in(self@.phase),
    {
        action_for(self.phase)
    }

    /// What the run is waiting for.
    pub fn phase(&self) -> (phase: GroupPhase)
        ensures
            phase == self@.phase,
    {
        self.phase
    }

    /// The room that names the coordinator: the first, if there is one.
    pub fn coordinator_room(&self) -> (first: Option<&String>)
        ensures
            match first {
                Some(room) => self@.rooms.len() > 0 && room@ == self@.rooms[0],
                None => self@.rooms.len() == 0,
            },
    {
        coordinator_room(&self.rooms)
    }

    /// The entries to resolve.
    pub fn to_resolve(&self) -> (entries: &Vec<TopologyEntry>)
        ensures
            entries_of(entries@) == self@.wanted,
    {
        &self.wanted
    }

    /// The step of the join sequence to perform next, while there is one.
    pub fn current_step(&self) -> (step: Option<Step>)
        ensures
            step == pending_step(self@),
    {
        match self.phase {
            GroupPhase::Joining => self.joiner.current(),
            _ => None,
        }
    }

    /// The lookup of the first room has ended: it answered or it did not.
    pub fn coordinator_found(&mut self, found: bool)
        ensures
            final(self)@ == moved(
                old(self)@,
                if found {
                    GroupEvent::CoordinatorFound
                } else {
                    GroupEvent::CoordinatorMissing
                },
            ),
    {
        let event = if found {
            GroupEvent::CoordinatorFound
        } else {
            GroupEvent::CoordinatorMissing
        };
        self.phase = next_phase(self.phase, event);
    }

    /// The call that the run was waiting for failed.
    pub fn transport_error(&mut self)
        ensures
            final(self)@ == moved(old(self)@, GroupEvent::TransportError),
    {
        self.phase = next_phase(self.phase, GroupEvent::TransportError);
    }

    /// The coordinator's zone groups were read.
    pub fn topology_read(&mut self, groups: &Vec<Vec<TopologyEntry>>)
        ensures
            final(self)@ == after_topology(old(self)@, groups_of(groups@)),
    {
        match self.phase {
            GroupPhase::ReadingTopology => {
                let flat = flatten_groups(groups);
                self.wanted = select_members(&flat, &self.rooms);
                self.phase = next_phase(self.phase, GroupEvent::TopologyRead);
            },
            _ => {},
        }
    }

    /// Every resolution has ended, with the results `results`. The devices
    /// of those that succeeded come back, in order; the others are dropped
    /// without a word, and the join goes on with the devices that are there.
    pub fn members_resolved<T, E>(&mut self, results: Vec<Result<Option<T>, E>>) -> (handles: Vec<
        T,
    >)
        ensures
            handles@ == resolved_of(results@),
            final(self)@ == after_resolution(old(self)@, handles@.len()),
    {
        let handles = collect_resolved(results);
        match self.phase {
            GroupPhase::Resolving => {
                self.members = handles.len();
                self.phase = next_phase(self.phase, GroupEvent::MembersResolved);
            },
            _ => {},
        }
        handles
    }

    /// The coordinator's volume was read as `current`.
    pub fn volume_read(&mut self, current: u16)
        ensures
            final(self)@ == after_volume(old(self)@, current),
    {
        match self.phase {
            GroupPhase::ReadingVolume => {
                let volume = target_volume(self.requested, current);
                self.joiner = Sequencer::new(join_plan(self.members, volume));
                self.phase = next_phase(self.phase, GroupEvent::VolumeRead);
            },
            _ => {},
        }
    }

    /// The pending step of the join sequence succeeded or failed.
    pub fn step_done(&mut self, ok: bool)
        ensures
            final(self)@ == after_step(old(self)@, ok),
    {
        match self.phase {
            GroupPhase::Joining => {
                let status = self.joiner.report(ok);
                match join_event(status) {
                    Some(event) => {
                        self.phase = next_phase(self.phase, event);
                    },
                    None => {},
                }
            },
            _ => {},
        }
    }
}

/// The whole of a run that meets no transport error: once the coordinator
/// was found, the topology read, `members` devices resolved and the volume
/// read, the run joins with the sequence for that many members at the
/// requested volume, or at the coordinator's own if none was requested.
pub proof fn lemma_run_reaches_the_join(
    rooms: Seq<Seq<char>>,
    requested: Option<u16>,
    groups: Seq<Seq<EntryView>>,
    members: nat,
    current: u16,
)
    requires
        rooms.len() > 0,
    ensures
        ({
            let found = moved(fresh(rooms, requested), GroupEvent::CoordinatorFound);
            let read = after_topology(found, groups);
            let resolved = after_resolution(read, members);
            let ready = after_volume(resolved, current);
            &&& read.wanted == members_among(flattened(groups), rooms)
            &&& ready.phase == GroupPhase::Joining
            &&& ready.steps == join_steps(members, volume_for(requested, current))
            &&& pending_step(ready) == Some(ready.steps[0])
        }),
{
}

/// A run that is over stays over: no answer changes it.
pub proof fn lemma_finished_run_is_final(
    run: GroupRunView,
    event: GroupEvent,
    groups: Seq<Seq<EntryView>>,
    members: nat,
    current: u16,
    ok: bool,
)
    requires
        run.phase is Finished,
    ensures
        moved(run, event) == run,
        after_topology(run, groups) == run,
        after_resolution(run, members) == run,
        after_volume(run, current) == run,
        after_step(run, ok) == run,
        pending_step(run) is None,
{
}

} // verus!
