//! What a join sequence does to the devices it is aimed at.
//!
//! The service keeps no state of its own: the devices are the truth. This
//! module states, in terms of a plain description of each device, what a
//! join sequence leaves behind, and that this does not depend on what was
//! there before.

use vstd::prelude::*;
use crate::group::{join_step_at, join_steps, member_steps};
use crate::sequence::{
    fatal_at, lemma_status_meaning, none_fatal_before, status_after, Command, Status, Step, Target,
};

verus! {

/// What matters of one device: whose group it plays in, and how loud.
pub struct DeviceState {
    pub leader: Target,
    pub volume: u16,
}

/// The household after `step` was tried on it. A failed step changes
/// nothing. Leaving makes a device its own leader, joining makes the
/// coordinator its leader, and setting the volume sets it.
pub open spec fn performed(
    world: Map<Target, DeviceState>,
    step: Step,
    ok: bool,
) -> Map<Target, DeviceState> {
    let device = world[step.target];
    if !ok {
        world
    } else {
        match step.command {
            Command::Leave => world.insert(
                step.target,
                DeviceState { leader: step.target, volume: device.volume },
            ),
            Command::SetVolume(v) => world.insert(
                step.target,
                DeviceState { leader: device.leader, volume: v },
            ),
            Command::JoinCoordinator => world.insert(
                step.target,
                DeviceState { leader: Target::Coordinator, volume: device.volume },
            ),
            _ => world,
        }
    }
}

/// The household after the first `done` steps had their turn. A step is
/// tried exactly when it has a result and no step before it was fatal.
pub open spec fn household_after(
    steps: Seq<Step>,
    results: Seq<bool>,
    world: Map<Target, DeviceState>,
    done: nat,
) -> Map<Target, DeviceState>
    decreases done,
{
    if done == 0 {
        world
    } else {
        let k = (done - 1) as int;
        let before = household_after(steps, results, world, (done - 1) as nat);
        if k < steps.len() && k < results.len() && none_fatal_before(steps, results, k) {
            performed(before, steps[k], results[k])
        } else {
            before
        }
    }
}

/// What a join sequence at volume `volume` leaves of the coordinator.
pub open spec fn grouped_coordinator(volume: u16) -> DeviceState {
    DeviceState { leader: Target::Coordinator, volume }
}

/// What a join sequence at volume `volume` leaves of member `m`: it plays
/// with the coordinator if its join succeeded, and alone if not.
pub open spec fn grouped_member(m: int, volume: u16, joined: bool) -> DeviceState {
    DeviceState {
        leader: if joined {
            Target::Coordinator
        } else {
            Target::Member(m as usize)
        },
        volume,
    }
}

proof fn lemma_coordinator_progress(
    members: nat,
    volume: u16,
    results: Seq<bool>,
    world: Map<Target, DeviceState>,
    done: nat,
)
    requires
        2 + 3 * members <= usize::MAX,
        results.len() >= 2 + 3 * members,
        none_fatal_before(join_steps(members, volume), results, 2 + 3 * (members as int)),
        done <= 2 + 3 * members,
    ensures
        done >= 1 ==> household_after(join_steps(members, volume), results, world, done)[
            Target::Coordinator
        ].leader == Target::Coordinator,
        done >= 2 ==> household_after(join_steps(members, volume), results, world, done)[
            Target::Coordinator
        ].volume == volume,
    decreases done,
{
    let steps = join_steps(members, volume);
    if done > 0 {
        let k = (done - 1) as int;
        lemma_coordinator_progress(members, volume, results, world, (done - 1) as nat);
        assert(steps[k] == join_step_at(k, volume));
        assert(!fatal_at(steps, results, k));
        assert(none_fatal_before(steps, results, k));
    }
}

proof fn lemma_member_progress(
    members: nat,
    volume: u16,
    results: Seq<bool>,
    world: Map<Target, DeviceState>,
    done: nat,
    m: int,
)
    requires
        2 + 3 * members <= usize::MAX,
        results.len() >= 2 + 3 * members,
        none_fatal_before(join_steps(members, volume), results, 2 + 3 * (members as int)),
        done <= 2 + 3 * members,
        0 <= m < members,
    ensures
        done > 2 + 3 * m ==> household_after(join_steps(members, volume), results, world, done)[
            Target::Member(m as usize)
        ].leader == (if done > 4 + 3 * m && results[4 + 3 * m] {
            Target::Coordinator
        } else {
            Target::Member(m as usize)
        }),
        done > 3 + 3 * m ==> household_after(join_steps(members, volume), results, world, done)[
            Target::Member(m as usize)
        ].volume == volume,
    decreases done,
{
    let steps = join_steps(members, volume);
    if done > 0 {
        let k = (done - 1) as int;
        lemma_member_progress(members, volume, results, world, (done - 1) as nat, m);
        assert(steps[k] == join_step_at(k, volume));
        assert(!fatal_at(steps, results, k));
        assert(none_fatal_before(steps, results, k));
        if k >= 2 {
            let other = (k - 2) / 3;
            assert(0 <= other < members);
            if other != m {
                assert(Target::Member(other as usize) != Target::Member(m as usize));
            } else {
                assert(k == 2 + 3 * m || k == 3 + 3 * m || k == 4 + 3 * m);
            }
        }
    }
}

/// What a join sequence that ran to its end leaves behind, whatever was
/// there before: the coordinator leads its own group at the target volume,
/// and each member is at the target volume, in the coordinator's group if
/// its join succeeded and on its own if not.
pub proof fn lemma_join_settles_the_group(
    members: nat,
    volume: u16,
    results: Seq<bool>,
    world: Map<Target, DeviceState>,
    m: int,
)
    requires
        2 + 3 * members <= usize::MAX,
        status_after(join_steps(members, volume), results) == Status::Completed,
        0 <= m < members,
    ensures
        household_after(
            join_steps(members, volume),
            results,
            world,
            2 + 3 * members,
        )[Target::Coordinator] == grouped_coordinator(volume),
        household_after(join_steps(members, volume), results, world, 2 + 3 * members)[Target::Member(
            m as usize,
        )] == grouped_member(m, volume, results[member_steps(m).2]),
{
    let steps = join_steps(members, volume);
    lemma_status_meaning(steps, results);
    lemma_coordinator_progress(members, volume, results, world, 2 + 3 * members);
    lemma_member_progress(members, volume, results, world, 2 + 3 * members, m);
}

/// Grouping the same rooms twice gives the same group: a second run with
/// the same results, started on what the first run left behind, leaves the
/// coordinator and every member exactly as the first run left them.
pub proof fn lemma_grouping_twice_changes_nothing(
    members: nat,
    volume: u16,
    results: Seq<bool>,
    world: Map<Target, DeviceState>,
    m: int,
)
    requires
        2 + 3 * members <= usize::MAX,
        status_after(join_steps(members, volume), results) == Status::Completed,
        0 <= m < members,
    ensures
        ({
            let steps = join_steps(members, volume);
            let once = household_after(steps, results, world, 2 + 3 * members);
            let twice = household_after(steps, results, once, 2 + 3 * members);
            &&& twice[Target::Coordinator] == once[Target::Coordinator]
            &&& twice[Target::Member(m as usize)] == once[Target::Member(m as usize)]
        }),
{
    let steps = join_steps(members, volume);
    let once = household_after(steps, results, world, 2 + 3 * members);
    lemma_join_settles_the_group(members, volume, results, world, m);
    lemma_join_settles_the_group(members, volume, results, once, m);
}

} // verus!
