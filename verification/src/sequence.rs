//! Ordered device commands with a failure policy for each step, and the
//! bookkeeping of one run through such a sequence.
//!
//! The caller performs each command on the device it is aimed at and reports
//! whether it succeeded; the run decides what comes next.

use vstd::prelude::*;

verus! {

/// How a device repeats its queue.
#[derive(Clone, Copy, Debug, PartialEq, Eq, Structural)]
pub enum RepeatMode {
    Off,
    One,
    All,
}

/// The device that a command is aimed at.
#[derive(Clone, Copy, Debug, PartialEq, Eq, Structural)]
pub enum Target {
    /// The group leader.
    Coordinator,
    /// The resolved member with this index.
    Member(usize),
}

/// One command of the device capability interface.
#[derive(Clone, Copy, Debug, PartialEq, Eq, Structural)]
pub enum Command {
    Stop,
    ClearQueue,
    /// Enqueue the sequence's playlist as the next item.
    Enqueue,
    SetRepeatMode(RepeatMode),
    SetShuffle(bool),
    /// Set the sleep timer to this many seconds.
    SetSleepTimer(u64),
    Play,
    /// Leave whatever group the device is in.
    Leave,
    SetVolume(u16),
    /// Join the coordinator's group, by the coordinator's room name.
    JoinCoordinator,
}

/// What a failed step means for the rest of the sequence.
#[derive(Clone, Copy, Debug, PartialEq, Eq, Structural)]
pub enum OnFailure {
    /// The sequence stops and the failure is reported.
    Abort,
    /// The failure is absorbed and the sequence goes on.
    Ignore,
}

/// One step of a sequence.
#[derive(Clone, Copy, Debug, PartialEq, Eq, Structural)]
pub struct Step {
    pub target: Target,
    pub command: Command,
    pub on_failure: OnFailure,
}

/// Where a run through a sequence stands.
#[derive(Clone, Copy, Debug, PartialEq, Eq, Structural)]
pub enum Status {
    /// The step with this index is to be performed next.
    Pending(usize),
    /// Every step was performed and none that matters failed.
    Completed,
    /// The step with this index failed and stopped the sequence.
    Aborted(usize),
}

/// A step that stops the sequence when it fails.
pub open spec fn required(target: Target, command: Command) -> Step {
    Step { target, command, on_failure: OnFailure::Abort }
}

/// A step whose failure is absorbed.
pub open spec fn best_effort(target: Target, command: Command) -> Step {
    Step { target, command, on_failure: OnFailure::Ignore }
}

/// Where a run stands before anything was performed.
pub open spec fn initial_status(steps: Seq<Step>) -> Status {
    if steps.len() == 0 {
        Status::Completed
    } else {
        Status::Pending(0)
    }
}

/// Where a run stands once the pending step's result is known. A run that
/// is over stays as it is.
pub open spec fn after_report(steps: Seq<Step>, status: Status, ok: bool) -> Status {
    match status {
        Status::Pending(i) => {
            if !ok && steps[i as int].on_failure == OnFailure::Abort {
                Status::Aborted(i)
            } else if i + 1 < steps.len() {
                Status::Pending((i + 1) as usize)
            } else {
                Status::Completed
            }
        },
        _ => status,
    }
}

/// Where a run stands after the results `results`, the first for the first
/// step. Results that arrive after the run is over are not looked at.
pub open spec fn status_after(steps: Seq<Step>, results: Seq<bool>) -> Status
    decreases results.len(),
{
    if results.len() == 0 {
        initial_status(steps)
    } else {
        after_report(steps, status_after(steps, results.drop_last()), results.last())
    }
}

/// Step `i` was performed, failed, and is one whose failure stops the run.
pub open spec fn fatal_at(steps: Seq<Step>, results: Seq<bool>, i: int) -> bool {
    &&& 0 <= i < steps.len()
    &&& i < results.len()
    &&& !results[i]
    &&& steps[i].on_failure == OnFailure::Abort
}

/// No step before `end` is fatal.
pub open spec fn none_fatal_before(steps: Seq<Step>, results: Seq<bool>, end: int) -> bool {
    forall|j: int| 0 <= j < end ==> !fatal_at(steps, results, j)
}

/// A pending or aborted step is one of the steps.
pub open spec fn in_range(steps: Seq<Step>, status: Status) -> bool {
    match status {
        Status::Pending(i) => i < steps.len(),
        Status::Aborted(i) => i < steps.len(),
        Status::Completed => true,
    }
}

/// Builds a step that stops the sequence when it fails.
pub fn required_step(target: Target, command: Command) -> (step: Step)
    ensures
        step == required(target, command),
{
    Step { target, command, on_failure: OnFailure::Abort }
}

/// Builds a step whose failure is absorbed.
pub fn best_effort_step(target: Target, command: Command) -> (step: Step)
    ensures
        step == best_effort(target, command),
{
    Step { target, command, on_failure: OnFailure::Ignore }
}

/// One run through a sequence of steps.
pub struct Sequencer {
    steps: Vec<Step>,
    status: Status,
}

impl Sequencer {
    /// The steps of the run.
    pub closed spec fn steps(&self) -> Seq<Step> {
        self.steps@
    }

    /// Where the run stands.
    pub closed spec fn state(&self) -> Status {
        self.status
    }

    /// The step that the run stands at is one of its steps.
    #[verifier::type_invariant]
    spec fn well_formed(&self) -> bool {
        in_range(self.steps@, self.status)
    }

    /// Starts a run: the first step is pending, or the run is complete if
    /// there is none.
    pub fn new(steps: Vec<Step>) -> (run: Sequencer)
        ensures
            run.steps() == steps@,
            run.state() == initial_status(steps@),
    {
        let status = if steps.len() == 0 {
            Status::Completed
        } else {
            Status::Pending(0)
        };
        Sequencer { steps, status }
    }

    /// Where the run stands.
    pub fn status(&self) -> (status: Status)
        ensures
            status == self.state(),
    {
        self.status
    }

    /// The step to perform next; none once the run is over.
    pub fn current(&self) -> (step: Option<Step>)
        ensures
            step == match self.state() {
                Status::Pending(i) => Some(self.steps()[i as int]),
                _ => None::<Step>,
            },
    {
        proof {
            use_type_invariant(self);
        }
        match self.status {
            Status::Pending(i) => Some(self.steps[i]),
            _ => None,
        }
    }

    /// Records whether the pending step succeeded and says where the run
    /// stands then. On a run that is over nothing changes.
    pub fn report(&mut self, ok: bool) -> (status: Status)
        ensures
            final(self).steps() == old(self).steps(),
            final(self).state() == after_report(old(self).steps(), old(self).state(), ok),
            status == final(self).state(),
    {
        proof {
            use_type_invariant(&*self);
        }
        let next = advance(&self.steps, self.status, ok);
        self.status = next;
        next
    }
}

/// Where a run stands once the pending step's result is known.
fn advance(steps: &Vec<Step>, status: Status, ok: bool) -> (next: Status)
    requires
        in_range(steps@, status),
    ensures
        next == after_report(steps@, status, ok),
        in_range(steps@, next),
{
    let n: usize = steps.len();
    match status {
        Status::Pending(i) => {
            let abort = match steps[i].on_failure {
                OnFailure::Abort => !ok,
                OnFailure::Ignore => false,
            };
            if abort {
                Status::Aborted(i)
            } else if i + 1 < n {
                Status::Pending(i + 1)
            } else {
                Status::Completed
            }
        },
        _ => status,
    }
}

/// Where a run through `steps` stands after the results `results`.
pub fn replay(steps: &Vec<Step>, results: &Vec<bool>) -> (status: Status)
    ensures
        status == status_after(steps@, results@),
{
    let mut status = if steps.len() == 0 {
        Status::Completed
    } else {
        Status::Pending(0)
    };
    let mut k: usize = 0;
    assert(results@.take(0) =~= Seq::empty());
    while k < results.len()
        invariant
            k <= results.len(),
            status == status_after(steps@, results@.take(k as int)),
            in_range(steps@, status),
        decreases results.len() - k,
    {
        proof {
            assert(results@.take(k + 1).drop_last() =~= results@.take(k as int));
            assert(results@.take(k + 1).last() == results@[k as int]);
        }
        status = advance(steps, status, results[k]);
        k += 1;
    }
    assert(results@.take(k as int) =~= results@);
    status
}

/// What the status of a run says about the results so far.
///
/// A pending run has seen one result for each step before the pending one
/// and none of them was fatal. A completed run has seen a result for every
/// step and none was fatal. An aborted run stopped at the first fatal step.
pub proof fn lemma_status_meaning(steps: Seq<Step>, results: Seq<bool>)
    requires
        steps.len() <= usize::MAX,
    ensures
        match status_after(steps, results) {
            Status::Pending(i) => {
                &&& i == results.len()
                &&& i < steps.len()
                &&& none_fatal_before(steps, results, i as int)
            },
            Status::Completed => {
                &&& results.len() >= steps.len()
                &&& none_fatal_before(steps, results, steps.len() as int)
            },
            Status::Aborted(i) => {
                &&& fatal_at(steps, results, i as int)
                &&& none_fatal_before(steps, results, i as int)
            },
        },
    decreases results.len(),
{
    if results.len() > 0 {
        let head = results.drop_last();
        lemma_status_meaning(steps, head);
        assert forall|j: int| 0 <= j < head.len() implies fatal_at(steps, head, j) == fatal_at(
            steps,
            results,
            j,
        ) by {
            assert(head[j] == results[j]);
        }
        assert forall|j: int| j >= head.len() implies !fatal_at(steps, head, j) by {}
    }
}

/// Failures of best-effort steps do not change where a run ends: two runs
/// whose results differ only at steps that ignore failure stand alike.
pub proof fn lemma_ignored_failures_absorbed(
    steps: Seq<Step>,
    first: Seq<bool>,
    second: Seq<bool>,
)
    requires
        steps.len() <= usize::MAX,
        first.len() == second.len(),
        forall|j: int|
            0 <= j < first.len() && j < steps.len() && first[j] != second[j]
                ==> #[trigger] steps[j].on_failure == OnFailure::Ignore,
    ensures
        status_after(steps, first) == status_after(steps, second),
{
    lemma_status_meaning(steps, first);
    lemma_status_meaning(steps, second);
    assert forall|j: int| fatal_at(steps, first, j) == fatal_at(steps, second, j) by {
        if 0 <= j < first.len() && j < steps.len() && first[j] != second[j] {
            assert(steps[j].on_failure == OnFailure::Ignore);
        }
    }
}

/// A run in which every step succeeds completes.
pub proof fn lemma_all_succeed_completes(steps: Seq<Step>, results: Seq<bool>)
    requires
        steps.len() <= usize::MAX,
        results.len() == steps.len(),
        forall|j: int| 0 <= j < results.len() ==> results[j],
    ensures
        status_after(steps, results) == Status::Completed,
{
    lemma_status_meaning(steps, results);
}

} // verus!
