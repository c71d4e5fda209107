//! A request to the panel while it is being carried out.

use crate::error::Error;
use crate::instruction::Instruction;
use crate::operation::{Line, Operation, OperationView};
use crate::orientation::Orientation;
use crate::report::Report;
use std::collections::VecDeque;
use vstd::prelude::*;

verus! {

/// One request to the panel: the operations that are still to be performed,
/// in order, and, if the request writes the orientation register, the
/// orientation that the driver caches once that write has gone through.
pub struct Run<'a> {
    queue: VecDeque<Operation<'a>>,
    // The orientation that the run writes to the register, if it has not
    // been cached yet.
    staged: Option<Orientation>,
    // How many operations are still to be handed out before the write of
    // the staged orientation is complete.
    left: usize,
    // Whether the operation handed out last drives a line.
    driving: bool,
}

/// An orientation on its way into the panel's register.
pub struct Staged {
    /// The orientation that the register is set to.
    pub orientation: Orientation,
    /// How many operations are still to be handed out before the write is
    /// complete: all up to and including the parameter byte.
    pub left: nat,
}

impl Staged {
    /// The same write after one more operation was handed out.
    pub open spec fn one_on(self) -> Staged {
        Staged {
            orientation: self.orientation,
            left: if self.left > 0 {
                (self.left - 1) as nat
            } else {
                0
            },
        }
    }
}

/// What the caller of a run does next.
#[derive(Debug, PartialEq, Eq)]
pub enum Action<'a, PinE> {
    /// Perform this operation and report how it went.
    Perform(Operation<'a>),
    /// The run is over, with this result.
    Finish(Result<(), Error<PinE>>),
}

/// An [`Action`] as a mathematical value.
#[verifier::ext_equal]
pub enum ActionView<PinE> {
    /// Perform this operation and report how it went.
    Perform(OperationView),
    /// The run is over, with this result.
    Finish(Result<(), Error<PinE>>),
}

impl<'a, PinE> View for Action<'a, PinE> {
    type V = ActionView<PinE>;

    open spec fn view(&self) -> ActionView<PinE> {
        match *self {
            Action::Perform(operation) => ActionView::Perform(operation@),
            Action::Finish(result) => ActionView::Finish(result),
        }
    }
}

/// Where a run stands.
#[verifier::ext_equal]
pub struct RunState {
    /// The operations that have not been handed out yet, next one first.
    pub remaining: Seq<OperationView>,
    /// The write of the orientation register that the run has not completed
    /// yet, if there is one.
    pub staged: Option<Staged>,
    /// The orientation that the driver has cached.
    pub cached: Orientation,
    /// Whether the operation that was handed out last drives a line.
    pub driving: bool,
}

impl RunState {
    /// Whether every burst of the staged write has been handed out, so that
    /// a report of success tells that the register holds the staged
    /// orientation.
    pub open spec fn written(self) -> bool {
        self.staged is Some && self.staged.unwrap().left == 0
    }

    /// A run that has ended: nothing to perform, nothing staged.
    pub open spec fn ended(cached: Orientation) -> RunState {
        RunState { remaining: Seq::empty(), staged: None, cached, driving: false }
    }
}

/// One step of a run. `last` reports on the operation that the step before
/// handed out; for the first step, where there is none, it is
/// [`Report::Begin`].
///
/// A failure ends the run at once: the failure is the run's result, nothing
/// is left to perform, and the cached orientation stays. A report of
/// success that answers the last burst of the staged write makes the staged
/// orientation the cached one: the cache follows the register. Then the
/// next operation is handed out, or, when none is left, the run ends with
/// success.
pub open spec fn step<PinE>(state: RunState, last: Report<PinE>) -> (RunState, ActionView<PinE>) {
    match last.failure(state.driving) {
        Some(error) => (RunState::ended(state.cached), ActionView::Finish(Err(error))),
        None => {
            let cached = if state.written() {
                state.staged.unwrap().orientation
            } else {
                state.cached
            };
            if state.remaining.len() > 0 {
                (
                    RunState {
                        remaining: state.remaining.drop_first(),
                        staged: if state.written() {
                            None
                        } else {
                            match state.staged {
                                Some(staged) => Some(staged.one_on()),
                                None => None,
                            }
                        },
                        cached,
                        driving: state.remaining[0].drives_line(),
                    },
                    ActionView::Perform(state.remaining[0]),
                )
            } else {
                (RunState::ended(cached), ActionView::Finish(Ok(())))
            }
        },
    }
}

impl<'a> Run<'a> {
    /// The operations that have not been handed out yet, next one first.
    pub closed spec fn remaining(&self) -> Seq<OperationView> {
        self.queue@.map_values(|operation: Operation<'a>| operation@)
    }

    /// The write of the orientation register that the run has not completed
    /// yet, if there is one.
    pub closed spec fn staged(&self) -> Option<Staged> {
        match self.staged {
            Some(orientation) => Some(Staged { orientation, left: self.left as nat }),
            None => None,
        }
    }

    /// Whether the operation that was handed out last drives a line.
    pub closed spec fn driving(&self) -> bool {
        self.driving
    }

    /// Whether the run stands at its beginning with `program` to perform
    /// and `staged` to write.
    pub open spec fn plans(&self, program: Seq<OperationView>, staged: Option<Staged>) -> bool {
        &&& self.remaining() =~~= program
        &&& self.staged() == staged
        &&& !self.driving()
    }

    /// Whether the run is `before` with `added` appended to what it has to
    /// perform, and nothing else changed.
    pub open spec fn extends(&self, before: &Run<'a>, added: Seq<OperationView>) -> bool {
        &&& self.remaining() =~~= before.remaining() + added
        &&& self.staged() == before.staged()
        &&& self.driving() == before.driving()
    }

    /// A run with nothing to do.
    pub(crate) fn new() -> (run: Run<'a>)
        ensures
            run.plans(Seq::empty(), None),
    {
        Run { queue: VecDeque::new(), staged: None, left: 0, driving: false }
    }

    /// How many operations have not been handed out yet.
    pub fn pending(&self) -> (count: usize)
        ensures
            count == self.remaining().len(),
    {
        self.queue.len()
    }

    fn push(&mut self, operation: Operation<'a>)
        ensures
            final(self).remaining() == old(self).remaining().push(operation@),
            final(self).staged() == old(self).staged(),
            final(self).driving() == old(self).driving(),
    {
        self.queue.push_back(operation);
    }

    /// Adds a command burst for a command known by name.
    pub(crate) fn write_command(&mut self, command: Instruction)
        ensures
            final(self).remaining() == old(self).remaining().push(
                OperationView::Command(command.opcode()),
            ),
            final(self).staged() == old(self).staged(),
            final(self).driving() == old(self).driving(),
    {
        self.push(Operation::Command(command.opcode()));
    }

    /// Adds a command burst for a command known by its byte alone.
    pub(crate) fn write_command_raw(&mut self, command: u8)
        ensures
            final(self).remaining() == old(self).remaining().push(OperationView::Command(command)),
            final(self).staged() == old(self).staged(),
            final(self).driving() == old(self).driving(),
    {
        self.push(Operation::Command(command));
    }

    /// Adds a data burst that carries a copy of `data`.
    pub(crate) fn write_data(&mut self, data: &[u8])
        ensures
            final(self).remaining() == old(self).remaining().push(OperationView::Data(data@)),
            final(self).staged() == old(self).staged(),
            final(self).driving() == old(self).driving(),
    {
        self.push(Operation::Data(vstd::slice::slice_to_vec(data)));
    }

    /// Adds a data burst that carries `data`.
    pub(crate) fn write_bytes(&mut self, data: Vec<u8>)
        ensures
            final(self).remaining() == old(self).remaining().push(OperationView::Data(data@)),
            final(self).staged() == old(self).staged(),
            final(self).driving() == old(self).driving(),
    {
        self.push(Operation::Data(data));
    }

    /// Adds a data burst that carries the caller's `data`.
    pub(crate) fn write_buffer(&mut self, data: &'a [u8])
        ensures
            final(self).remaining() == old(self).remaining().push(OperationView::Data(data@)),
            final(self).staged() == old(self).staged(),
            final(self).driving() == old(self).driving(),
    {
        self.push(Operation::Buffer(data));
    }

    /// Adds driving `line` high.
    pub(crate) fn set_high(&mut self, line: Line)
        ensures
            final(self).remaining() == old(self).remaining().push(OperationView::SetHigh(line)),
            final(self).staged() == old(self).staged(),
            final(self).driving() == old(self).driving(),
    {
        self.push(Operation::SetHigh(line));
    }

    /// Adds driving `line` low.
    pub(crate) fn set_low(&mut self, line: Line)
        ensures
            final(self).remaining() == old(self).remaining().push(OperationView::SetLow(line)),
            final(self).staged() == old(self).staged(),
            final(self).driving() == old(self).driving(),
    {
        self.push(Operation::SetLow(line));
    }

    /// Adds a wait of at least `micros` microseconds.
    pub(crate) fn delay_us(&mut self, micros: u32)
        ensures
            final(self).remaining() == old(self).remaining().push(OperationView::DelayUs(micros)),
            final(self).staged() == old(self).staged(),
            final(self).driving() == old(self).driving(),
    {
        self.push(Operation::DelayUs(micros));
    }

    /// Says that the operations added so far end with the write of
    /// `orientation` to the orientation register: the driver caches it when
    /// the last of them is reported done.
    pub(crate) fn stage(&mut self, orientation: Orientation)
        ensures
            final(self).remaining() == old(self).remaining(),
            final(self).staged() == Some(
                Staged { orientation, left: old(self).remaining().len() },
            ),
            final(self).driving() == old(self).driving(),
    {
        self.staged = Some(orientation);
        self.left = self.queue.len();
    }

    /// Whether the operation that was handed out last drives a line.
    pub(crate) fn is_driving(&self) -> (driving: bool)
        ensures
            driving == self.driving(),
    {
        self.driving
    }

    /// Takes the staged orientation out of the run if every burst of its
    /// write has been handed out.
    pub(crate) fn take_written(&mut self) -> (written: Option<Orientation>)
        ensures
            written == (match old(self).staged() {
                Some(staged) if staged.left == 0 => Some(staged.orientation),
                _ => None,
            }),
            final(self).staged() == (match old(self).staged() {
                Some(staged) if staged.left == 0 => None,
                other => other,
            }),
            final(self).remaining() == old(self).remaining(),
            final(self).driving() == old(self).driving(),
    {
        if self.left == 0 {
            let written = self.staged;
            self.staged = None;
            written
        } else {
            None
        }
    }

    /// Takes the next operation out of the run, if there is one. With none
    /// left, nothing stays staged.
    pub(crate) fn next(&mut self) -> (operation: Option<Operation<'a>>)
        ensures
            match operation {
                Some(operation) => {
                    &&& old(self).remaining().len() > 0
                    &&& operation@ == old(self).remaining()[0]
                    &&& final(self).remaining() == old(self).remaining().drop_first()
                    &&& final(self).staged() == (match old(self).staged() {
                        Some(staged) => Some(staged.one_on()),
                        None => None,
                    })
                    &&& final(self).driving() == operation@.drives_line()
                },
                None => {
                    &&& old(self).remaining().len() == 0
                    &&& final(self).remaining() == old(self).remaining()
                    &&& final(self).staged() is None
                    &&& !final(self).driving()
                },
            },
    {
        let operation = self.queue.pop_front();
        match &operation {
            Some(Operation::SetHigh(_)) | Some(Operation::SetLow(_)) => {
                self.driving = true;
            },
            _ => {
                self.driving = false;
            },
        }
        if operation.is_some() {
            if self.left > 0 {
                self.left = self.left - 1;
            }
        } else {
            self.staged = None;
        }
        operation
    }

    /// Empties the run: nothing is left to perform and nothing staged.
    pub(crate) fn abandon(&mut self)
        ensures
            final(self).remaining() == Seq::<OperationView>::empty(),
            final(self).staged() is None,
            !final(self).driving(),
    {
        self.queue.clear();
        self.staged = None;
        self.driving = false;
    }
}

/// Whether none of `reports` is a failure.
pub open spec fn unbroken<PinE>(reports: Seq<Report<PinE>>) -> bool {
    forall|i: int| 0 <= i < reports.len() ==> !(#[trigger] reports[i]).is_failure()
}

/// Where a run stands after one step for each of `reports`, in order.
pub open spec fn state_after<PinE>(state: RunState, reports: Seq<Report<PinE>>) -> RunState
    decreases reports.len(),
{
    if reports.len() == 0 {
        state
    } else {
        state_after(step(state, reports[0]).0, reports.drop_first())
    }
}

/// The operations that a run hands out, in order, over one step for each of
/// `reports`.
pub open spec fn performed<PinE>(state: RunState, reports: Seq<Report<PinE>>) -> Seq<
    OperationView,
>
    decreases reports.len(),
{
    if reports.len() == 0 {
        Seq::empty()
    } else {
        let later = performed(step(state, reports[0]).0, reports.drop_first());
        match step(state, reports[0]).1 {
            ActionView::Perform(operation) => seq![operation] + later,
            ActionView::Finish(_) => later,
        }
    }
}

/// Whether the staged write is reported done within the first `steps`
/// steps of a run in which nothing fails: its last burst is handed out and
/// a later step gets the report of it.
pub open spec fn written_within(state: RunState, steps: nat) -> bool {
    &&& state.staged is Some
    &&& state.staged.unwrap().left < steps
    &&& state.staged.unwrap().left <= state.remaining.len()
}

/// Where a run stands after `steps` steps in which nothing failed and each
/// of which handed out an operation.
pub open spec fn state_after_unbroken(state: RunState, steps: nat) -> RunState
    recommends
        steps <= state.remaining.len(),
{
    RunState {
        remaining: state.remaining.skip(steps as int),
        staged: match state.staged {
            Some(staged) if staged.left >= steps => Some(
                Staged { orientation: staged.orientation, left: (staged.left - steps) as nat },
            ),
            _ => None,
        },
        cached: if written_within(state, steps) {
            state.staged.unwrap().orientation
        } else {
            state.cached
        },
        driving: if steps == 0 {
            state.driving
        } else {
            state.remaining[steps - 1].drives_line()
        },
    }
}

/// Whether, over the steps for `reports`, the staged write is reported
/// done: its last burst is handed out, and no report up to the one that
/// answers that burst tells of a failure.
pub open spec fn write_reported<PinE>(state: RunState, reports: Seq<Report<PinE>>) -> bool {
    &&& written_within(state, reports.len())
    &&& unbroken(reports.take(state.staged.unwrap().left as int + 1))
}

/// One report makes one step.
pub proof fn one_report_is_one_step<PinE>(state: RunState, report: Report<PinE>)
    ensures
        state_after(state, seq![report]) == step(state, report).0,
        performed(state, seq![report]) == (match step(state, report).1 {
            ActionView::Perform(operation) => seq![operation],
            ActionView::Finish(_) => Seq::empty(),
        }),
{
    let next = step(state, report).0;
    let none = seq![report].drop_first();
    assert(state_after(next, none) == next);
    assert(performed(next, none) =~= Seq::<OperationView>::empty());
}

/// What the steps for `first` and then for `second` do is what the steps
/// for `first` do, followed by what the steps for `second` do from there.
pub proof fn steps_compose<PinE>(
    state: RunState,
    first: Seq<Report<PinE>>,
    second: Seq<Report<PinE>>,
)
    ensures
        state_after(state, first + second) == state_after(state_after(state, first), second),
        performed(state, first + second) == performed(state, first) + performed(
            state_after(state, first),
            second,
        ),
    decreases first.len(),
{
    if first.len() > 0 {
        assert((first + second).drop_first() =~= first.drop_first() + second);
        steps_compose(step(state, first[0]).0, first.drop_first(), second);
    }
}

/// While nothing fails, a run hands out its operations one by one, in
/// order. The cached orientation changes once at most: to the staged
/// orientation, at the step that gets the report of the last burst of its
/// write.
pub proof fn unbroken_steps_perform_in_order<PinE>(state: RunState, reports: Seq<Report<PinE>>)
    requires
        unbroken(reports),
        reports.len() <= state.remaining.len(),
    ensures
        performed(state, reports) == state.remaining.take(reports.len() as int),
        state_after(state, reports) == state_after_unbroken(state, reports.len()),
    decreases reports.len(),
{
    if reports.len() > 0 {
        let rest = reports.drop_first();
        assert(unbroken(rest)) by {
            assert forall|i: int| 0 <= i < rest.len() implies !(#[trigger] rest[i]).is_failure() by {}
        }
        unbroken_steps_perform_in_order(step(state, reports[0]).0, rest);
    }
}

/// A run that has ended stays ended: no report makes it hand out an
/// operation or touch the cached orientation.
pub proof fn ended_run_stays_ended<PinE>(cached: Orientation, reports: Seq<Report<PinE>>)
    ensures
        performed(RunState::ended(cached), reports) == Seq::<OperationView>::empty(),
        state_after(RunState::ended(cached), reports) == RunState::ended(cached),
    decreases reports.len(),
{
    if reports.len() > 0 {
        ended_run_stays_ended(cached, reports.drop_first());
    }
}

/// Whatever is reported, a run hands out a beginning of its program and
/// nothing else: no operation is added, left out or moved.
pub proof fn performed_is_beginning_of_program<PinE>(state: RunState, reports: Seq<Report<PinE>>)
    ensures
        performed(state, reports).len() <= state.remaining.len(),
        performed(state, reports) == state.remaining.take(performed(state, reports).len() as int),
    decreases reports.len(),
{
    if reports.len() > 0 {
        performed_is_beginning_of_program(step(state, reports[0]).0, reports.drop_first());
    }
}

/// A run in which nothing fails hands out its whole program, in order, and
/// nothing else, and then ends with success. The orientation that it
/// wrote to the register, if any, is cached from then on.
///
/// `reports` are the reports up to the end of the run: the beginning, then
/// one for each operation of the program.
pub proof fn success_performs_whole_program<PinE>(state: RunState, reports: Seq<Report<PinE>>)
    requires
        unbroken(reports),
        reports.len() == state.remaining.len() + 1,
    ensures
        performed(state, reports) == state.remaining,
        step(state_after(state, reports.drop_last()), reports.last()).1 == ActionView::<
            PinE,
        >::Finish(Ok(())),
        state_after(state, reports) == RunState::ended(
            if written_within(state, reports.len()) {
                state.staged.unwrap().orientation
            } else {
                state.cached
            },
        ),
{
    let before = reports.drop_last();
    let ending = seq![reports.last()];
    assert(reports =~= before + ending);
    assert(unbroken(before)) by {
        assert forall|i: int| 0 <= i < before.len() implies !(#[trigger] before[i]).is_failure() by {}
    }
    unbroken_steps_perform_in_order(state, before);
    steps_compose(state, before, ending);
    one_report_is_one_step(state_after(state, before), reports.last());
}

/// A failure ends the run at once. When `failed` reports that the
/// operation handed out last has failed, after `before` reported no
/// failure, the run has handed out its program up to and including that
/// operation. It answers by ending with the failure as its result: a pin
/// error if the operation drove a line and the line's failure is reported,
/// a display error otherwise. Whatever is reported later, the run hands out
/// nothing more, and the cached orientation is what it was when the failure
/// came: the staged orientation if its write had been reported done, the
/// one from before the run if not.
pub proof fn failure_ends_run<PinE>(
    state: RunState,
    before: Seq<Report<PinE>>,
    failed: Report<PinE>,
    later: Seq<Report<PinE>>,
)
    requires
        unbroken(before),
        before.len() <= state.remaining.len(),
        failed.is_failure(),
    ensures
        step(state_after(state, before), failed).1 == ActionView::Finish(
            Err(failed.failure(state_after_unbroken(state, before.len()).driving).unwrap()),
        ),
        performed(state, before + seq![failed] + later) == state.remaining.take(
            before.len() as int,
        ),
        state_after(state, before + seq![failed] + later) == RunState::ended(
            if written_within(state, before.len()) {
                state.staged.unwrap().orientation
            } else {
                state.cached
            },
        ),
{
    let failure = seq![failed];
    let reached = state_after(state, before);
    unbroken_steps_perform_in_order(state, before);
    one_report_is_one_step(reached, failed);
    ended_run_stays_ended(step(reached, failed).0.cached, later);
    steps_compose(state, before, failure);
    steps_compose(state, before + failure, later);
}

/// The cache follows the register, whatever is reported: after any steps
/// of a run, the cached orientation is the staged one if the staged write
/// was reported done, and the one from before the run if not.
pub proof fn cache_follows_write<PinE>(state: RunState, reports: Seq<Report<PinE>>)
    ensures
        state_after(state, reports).cached == (if write_reported(state, reports) {
            state.staged.unwrap().orientation
        } else {
            state.cached
        }),
    decreases reports.len(),
{
    if reports.len() > 0 {
        let rest = reports.drop_first();
        let next = step(state, reports[0]).0;
        cache_follows_write(next, rest);
        if state.staged is Some {
            let left = state.staged.unwrap().left;
            let head = reports.take(left as int + 1);
            if reports.len() > left {
                assert(head[0] == reports[0]);
                if !reports[0].is_failure() && left > 0 && state.remaining.len() > 0 {
                    let tail = rest.take(left as int);
                    assert(tail.len() == left && head.len() == left + 1);
                    assert forall|i: int| 0 <= i < tail.len() implies tail[i] == head[i + 1] by {}
                    assert(unbroken(tail) <==> unbroken(head)) by {
                        if unbroken(tail) {
                            assert forall|i: int| 0 <= i < head.len() implies !(
                            #[trigger] head[i]).is_failure() by {
                                if i > 0 {
                                    assert(head[i] == tail[i - 1]);
                                }
                            }
                        }
                        if unbroken(head) {
                            assert forall|i: int| 0 <= i < tail.len() implies !(
                            #[trigger] tail[i]).is_failure() by {
                                assert(tail[i] == head[i + 1]);
                            }
                        }
                    }
                }
            }
        }
    }
}

} // verus!
