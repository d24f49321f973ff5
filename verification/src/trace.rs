//! What running an operation looks like from the outside: the requests made and the replies
//! they got, in order.

use vstd::prelude::*;
use crate::common::Error;
use crate::sequencer::{After, OperationView, Phase, Request, Step, TaskView, CALIBRATION_POLLS};

verus! {

/// A request that was made, with the reply that it got.
pub struct Exchange<E> {
    /// What was asked.
    pub request: Request,
    /// The byte read, for a read that succeeded; the bus's error, for a request that failed.
    /// The byte of any other success means nothing.
    pub reply: Result<u8, E>,
}

/// Where the operation `op` stands after the exchanges `xs`: each made the request that
/// was outstanding, and its reply was handed to the task. `None` if some exchange made
/// another request, or came after the operation had finished.
pub open spec fn replay<E>(op: OperationView<E>, xs: Seq<Exchange<E>>) -> Option<OperationView<E>>
    decreases xs.len(),
{
    if xs.len() == 0 {
        Some(op)
    } else {
        match replay(op, xs.drop_last()) {
            Some(OperationView::Pending(task)) => if xs.last().request == task.request() {
                Some(task.advance(xs.last().reply))
            } else {
                None
            },
            _ => None,
        }
    }
}

/// The exchanges `xs` are a whole run of the operation `op`, neither more nor less, and
/// `result` is how it ended.
pub open spec fn runs<E, T>(
    op: OperationView<E>,
    xs: Seq<Exchange<E>>,
    result: Result<T, Error<E>>,
) -> bool {
    match replay(op, xs) {
        Some(OperationView::Finished(Ok(_))) => result is Ok,
        Some(OperationView::Finished(Err(e))) => result == Err::<T, Error<E>>(e),
        _ => false,
    }
}

/// The byte that came with a reply, or 0 for a failure.
pub open spec fn reply_byte<E>(x: Exchange<E>) -> u8 {
    match x.reply {
        Ok(byte) => byte,
        Err(_) => 0,
    }
}

/// Whether the exchange `i` succeeded.
pub open spec fn succeeded<E>(xs: Seq<Exchange<E>>, i: int) -> bool {
    xs[i].reply is Ok
}

/// The byte that came with the reply before the exchange `i`, or 0 where there is none.
pub open spec fn byte_before<E>(xs: Seq<Exchange<E>>, i: int) -> u8 {
    if 0 < i <= xs.len() {
        reply_byte(xs[i - 1])
    } else {
        0
    }
}

/// The exchanges `xs` carry out the plan `steps`, with `result` as the result: the requests
/// are those of the steps, in order and from the first; every reply but the last is a
/// success; and either the last reply is a failure, which is the result, or the plan is
/// through, and the result is a success.
pub open spec fn carried_out<E, T>(
    steps: Seq<Step>,
    xs: Seq<Exchange<E>>,
    result: Result<T, Error<E>>,
) -> bool {
    &&& 0 < xs.len()
    &&& follows(steps, xs)
    &&& match xs.last().reply {
        Ok(_) => xs.len() == steps.len() && result is Ok,
        Err(e) => result == Err::<T, Error<E>>(Error::I2c(e)),
    }
}

/// An upper bound on the exchanges that a task still makes, for a task that does not repeat.
pub open spec fn remaining(task: TaskView) -> int {
    match task.phase {
        Phase::Steps => (task.steps.len() - task.at) + if task.after == After::Calibrate {
            2 * CALIBRATION_POLLS
        } else {
            0
        },
        Phase::Polling => 2 * (CALIBRATION_POLLS - task.polls),
        Phase::Pausing => 2 * (CALIBRATION_POLLS - task.polls) - 1,
        Phase::Checking => 1,
    }
}

/// Every reply brings a task that does not repeat nearer to its end.
pub proof fn lemma_advance_decreases<E>(task: TaskView, reply: Result<u8, E>)
    requires
        task.wf(),
        !(task.after is Repeat),
    ensures
        remaining(task) > 0,
        task.advance(reply) matches OperationView::Pending(next) ==> {
            &&& next.wf()
            &&& next.after == task.after
            &&& remaining(next) < remaining(task)
        },
{
}

/// A task that repeats does not finish as long as the bus does not fail.
pub proof fn lemma_repeat_goes_on<E>(task: TaskView, byte: u8)
    requires
        task.wf(),
        task.after is Repeat,
    ensures
        task.advance(Ok::<u8, E>(byte)) matches OperationView::Pending(next) && next.wf()
            && next.after == task.after && next.steps == task.steps,
{
}

/// The exchange `i` of `xs` makes the request of the step `i` of the plan `steps`.
pub open spec fn asks<E>(steps: Seq<Step>, xs: Seq<Exchange<E>>, i: int) -> bool {
    xs[i].request == steps[i].request(byte_before(xs, i))
}

/// The exchanges `xs` follow the plan `steps`: the requests are those of the steps, in
/// order and from the first, and every reply but the last is a success.
pub open spec fn follows<E>(steps: Seq<Step>, xs: Seq<Exchange<E>>) -> bool {
    &&& xs.len() <= steps.len()
    &&& forall|i: int| 0 <= i < xs.len() ==> #[trigger] asks(steps, xs, i)
    &&& forall|i: int| 0 <= i < xs.len() - 1 ==> (#[trigger] xs[i]).reply is Ok
}

/// Where a task stands after the exchanges `xs`, which follow its plan.
pub open spec fn in_plan<E>(steps: Seq<Step>, after: After, xs: Seq<Exchange<E>>) -> OperationView<
    E,
> {
    if xs.len() == 0 {
        OperationView::Pending(TaskView::fresh(steps, after))
    } else {
        TaskView {
            steps,
            at: xs.len() - 1,
            last: byte_before(xs, xs.len() - 1),
            after,
            phase: Phase::Steps,
            polls: 0,
        }.advance(xs.last().reply)
    }
}

proof fn lemma_follows_push<E>(steps: Seq<Step>, d: Seq<Exchange<E>>, x: Exchange<E>)
    requires
        follows(steps, d),
        d.len() < steps.len(),
        d.len() > 0 ==> d.last().reply is Ok,
        x.request == steps[d.len() as int].request(byte_before(d, d.len() as int)),
    ensures
        follows(steps, d.push(x)),
{
    let xs = d.push(x);
    assert forall|i: int| 0 <= i < xs.len() implies #[trigger] asks(steps, xs, i) by {
        if i < d.len() {
            assert(asks(steps, d, i));
        }
    }
}

/// The first exchanges of any operation follow its plan, step by step, and a plain
/// operation makes no exchange beyond its plan.
pub proof fn lemma_follows_plan<E>(steps: Seq<Step>, after: After, xs: Seq<Exchange<E>>)
    requires
        steps.len() > 0,
        replay(OperationView::Pending(TaskView::fresh(steps, after)), xs) is Some,
    ensures
        after == After::Finish ==> xs.len() <= steps.len(),
        xs.len() <= steps.len() ==> {
            &&& follows(steps, xs)
            &&& replay(OperationView::Pending(TaskView::fresh(steps, after)), xs) == Some(
                in_plan(steps, after, xs),
            )
        },
    decreases xs.len(),
{
    if xs.len() > 0 {
        let d = xs.drop_last();
        let x = xs.last();
        assert(xs =~= d.push(x));
        lemma_follows_plan(steps, after, d);
        if d.len() < steps.len() {
            assert(byte_before(xs, d.len() as int) == byte_before(d, d.len() as int));
            lemma_follows_push(steps, d, x);
        }
    }
}

/// A whole run of a plain operation carries out its plan.
pub proof fn lemma_once_carries_out<E>(
    steps: Seq<Step>,
    xs: Seq<Exchange<E>>,
    outcome: Result<u8, Error<E>>,
)
    requires
        steps.len() > 0,
        replay(OperationView::once(steps), xs) == Some(OperationView::Finished(outcome)),
    ensures
        carried_out(steps, xs, outcome),
        outcome matches Ok(byte) ==> xs.last().reply == Ok::<u8, E>(byte),
{
    lemma_follows_plan(steps, After::Finish, xs);
}

/// An operation that was refused makes no exchange.
pub proof fn lemma_refused_is_silent<E>(xs: Seq<Exchange<E>>, outcome: Result<u8, Error<E>>)
    requires
        replay(OperationView::refused(), xs) == Some(OperationView::Finished(outcome)),
    ensures
        xs.len() == 0,
        outcome == Err::<u8, Error<E>>(Error::InvalidParameter),
{
    lemma_finished_is_final(Err::<u8, Error<E>>(Error::InvalidParameter), xs);
}

/// No exchange comes after an operation has finished.
pub proof fn lemma_finished_is_final<E>(outcome: Result<u8, Error<E>>, xs: Seq<Exchange<E>>)
    ensures
        replay(OperationView::Finished(outcome), xs) == if xs.len() == 0 {
            Some(OperationView::Finished(outcome))
        } else {
            None
        },
    decreases xs.len(),
{
    if xs.len() > 0 {
        lemma_finished_is_final(outcome, xs.drop_last());
    }
}

/// A run can be followed exchange by exchange: before each exchange the operation has a
/// task, the exchange makes the request that the task has outstanding, and the reply takes
/// the task on.
pub proof fn lemma_replay_step<E>(op: OperationView<E>, xs: Seq<Exchange<E>>, n: int)
    requires
        replay(op, xs) is Some,
        0 <= n < xs.len(),
    ensures
        replay(op, xs.take(n)) matches Some(OperationView::Pending(task)) && xs[n].request
            == task.request() && replay(op, xs.take(n + 1)) == Some(task.advance(xs[n].reply)),
    decreases xs.len(),
{
    let d = xs.drop_last();
    if n < d.len() {
        lemma_replay_step(op, d, n);
        assert(d.take(n) =~= xs.take(n));
        assert(d.take(n + 1) =~= xs.take(n + 1));
    } else {
        assert(xs.take(n + 1) =~= xs);
    }
}

/// An operation that does not repeat comes to an end: no run of it, whole or partial, has
/// more exchanges than `remaining` says of its start.
pub proof fn lemma_run_is_bounded<E>(start: TaskView, xs: Seq<Exchange<E>>)
    requires
        start.wf(),
        !(start.after is Repeat),
        replay(OperationView::Pending(start), xs) is Some,
    ensures
        xs.len() <= remaining(start),
        replay(OperationView::Pending(start), xs) matches Some(OperationView::Pending(task))
            ==> task.wf() && task.after == start.after && xs.len() + remaining(task)
            <= remaining(start),
    decreases xs.len(),
{
    if xs.len() > 0 {
        let d = xs.drop_last();
        lemma_run_is_bounded(start, d);
        let task = replay(OperationView::<E>::Pending(start), d)->Some_0->Pending_0;
        lemma_advance_decreases(task, xs.last().reply);
    }
}

/// An operation that repeats ends only with a failure of the bus: as long as it goes on,
/// every request has succeeded, and when it has ended, the last request has failed and
/// its error is the result.
pub proof fn lemma_repeat_ends_in_failure<E>(start: TaskView, xs: Seq<Exchange<E>>)
    requires
        start.wf(),
        start.after is Repeat,
        replay(OperationView::Pending(start), xs) is Some,
    ensures
        forall|i: int| 0 <= i < xs.len() - 1 ==> #[trigger] succeeded(xs, i),
        match replay(OperationView::Pending(start), xs)->Some_0 {
            OperationView::Pending(task) => {
                &&& task.wf()
                &&& task.after == start.after
                &&& task.steps == start.steps
                &&& xs.len() > 0 ==> succeeded(xs, xs.len() - 1)
            },
            OperationView::Finished(outcome) => {
                &&& xs.len() > 0
                &&& xs.last().reply matches Err(e)
                &&& outcome == Err::<u8, Error<E>>(Error::I2c(e))
            },
        },
    decreases xs.len(),
{
    if xs.len() > 0 {
        let d = xs.drop_last();
        lemma_repeat_ends_in_failure(start, d);
        let task = replay(OperationView::<E>::Pending(start), d)->Some_0->Pending_0;
        assert forall|i: int| 0 <= i < xs.len() - 1 implies #[trigger] succeeded(xs, i) by {
            if i < d.len() - 1 {
                assert(succeeded(d, i));
            } else {
            }
        }
        match xs.last().reply {
            Ok(byte) => {
                lemma_repeat_goes_on::<E>(task, byte);
            },
            Err(_) => {},
        }
    }
}

/// A run goes on only after a success, and a failure ends it: in any run, whole or
/// partial, every reply but the last is a success, and if the last is a failure, the
/// operation has finished with the bus's error.
pub proof fn lemma_failure_is_final<E>(op: OperationView<E>, xs: Seq<Exchange<E>>)
    requires
        replay(op, xs) is Some,
    ensures
        forall|i: int| 0 <= i < xs.len() - 1 ==> #[trigger] succeeded(xs, i),
        xs.len() > 0 ==> (xs.last().reply matches Err(e) ==> replay(op, xs) == Some(
            OperationView::Finished(Err::<u8, Error<E>>(Error::I2c(e))),
        )),
{
    assert forall|i: int| 0 <= i < xs.len() - 1 implies #[trigger] succeeded(xs, i) by {
        lemma_replay_step(op, xs, i);
        lemma_replay_step(op, xs, i + 1);
    }
    if xs.len() > 0 {
        lemma_replay_step(op, xs, xs.len() - 1);
    }
}

} // verus!
