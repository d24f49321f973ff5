//! The shared sequencing logic: every operation of the driver as a task that says, one
//! request at a time, what to do on the bus and when to wait.
//!
//! A task performs nothing itself. Whoever runs it performs the request that the task has
//! outstanding, hands the reply to [`Task::resume`], and goes on with what comes back until
//! the task has finished. The order and content of the requests are fixed here, whatever way
//! the runner has of waiting.

use vstd::prelude::*;
use crate::common::Error;
use crate::registers;

verus! {

/// How often auto-calibration asks whether the chip is done before it gives up.
pub const CALIBRATION_POLLS: u8 = 100;

/// Time between two such polls, in milliseconds.
pub const CALIBRATION_POLL_MS: u64 = 10;

/// Bit of the GO register that is set while the chip is busy.
pub const GO_BIT: u8 = 0x01;

/// Bit of the status register that is set when a diagnostic or calibration run has failed.
pub const DIAG_RESULT_BIT: u8 = 0x08;

/// Bits of the mode register that hold the mode code.
pub const MODE_BITS: u8 = 0x07;

/// One thing for the runner of a task to do.
#[derive(Debug, Clone, Copy, PartialEq, Eq, Structural)]
pub enum Request {
    /// Write `value` to the register `reg`.
    Write { reg: u8, value: u8 },
    /// Read the register `reg`, and reply with its byte.
    Read { reg: u8 },
    /// Let `ms` milliseconds pass.
    Wait { ms: u64 },
}

/// One step of a task's plan. Each step makes one request.
#[derive(Debug, Clone, Copy, PartialEq, Eq, Structural)]
pub enum Step {
    /// Write `value` to the register `reg`.
    Write { reg: u8, value: u8 },
    /// Read the register `reg`.
    Read { reg: u8 },
    /// Write to the register `reg` the byte of the previous reply, with the bits outside
    /// `keep` cleared and the bits of `set` set. After a `Read` of the same register this
    /// is a read-modify-write.
    Modify { reg: u8, keep: u8, set: u8 },
    /// Let `ms` milliseconds pass.
    Wait { ms: u64 },
}

/// What a task does once the last step of its plan has been answered.
#[derive(Debug, Clone, Copy, PartialEq, Eq, Structural)]
pub enum After {
    /// It has finished.
    Finish,
    /// It polls the GO register until the chip is done, then checks the status register.
    Calibrate,
    /// It goes back to the step `from` and never finishes on its own.
    Repeat { from: usize },
}

/// Where a task stands.
#[derive(Debug, Clone, Copy, PartialEq, Eq, Structural)]
pub enum Phase {
    /// In its plan; the step `at` is outstanding.
    Steps,
    /// Calibrating; a read of the GO register is outstanding.
    Polling,
    /// Calibrating; the wait between two polls is outstanding.
    Pausing,
    /// Calibrating; the read of the status register is outstanding.
    Checking,
}

/// An operation under way. A task always has one request outstanding.
pub struct Task {
    steps: Vec<Step>,
    at: usize,
    last: u8,
    after: After,
    phase: Phase,
    polls: u8,
}

/// A task as contracts see it.
pub struct TaskView {
    /// The plan.
    pub steps: Seq<Step>,
    /// Index of the step that is outstanding, while the task is in its plan.
    pub at: int,
    /// The byte that came with the previous reply.
    pub last: u8,
    /// What follows the plan.
    pub after: After,
    /// Where the task stands.
    pub phase: Phase,
    /// Number of polls that found the chip busy and were followed by a wait.
    pub polls: int,
}

/// An operation of the driver as far as it has got: a task that goes on, or the result of
/// one that has finished.
pub enum Operation<E> {
    /// The task has a request outstanding.
    Pending(Task),
    /// The task has finished. On success the byte is the one that came with the last reply.
    Finished(Result<u8, Error<E>>),
}

/// An [`Operation`] as contracts see it.
pub enum OperationView<E> {
    Pending(TaskView),
    Finished(Result<u8, Error<E>>),
}

impl Step {
    /// The request that the step makes when `last` is the byte of the previous reply.
    pub open spec fn request(self, last: u8) -> Request {
        match self {
            Step::Write { reg, value } => Request::Write { reg, value },
            Step::Read { reg } => Request::Read { reg },
            Step::Modify { reg, keep, set } => Request::Write { reg, value: (last & keep) | set },
            Step::Wait { ms } => Request::Wait { ms },
        }
    }

    fn to_request(self, last: u8) -> (request: Request)
        ensures
            request == self.request(last),
    {
        match self {
            Step::Write { reg, value } => Request::Write { reg, value },
            Step::Read { reg } => Request::Read { reg },
            Step::Modify { reg, keep, set } => Request::Write { reg, value: (last & keep) | set },
            Step::Wait { ms } => Request::Wait { ms },
        }
    }
}

impl TaskView {
    /// A task at the start of the plan `steps`.
    pub open spec fn fresh(steps: Seq<Step>, after: After) -> TaskView {
        TaskView { steps, at: 0, last: 0, after, phase: Phase::Steps, polls: 0 }
    }

    /// What holds of every task.
    pub open spec fn wf(self) -> bool {
        &&& 0 <= self.at < self.steps.len()
        &&& 0 <= self.polls < CALIBRATION_POLLS
        &&& self.after matches After::Repeat { from } ==> from < self.steps.len()
        &&& self.phase != Phase::Steps ==> self.after == After::Calibrate
    }

    /// The request that is outstanding.
    pub open spec fn request(self) -> Request {
        match self.phase {
            Phase::Steps => self.steps[self.at].request(self.last),
            Phase::Polling => Request::Read { reg: registers::GO },
            Phase::Pausing => Request::Wait { ms: CALIBRATION_POLL_MS },
            Phase::Checking => Request::Read { reg: registers::STATUS },
        }
    }

    /// What becomes of the task when `reply` answers the outstanding request.
    ///
    /// A failure ends the task with the bus's error. Otherwise the plan goes on with its
    /// next step, and after its last step with what `after` says. Calibration asks up to
    /// [`CALIBRATION_POLLS`] times whether the GO bit is still set, waits after each poll
    /// that found it set, and fails after the last of these waits; once a poll finds the bit
    /// clear, the status register decides.
    pub open spec fn advance<E>(self, reply: Result<u8, E>) -> OperationView<E> {
        match reply {
            Err(e) => OperationView::Finished(Err(Error::I2c(e))),
            Ok(byte) => match self.phase {
                Phase::Steps => if self.at + 1 < self.steps.len() {
                    OperationView::Pending(TaskView { at: self.at + 1, last: byte, ..self })
                } else {
                    match self.after {
                        After::Finish => OperationView::Finished(Ok(byte)),
                        After::Calibrate => OperationView::Pending(
                            TaskView { phase: Phase::Polling, last: byte, ..self },
                        ),
                        After::Repeat { from } => OperationView::Pending(
                            TaskView { at: from as int, last: byte, ..self },
                        ),
                    }
                },
                Phase::Polling => if byte & GO_BIT == 0 {
                    OperationView::Pending(TaskView { phase: Phase::Checking, last: byte, ..self })
                } else {
                    OperationView::Pending(TaskView { phase: Phase::Pausing, last: byte, ..self })
                },
                Phase::Pausing => if self.polls + 1 < CALIBRATION_POLLS {
                    OperationView::Pending(
                        TaskView {
                            phase: Phase::Polling,
                            polls: self.polls + 1,
                            last: byte,
                            ..self
                        },
                    )
                } else {
                    OperationView::Finished(Err(Error::CalibrationFailed))
                },
                Phase::Checking => if byte & DIAG_RESULT_BIT != 0 {
                    OperationView::Finished(Err(Error::CalibrationFailed))
                } else {
                    OperationView::Finished(Ok(byte))
                },
            },
        }
    }
}

impl<E> OperationView<E> {
    /// What holds of every operation: its task, if it has one, is a proper task.
    pub open spec fn wf(self) -> bool {
        self matches OperationView::Pending(task) ==> task.wf()
    }

    /// An operation that works through the plan `steps` once and has then finished.
    pub open spec fn once(steps: Seq<Step>) -> OperationView<E> {
        OperationView::Pending(TaskView::fresh(steps, After::Finish))
    }

    /// An operation that works through the plan `steps` and then waits for the chip to
    /// finish calibrating.
    pub open spec fn calibration(steps: Seq<Step>) -> OperationView<E> {
        OperationView::Pending(TaskView::fresh(steps, After::Calibrate))
    }

    /// An operation that works through the plan `steps` and then goes on from the step
    /// `from`, again and again.
    pub open spec fn endless(steps: Seq<Step>, from: usize) -> OperationView<E> {
        OperationView::Pending(TaskView::fresh(steps, After::Repeat { from }))
    }

    /// An operation that was refused before anything was sent.
    pub open spec fn refused() -> OperationView<E> {
        OperationView::Finished(Err(Error::InvalidParameter))
    }
}

impl View for Task {
    type V = TaskView;

    closed spec fn view(&self) -> TaskView {
        TaskView {
            steps: self.steps@,
            at: self.at as int,
            last: self.last,
            after: self.after,
            phase: self.phase,
            polls: self.polls as int,
        }
    }
}

impl<E> View for Operation<E> {
    type V = OperationView<E>;

    open spec fn view(&self) -> OperationView<E> {
        match *self {
            Operation::Pending(task) => OperationView::Pending(task@),
            Operation::Finished(result) => OperationView::Finished(result),
        }
    }
}

impl Task {
    #[verifier::type_invariant]
    spec fn valid(self) -> bool {
        self@.wf()
    }

    /// A task at the start of the plan `steps`.
    pub(crate) fn begin(steps: Vec<Step>, after: After) -> (task: Task)
        requires
            steps@.len() > 0,
            after matches After::Repeat { from } ==> from < steps@.len(),
        ensures
            task@ == TaskView::fresh(steps@, after),
            task@.wf(),
    {
        Task { steps, at: 0, last: 0, after, phase: Phase::Steps, polls: 0 }
    }

    /// The request that is outstanding.
    pub fn request(&self) -> (request: Request)
        ensures
            self@.wf(),
            request == self@.request(),
    {
        proof {
            use_type_invariant(self);
        }
        match self.phase {
            Phase::Steps => self.steps[self.at].to_request(self.last),
            Phase::Polling => Request::Read { reg: registers::GO },
            Phase::Pausing => Request::Wait { ms: CALIBRATION_POLL_MS },
            Phase::Checking => Request::Read { reg: registers::STATUS },
        }
    }

    /// Takes the reply to the outstanding request. For a write and for a wait, the byte of
    /// a successful reply does not matter.
    pub fn resume<E>(self, reply: Result<u8, E>) -> (next: Operation<E>)
        ensures
            self@.wf(),
            next@.wf(),
            next@ == self@.advance(reply),
    {
        proof {
            use_type_invariant(&self);
        }
        let byte = match reply {
            Err(e) => {
                return Operation::Finished(Err(Error::I2c(e)));
            },
            Ok(byte) => byte,
        };
        match self.phase {
            Phase::Steps => {
                let len = self.steps.len();
                if self.at + 1 < len {
                    Operation::Pending(Task { at: self.at + 1, last: byte, ..self })
                } else {
                    match self.after {
                        After::Finish => Operation::Finished(Ok(byte)),
                        After::Calibrate => Operation::Pending(
                            Task { phase: Phase::Polling, last: byte, ..self },
                        ),
                        After::Repeat { from } => Operation::Pending(
                            Task { at: from, last: byte, ..self },
                        ),
                    }
                }
            },
            Phase::Polling => {
                if byte & GO_BIT == 0 {
                    Operation::Pending(Task { phase: Phase::Checking, last: byte, ..self })
                } else {
                    Operation::Pending(Task { phase: Phase::Pausing, last: byte, ..self })
                }
            },
            Phase::Pausing => {
                if self.polls + 1 < CALIBRATION_POLLS {
                    Operation::Pending(
                        Task { phase: Phase::Polling, polls: self.polls + 1, last: byte, ..self },
                    )
                } else {
                    Operation::Finished(Err(Error::CalibrationFailed))
                }
            },
            Phase::Checking => {
                if byte & DIAG_RESULT_BIT != 0 {
                    Operation::Finished(Err(Error::CalibrationFailed))
                } else {
                    Operation::Finished(Ok(byte))
                }
            },
        }
    }
}

} // verus!
