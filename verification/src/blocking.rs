//! The driver: it runs the operations on a transport, one request after the other.

use vstd::prelude::*;
use crate::common::{Error, Library, Mode, MotorType, DRV2605L_ADDR};
use crate::operations::{
    clear_waveform_sequence_steps, device_id, enter_standby_steps,
    exit_standby_steps, get_device_id_steps, go_set, go_steps, id_bits, init_steps,
    is_playing_steps, play_rtp_steps, play_waveform_steps, playing, reset_steps,
    set_library_steps, set_mode_steps, set_motor_type_steps, set_overdrive_voltage_steps,
    set_rated_voltage_steps, set_rtp_input_steps, set_waveform_steps, stop_steps,
    WAVEFORM_SLOTS,
};
use crate::sequencer::{After, Operation, OperationView, Request, Step, TaskView};
use crate::laws::{calibration, lemma_calibration_run};
use crate::trace::{
    carried_out, lemma_advance_decreases, lemma_once_carries_out, lemma_refused_is_silent,
    remaining, replay, Exchange,
};
use crate::transport::Transport;

verus! {

/// A DRV2605L on a transport.
///
/// The driver keeps the motor type. What mode the chip is in and what its sequence holds,
/// it does not keep: every query reads the chip.
pub struct Drv2605l<I2C: Transport> {
    i2c: I2C,
    motor_type: MotorType,
    log: Ghost<Seq<Exchange<I2C::Error>>>,
}

impl<I2C: Transport> Drv2605l<I2C> {
    /// Everything that the driver has asked of its transport, in order, with the replies.
    pub closed spec fn exchanges(self) -> Seq<Exchange<I2C::Error>> {
        self.log@
    }

    /// The motor type that the driver configures the chip for.
    pub closed spec fn motor(self) -> MotorType {
        self.motor_type
    }

    /// The transport that the driver sends on.
    pub closed spec fn transport(self) -> I2C {
        self.i2c
    }

    /// What the driver has asked of its transport since it was `before`.
    pub open spec fn since(self, before: Self) -> Seq<Exchange<I2C::Error>> {
        self.exchanges().skip(before.exchanges().len() as int)
    }

    /// Since it was `before`, the driver has carried out the plan `steps` as far as the
    /// bus let it, with `result` as the result, and has asked nothing else.
    pub open spec fn did<T>(
        self,
        before: Self,
        steps: Seq<Step>,
        result: Result<T, Error<I2C::Error>>,
    ) -> bool {
        &&& before.exchanges().is_prefix_of(self.exchanges())
        &&& carried_out(steps, self.since(before), result)
    }

    /// Since it was `before`, the driver has made one whole calibration, with `result` as
    /// the result, and has asked nothing else.
    pub open spec fn calibrated(self, before: Self, result: Result<(), Error<I2C::Error>>) -> bool {
        &&& before.exchanges().is_prefix_of(self.exchanges())
        &&& calibration(self.since(before), result)
    }

    /// A driver for the chip on `i2c`, set for a linear resonant actuator. Nothing is sent
    /// yet.
    pub fn new(i2c: I2C) -> (driver: Self)
        ensures
            driver.transport() == i2c,
            driver.exchanges().len() == 0,
            driver.motor() == MotorType::LRA,
    {
        Drv2605l { i2c, motor_type: MotorType::LRA, log: Ghost(Seq::empty()) }
    }

    fn write_register(&mut self, reg: u8, value: u8) -> (reply: Result<u8, I2C::Error>)
        ensures
            final(self).motor() == old(self).motor(),
            final(self).exchanges() == old(self).exchanges().push(
                Exchange { request: Request::Write { reg, value }, reply },
            ),
    {
        let reply = match self.i2c.write(DRV2605L_ADDR, &[reg, value]) {
            Ok(()) => Ok(0u8),
            Err(e) => Err(e),
        };
        proof {
            self.log@ = self.log@.push(Exchange { request: Request::Write { reg, value }, reply });
        }
        reply
    }

    fn read_register(&mut self, reg: u8) -> (reply: Result<u8, I2C::Error>)
        ensures
            final(self).motor() == old(self).motor(),
            final(self).exchanges() == old(self).exchanges().push(
                Exchange { request: Request::Read { reg }, reply },
            ),
    {
        let mut buf = [0u8; 1];
        let reply = match self.i2c.write_read(DRV2605L_ADDR, &[reg], &mut buf) {
            Ok(()) => Ok(buf[0]),
            Err(e) => Err(e),
        };
        proof {
            self.log@ = self.log@.push(Exchange { request: Request::Read { reg }, reply });
        }
        reply
    }

    fn wait(&mut self, ms: u64) -> (reply: Result<u8, I2C::Error>)
        ensures
            final(self).motor() == old(self).motor(),
            final(self).exchanges() == old(self).exchanges().push(
                Exchange { request: Request::Wait { ms }, reply },
            ),
    {
        self.i2c.suspend(ms);
        let reply = Ok(0u8);
        proof {
            self.log@ = self.log@.push(Exchange { request: Request::Wait { ms }, reply });
        }
        reply
    }

    fn perform(&mut self, request: Request) -> (reply: Result<u8, I2C::Error>)
        ensures
            final(self).motor() == old(self).motor(),
            final(self).exchanges() == old(self).exchanges().push(Exchange { request, reply }),
    {
        match request {
            Request::Write { reg, value } => self.write_register(reg, value),
            Request::Read { reg } => self.read_register(reg),
            Request::Wait { ms } => self.wait(ms),
        }
    }

    /// Runs an operation that does not repeat to its end.
    pub(crate) fn execute(&mut self, op: Operation<I2C::Error>) -> (outcome: Result<
        u8,
        Error<I2C::Error>,
    >)
        requires
            op@ matches OperationView::Pending(task) ==> !(task.after is Repeat),
        ensures
            final(self).motor() == old(self).motor(),
            old(self).exchanges().is_prefix_of(final(self).exchanges()),
            replay(op@, final(self).since(*old(self))) == Some(OperationView::Finished(outcome)),
    {
        let ghost start = op@;
        let ghost before = *self;
        let mut current = op;
        loop
            invariant
                before == *old(self),
                start == op@,
                self.motor() == before.motor(),
                before.exchanges().is_prefix_of(self.exchanges()),
                replay(start, self.since(before)) == Some(current@),
                current@ matches OperationView::Pending(task) ==> !(task.after is Repeat),
            decreases match current@ {
                OperationView::Pending(task) => remaining(task),
                OperationView::Finished(_) => 0,
            },
        {
            let task = match current {
                Operation::Finished(outcome) => {
                    return outcome;
                },
                Operation::Pending(task) => task,
            };
            let ghost asked = self.since(before);
            let request = task.request();
            let reply = self.perform(request);
            proof {
                lemma_advance_decreases(task@, reply);
                assert(self.since(before).drop_last() =~= asked);
            }
            current = task.resume(reply);
        }
    }

    /// Runs an operation for `limit` exchanges at most, and returns it as far as it has
    /// got.
    pub(crate) fn execute_for(&mut self, op: Operation<I2C::Error>, limit: u64) -> (left: Operation<
        I2C::Error,
    >)
        ensures
            final(self).motor() == old(self).motor(),
            old(self).exchanges().is_prefix_of(final(self).exchanges()),
            replay(op@, final(self).since(*old(self))) == Some(left@),
            final(self).since(*old(self)).len() <= limit,
            left@ is Pending ==> final(self).since(*old(self)).len() == limit,
    {
        let ghost start = op@;
        let ghost before = *self;
        let mut current = op;
        let mut done: u64 = 0;
        loop
            invariant
                before == *old(self),
                start == op@,
                self.motor() == before.motor(),
                before.exchanges().is_prefix_of(self.exchanges()),
                replay(start, self.since(before)) == Some(current@),
                self.since(before).len() == done,
                done <= limit,
            decreases limit - done,
        {
            let task = match current {
                Operation::Finished(outcome) => {
                    return Operation::Finished(outcome);
                },
                Operation::Pending(task) => task,
            };
            if done == limit {
                return Operation::Pending(task);
            }
            let ghost asked = self.since(before);
            let request = task.request();
            let reply = self.perform(request);
            proof {
                assert(self.since(before).drop_last() =~= asked);
            }
            current = task.resume(reply);
            done = done + 1;
        }
    }

    /// Runs a plain operation, or passes on the refusal of one that was refused.
    pub(crate) fn carry_out(&mut self, op: Operation<I2C::Error>) -> (result: Result<
        (),
        Error<I2C::Error>,
    >)
        requires
            op@.wf(),
            op@ matches OperationView::Pending(task) ==> task == TaskView::fresh(
                task.steps,
                After::Finish,
            ),
            op@ is Finished ==> op@ == OperationView::<I2C::Error>::refused(),
        ensures
            final(self).motor() == old(self).motor(),
            op@ matches OperationView::Pending(task) ==> final(self).did(
                *old(self),
                task.steps,
                result,
            ),
            op@ is Finished ==> final(self).exchanges() == old(self).exchanges() && result == Err::<
                (),
                Error<I2C::Error>,
            >(Error::InvalidParameter),
    {
        let ghost start = op@;
        let outcome = self.execute(op);
        proof {
            match start {
                OperationView::Pending(task) => {
                    lemma_once_carries_out(task.steps, self.since(*old(self)), outcome);
                },
                OperationView::Finished(_) => {
                    lemma_refused_is_silent(self.since(*old(self)), outcome);
                },
            }
        }
        match outcome {
            Ok(_) => Ok(()),
            Err(e) => Err(e),
        }
    }

    /// Runs a plain operation that ends with a read, and returns the byte read.
    fn query(&mut self, op: Operation<I2C::Error>) -> (result: Result<u8, Error<I2C::Error>>)
        requires
            op@.wf(),
            op@ matches OperationView::Pending(task) && task == TaskView::fresh(
                task.steps,
                After::Finish,
            ),
        ensures
            final(self).motor() == old(self).motor(),
            final(self).did(*old(self), op@->Pending_0.steps, result),
            result matches Ok(byte) ==> final(self).exchanges().last().reply == Ok::<
                u8,
                I2C::Error,
            >(byte),
    {
        let ghost start = op@;
        let outcome = self.execute(op);
        proof {
            lemma_once_carries_out(start->Pending_0.steps, self.since(*old(self)), outcome);
        }
        outcome
    }

    /// Brings the chip up for the driver's motor type: reset, the settle time, out of
    /// standby, feedback configuration and library. A failure on the way leaves the chip
    /// partly configured.
    pub fn init(&mut self) -> (result: Result<(), Error<I2C::Error>>)
        ensures
            final(self).motor() == old(self).motor(),
            final(self).did(*old(self), init_steps(old(self).motor()), result),
    {
        let op = Operation::init(self.motor_type);
        self.carry_out(op)
    }

    /// Sets the reset bit. The chip needs 2 ms before it takes the next request; `init`
    /// waits for them, this does not.
    pub fn reset(&mut self) -> (result: Result<(), Error<I2C::Error>>)
        ensures
            final(self).motor() == old(self).motor(),
            final(self).did(*old(self), reset_steps(), result),
    {
        self.carry_out(Operation::reset())
    }

    /// Takes the chip out of standby.
    pub fn exit_standby(&mut self) -> (result: Result<(), Error<I2C::Error>>)
        ensures
            final(self).motor() == old(self).motor(),
            final(self).did(*old(self), exit_standby_steps(), result),
    {
        self.carry_out(Operation::exit_standby())
    }

    /// Puts the chip in standby.
    pub fn enter_standby(&mut self) -> (result: Result<(), Error<I2C::Error>>)
        ensures
            final(self).motor() == old(self).motor(),
            final(self).did(*old(self), enter_standby_steps(), result),
    {
        self.carry_out(Operation::enter_standby())
    }

    /// Changes the mode: reads the mode register and writes it back with the mode code
    /// replaced, so that the standby and reset bits stay as the chip has them.
    pub fn set_mode(&mut self, mode: Mode) -> (result: Result<(), Error<I2C::Error>>)
        ensures
            final(self).motor() == old(self).motor(),
            final(self).did(*old(self), set_mode_steps(mode), result),
    {
        self.carry_out(Operation::set_mode(mode))
    }

    /// Selects the waveform library.
    pub fn set_library(&mut self, library: Library) -> (result: Result<(), Error<I2C::Error>>)
        ensures
            final(self).motor() == old(self).motor(),
            final(self).did(*old(self), set_library_steps(library), result),
    {
        self.carry_out(Operation::set_library(library))
    }

    /// Changes the motor type and configures the chip for it: feedback control, then the
    /// library. The driver keeps the new motor type even where the bus fails; the chip is
    /// then to be brought up again.
    pub fn set_motor_type(&mut self, motor_type: MotorType) -> (result: Result<
        (),
        Error<I2C::Error>,
    >)
        ensures
            final(self).motor() == motor_type,
            final(self).did(*old(self), set_motor_type_steps(motor_type), result),
    {
        self.motor_type = motor_type;
        self.carry_out(Operation::set_motor_type(motor_type))
    }

    /// Sets the GO bit: the chip starts on what its mode says.
    pub fn go(&mut self) -> (result: Result<(), Error<I2C::Error>>)
        ensures
            final(self).motor() == old(self).motor(),
            final(self).did(*old(self), go_steps(), result),
    {
        self.carry_out(Operation::go())
    }

    /// Clears the GO bit: a request to stop, which the chip follows in its own time.
    pub fn stop(&mut self) -> (result: Result<(), Error<I2C::Error>>)
        ensures
            final(self).motor() == old(self).motor(),
            final(self).did(*old(self), stop_steps(), result),
    {
        self.carry_out(Operation::stop())
    }

    /// Whether the chip is busy: reads the GO register and tests its bit 0.
    pub fn is_playing(&mut self) -> (result: Result<bool, Error<I2C::Error>>)
        ensures
            final(self).motor() == old(self).motor(),
            final(self).did(*old(self), is_playing_steps(), result),
            result matches Ok(busy) ==> final(self).exchanges().last().reply matches Ok(go)
                && busy == go_set(go),
    {
        let go_reg = self.query(Operation::is_playing())?;
        Ok(playing(go_reg))
    }

    /// Puts `effect` in the slot `slot` of the waveform sequence. The chip has the slots 0
    /// to 7; for any other, nothing is sent.
    pub fn set_waveform(&mut self, slot: u8, effect: u8) -> (result: Result<
        (),
        Error<I2C::Error>,
    >)
        ensures
            final(self).motor() == old(self).motor(),
            slot < WAVEFORM_SLOTS ==> final(self).did(
                *old(self),
                set_waveform_steps(slot, effect),
                result,
            ),
            slot >= WAVEFORM_SLOTS ==> final(self).exchanges() == old(self).exchanges() && result
                == Err::<(), Error<I2C::Error>>(Error::InvalidParameter),
    {
        self.carry_out(Operation::set_waveform(slot, effect))
    }

    /// Empties the waveform sequence: eight writes of zero, to the slots in rising order.
    /// Where the bus fails on the way, the slots before the failure are empty and the
    /// others are as they were.
    pub fn clear_waveform_sequence(&mut self) -> (result: Result<(), Error<I2C::Error>>)
        ensures
            final(self).motor() == old(self).motor(),
            final(self).did(*old(self), clear_waveform_sequence_steps(), result),
    {
        self.carry_out(Operation::clear_waveform_sequence())
    }

    /// Plays one effect of the library: internal trigger mode, an empty sequence, the
    /// effect in slot 0 and a terminator in slot 1, GO.
    pub fn play_waveform(&mut self, effect: u8) -> (result: Result<(), Error<I2C::Error>>)
        ensures
            final(self).motor() == old(self).motor(),
            final(self).did(*old(self), play_waveform_steps(effect), result),
    {
        self.carry_out(Operation::play_waveform(effect))
    }

    /// Sets the amplitude of real-time playback.
    pub fn set_rtp_input(&mut self, value: u8) -> (result: Result<(), Error<I2C::Error>>)
        ensures
            final(self).motor() == old(self).motor(),
            final(self).did(*old(self), set_rtp_input_steps(value), result),
    {
        self.carry_out(Operation::set_rtp_input(value))
    }

    /// Switches to real-time playback at the amplitude `value`.
    pub fn play_rtp(&mut self, value: u8) -> (result: Result<(), Error<I2C::Error>>)
        ensures
            final(self).motor() == old(self).motor(),
            final(self).did(*old(self), play_rtp_steps(value), result),
    {
        self.carry_out(Operation::play_rtp(value))
    }

    /// Sets the rated voltage of the motor: the register gets `mv * 255 / 5600`, rounded
    /// down, and of that the low eight bits.
    pub fn set_rated_voltage(&mut self, mv: u16) -> (result: Result<(), Error<I2C::Error>>)
        ensures
            final(self).motor() == old(self).motor(),
            final(self).did(*old(self), set_rated_voltage_steps(mv), result),
    {
        self.carry_out(Operation::set_rated_voltage(mv))
    }

    /// Sets the voltage that overdrive is clamped to, scaled as the rated voltage is.
    pub fn set_overdrive_voltage(&mut self, mv: u16) -> (result: Result<(), Error<I2C::Error>>)
        ensures
            final(self).motor() == old(self).motor(),
            final(self).did(*old(self), set_overdrive_voltage_steps(mv), result),
    {
        self.carry_out(Operation::set_overdrive_voltage(mv))
    }

    /// The device identifier: reads the status register and takes its bits 5 to 7.
    pub fn get_device_id(&mut self) -> (result: Result<u8, Error<I2C::Error>>)
        ensures
            final(self).motor() == old(self).motor(),
            final(self).did(*old(self), get_device_id_steps(), result),
            result matches Ok(id) ==> final(self).exchanges().last().reply matches Ok(status)
                && id == id_bits(status),
    {
        let status = self.query(Operation::get_device_id())?;
        Ok(device_id(status))
    }

    /// Calibrates the chip for its motor: auto-calibration mode, GO, then up to 100 polls
    /// of the GO register, 10 ms apart, and at the end the status register. Fails with
    /// `CalibrationFailed` where the chip is still busy after the wait that follows the
    /// last poll, and where it reports that the calibration failed.
    pub fn auto_calibrate(&mut self) -> (result: Result<(), Error<I2C::Error>>)
        ensures
            final(self).motor() == old(self).motor(),
            final(self).calibrated(*old(self), result),
    {
        let outcome = self.execute(Operation::auto_calibrate());
        let result = match outcome {
            Ok(_) => Ok(()),
            Err(e) => Err(e),
        };
        proof {
            lemma_calibration_run(self.since(*old(self)), result);
        }
        result
    }
}

} // verus!
