//! What holds of the operations, proved from their plans and from the way a task goes
//! through them.

use vstd::prelude::*;
use crate::common::{Error, Mode, MotorType};
use crate::heartbeat::{
    lemma_playable_unless_zero, HeartbeatPattern, S1_ATTACK_MS, S1_DECAY_MS, S2_MS,
};
use crate::operations::{
    auto_calibrate_steps, clear_waveform_sequence_steps, go_set, heartbeat_cycle_steps,
    init_steps, play_custom_heartbeat_steps, play_heartbeat_builtin_steps, play_waveform_steps,
    set_mode_steps, set_motor_type_steps, MODE_KEEP,
};
use crate::registers;
use crate::sequencer::{
    After, OperationView, Phase, Request, Step, TaskView, CALIBRATION_POLLS, CALIBRATION_POLL_MS,
    DIAG_RESULT_BIT, MODE_BITS,
};
use crate::trace::{
    asks, byte_before, carried_out, lemma_failure_is_final, lemma_replay_step, replay,
    reply_byte, runs, succeeded, Exchange,
};

verus! {

/// A change of mode writes back the byte that it read, with the upper five bits as they
/// were and the code of the mode in the lower three.
pub proof fn lemma_set_mode_keeps_upper_bits(current: u8, mode: Mode)
    ensures
        set_mode_steps(mode)[0] == (Step::Read { reg: registers::MODE }),
        set_mode_steps(mode)[1].request(current) matches Request::Write { reg, value } && reg
            == registers::MODE && value & MODE_KEEP == current & MODE_KEEP && value & MODE_BITS
            == mode.code(),
{
    let code = mode.code();
    assert(((current & 0xF8) | code) & 0xF8 == current & 0xF8 && ((current & 0xF8) | code) & 0x07
        == code) by (bit_vector)
        requires
            code < 8,
    ;
}

/// The same of what the bus has seen: in a change of mode that succeeded, the byte
/// written to the mode register is the byte read from it with only the mode code replaced.
pub proof fn lemma_set_mode_exchanges<E, T>(
    mode: Mode,
    xs: Seq<Exchange<E>>,
    result: Result<T, Error<E>>,
)
    requires
        carried_out(set_mode_steps(mode), xs, result),
        result is Ok,
    ensures
        xs.len() == 2,
        xs[0].request == (Request::Read { reg: registers::MODE }),
        xs[0].reply matches Ok(current) && xs[1].request matches Request::Write { reg, value }
            && reg == registers::MODE && value & MODE_KEEP == current & MODE_KEEP && value
            & MODE_BITS == mode.code(),
{
    assert(asks(set_mode_steps(mode), xs, 0));
    assert(asks(set_mode_steps(mode), xs, 1));
    lemma_set_mode_keeps_upper_bits(byte_before(xs, 1), mode);
}

/// The value of the register `reg` of a chip that keeps what is written to it, when the
/// registers held `regs` before the exchanges `xs`.
pub open spec fn register_after<E>(regs: spec_fn(u8) -> u8, xs: Seq<Exchange<E>>, reg: u8) -> u8
    decreases xs.len(),
{
    if xs.len() == 0 {
        regs(reg)
    } else {
        match (xs.last().request, xs.last().reply) {
            (Request::Write { reg: written, value }, Ok(_)) if written == reg => value,
            _ => register_after(regs, xs.drop_last(), reg),
        }
    }
}

/// Every read among the exchanges `xs` that succeeded was answered with what the register
/// held at that moment.
pub open spec fn answered_from<E>(regs: spec_fn(u8) -> u8, xs: Seq<Exchange<E>>) -> bool {
    forall|i: int|
        0 <= i < xs.len() ==> ((#[trigger] xs[i]).request matches Request::Read { reg }
            ==> (xs[i].reply matches Ok(byte) ==> byte == register_after(regs, xs.take(i), reg)))
}

/// On a chip that keeps what is written to it, a change of mode that succeeded leaves the
/// mode register with its upper five bits as they were and with the code of the mode in
/// its lower three, whatever the register held before.
pub proof fn lemma_set_mode_on_chip<E, T>(
    regs: spec_fn(u8) -> u8,
    mode: Mode,
    xs: Seq<Exchange<E>>,
    result: Result<T, Error<E>>,
)
    requires
        carried_out(set_mode_steps(mode), xs, result),
        result is Ok,
        answered_from(regs, xs),
    ensures
        register_after(regs, xs, registers::MODE) & MODE_KEEP == regs(registers::MODE)
            & MODE_KEEP,
        register_after(regs, xs, registers::MODE) & MODE_BITS == mode.code(),
        forall|reg: u8|
            reg != registers::MODE ==> #[trigger] register_after(regs, xs, reg) == regs(reg),
{
    reveal_with_fuel(register_after, 3);
    lemma_set_mode_exchanges(mode, xs, result);
}

/// Bringing the chip up is, in this order: the reset, the settle time of 2 ms, the write
/// that takes the chip out of standby, and the two writes that configure it for the motor.
pub proof fn lemma_init_plan(motor_type: MotorType)
    ensures
        init_steps(motor_type) == seq![
            Step::Write { reg: 0x01, value: 0x80 },
            Step::Wait { ms: 2 },
            Step::Write { reg: 0x01, value: 0x00 },
        ] + set_motor_type_steps(motor_type),
        init_steps(motor_type).len() == 5,
{
}

/// Clearing the waveform sequence is eight writes of zero, to the registers 0x04 to 0x0B
/// in rising order.
pub proof fn lemma_clear_waveform_sequence_plan()
    ensures
        clear_waveform_sequence_steps() == seq![
            Step::Write { reg: 0x04, value: 0 },
            Step::Write { reg: 0x05, value: 0 },
            Step::Write { reg: 0x06, value: 0 },
            Step::Write { reg: 0x07, value: 0 },
            Step::Write { reg: 0x08, value: 0 },
            Step::Write { reg: 0x09, value: 0 },
            Step::Write { reg: 0x0A, value: 0 },
            Step::Write { reg: 0x0B, value: 0 },
        ],
{
}

/// Playing an effect is, in this order: the change to internal trigger mode, the eight
/// writes that clear the sequence, the effect to slot 0, zero to slot 1, and GO.
pub proof fn lemma_play_waveform_plan(effect: u8)
    ensures
        play_waveform_steps(effect) == seq![
            Step::Read { reg: 0x01 },
            Step::Modify { reg: 0x01, keep: 0xF8, set: 0 },
            Step::Write { reg: 0x04, value: 0 },
            Step::Write { reg: 0x05, value: 0 },
            Step::Write { reg: 0x06, value: 0 },
            Step::Write { reg: 0x07, value: 0 },
            Step::Write { reg: 0x08, value: 0 },
            Step::Write { reg: 0x09, value: 0 },
            Step::Write { reg: 0x0A, value: 0 },
            Step::Write { reg: 0x0B, value: 0 },
            Step::Write { reg: 0x04, value: effect },
            Step::Write { reg: 0x05, value: 0 },
            Step::Write { reg: 0x0C, value: 1 },
        ],
{
}

/// The built-in heartbeat is, in this order: the change to internal trigger mode, the eight
/// writes that clear the sequence, five slots (effect 1, a wait of 10 ms, effect 2, a
/// longer wait, the terminator), and GO.
pub proof fn lemma_play_heartbeat_builtin_plan()
    ensures
        play_heartbeat_builtin_steps() == seq![
            Step::Read { reg: 0x01 },
            Step::Modify { reg: 0x01, keep: 0xF8, set: 0 },
            Step::Write { reg: 0x04, value: 0 },
            Step::Write { reg: 0x05, value: 0 },
            Step::Write { reg: 0x06, value: 0 },
            Step::Write { reg: 0x07, value: 0 },
            Step::Write { reg: 0x08, value: 0 },
            Step::Write { reg: 0x09, value: 0 },
            Step::Write { reg: 0x0A, value: 0 },
            Step::Write { reg: 0x0B, value: 0 },
            Step::Write { reg: 0x04, value: 1 },
            Step::Write { reg: 0x05, value: 0x81 },
            Step::Write { reg: 0x06, value: 2 },
            Step::Write { reg: 0x07, value: 0xB4 },
            Step::Write { reg: 0x08, value: 0 },
            Step::Write { reg: 0x0C, value: 1 },
        ],
{
}

/// A change of motor type is two writes: the feedback configuration, then the library.
/// For a linear resonant actuator these are 0x80 and library 6, for an eccentric rotating
/// mass 0x00 and library 2.
pub proof fn lemma_set_motor_type_plan(motor_type: MotorType)
    ensures
        set_motor_type_steps(motor_type) == match motor_type {
            MotorType::LRA => seq![
                Step::Write { reg: 0x1A, value: 0x80 },
                Step::Write { reg: 0x03, value: 6 },
            ],
            MotorType::ERM => seq![
                Step::Write { reg: 0x1A, value: 0x00 },
                Step::Write { reg: 0x03, value: 2 },
            ],
        },
{
}

/// The exchange `i` of `xs` makes the request that a calibration makes there. The first
/// three exchanges are those of the plan. From then on a poll of the GO register
/// alternates with what its reply calls for: a wait while the chip is busy, the read of the
/// status register once it is done.
pub open spec fn calibrates<E>(xs: Seq<Exchange<E>>, i: int) -> bool {
    if i < 3 {
        asks(auto_calibrate_steps(), xs, i)
    } else if (i - 3) % 2 == 0 {
        xs[i].request == (Request::Read { reg: registers::GO })
    } else if go_set(reply_byte(xs[i - 1])) {
        xs[i].request == (Request::Wait { ms: CALIBRATION_POLL_MS })
    } else {
        xs[i].request == (Request::Read { reg: registers::STATUS })
    }
}

/// Whether a calibration is over once the exchange `i` of `xs` has succeeded: it was the
/// read of the status register, or the wait after the last poll that a calibration makes.
pub open spec fn calibration_over<E>(xs: Seq<Exchange<E>>, i: int) -> bool {
    &&& i > 3
    &&& (i - 3) % 2 == 1
    &&& !go_set(reply_byte(xs[i - 1])) || i == 2 + 2 * CALIBRATION_POLLS
}

/// The exchanges `xs` are a whole calibration, with `result` as the result. Every exchange
/// makes the request of a calibration, and every one but the last succeeded and left the
/// calibration unfinished. The last either failed, and its error is the result; or it
/// was the wait after the last poll, and the result is `CalibrationFailed`; or it was the
/// read of the status register, and the diagnostic bit of the byte read decides between
/// `CalibrationFailed` and success.
pub open spec fn calibration<E, T>(xs: Seq<Exchange<E>>, result: Result<T, Error<E>>) -> bool {
    &&& xs.len() > 0
    &&& forall|i: int| 0 <= i < xs.len() ==> #[trigger] calibrates(xs, i)
    &&& forall|i: int| 0 <= i < xs.len() - 1 ==> #[trigger] succeeded(xs, i)
    &&& forall|i: int| 0 <= i < xs.len() - 1 ==> !#[trigger] calibration_over(xs, i)
    &&& match xs.last().reply {
        Err(e) => result == Err::<T, Error<E>>(Error::I2c(e)),
        Ok(status) => {
            &&& calibration_over(xs, xs.len() - 1)
            &&& if go_set(reply_byte(xs[xs.len() - 2])) || status & DIAG_RESULT_BIT != 0 {
                result == Err::<T, Error<E>>(Error::CalibrationFailed)
            } else {
                result is Ok
            }
        },
    }
}

/// Where a calibration stands before the exchange `n`.
pub open spec fn calibrating<E>(task: TaskView, xs: Seq<Exchange<E>>, n: int) -> bool {
    &&& task.steps == auto_calibrate_steps()
    &&& task.after == After::Calibrate
    &&& task.last == byte_before(xs, n)
    &&& if n < 3 {
        task.phase == Phase::Steps && task.at == n && task.polls == 0
    } else {
        &&& task.at == 2
        &&& task.polls == (n - 3) / 2
        &&& task.phase == if (n - 3) % 2 == 0 {
            Phase::Polling
        } else if go_set(reply_byte(xs[n - 1])) {
            Phase::Pausing
        } else {
            Phase::Checking
        }
    }
}

proof fn lemma_calibration_position<E>(xs: Seq<Exchange<E>>, n: int)
    requires
        replay(OperationView::calibration(auto_calibrate_steps()), xs) is Some,
        0 <= n < xs.len(),
    ensures
        replay(
            OperationView::calibration(auto_calibrate_steps()),
            xs.take(n),
        ) matches Some(OperationView::Pending(task)) && calibrating(task, xs, n) && task.wf(),
        forall|i: int| 0 <= i < n ==> !#[trigger] calibration_over(xs, i),
        calibrates(xs, n),
    decreases n,
{
    let start = OperationView::<E>::calibration(auto_calibrate_steps());
    lemma_failure_is_final(start, xs);
    lemma_replay_step(start, xs, n);
    if n > 0 {
        lemma_calibration_position(xs, n - 1);
        lemma_replay_step(start, xs, n - 1);
    }
}

/// A whole run of auto-calibration is a calibration.
pub proof fn lemma_calibration_run<E, T>(xs: Seq<Exchange<E>>, result: Result<T, Error<E>>)
    requires
        runs(OperationView::calibration(auto_calibrate_steps()), xs, result),
    ensures
        calibration(xs, result),
{
    let start = OperationView::<E>::calibration(auto_calibrate_steps());
    lemma_failure_is_final(start, xs);
    let n = xs.len() - 1;
    lemma_calibration_position(xs, n);
    lemma_replay_step(start, xs, n);
    assert forall|i: int| 0 <= i < xs.len() implies #[trigger] calibrates(xs, i) by {
        lemma_calibration_position(xs, i);
    }
}

/// The exchange in which a calibration polls the GO register for the time `j`, counted
/// from 0.
pub open spec fn poll<E>(xs: Seq<Exchange<E>>, j: int) -> Exchange<E> {
    xs[3 + 2 * j]
}

/// The exchange that follows the poll `j` of a calibration.
pub open spec fn pause<E>(xs: Seq<Exchange<E>>, j: int) -> Exchange<E> {
    xs[4 + 2 * j]
}

/// A calibration gives up after exactly 100 polls. If every request succeeds and every
/// poll finds the GO bit set, there are the three exchanges of the plan and then 100 times
/// a read of the GO register and a wait of 10 ms, nothing more, and the result is
/// `CalibrationFailed`.
pub proof fn lemma_calibration_gives_up<E, T>(xs: Seq<Exchange<E>>, result: Result<T, Error<E>>)
    requires
        calibration(xs, result),
        xs.last().reply is Ok,
        forall|j: int|
            0 <= j && 3 + 2 * j < xs.len() ==> go_set(reply_byte(#[trigger] poll(xs, j))),
    ensures
        result == Err::<T, Error<E>>(Error::CalibrationFailed),
        xs.len() == 3 + 2 * CALIBRATION_POLLS,
        forall|j: int|
            0 <= j < CALIBRATION_POLLS ==> (#[trigger] poll(xs, j)).request == (Request::Read {
                reg: registers::GO,
            }),
        forall|j: int|
            0 <= j < CALIBRATION_POLLS ==> (#[trigger] pause(xs, j)).request == (Request::Wait {
                ms: CALIBRATION_POLL_MS,
            }),
{
    let n = xs.len() - 1;
    let last_poll = (n - 4) / 2;
    assert(poll(xs, last_poll) == xs[n - 1]);
    assert forall|j: int| 0 <= j < CALIBRATION_POLLS implies (#[trigger] poll(xs, j)).request
        == (Request::Read { reg: registers::GO }) by {
        assert(calibrates(xs, 3 + 2 * j));
    }
    assert forall|j: int| 0 <= j < CALIBRATION_POLLS implies (#[trigger] pause(xs, j)).request
        == (Request::Wait { ms: CALIBRATION_POLL_MS }) by {
        assert(calibrates(xs, 4 + 2 * j));
        assert(poll(xs, j) == xs[3 + 2 * j]);
    }
}

/// A calibration ends as soon as a poll finds the GO bit clear, and the status register
/// then decides. If every request succeeds, and the poll `k` is the first that finds the GO
/// bit clear, one read of the status register follows it and nothing more; the result is
/// a success if the diagnostic bit of the byte read is clear, and `CalibrationFailed` if
/// it is set.
pub proof fn lemma_calibration_outcome<E, T>(
    xs: Seq<Exchange<E>>,
    result: Result<T, Error<E>>,
    k: int,
)
    requires
        calibration(xs, result),
        xs.last().reply is Ok,
        0 <= k,
        3 + 2 * k < xs.len(),
        !go_set(reply_byte(poll(xs, k))),
    ensures
        k < CALIBRATION_POLLS,
        xs.len() == 3 + 2 * k + 2,
        poll(xs, k).request == (Request::Read { reg: registers::GO }),
        xs.last().request == (Request::Read { reg: registers::STATUS }),
        reply_byte(xs.last()) & DIAG_RESULT_BIT == 0 ==> result is Ok,
        reply_byte(xs.last()) & DIAG_RESULT_BIT != 0 ==> result == Err::<T, Error<E>>(
            Error::CalibrationFailed,
        ),
{
    let n = xs.len() - 1;
    assert(calibrates(xs, 3 + 2 * k));
    if 2 + 2 * CALIBRATION_POLLS < n {
        assert(calibration_over(xs, 2 + 2 * CALIBRATION_POLLS));
    }
    if 4 + 2 * k < n {
        assert(calibration_over(xs, 4 + 2 * k));
    }
    assert(calibrates(xs, n));
}

/// No calibration takes more than 203 exchanges: the three of its plan, and 100 polls with
/// what follows each.
pub proof fn lemma_calibration_is_bounded<E, T>(xs: Seq<Exchange<E>>, result: Result<T, Error<E>>)
    requires
        calibration(xs, result),
    ensures
        xs.len() <= 3 + 2 * CALIBRATION_POLLS,
{
    if 2 + 2 * CALIBRATION_POLLS < xs.len() - 1 {
        assert(calibration_over(xs, 2 + 2 * CALIBRATION_POLLS));
    }
}

/// The waits of one beat add up to the length of the beat: the two parts of the first
/// sound and the rest of the systole to the systole, the second sound and the rest of the
/// diastole to the diastole. Neither rest is negative.
pub proof fn lemma_beat_fills_the_cycle(pattern: HeartbeatPattern)
    requires
        pattern.playable(),
    ensures
        heartbeat_cycle_steps(pattern).len() == 10,
        heartbeat_cycle_steps(pattern)[1] == (Step::Wait { ms: S1_ATTACK_MS }),
        heartbeat_cycle_steps(pattern)[3] == (Step::Wait { ms: S1_DECAY_MS }),
        heartbeat_cycle_steps(pattern)[5] is Wait,
        heartbeat_cycle_steps(pattern)[7] == (Step::Wait { ms: S2_MS }),
        heartbeat_cycle_steps(pattern)[9] is Wait,
        S1_ATTACK_MS + S1_DECAY_MS + heartbeat_cycle_steps(pattern)[5]->ms
            == pattern.systole_ms(),
        S2_MS + heartbeat_cycle_steps(pattern)[9]->ms == pattern.diastole_ms(),
        pattern.systole_ms() + pattern.diastole_ms() == pattern.cycle_ms(),
{
    lemma_playable_unless_zero(pattern);
}

/// The step of the heartbeat's plan that the exchange `i` is for: the two of the change
/// of mode once, then the ten of a beat over and over.
pub open spec fn beat_position(i: int) -> int {
    if i < 2 {
        i
    } else {
        2 + (i - 2) % 10
    }
}

/// The exchange `i` of `xs` makes the request that a heartbeat of the pattern makes there.
pub open spec fn beats<E>(pattern: HeartbeatPattern, xs: Seq<Exchange<E>>, i: int) -> bool {
    xs[i].request == play_custom_heartbeat_steps(pattern)[beat_position(i)].request(
        byte_before(xs, i),
    )
}

/// The exchanges `xs` are a heartbeat of the pattern as far as it has got: the change to
/// real-time playback, then beat after beat, with every reply but the last a success.
pub open spec fn heartbeat<E>(pattern: HeartbeatPattern, xs: Seq<Exchange<E>>) -> bool {
    &&& forall|i: int| 0 <= i < xs.len() ==> #[trigger] beats(pattern, xs, i)
    &&& forall|i: int| 0 <= i < xs.len() - 1 ==> #[trigger] succeeded(xs, i)
}

proof fn lemma_heartbeat_position<E>(pattern: HeartbeatPattern, xs: Seq<Exchange<E>>, n: int)
    requires
        pattern.playable(),
        replay(OperationView::endless(play_custom_heartbeat_steps(pattern), 2), xs) is Some,
        0 <= n <= xs.len(),
        forall|i: int| 0 <= i < n ==> #[trigger] succeeded(xs, i),
    ensures
        replay(
            OperationView::endless(play_custom_heartbeat_steps(pattern), 2),
            xs.take(n),
        ) matches Some(OperationView::Pending(task)) && task == (TaskView {
            at: beat_position(n),
            last: byte_before(xs, n),
            ..TaskView::fresh(play_custom_heartbeat_steps(pattern), After::Repeat { from: 2 })
        }),
    decreases n,
{
    let start = OperationView::<E>::endless(play_custom_heartbeat_steps(pattern), 2);
    if n > 0 {
        lemma_heartbeat_position(pattern, xs, n - 1);
        lemma_replay_step(start, xs, n - 1);
        assert(succeeded(xs, n - 1));
    }
}

/// A heartbeat does not end by itself: as long as no request fails, there is a next one.
pub proof fn lemma_heartbeat_goes_on<E>(pattern: HeartbeatPattern, xs: Seq<Exchange<E>>)
    requires
        pattern.playable(),
        replay(OperationView::endless(play_custom_heartbeat_steps(pattern), 2), xs) is Some,
        forall|i: int| 0 <= i < xs.len() ==> #[trigger] succeeded(xs, i),
    ensures
        replay(
            OperationView::endless(play_custom_heartbeat_steps(pattern), 2),
            xs,
        ) matches Some(OperationView::Pending(_)),
{
    lemma_heartbeat_position(pattern, xs, xs.len() as int);
    assert(xs.take(xs.len() as int) =~= xs);
}

/// A heartbeat is the same beat over and over: whoever runs it, and for as long as it
/// runs, the exchanges are the change of mode and then the ten steps of the beat in turn.
pub proof fn lemma_heartbeat_repeats<E>(pattern: HeartbeatPattern, xs: Seq<Exchange<E>>)
    requires
        pattern.playable(),
        replay(OperationView::endless(play_custom_heartbeat_steps(pattern), 2), xs) is Some,
    ensures
        heartbeat(pattern, xs),
{
    let start = OperationView::<E>::endless(play_custom_heartbeat_steps(pattern), 2);
    lemma_failure_is_final(start, xs);
    assert forall|i: int| 0 <= i < xs.len() implies #[trigger] beats(pattern, xs, i) by {
        lemma_heartbeat_position(pattern, xs, i);
        lemma_replay_step(start, xs, i);
    }
}

/// From the third exchange on, what a heartbeat asks does not depend on any reply: the
/// exchange `i` makes the request of the step `(i - 2) % 10` of the beat, each a write to
/// the real-time playback register or a wait.
pub proof fn lemma_heartbeat_is_fixed<E>(pattern: HeartbeatPattern, xs: Seq<Exchange<E>>, i: int)
    requires
        pattern.playable(),
        heartbeat(pattern, xs),
        2 <= i < xs.len(),
    ensures
        xs[i].request == heartbeat_cycle_steps(pattern)[(i - 2) % 10].request(0),
        xs[i].request matches Request::Write { reg, .. } ==> reg == registers::RTP_INPUT,
        !(xs[i].request is Read),
{
    assert(beats(pattern, xs, i));
    assert(0 <= (i - 2) % 10 < 10);
}

/// What an operation asks depends on the replies alone, not on who runs it: two runs of
/// one operation that got the same replies up to some point made the same requests up to
/// that point, and make the same request next.
pub proof fn lemma_same_replies_same_requests<E>(
    op: OperationView<E>,
    xs: Seq<Exchange<E>>,
    ys: Seq<Exchange<E>>,
    n: int,
)
    requires
        replay(op, xs) is Some,
        replay(op, ys) is Some,
        0 <= n <= xs.len(),
        n <= ys.len(),
        forall|i: int| 0 <= i < n ==> (#[trigger] xs[i]).reply == ys[i].reply,
    ensures
        replay(op, xs.take(n)) == replay(op, ys.take(n)),
        forall|i: int| 0 <= i < n ==> (#[trigger] xs[i]).request == ys[i].request,
        n < xs.len() && n < ys.len() ==> xs[n].request == ys[n].request,
    decreases n,
{
    if n > 0 {
        lemma_same_replies_same_requests(op, xs, ys, n - 1);
        lemma_replay_step(op, xs, n - 1);
        lemma_replay_step(op, ys, n - 1);
    }
    if n < xs.len() && n < ys.len() {
        lemma_replay_step(op, xs, n);
        lemma_replay_step(op, ys, n);
    }
}

} // verus!
