//! The operations of the driver: for each, the plan of its steps and the task that works
//! through it.

use vstd::prelude::*;
use crate::common::{Effect, Error, Library, Mode, MotorType};
use crate::heartbeat::{HeartbeatPattern, S1_ATTACK_MS, S1_DECAY_MS, S1_MS, S2_MS};
use crate::registers;
use crate::sequencer::{After, Operation, OperationView, Step, Task, GO_BIT};

verus! {

/// Value of the mode register that resets the chip.
pub const MODE_RESET: u8 = 0x80;

/// Value of the mode register that puts the chip in standby.
pub const MODE_STANDBY: u8 = 0x40;

/// Value of the mode register that takes the chip out of standby.
pub const MODE_READY: u8 = 0x00;

/// Bits of the mode register that a change of mode leaves as they are.
pub const MODE_KEEP: u8 = 0xF8;

/// Time that the chip needs to settle after a reset, in milliseconds.
pub const RESET_SETTLE_MS: u64 = 2;

/// Feedback control value for a linear resonant actuator.
pub const FEEDBACK_LRA: u8 = 0x80;

/// Feedback control value for an eccentric rotating mass.
pub const FEEDBACK_ERM: u8 = 0x00;

/// Number of slots in the waveform sequence.
pub const WAVEFORM_SLOTS: u8 = 8;

/// Voltage, in millivolts, that the voltage registers express as 255.
pub const FULL_SCALE_MV: u16 = 5600;

/// Sequence entry between the two sounds of the built-in heartbeat. An entry with bit 7
/// set is a wait, of as many times 10 ms as its other bits say: this one waits 10 ms.
pub const HEARTBEAT_GAP: u8 = 0x81;

/// Sequence entry after the second sound of the built-in heartbeat: a wait of 520 ms.
pub const HEARTBEAT_REST: u8 = 0xB4;

/// The byte that the voltage registers hold for `mv` millivolts: `mv * 255 / 5600`, rounded
/// down, and of that the low eight bits.
pub open spec fn voltage_byte(mv: u16) -> u8 {
    ((mv as int * 255 / 5600) % 256) as u8
}

/// Whether the chip is busy, from the byte of its GO register.
pub open spec fn go_set(go: u8) -> bool {
    go & GO_BIT != 0
}

/// The device identifier, from the byte of the status register: bits 5 to 7.
pub open spec fn id_bits(status: u8) -> u8 {
    (status >> 5) & 0x07
}

/// One write.
pub open spec fn write_steps(reg: u8, value: u8) -> Seq<Step> {
    seq![Step::Write { reg, value }]
}

/// One read.
pub open spec fn read_steps(reg: u8) -> Seq<Step> {
    seq![Step::Read { reg }]
}

pub open spec fn reset_steps() -> Seq<Step> {
    write_steps(registers::MODE, MODE_RESET)
}

pub open spec fn exit_standby_steps() -> Seq<Step> {
    write_steps(registers::MODE, MODE_READY)
}

pub open spec fn enter_standby_steps() -> Seq<Step> {
    write_steps(registers::MODE, MODE_STANDBY)
}

/// Read the mode register, then write it back with the mode code replaced.
pub open spec fn set_mode_steps(mode: Mode) -> Seq<Step> {
    seq![
        Step::Read { reg: registers::MODE },
        Step::Modify { reg: registers::MODE, keep: MODE_KEEP, set: mode.code() },
    ]
}

pub open spec fn set_library_steps(library: Library) -> Seq<Step> {
    write_steps(registers::LIBRARY_SELECTION, library.code())
}

/// The feedback configuration of the motor, then the library that goes with it.
pub open spec fn set_motor_type_steps(motor_type: MotorType) -> Seq<Step> {
    match motor_type {
        MotorType::LRA => write_steps(registers::FEEDBACK_CONTROL, FEEDBACK_LRA)
            + set_library_steps(Library::LRA),
        MotorType::ERM => write_steps(registers::FEEDBACK_CONTROL, FEEDBACK_ERM)
            + set_library_steps(Library::LibraryB),
    }
}

/// Reset, let the chip settle, leave standby, configure for the motor.
pub open spec fn init_steps(motor_type: MotorType) -> Seq<Step> {
    reset_steps() + seq![Step::Wait { ms: RESET_SETTLE_MS }] + exit_standby_steps()
        + set_motor_type_steps(motor_type)
}

pub open spec fn go_steps() -> Seq<Step> {
    write_steps(registers::GO, 0x01)
}

pub open spec fn stop_steps() -> Seq<Step> {
    write_steps(registers::GO, 0x00)
}

pub open spec fn is_playing_steps() -> Seq<Step> {
    read_steps(registers::GO)
}

/// One write, to the register of the slot.
pub open spec fn set_waveform_steps(slot: u8, effect: u8) -> Seq<Step>
    recommends
        slot < WAVEFORM_SLOTS,
{
    write_steps((registers::WAVEFORM_SEQUENCER_1 + slot) as u8, effect)
}

/// Eight writes of zero, to the slots in rising order.
pub open spec fn clear_waveform_sequence_steps() -> Seq<Step> {
    Seq::new(
        WAVEFORM_SLOTS as nat,
        |i: int| Step::Write { reg: (registers::WAVEFORM_SEQUENCER_1 + i) as u8, value: 0 },
    )
}

/// Internal trigger mode, an empty sequence, the effect and a terminator behind it, GO.
pub open spec fn play_waveform_steps(effect: u8) -> Seq<Step> {
    set_mode_steps(Mode::InternalTrigger) + clear_waveform_sequence_steps() + set_waveform_steps(
        0,
        effect,
    ) + set_waveform_steps(1, 0) + go_steps()
}

pub open spec fn set_rtp_input_steps(value: u8) -> Seq<Step> {
    write_steps(registers::RTP_INPUT, value)
}

pub open spec fn play_rtp_steps(value: u8) -> Seq<Step> {
    set_mode_steps(Mode::RealTimePlayback) + set_rtp_input_steps(value)
}

pub open spec fn set_rated_voltage_steps(mv: u16) -> Seq<Step> {
    write_steps(registers::RATED_VOLTAGE, voltage_byte(mv))
}

pub open spec fn set_overdrive_voltage_steps(mv: u16) -> Seq<Step> {
    write_steps(registers::OVERDRIVE_CLAMP_VOLTAGE, voltage_byte(mv))
}

pub open spec fn get_device_id_steps() -> Seq<Step> {
    read_steps(registers::STATUS)
}

/// Auto-calibration mode, then GO; the polling follows the plan.
pub open spec fn auto_calibrate_steps() -> Seq<Step> {
    set_mode_steps(Mode::AutoCalibration) + go_steps()
}

/// Internal trigger mode, an empty sequence, then five slots: a strong click, a short
/// wait, a weaker click, a long wait, the terminator; then GO.
pub open spec fn play_heartbeat_builtin_steps() -> Seq<Step> {
    set_mode_steps(Mode::InternalTrigger) + clear_waveform_sequence_steps() + set_waveform_steps(
        0,
        Effect::StrongClick100.id(),
    ) + set_waveform_steps(1, HEARTBEAT_GAP) + set_waveform_steps(2, Effect::StrongClick60.id())
        + set_waveform_steps(3, HEARTBEAT_REST) + set_waveform_steps(4, 0) + go_steps()
}

pub open spec fn play_double_click_heartbeat_steps() -> Seq<Step> {
    play_waveform_steps(Effect::DoubleClick100.id())
}

pub open spec fn start_custom_heartbeat_steps(pattern: HeartbeatPattern) -> Seq<Step> {
    set_mode_steps(Mode::RealTimePlayback) + set_rtp_input_steps(pattern.s1_amplitude)
}

/// One beat in real-time playback: the first sound at full and then at half amplitude,
/// silence for the rest of the systole, the second sound, silence for the rest of the
/// diastole.
pub open spec fn heartbeat_cycle_steps(pattern: HeartbeatPattern) -> Seq<Step>
    recommends
        pattern.playable(),
{
    seq![
        Step::Write { reg: registers::RTP_INPUT, value: pattern.s1_amplitude },
        Step::Wait { ms: S1_ATTACK_MS },
        Step::Write { reg: registers::RTP_INPUT, value: pattern.s1_amplitude / 2 },
        Step::Wait { ms: S1_DECAY_MS },
        Step::Write { reg: registers::RTP_INPUT, value: 0 },
        Step::Wait { ms: (pattern.systole_ms() - S1_MS) as u64 },
        Step::Write { reg: registers::RTP_INPUT, value: pattern.s2_amplitude },
        Step::Wait { ms: S2_MS },
        Step::Write { reg: registers::RTP_INPUT, value: 0 },
        Step::Wait { ms: (pattern.diastole_ms() - S2_MS) as u64 },
    ]
}

/// Real-time playback mode, then the beat; the beat is what repeats.
pub open spec fn play_custom_heartbeat_steps(pattern: HeartbeatPattern) -> Seq<Step>
    recommends
        pattern.playable(),
{
    set_mode_steps(Mode::RealTimePlayback) + heartbeat_cycle_steps(pattern)
}

/// The byte that the voltage registers hold for `mv` millivolts.
pub fn voltage_code(mv: u16) -> (byte: u8)
    ensures
        byte == voltage_byte(mv),
        mv <= FULL_SCALE_MV ==> byte == mv as int * 255 / 5600,
{
    let scaled: u32 = (mv as u32 * 255) / (FULL_SCALE_MV as u32);
    assert(scaled == mv as int * 255 / 5600);
    (scaled % 256) as u8
}

/// Whether the chip is busy, from the byte of its GO register.
pub fn playing(go: u8) -> (busy: bool)
    ensures
        busy == go_set(go),
{
    go & GO_BIT != 0
}

/// The device identifier, from the byte of the status register.
pub fn device_id(status: u8) -> (id: u8)
    ensures
        id == id_bits(status),
        id < 8,
{
    let id = (status >> 5) & 0x07;
    assert((status >> 5) & 0x07 < 8) by (bit_vector);
    id
}

fn push_write(steps: &mut Vec<Step>, reg: u8, value: u8)
    ensures
        final(steps)@ == old(steps)@ + write_steps(reg, value),
{
    steps.push(Step::Write { reg, value });
}

fn push_set_mode(steps: &mut Vec<Step>, mode: Mode)
    ensures
        final(steps)@ == old(steps)@ + set_mode_steps(mode),
{
    steps.push(Step::Read { reg: registers::MODE });
    steps.push(Step::Modify { reg: registers::MODE, keep: MODE_KEEP, set: mode.as_u8() });
}

fn push_set_library(steps: &mut Vec<Step>, library: Library)
    ensures
        final(steps)@ == old(steps)@ + set_library_steps(library),
{
    push_write(steps, registers::LIBRARY_SELECTION, library.as_u8());
}

fn push_set_motor_type(steps: &mut Vec<Step>, motor_type: MotorType)
    ensures
        final(steps)@ == old(steps)@ + set_motor_type_steps(motor_type),
{
    match motor_type {
        MotorType::LRA => {
            push_write(steps, registers::FEEDBACK_CONTROL, FEEDBACK_LRA);
            push_set_library(steps, Library::LRA);
        },
        MotorType::ERM => {
            push_write(steps, registers::FEEDBACK_CONTROL, FEEDBACK_ERM);
            push_set_library(steps, Library::LibraryB);
        },
    }
}

fn push_set_waveform(steps: &mut Vec<Step>, slot: u8, effect: u8)
    requires
        slot < WAVEFORM_SLOTS,
    ensures
        final(steps)@ == old(steps)@ + set_waveform_steps(slot, effect),
{
    push_write(steps, registers::WAVEFORM_SEQUENCER_1 + slot, effect);
}

fn push_clear_waveform_sequence(steps: &mut Vec<Step>)
    ensures
        final(steps)@ == old(steps)@ + clear_waveform_sequence_steps(),
{
    let mut slot: u8 = 0;
    while slot < WAVEFORM_SLOTS
        invariant
            slot <= WAVEFORM_SLOTS,
            steps@ == old(steps)@ + clear_waveform_sequence_steps().take(slot as int),
        decreases WAVEFORM_SLOTS - slot,
    {
        push_set_waveform(steps, slot, 0);
        slot = slot + 1;
    }
}

fn push_play_waveform(steps: &mut Vec<Step>, effect: u8)
    ensures
        final(steps)@ == old(steps)@ + play_waveform_steps(effect),
{
    push_set_mode(steps, Mode::InternalTrigger);
    push_clear_waveform_sequence(steps);
    push_set_waveform(steps, 0, effect);
    push_set_waveform(steps, 1, 0);
    push_write(steps, registers::GO, 0x01);
}

fn once<E>(steps: Vec<Step>) -> (op: Operation<E>)
    requires
        steps@.len() > 0,
    ensures
        op@ == OperationView::<E>::once(steps@),
        op@.wf(),
{
    Operation::Pending(Task::begin(steps, After::Finish))
}

impl<E> Operation<E> {
    /// One write to a register.
    pub fn write_register(reg: u8, value: u8) -> (op: Self)
        ensures
            op@ == OperationView::<E>::once(write_steps(reg, value)),
    {
        let mut steps = Vec::new();
        push_write(&mut steps, reg, value);
        once(steps)
    }

    /// One read of a register; the operation's result is the byte read.
    pub fn read_register(reg: u8) -> (op: Self)
        ensures
            op@ == OperationView::<E>::once(read_steps(reg)),
    {
        let mut steps = Vec::new();
        steps.push(Step::Read { reg });
        once(steps)
    }

    /// Brings the chip up for the motor `motor_type`: reset, the settle time, out of
    /// standby, feedback configuration and library.
    pub fn init(motor_type: MotorType) -> (op: Self)
        ensures
            op@ == OperationView::<E>::once(init_steps(motor_type)),
    {
        let mut steps = Vec::new();
        push_write(&mut steps, registers::MODE, MODE_RESET);
        steps.push(Step::Wait { ms: RESET_SETTLE_MS });
        push_write(&mut steps, registers::MODE, MODE_READY);
        push_set_motor_type(&mut steps, motor_type);
        assert(steps@ =~= init_steps(motor_type));
        once(steps)
    }

    /// Sets the reset bit. The chip needs [`RESET_SETTLE_MS`] before it takes the next
    /// request.
    pub fn reset() -> (op: Self)
        ensures
            op@ == OperationView::<E>::once(reset_steps()),
    {
        Self::write_register(registers::MODE, MODE_RESET)
    }

    /// Clears the standby bit, with one plain write.
    pub fn exit_standby() -> (op: Self)
        ensures
            op@ == OperationView::<E>::once(exit_standby_steps()),
    {
        Self::write_register(registers::MODE, MODE_READY)
    }

    /// Sets the standby bit, with one plain write.
    pub fn enter_standby() -> (op: Self)
        ensures
            op@ == OperationView::<E>::once(enter_standby_steps()),
    {
        Self::write_register(registers::MODE, MODE_STANDBY)
    }

    /// Changes the mode and leaves the other bits of the mode register as they are.
    pub fn set_mode(mode: Mode) -> (op: Self)
        ensures
            op@ == OperationView::<E>::once(set_mode_steps(mode)),
    {
        let mut steps = Vec::new();
        push_set_mode(&mut steps, mode);
        once(steps)
    }

    /// Selects the waveform library.
    pub fn set_library(library: Library) -> (op: Self)
        ensures
            op@ == OperationView::<E>::once(set_library_steps(library)),
    {
        Self::write_register(registers::LIBRARY_SELECTION, library.as_u8())
    }

    /// Configures the chip for the motor: feedback control and library, always both.
    pub fn set_motor_type(motor_type: MotorType) -> (op: Self)
        ensures
            op@ == OperationView::<E>::once(set_motor_type_steps(motor_type)),
    {
        let mut steps = Vec::new();
        push_set_motor_type(&mut steps, motor_type);
        once(steps)
    }

    /// Sets the GO bit.
    pub fn go() -> (op: Self)
        ensures
            op@ == OperationView::<E>::once(go_steps()),
    {
        Self::write_register(registers::GO, 0x01)
    }

    /// Clears the GO bit: a request to stop, which the chip follows in its own time.
    pub fn stop() -> (op: Self)
        ensures
            op@ == OperationView::<E>::once(stop_steps()),
    {
        Self::write_register(registers::GO, 0x00)
    }

    /// Reads the GO register; [`playing`] tells from the result whether the chip is busy.
    pub fn is_playing() -> (op: Self)
        ensures
            op@ == OperationView::<E>::once(is_playing_steps()),
    {
        Self::read_register(registers::GO)
    }

    /// Puts `effect` in the slot `slot` of the waveform sequence. With a slot that the
    /// chip does not have, the operation is refused.
    pub fn set_waveform(slot: u8, effect: u8) -> (op: Self)
        ensures
            slot < WAVEFORM_SLOTS ==> op@ == OperationView::<E>::once(
                set_waveform_steps(slot, effect),
            ),
            slot >= WAVEFORM_SLOTS ==> op@ == OperationView::<E>::refused(),
    {
        if slot >= WAVEFORM_SLOTS {
            return Operation::Finished(Err(Error::InvalidParameter));
        }
        Self::write_register(registers::WAVEFORM_SEQUENCER_1 + slot, effect)
    }

    /// Empties the waveform sequence, slot by slot.
    pub fn clear_waveform_sequence() -> (op: Self)
        ensures
            op@ == OperationView::<E>::once(clear_waveform_sequence_steps()),
    {
        let mut steps = Vec::new();
        push_clear_waveform_sequence(&mut steps);
        once(steps)
    }

    /// Plays one effect of the library.
    pub fn play_waveform(effect: u8) -> (op: Self)
        ensures
            op@ == OperationView::<E>::once(play_waveform_steps(effect)),
    {
        let mut steps = Vec::new();
        push_play_waveform(&mut steps, effect);
        once(steps)
    }

    /// Sets the amplitude of real-time playback.
    pub fn set_rtp_input(value: u8) -> (op: Self)
        ensures
            op@ == OperationView::<E>::once(set_rtp_input_steps(value)),
    {
        Self::write_register(registers::RTP_INPUT, value)
    }

    /// Switches to real-time playback at the amplitude `value`.
    pub fn play_rtp(value: u8) -> (op: Self)
        ensures
            op@ == OperationView::<E>::once(play_rtp_steps(value)),
    {
        let mut steps = Vec::new();
        push_set_mode(&mut steps, Mode::RealTimePlayback);
        push_write(&mut steps, registers::RTP_INPUT, value);
        once(steps)
    }

    /// Sets the rated voltage of the motor, in millivolts.
    pub fn set_rated_voltage(mv: u16) -> (op: Self)
        ensures
            op@ == OperationView::<E>::once(set_rated_voltage_steps(mv)),
    {
        Self::write_register(registers::RATED_VOLTAGE, voltage_code(mv))
    }

    /// Sets the voltage that overdrive is clamped to, in millivolts.
    pub fn set_overdrive_voltage(mv: u16) -> (op: Self)
        ensures
            op@ == OperationView::<E>::once(set_overdrive_voltage_steps(mv)),
    {
        Self::write_register(registers::OVERDRIVE_CLAMP_VOLTAGE, voltage_code(mv))
    }

    /// Reads the status register; [`device_id`] takes the identifier from the result.
    pub fn get_device_id() -> (op: Self)
        ensures
            op@ == OperationView::<E>::once(get_device_id_steps()),
    {
        Self::read_register(registers::STATUS)
    }

    /// Starts auto-calibration and waits for its outcome.
    pub fn auto_calibrate() -> (op: Self)
        ensures
            op@ == OperationView::<E>::calibration(auto_calibrate_steps()),
    {
        let mut steps = Vec::new();
        push_set_mode(&mut steps, Mode::AutoCalibration);
        push_write(&mut steps, registers::GO, 0x01);
        Operation::Pending(Task::begin(steps, After::Calibrate))
    }

    /// Plays a heartbeat made of two clicks of the library. The chip plays the sequence
    /// by itself; the operation ends with the write that starts it.
    pub fn play_heartbeat_builtin() -> (op: Self)
        ensures
            op@ == OperationView::<E>::once(play_heartbeat_builtin_steps()),
    {
        let mut steps = Vec::new();
        push_set_mode(&mut steps, Mode::InternalTrigger);
        push_clear_waveform_sequence(&mut steps);
        push_set_waveform(&mut steps, 0, Effect::StrongClick100.as_u8());
        push_set_waveform(&mut steps, 1, HEARTBEAT_GAP);
        push_set_waveform(&mut steps, 2, Effect::StrongClick60.as_u8());
        push_set_waveform(&mut steps, 3, HEARTBEAT_REST);
        push_set_waveform(&mut steps, 4, 0);
        push_write(&mut steps, registers::GO, 0x01);
        once(steps)
    }

    /// Plays the double click of the library, as the plainest stand-in for a heartbeat.
    pub fn play_double_click_heartbeat() -> (op: Self)
        ensures
            op@ == OperationView::<E>::once(play_double_click_heartbeat_steps()),
    {
        Self::play_waveform(Effect::DoubleClick100.as_u8())
    }

    /// Switches to real-time playback at the amplitude of the pattern's first sound.
    pub fn start_custom_heartbeat(pattern: &HeartbeatPattern) -> (op: Self)
        ensures
            op@ == OperationView::<E>::once(start_custom_heartbeat_steps(*pattern)),
    {
        Self::play_rtp(pattern.s1_amplitude)
    }

    /// Plays the pattern beat after beat in real-time playback, until the runner stops
    /// running it or the bus fails. A pattern that cannot be played is refused.
    pub fn play_custom_heartbeat(pattern: &HeartbeatPattern) -> (op: Self)
        ensures
            pattern.playable() ==> op@ == OperationView::<E>::endless(
                play_custom_heartbeat_steps(*pattern),
                2,
            ),
            !pattern.playable() ==> op@ == OperationView::<E>::refused(),
    {
        let timing = match pattern.timing() {
            None => {
                return Operation::Finished(Err(Error::InvalidParameter));
            },
            Some(timing) => timing,
        };
        let mut steps = Vec::new();
        push_set_mode(&mut steps, Mode::RealTimePlayback);
        push_write(&mut steps, registers::RTP_INPUT, pattern.s1_amplitude);
        steps.push(Step::Wait { ms: S1_ATTACK_MS });
        push_write(&mut steps, registers::RTP_INPUT, pattern.s1_amplitude / 2);
        steps.push(Step::Wait { ms: S1_DECAY_MS });
        push_write(&mut steps, registers::RTP_INPUT, 0);
        steps.push(Step::Wait { ms: timing.systole_ms - S1_MS });
        push_write(&mut steps, registers::RTP_INPUT, pattern.s2_amplitude);
        steps.push(Step::Wait { ms: S2_MS });
        push_write(&mut steps, registers::RTP_INPUT, 0);
        steps.push(Step::Wait { ms: timing.diastole_ms - S2_MS });
        assert(steps@ =~= play_custom_heartbeat_steps(*pattern));
        Operation::Pending(Task::begin(steps, After::Repeat { from: 2 }))
    }
}

} // verus!
