use drv2605l::{Drv2605l, Error, HeartbeatPattern, Library, Mode, MotorType, Transport};
use std::cell::RefCell;
use std::rc::Rc;

/// What a simulated chip has seen.
#[derive(Debug, Clone, PartialEq, Eq)]
enum Seen {
    Write(u8, Vec<u8>),
    WriteRead(u8, Vec<u8>),
    Suspend(u64),
}

/// A simulated chip: 256 registers that hold what is written to them.
struct Chip {
    regs: [u8; 256],
    seen: Vec<Seen>,
    /// Fails the transaction with this index, counted from 0 over writes and reads.
    fail_at: Option<usize>,
    transactions: usize,
    /// Clears the GO register once it has been read this many times.
    go_clears_after: Option<usize>,
    go_reads: usize,
}

#[derive(Clone)]
struct Bus(Rc<RefCell<Chip>>);

impl Bus {
    fn new() -> Bus {
        Bus(Rc::new(RefCell::new(Chip {
            regs: [0; 256],
            seen: Vec::new(),
            fail_at: None,
            transactions: 0,
            go_clears_after: None,
            go_reads: 0,
        })))
    }

    fn seen(&self) -> Vec<Seen> {
        self.0.borrow().seen.clone()
    }

    fn reg(&self, reg: u8) -> u8 {
        self.0.borrow().regs[reg as usize]
    }

    fn set_reg(&self, reg: u8, value: u8) {
        self.0.borrow_mut().regs[reg as usize] = value;
    }

    fn fail_at(&self, n: usize) {
        self.0.borrow_mut().fail_at = Some(n);
    }
}

impl Transport for Bus {
    type Error = u32;

    fn write(&mut self, address: u8, bytes: &[u8]) -> Result<(), u32> {
        let mut chip = self.0.borrow_mut();
        chip.seen.push(Seen::Write(address, bytes.to_vec()));
        let n = chip.transactions;
        chip.transactions += 1;
        if chip.fail_at == Some(n) {
            return Err(7);
        }
        chip.regs[bytes[0] as usize] = bytes[1];
        Ok(())
    }

    fn write_read(&mut self, address: u8, bytes: &[u8], buffer: &mut [u8]) -> Result<(), u32> {
        let mut chip = self.0.borrow_mut();
        chip.seen.push(Seen::WriteRead(address, bytes.to_vec()));
        let n = chip.transactions;
        chip.transactions += 1;
        if chip.fail_at == Some(n) {
            return Err(7);
        }
        if bytes[0] == 0x0C {
            chip.go_reads += 1;
            if let Some(limit) = chip.go_clears_after {
                if chip.go_reads > limit {
                    chip.regs[0x0C] = 0;
                }
            }
        }
        buffer[0] = chip.regs[bytes[0] as usize];
        Ok(())
    }

    fn suspend(&mut self, ms: u64) {
        self.0.borrow_mut().seen.push(Seen::Suspend(ms));
    }
}

fn write(reg: u8, value: u8) -> Seen {
    Seen::Write(0x5A, vec![reg, value])
}

fn read(reg: u8) -> Seen {
    Seen::WriteRead(0x5A, vec![reg])
}

fn clears() -> Vec<Seen> {
    (0..8).map(|slot| write(0x04 + slot, 0)).collect()
}

fn code(mode: Mode) -> u8 {
    match mode {
        Mode::InternalTrigger => 0,
        Mode::ExternalTriggerEdge => 1,
        Mode::ExternalTriggerLevel => 2,
        Mode::PwmOrAnalogInput => 3,
        Mode::AudioToVibe => 4,
        Mode::RealTimePlayback => 5,
        Mode::Diagnostics => 6,
        Mode::AutoCalibration => 7,
    }
}

const MODES: [Mode; 8] = [
    Mode::InternalTrigger,
    Mode::ExternalTriggerEdge,
    Mode::ExternalTriggerLevel,
    Mode::PwmOrAnalogInput,
    Mode::AudioToVibe,
    Mode::RealTimePlayback,
    Mode::Diagnostics,
    Mode::AutoCalibration,
];

#[test]
fn new_sends_nothing() {
    let bus = Bus::new();
    let _driver = Drv2605l::new(bus.clone());
    assert!(bus.seen().is_empty());
}

#[test]
fn init_for_the_default_motor() {
    let bus = Bus::new();
    let mut driver = Drv2605l::new(bus.clone());
    assert!(matches!(driver.init(), Ok(())));
    assert_eq!(
        bus.seen(),
        vec![
            write(0x01, 0x80),
            Seen::Suspend(2),
            write(0x01, 0x00),
            write(0x1A, 0x80),
            write(0x03, 6),
        ]
    );
}

#[test]
fn init_after_a_change_to_erm() {
    let bus = Bus::new();
    let mut driver = Drv2605l::new(bus.clone());
    assert!(matches!(driver.set_motor_type(MotorType::ERM), Ok(())));
    bus.0.borrow_mut().seen.clear();
    assert!(matches!(driver.init(), Ok(())));
    assert_eq!(
        bus.seen(),
        vec![
            write(0x01, 0x80),
            Seen::Suspend(2),
            write(0x01, 0x00),
            write(0x1A, 0x00),
            write(0x03, 2),
        ]
    );
}

#[test]
fn init_stops_at_the_first_failure() {
    let bus = Bus::new();
    bus.fail_at(1);
    let mut driver = Drv2605l::new(bus.clone());
    assert!(matches!(driver.init(), Err(Error::I2c(7))));
    assert_eq!(bus.seen(), vec![write(0x01, 0x80), Seen::Suspend(2), write(0x01, 0x00)]);
}

#[test]
fn reset_and_standby_are_plain_writes() {
    let bus = Bus::new();
    bus.set_reg(0x01, 0x05);
    let mut driver = Drv2605l::new(bus.clone());
    assert!(matches!(driver.reset(), Ok(())));
    assert!(matches!(driver.exit_standby(), Ok(())));
    assert!(matches!(driver.enter_standby(), Ok(())));
    assert_eq!(bus.seen(), vec![write(0x01, 0x80), write(0x01, 0x00), write(0x01, 0x40)]);
}

#[test]
fn set_mode_keeps_the_upper_bits() {
    let bus = Bus::new();
    bus.set_reg(0x01, 0xC3);
    let mut driver = Drv2605l::new(bus.clone());
    assert!(matches!(driver.set_mode(Mode::RealTimePlayback), Ok(())));
    assert_eq!(bus.reg(0x01), 0xC5);
    assert_eq!(bus.seen(), vec![read(0x01), write(0x01, 0xC5)]);
}

#[test]
fn set_mode_on_every_register_value() {
    for initial in 0..=255u8 {
        for mode in MODES {
            let bus = Bus::new();
            bus.set_reg(0x01, initial);
            let mut driver = Drv2605l::new(bus.clone());
            assert!(matches!(driver.set_mode(mode), Ok(())));
            let after = bus.reg(0x01);
            assert_eq!(after & 0xF8, initial & 0xF8);
            assert_eq!(after & 0x07, code(mode));
            assert_eq!(bus.seen().len(), 2);
        }
    }
}

#[test]
fn set_mode_does_not_write_when_the_read_fails() {
    let bus = Bus::new();
    bus.fail_at(0);
    let mut driver = Drv2605l::new(bus.clone());
    assert!(matches!(driver.set_mode(Mode::Diagnostics), Err(Error::I2c(7))));
    assert_eq!(bus.seen(), vec![read(0x01)]);
}

#[test]
fn set_library_writes_the_code() {
    let bus = Bus::new();
    let mut driver = Drv2605l::new(bus.clone());
    assert!(matches!(driver.set_library(Library::LibraryC), Ok(())));
    assert!(matches!(driver.set_library(Library::Empty), Ok(())));
    assert_eq!(bus.seen(), vec![write(0x03, 3), write(0x03, 0)]);
}

#[test]
fn set_motor_type_writes_feedback_then_library() {
    let bus = Bus::new();
    let mut driver = Drv2605l::new(bus.clone());
    assert!(matches!(driver.set_motor_type(MotorType::LRA), Ok(())));
    assert_eq!(bus.seen(), vec![write(0x1A, 0x80), write(0x03, 6)]);
    bus.0.borrow_mut().seen.clear();
    assert!(matches!(driver.set_motor_type(MotorType::ERM), Ok(())));
    assert_eq!(bus.seen(), vec![write(0x1A, 0x00), write(0x03, 2)]);
}

#[test]
fn set_motor_type_keeps_the_type_when_the_bus_fails() {
    let bus = Bus::new();
    bus.fail_at(1);
    let mut driver = Drv2605l::new(bus.clone());
    assert!(matches!(driver.set_motor_type(MotorType::ERM), Err(Error::I2c(7))));
    assert_eq!(bus.seen(), vec![write(0x1A, 0x00), write(0x03, 2)]);
    bus.0.borrow_mut().seen.clear();
    assert!(matches!(driver.init(), Ok(())));
    assert_eq!(bus.seen()[3..], [write(0x1A, 0x00), write(0x03, 2)]);
}

#[test]
fn go_and_stop() {
    let bus = Bus::new();
    let mut driver = Drv2605l::new(bus.clone());
    assert!(matches!(driver.go(), Ok(())));
    assert!(matches!(driver.stop(), Ok(())));
    assert_eq!(bus.seen(), vec![write(0x0C, 0x01), write(0x0C, 0x00)]);
}

#[test]
fn is_playing_tests_bit_0() {
    let bus = Bus::new();
    let mut driver = Drv2605l::new(bus.clone());
    bus.set_reg(0x0C, 0x01);
    assert!(matches!(driver.is_playing(), Ok(true)));
    bus.set_reg(0x0C, 0x00);
    assert!(matches!(driver.is_playing(), Ok(false)));
    bus.set_reg(0x0C, 0xFE);
    assert!(matches!(driver.is_playing(), Ok(false)));
    bus.set_reg(0x0C, 0xFF);
    assert!(matches!(driver.is_playing(), Ok(true)));
    assert_eq!(bus.seen(), vec![read(0x0C), read(0x0C), read(0x0C), read(0x0C)]);
}

#[test]
fn is_playing_passes_the_bus_error_on() {
    let bus = Bus::new();
    bus.fail_at(0);
    let mut driver = Drv2605l::new(bus.clone());
    assert!(matches!(driver.is_playing(), Err(Error::I2c(7))));
}

#[test]
fn set_waveform_rejects_slot_8() {
    let bus = Bus::new();
    let mut driver = Drv2605l::new(bus.clone());
    assert!(matches!(driver.set_waveform(8, 1), Err(Error::InvalidParameter)));
    assert!(matches!(driver.set_waveform(255, 1), Err(Error::InvalidParameter)));
    assert!(bus.seen().is_empty());
    assert!(matches!(driver.set_waveform(7, 0x2A), Ok(())));
    assert_eq!(bus.seen(), vec![write(0x0B, 0x2A)]);
}

#[test]
fn set_waveform_rejects_every_slot_from_8() {
    let bus = Bus::new();
    let mut driver = Drv2605l::new(bus.clone());
    for slot in 8..=255u8 {
        assert!(matches!(driver.set_waveform(slot, 5), Err(Error::InvalidParameter)));
    }
    assert!(bus.seen().is_empty());
}

#[test]
fn set_waveform_writes_to_the_slot() {
    let bus = Bus::new();
    let mut driver = Drv2605l::new(bus.clone());
    for slot in 0..8u8 {
        assert!(matches!(driver.set_waveform(slot, 0x80 | slot), Ok(())));
    }
    let expected: Vec<Seen> = (0..8u8).map(|slot| write(0x04 + slot, 0x80 | slot)).collect();
    assert_eq!(bus.seen(), expected);
}

#[test]
fn clear_waveform_sequence_writes_eight_zeros() {
    let bus = Bus::new();
    for reg in 0x04..=0x0B {
        bus.set_reg(reg, 0x11);
    }
    let mut driver = Drv2605l::new(bus.clone());
    assert!(matches!(driver.clear_waveform_sequence(), Ok(())));
    assert_eq!(
        bus.seen(),
        vec![
            write(0x04, 0),
            write(0x05, 0),
            write(0x06, 0),
            write(0x07, 0),
            write(0x08, 0),
            write(0x09, 0),
            write(0x0A, 0),
            write(0x0B, 0),
        ]
    );
}

#[test]
fn clear_waveform_sequence_stops_where_the_bus_fails() {
    let bus = Bus::new();
    for reg in 0x04..=0x0B {
        bus.set_reg(reg, 0x11);
    }
    bus.fail_at(2);
    let mut driver = Drv2605l::new(bus.clone());
    assert!(matches!(driver.clear_waveform_sequence(), Err(Error::I2c(7))));
    assert_eq!(bus.seen(), vec![write(0x04, 0), write(0x05, 0), write(0x06, 0)]);
    assert_eq!(bus.reg(0x05), 0);
    assert_eq!(bus.reg(0x06), 0x11);
    assert_eq!(bus.reg(0x0B), 0x11);
}

#[test]
fn play_waveform_in_order() {
    let bus = Bus::new();
    bus.set_reg(0x01, 0x45);
    let mut driver = Drv2605l::new(bus.clone());
    assert!(matches!(driver.play_waveform(47), Ok(())));
    let mut expected = vec![read(0x01), write(0x01, 0x40)];
    expected.extend(clears());
    expected.extend(vec![write(0x04, 47), write(0x05, 0), write(0x0C, 1)]);
    assert_eq!(bus.seen(), expected);
}

#[test]
fn set_rtp_input_and_play_rtp() {
    let bus = Bus::new();
    bus.set_reg(0x01, 0x80);
    let mut driver = Drv2605l::new(bus.clone());
    assert!(matches!(driver.set_rtp_input(0x7F), Ok(())));
    assert!(matches!(driver.play_rtp(0x33), Ok(())));
    assert_eq!(
        bus.seen(),
        vec![write(0x02, 0x7F), read(0x01), write(0x01, 0x85), write(0x02, 0x33)]
    );
}

#[test]
fn set_rated_voltage_scales_and_rounds_down() {
    let bus = Bus::new();
    let mut driver = Drv2605l::new(bus.clone());
    assert!(matches!(driver.set_rated_voltage(5600), Ok(())));
    assert!(matches!(driver.set_rated_voltage(0), Ok(())));
    assert!(matches!(driver.set_rated_voltage(2800), Ok(())));
    assert!(matches!(driver.set_rated_voltage(22), Ok(())));
    assert_eq!(
        bus.seen(),
        vec![write(0x16, 255), write(0x16, 0), write(0x16, 127), write(0x16, 1)]
    );
}

#[test]
fn set_overdrive_voltage_scales_and_rounds_down() {
    let bus = Bus::new();
    let mut driver = Drv2605l::new(bus.clone());
    assert!(matches!(driver.set_overdrive_voltage(5600), Ok(())));
    assert!(matches!(driver.set_overdrive_voltage(0), Ok(())));
    assert!(matches!(driver.set_overdrive_voltage(2800), Ok(())));
    assert_eq!(bus.seen(), vec![write(0x17, 255), write(0x17, 0), write(0x17, 127)]);
}

#[test]
fn voltage_above_full_scale_keeps_the_low_byte() {
    let bus = Bus::new();
    let mut driver = Drv2605l::new(bus.clone());
    assert!(matches!(driver.set_rated_voltage(65535), Ok(())));
    assert!(matches!(driver.set_rated_voltage(5622), Ok(())));
    assert_eq!(bus.seen(), vec![write(0x16, 168), write(0x16, 0)]);
}

#[test]
fn get_device_id_takes_bits_5_to_7() {
    let bus = Bus::new();
    let mut driver = Drv2605l::new(bus.clone());
    bus.set_reg(0x00, 0xE0);
    assert!(matches!(driver.get_device_id(), Ok(7)));
    bus.set_reg(0x00, 0x7F);
    assert!(matches!(driver.get_device_id(), Ok(3)));
    bus.set_reg(0x00, 0x1F);
    assert!(matches!(driver.get_device_id(), Ok(0)));
    assert_eq!(bus.seen(), vec![read(0x00), read(0x00), read(0x00)]);
}

fn polls(seen: &[Seen]) -> usize {
    seen.iter().filter(|s| **s == read(0x0C)).count()
}

fn waits(seen: &[Seen]) -> usize {
    seen.iter().filter(|s| **s == Seen::Suspend(10)).count()
}

#[test]
fn auto_calibrate_gives_up_after_100_polls() {
    let bus = Bus::new();
    bus.set_reg(0x01, 0x40);
    let mut driver = Drv2605l::new(bus.clone());
    assert!(matches!(driver.auto_calibrate(), Err(Error::CalibrationFailed)));
    let seen = bus.seen();
    assert_eq!(seen[..3], [read(0x01), write(0x01, 0x47), write(0x0C, 1)]);
    assert_eq!(seen.len(), 203);
    assert_eq!(polls(&seen), 100);
    assert_eq!(waits(&seen), 100);
    for j in 0..100 {
        assert_eq!(seen[3 + 2 * j], read(0x0C));
        assert_eq!(seen[4 + 2 * j], Seen::Suspend(10));
    }
}

#[test]
fn auto_calibrate_succeeds_when_go_clears_after_3_polls() {
    let bus = Bus::new();
    bus.0.borrow_mut().go_clears_after = Some(3);
    let mut driver = Drv2605l::new(bus.clone());
    assert!(matches!(driver.auto_calibrate(), Ok(())));
    let seen = bus.seen();
    assert_eq!(
        seen,
        vec![
            read(0x01),
            write(0x01, 0x07),
            write(0x0C, 1),
            read(0x0C),
            Seen::Suspend(10),
            read(0x0C),
            Seen::Suspend(10),
            read(0x0C),
            Seen::Suspend(10),
            read(0x0C),
            read(0x00),
        ]
    );
}

#[test]
fn auto_calibrate_succeeds_when_the_chip_is_done_at_once() {
    let bus = Bus::new();
    bus.0.borrow_mut().go_clears_after = Some(0);
    let mut driver = Drv2605l::new(bus.clone());
    assert!(matches!(driver.auto_calibrate(), Ok(())));
    assert_eq!(
        bus.seen(),
        vec![read(0x01), write(0x01, 0x07), write(0x0C, 1), read(0x0C), read(0x00)]
    );
}

#[test]
fn auto_calibrate_succeeds_at_the_last_poll() {
    let bus = Bus::new();
    bus.0.borrow_mut().go_clears_after = Some(99);
    let mut driver = Drv2605l::new(bus.clone());
    assert!(matches!(driver.auto_calibrate(), Ok(())));
    let seen = bus.seen();
    assert_eq!(polls(&seen), 100);
    assert_eq!(waits(&seen), 99);
    assert_eq!(seen.len(), 3 + 199 + 1);
    assert_eq!(seen[seen.len() - 1], read(0x00));
}

#[test]
fn auto_calibrate_fails_when_the_chip_says_so() {
    let bus = Bus::new();
    bus.0.borrow_mut().go_clears_after = Some(1);
    bus.set_reg(0x00, 0xE8);
    let mut driver = Drv2605l::new(bus.clone());
    assert!(matches!(driver.auto_calibrate(), Err(Error::CalibrationFailed)));
    let seen = bus.seen();
    assert_eq!(polls(&seen), 2);
    assert_eq!(seen[seen.len() - 1], read(0x00));
}

#[test]
fn auto_calibrate_passes_the_bus_error_on() {
    let bus = Bus::new();
    bus.fail_at(4);
    let mut driver = Drv2605l::new(bus.clone());
    assert!(matches!(driver.auto_calibrate(), Err(Error::I2c(7))));
    assert_eq!(
        bus.seen(),
        vec![
            read(0x01),
            write(0x01, 0x07),
            write(0x0C, 1),
            read(0x0C),
            Seen::Suspend(10),
            read(0x0C),
        ]
    );
}

#[test]
fn play_heartbeat_builtin_fills_five_slots() {
    let bus = Bus::new();
    let mut driver = Drv2605l::new(bus.clone());
    assert!(matches!(driver.play_heartbeat_builtin(), Ok(())));
    let mut expected = vec![read(0x01), write(0x01, 0x00)];
    expected.extend(clears());
    expected.extend(vec![
        write(0x04, 1),
        write(0x05, 0x81),
        write(0x06, 2),
        write(0x07, 0xB4),
        write(0x08, 0),
        write(0x0C, 1),
    ]);
    assert_eq!(bus.seen(), expected);
}

#[test]
fn play_double_click_heartbeat_plays_effect_10() {
    let bus = Bus::new();
    let mut driver = Drv2605l::new(bus.clone());
    assert!(matches!(driver.play_double_click_heartbeat(), Ok(())));
    let mut expected = vec![read(0x01), write(0x01, 0x00)];
    expected.extend(clears());
    expected.extend(vec![write(0x04, 10), write(0x05, 0), write(0x0C, 1)]);
    assert_eq!(bus.seen(), expected);
}

#[test]
fn start_custom_heartbeat_sets_the_first_amplitude() {
    let bus = Bus::new();
    bus.set_reg(0x01, 0x07);
    let mut driver = Drv2605l::new(bus.clone());
    let pattern = HeartbeatPattern { bpm: 0, s1_amplitude: 0x60, s2_amplitude: 0x38 };
    assert!(matches!(driver.start_custom_heartbeat(&pattern), Ok(())));
    assert_eq!(bus.seen(), vec![read(0x01), write(0x01, 0x05), write(0x02, 0x60)]);
}

fn beat_70() -> Vec<Seen> {
    vec![
        write(0x02, 0x60),
        Seen::Suspend(50),
        write(0x02, 0x30),
        Seen::Suspend(30),
        write(0x02, 0),
        Seen::Suspend(262),
        write(0x02, 0x38),
        Seen::Suspend(40),
        write(0x02, 0),
        Seen::Suspend(475),
    ]
}

#[test]
fn play_custom_heartbeat_plays_whole_beats() {
    let bus = Bus::new();
    bus.set_reg(0x01, 0x40);
    let mut driver = Drv2605l::new(bus.clone());
    let pattern = HeartbeatPattern::default();
    assert!(matches!(driver.play_custom_heartbeat(&pattern, 2), Ok(())));
    let mut expected = vec![read(0x01), write(0x01, 0x45)];
    expected.extend(beat_70());
    expected.extend(beat_70());
    assert_eq!(bus.seen(), expected);
    assert_eq!(bus.reg(0x02), 0);
}

#[test]
fn play_custom_heartbeat_with_no_beats_changes_the_mode() {
    let bus = Bus::new();
    let mut driver = Drv2605l::new(bus.clone());
    let pattern = HeartbeatPattern::default();
    assert!(matches!(driver.play_custom_heartbeat(&pattern, 0), Ok(())));
    assert_eq!(bus.seen(), vec![read(0x01), write(0x01, 0x05)]);
}

#[test]
fn play_custom_heartbeat_refuses_a_rate_of_zero() {
    let bus = Bus::new();
    let mut driver = Drv2605l::new(bus.clone());
    let pattern = HeartbeatPattern { bpm: 0, s1_amplitude: 1, s2_amplitude: 1 };
    assert!(matches!(driver.play_custom_heartbeat(&pattern, 3), Err(Error::InvalidParameter)));
    assert!(bus.seen().is_empty());
}

#[test]
fn play_custom_heartbeat_stops_when_the_bus_fails() {
    let bus = Bus::new();
    bus.fail_at(5);
    let mut driver = Drv2605l::new(bus.clone());
    let pattern = HeartbeatPattern::default();
    assert!(matches!(driver.play_custom_heartbeat(&pattern, 4), Err(Error::I2c(7))));
    let seen = bus.seen();
    assert_eq!(seen.len(), 2 + 6 + 1);
    assert_eq!(seen[seen.len() - 1], write(0x02, 0x38));
}
