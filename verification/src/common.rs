//! The types that every part of the driver shares.

use vstd::prelude::*;

verus! {

/// The chip's bus address (seven-bit addressing).
pub const DRV2605L_ADDR: u8 = 0x5A;

/// What went wrong in an operation.
#[derive(Debug)]
pub enum Error<E> {
    /// The bus reported a failure; the value is the bus's own, untouched.
    I2c(E),
    /// An argument was out of range; nothing was sent.
    InvalidParameter,
    /// Auto-calibration ran out of polls, or the chip reported that it failed.
    CalibrationFailed,
}

/// How the chip takes its drive signal; the code sits in bits 0-2 of the mode register.
#[derive(Debug, Clone, Copy, PartialEq, Eq, Structural)]
pub enum Mode {
    InternalTrigger,
    ExternalTriggerEdge,
    ExternalTriggerLevel,
    PwmOrAnalogInput,
    AudioToVibe,
    RealTimePlayback,
    Diagnostics,
    AutoCalibration,
}

impl Mode {
    /// The three-bit code of the mode.
    pub open spec fn code(self) -> u8 {
        match self {
            Mode::InternalTrigger => 0,
            Mode::ExternalTriggerEdge => 1,
            Mode::ExternalTriggerLevel => 2,
            Mode::PwmOrAnalogInput => 3,
            Mode::AudioToVibe => 4,
            Mode::RealTimePlayback => 5,
            Mode::Diagnostics => 6,
            Mode::AutoCalibration => 7,
        }
    }

    pub fn as_u8(self) -> (code: u8)
        ensures
            code == self.code(),
            code < 8,
    {
        match self {
            Mode::InternalTrigger => 0,
            Mode::ExternalTriggerEdge => 1,
            Mode::ExternalTriggerLevel => 2,
            Mode::PwmOrAnalogInput => 3,
            Mode::AudioToVibe => 4,
            Mode::RealTimePlayback => 5,
            Mode::Diagnostics => 6,
            Mode::AutoCalibration => 7,
        }
    }
}

/// The motor technology that the chip drives.
#[derive(Debug, Clone, Copy, PartialEq, Eq, Structural)]
pub enum MotorType {
    /// Eccentric rotating mass.
    ERM,
    /// Linear resonant actuator.
    LRA,
}

/// The waveform library that effect identifiers are looked up in.
#[derive(Debug, Clone, Copy, PartialEq, Eq, Structural)]
pub enum Library {
    Empty,
    LibraryA,
    LibraryB,
    LibraryC,
    LibraryD,
    LibraryE,
    LRA,
    LibraryF,
}

impl Library {
    /// The value of the library selection register that selects this library.
    pub open spec fn code(self) -> u8 {
        match self {
            Library::Empty => 0,
            Library::LibraryA => 1,
            Library::LibraryB => 2,
            Library::LibraryC => 3,
            Library::LibraryD => 4,
            Library::LibraryE => 5,
            Library::LRA => 6,
            Library::LibraryF => 7,
        }
    }

    pub fn as_u8(self) -> (code: u8)
        ensures
            code == self.code(),
    {
        match self {
            Library::Empty => 0,
            Library::LibraryA => 1,
            Library::LibraryB => 2,
            Library::LibraryC => 3,
            Library::LibraryD => 4,
            Library::LibraryE => 5,
            Library::LRA => 6,
            Library::LibraryF => 7,
        }
    }
}

/// Effects of the on-chip library, by name.
#[derive(Debug, Clone, Copy, PartialEq, Eq, Structural)]
pub enum Effect {
    StrongClick100,
    StrongClick60,
    StrongClick30,
    SharpClick100,
    SharpClick60,
    SharpClick30,
    SoftBump100,
    SoftBump60,
    SoftBump30,
    DoubleClick100,
    DoubleClick60,
    TripleClick100,
}

impl Effect {
    /// The effect's identifier in the library.
    pub open spec fn id(self) -> u8 {
        match self {
            Effect::StrongClick100 => 1,
            Effect::StrongClick60 => 2,
            Effect::StrongClick30 => 3,
            Effect::SharpClick100 => 4,
            Effect::SharpClick60 => 5,
            Effect::SharpClick30 => 6,
            Effect::SoftBump100 => 7,
            Effect::SoftBump60 => 8,
            Effect::SoftBump30 => 9,
            Effect::DoubleClick100 => 10,
            Effect::DoubleClick60 => 11,
            Effect::TripleClick100 => 12,
        }
    }

    pub fn as_u8(self) -> (id: u8)
        ensures
            id == self.id(),
            1 <= id <= 123,
    {
        match self {
            Effect::StrongClick100 => 1,
            Effect::StrongClick60 => 2,
            Effect::StrongClick30 => 3,
            Effect::SharpClick100 => 4,
            Effect::SharpClick60 => 5,
            Effect::SharpClick30 => 6,
            Effect::SoftBump100 => 7,
            Effect::SoftBump60 => 8,
            Effect::SoftBump30 => 9,
            Effect::DoubleClick100 => 10,
            Effect::DoubleClick60 => 11,
            Effect::TripleClick100 => 12,
        }
    }
}

} // verus!
