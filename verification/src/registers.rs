//! Register addresses of the DRV2605L.
//!
//! Every register is one byte wide and is addressed by one byte.

use vstd::prelude::*;

verus! {

/// Status: device identifier in bits 5-7, diagnostic result in bit 3.
pub const STATUS: u8 = 0x00;

/// Mode: mode code in bits 0-2, standby in bit 6, reset in bit 7.
pub const MODE: u8 = 0x01;

/// Real-time playback input: the amplitude that drives the motor directly.
pub const RTP_INPUT: u8 = 0x02;

/// Library selection.
pub const LIBRARY_SELECTION: u8 = 0x03;

/// First of the eight waveform sequencer slots; slot `n` is at this address plus `n`.
pub const WAVEFORM_SEQUENCER_1: u8 = 0x04;

pub const WAVEFORM_SEQUENCER_2: u8 = 0x05;

pub const WAVEFORM_SEQUENCER_3: u8 = 0x06;

pub const WAVEFORM_SEQUENCER_4: u8 = 0x07;

pub const WAVEFORM_SEQUENCER_5: u8 = 0x08;

pub const WAVEFORM_SEQUENCER_6: u8 = 0x09;

pub const WAVEFORM_SEQUENCER_7: u8 = 0x0A;

pub const WAVEFORM_SEQUENCER_8: u8 = 0x0B;

/// GO: bit 0 starts playback and stays set until the chip is done.
pub const GO: u8 = 0x0C;

pub const OVERDRIVE_TIME_OFFSET: u8 = 0x0D;

pub const SUSTAIN_TIME_OFFSET_POSITIVE: u8 = 0x0E;

pub const SUSTAIN_TIME_OFFSET_NEGATIVE: u8 = 0x0F;

pub const BRAKE_TIME_OFFSET: u8 = 0x10;

pub const AUDIO_TO_VIBE_CONTROL: u8 = 0x11;

pub const AUDIO_TO_VIBE_MIN_INPUT: u8 = 0x12;

pub const AUDIO_TO_VIBE_MAX_INPUT: u8 = 0x13;

pub const AUDIO_TO_VIBE_MIN_OUTPUT: u8 = 0x14;

pub const AUDIO_TO_VIBE_MAX_OUTPUT: u8 = 0x15;

pub const RATED_VOLTAGE: u8 = 0x16;

pub const OVERDRIVE_CLAMP_VOLTAGE: u8 = 0x17;

pub const AUTO_CALIBRATION_COMPENSATION_RESULT: u8 = 0x18;

pub const AUTO_CALIBRATION_BACK_EMF_RESULT: u8 = 0x19;

pub const FEEDBACK_CONTROL: u8 = 0x1A;

pub const CONTROL1: u8 = 0x1B;

pub const CONTROL2: u8 = 0x1C;

pub const CONTROL3: u8 = 0x1D;

pub const CONTROL4: u8 = 0x1E;

pub const CONTROL5: u8 = 0x1F;

pub const LRA_OPEN_LOOP_PERIOD: u8 = 0x20;

pub const VBAT_VOLTAGE_MONITOR: u8 = 0x21;

pub const LRA_RESONANCE_PERIOD: u8 = 0x22;

} // verus!
