//! The heartbeat pattern and its timing.

use vstd::prelude::*;
use crate::blocking::Drv2605l;
use crate::common::Error;
use crate::operations::{
    play_custom_heartbeat_steps, play_double_click_heartbeat_steps, play_heartbeat_builtin_steps,
    start_custom_heartbeat_steps,
};
use crate::laws::{heartbeat, lemma_heartbeat_repeats};
use crate::sequencer::{After, Operation, TaskView};
use crate::trace::{lemma_finished_is_final, lemma_repeat_ends_in_failure, Exchange};
use crate::transport::Transport;

verus! {

/// A heartbeat to render: its rate and the strength of its two sounds.
#[derive(Debug, Clone, Copy)]
pub struct HeartbeatPattern {
    /// Beats per minute.
    pub bpm: u8,
    /// Amplitude of the first heart sound.
    pub s1_amplitude: u8,
    /// Amplitude of the second heart sound.
    pub s2_amplitude: u8,
}

/// The durations of one beat, in milliseconds.
#[derive(Debug, Clone, Copy)]
pub struct HeartbeatTiming {
    /// The whole beat.
    pub cycle_ms: u64,
    /// The active phase, in which both sounds fall.
    pub systole_ms: u64,
    /// The phase of rest that follows.
    pub diastole_ms: u64,
}

/// Time for which the first sound plays at its full amplitude.
pub const S1_ATTACK_MS: u64 = 50;

/// Time for which the first sound plays on at half its amplitude.
pub const S1_DECAY_MS: u64 = 30;

/// Time that the first sound takes within the systole, both parts together.
pub const S1_MS: u64 = 80;

/// Time that the second sound takes within the diastole.
pub const S2_MS: u64 = 40;

impl Default for HeartbeatPattern {
    fn default() -> (pattern: Self)
        ensures
            pattern.bpm == 70,
            pattern.s1_amplitude == 0x60,
            pattern.s2_amplitude == 0x38,
    {
        HeartbeatPattern { bpm: 70, s1_amplitude: 0x60, s2_amplitude: 0x38 }
    }
}

impl HeartbeatPattern {
    /// Length of one beat: a minute divided by the rate, rounded down.
    pub open spec fn cycle_ms(&self) -> int {
        60000int / (self.bpm as int)
    }

    /// Length of the systole: two fifths of the beat, rounded down.
    pub open spec fn systole_ms(&self) -> int {
        self.cycle_ms() * 2 / 5
    }

    /// Length of the diastole: what is left of the beat.
    pub open spec fn diastole_ms(&self) -> int {
        self.cycle_ms() - self.systole_ms()
    }

    /// Whether the pattern can be played: the rate is not zero, and each phase is longer than
    /// the sound that falls in it.
    pub open spec fn playable(&self) -> bool {
        &&& self.bpm > 0
        &&& self.systole_ms() > S1_MS
        &&& self.diastole_ms() > S2_MS
    }

    /// The durations of one beat, or `None` for a pattern that cannot be played.
    pub fn timing(&self) -> (timing: Option<HeartbeatTiming>)
        ensures
            timing is Some <==> self.playable(),
            timing matches Some(t) ==> {
                &&& t.cycle_ms == self.cycle_ms()
                &&& t.systole_ms == self.systole_ms()
                &&& t.diastole_ms == self.diastole_ms()
            },
    {
        if self.bpm == 0 {
            return None;
        }
        let cycle_ms: u64 = 60000 / (self.bpm as u64);
        let systole_ms: u64 = cycle_ms * 2 / 5;
        let diastole_ms: u64 = cycle_ms - systole_ms;
        if systole_ms <= S1_MS || diastole_ms <= S2_MS {
            return None;
        }
        Some(HeartbeatTiming { cycle_ms, systole_ms, diastole_ms })
    }
}

/// Every rate but zero gives a playable pattern: at 255 beats per minute, the fastest that
/// a pattern can hold, the systole still lasts 94 ms and the diastole 141 ms.
pub proof fn lemma_playable_unless_zero(pattern: HeartbeatPattern)
    ensures
        pattern.playable() <==> pattern.bpm > 0,
        pattern.bpm > 0 ==> pattern.systole_ms() >= 94 && pattern.diastole_ms() >= 141,
{
    if pattern.bpm > 0 {
        let bpm = pattern.bpm as int;
        assert(60000int / bpm >= 235) by (nonlinear_arith)
            requires
                0 < bpm <= 255,
        ;
    }
}

impl<I2C: Transport> Drv2605l<I2C> {
    /// Plays a heartbeat made of two clicks of the library: internal trigger mode, an
    /// empty sequence, five slots (a strong click, a short wait, a weaker click, a long
    /// wait, the terminator), GO. The chip plays the sequence by itself; the call returns
    /// once the sequence is started.
    pub fn play_heartbeat_builtin(&mut self) -> (result: Result<(), Error<I2C::Error>>)
        ensures
            final(self).motor() == old(self).motor(),
            final(self).did(*old(self), play_heartbeat_builtin_steps(), result),
    {
        self.carry_out(Operation::play_heartbeat_builtin())
    }

    /// Plays the double click of the library, as the plainest stand-in for a heartbeat.
    pub fn play_double_click_heartbeat(&mut self) -> (result: Result<(), Error<I2C::Error>>)
        ensures
            final(self).motor() == old(self).motor(),
            final(self).did(*old(self), play_double_click_heartbeat_steps(), result),
    {
        self.carry_out(Operation::play_double_click_heartbeat())
    }

    /// Switches to real-time playback at the amplitude of the pattern's first sound. What
    /// follows in time is the caller's.
    pub fn start_custom_heartbeat(&mut self, pattern: &HeartbeatPattern) -> (result: Result<
        (),
        Error<I2C::Error>,
    >)
        ensures
            final(self).motor() == old(self).motor(),
            final(self).did(*old(self), start_custom_heartbeat_steps(*pattern), result),
    {
        self.carry_out(Operation::start_custom_heartbeat(pattern))
    }

    /// Plays `beats` beats of the pattern in real-time playback: the change of mode, then
    /// for each beat its five amplitudes with the waits between them. Every beat ends in
    /// silence. A pattern that cannot be played is refused, and nothing is sent.
    pub fn play_custom_heartbeat(&mut self, pattern: &HeartbeatPattern, beats: u32) -> (result:
        Result<(), Error<I2C::Error>>)
        ensures
            final(self).motor() == old(self).motor(),
            old(self).exchanges().is_prefix_of(final(self).exchanges()),
            !pattern.playable() ==> final(self).exchanges() == old(self).exchanges() && result
                == Err::<(), Error<I2C::Error>>(Error::InvalidParameter),
            pattern.playable() ==> played(*pattern, beats, final(self).since(*old(self)), result),
    {
        let limit: u64 = 2 + 10 * (beats as u64);
        let left = self.execute_for(Operation::play_custom_heartbeat(pattern), limit);
        proof {
            let xs = self.since(*old(self));
            if pattern.playable() {
                lemma_heartbeat_repeats(*pattern, xs);
                lemma_repeat_ends_in_failure(
                    TaskView::fresh(
                        play_custom_heartbeat_steps(*pattern),
                        After::Repeat { from: 2 },
                    ),
                    xs,
                );
            } else {
                lemma_finished_is_final(
                    Err::<u8, Error<I2C::Error>>(Error::InvalidParameter),
                    xs,
                );
            }
        }
        match left {
            Operation::Pending(_) => Ok(()),
            Operation::Finished(outcome) => match outcome {
                Ok(_) => Ok(()),
                Err(e) => Err(e),
            },
        }
    }
}

/// The exchanges `xs` play `beats` beats of the pattern, with `result` as the result: they
/// are a heartbeat of the pattern, and either all of them succeeded and the beats are
/// through, or the last of them failed, and its error is the result.
pub open spec fn played<E>(
    pattern: HeartbeatPattern,
    beats: u32,
    xs: Seq<Exchange<E>>,
    result: Result<(), Error<E>>,
) -> bool {
    &&& heartbeat(pattern, xs)
    &&& 0 < xs.len() <= 2 + 10 * beats
    &&& match xs.last().reply {
        Ok(_) => xs.len() == 2 + 10 * beats && result is Ok,
        Err(e) => result == Err::<(), Error<E>>(Error::I2c(e)),
    }
}

} // verus!
