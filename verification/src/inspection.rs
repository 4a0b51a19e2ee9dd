use vstd::prelude::*;

use crate::app::Penalty;

verus! {

/// Length of the preparation countdown, in whole seconds.
pub const INSPECTION_DURATION: u64 = 15;

/// The audible cue the countdown asks its host to play, if any.
#[derive(Clone, Copy, PartialEq, Eq, Structural, Debug)]
pub enum InspectionWarning {
    First,
    Second,
}

/// How a countdown overrun of `secs` whole seconds is penalized: under the
/// countdown duration there is no penalty, up to two seconds over costs a
/// plus-two, and anything later is a failed attempt.
pub open spec fn spec_classify_inspection(secs: int) -> Penalty {
    if secs < 15 {
        Penalty::Clean
    } else if secs < 17 {
        Penalty::PlusTwo
    } else {
        Penalty::Dnf
    }
}

/// The preparation countdown preceding an attempt. As with `Timer`, the
/// clock lives with the caller: every method takes a wall-clock sample in
/// milliseconds, so the countdown is a pure state machine over samples.
#[derive(Clone, Copy, Debug)]
pub struct Inspection {
    pub starting_time: Option<u64>,
    pub penalty: Penalty,
    pub played_sound: u8,
}

impl Inspection {
    pub fn new() -> (r: Self)
        ensures
            r == (Inspection {
                starting_time: None::<u64>,
                penalty: Penalty::Clean,
                played_sound: 0u8,
            }),
    {
        Inspection { starting_time: None, penalty: Penalty::Clean, played_sound: 0 }
    }

    /// Begin the countdown at the wall-clock sample `now_ms`.
    pub fn start(&mut self, now_ms: u64)
        ensures
            *final(self) == (Inspection {
                starting_time: Some(now_ms),
                penalty: old(self).penalty,
                played_sound: old(self).played_sound,
            }),
    {
        self.starting_time = Some(now_ms);
    }

    /// Stop the countdown at `now_ms` and classify the attempt's penalty
    /// from the elapsed whole seconds; a countdown that was not running, or
    /// a clock that went backwards, leaves the penalty as it was.
    pub fn stop(&mut self, now_ms: u64)
        ensures
            final(self).starting_time is None,
            final(self).penalty == match old(self).starting_time {
                Some(s) => if now_ms >= s {
                    spec_classify_inspection(((now_ms - s) / 1000) as int)
                } else {
                    old(self).penalty
                },
                None => old(self).penalty,
            },
            final(self).played_sound == old(self).played_sound,
    {
        if let Some(starting_time) = self.starting_time {
            if now_ms >= starting_time {
                let elapsed_secs = (now_ms - starting_time) / 1000;
                self.penalty = if elapsed_secs < 15 {
                    Penalty::Clean
                } else if elapsed_secs < 17 {
                    Penalty::PlusTwo
                } else {
                    Penalty::Dnf
                };
            }
        }
        self.starting_time = None;
    }

    /// Forget everything: the countdown is idle again with no penalty.
    pub fn reset(&mut self)
        ensures
            *final(self) == (Inspection {
                starting_time: None::<u64>,
                penalty: Penalty::Clean,
                played_sound: 0u8,
            }),
    {
        *self = Self::new();
    }

    /// The whole seconds the countdown has been running at sample `now_ms`,
    /// absent when it is idle or the clock went backwards.
    pub fn elapsed(&self, now_ms: u64) -> (r: Option<u64>)
        ensures
            r == match self.starting_time {
                Some(s) => if now_ms >= s {
                    Some(((now_ms - s) / 1000) as u64)
                } else {
                    None::<u64>
                },
                None => None::<u64>,
            },
    {
        match self.starting_time {
            Some(starting_time) => {
                if now_ms >= starting_time {
                    Some((now_ms - starting_time) / 1000)
                } else {
                    None
                }
            },
            None => None,
        }
    }

    /// Advance the countdown by one host tick at sample `now_ms`. Returns
    /// whether the countdown may keep running, and the warning cue the host
    /// should sound, if any. When the grace period has fully expired the
    /// countdown stops itself, which classifies the `Dnf` penalty, and the
    /// attempt must be completed as failed.
    pub fn tick(&mut self, warning: bool, now_ms: u64) -> (r: (bool, Option<InspectionWarning>))
        ensures
            ({
                let el = match old(self).starting_time {
                    Some(s) => if now_ms >= s {
                        Some((((now_ms - s) / 1000) as u64))
                    } else {
                        None::<u64>
                    },
                    None => None::<u64>,
                };
                match old(self).starting_time {
                    None => r == (true, None::<InspectionWarning>) && *final(self) == *old(self),
                    Some(s) => match el {
                        Some(e) if e < 15 => {
                            &&& r.0 == true
                            &&& final(self).starting_time == old(self).starting_time
                            &&& final(self).penalty == old(self).penalty
                            &&& if warning && e == 8 && old(self).played_sound == 0 {
                                r.1 == Some(InspectionWarning::First) && final(self).played_sound
                                    == 1
                            } else if warning && e == 12 && old(self).played_sound == 1 {
                                r.1 == Some(InspectionWarning::Second) && final(self).played_sound
                                    == 2
                            } else {
                                r.1 is None && final(self).played_sound == old(self).played_sound
                            }
                        },
                        Some(e) if e < 17 => r == (true, None::<InspectionWarning>) && *final(self)
                            == *old(self),
                        _ => {
                            &&& r == (false, None::<InspectionWarning>)
                            &&& final(self).starting_time is None
                            &&& final(self).played_sound == old(self).played_sound
                            &&& final(self).penalty == match el {
                                Some(e) => spec_classify_inspection(e as int),
                                None => old(self).penalty,
                            }
                        },
                    },
                }
            }),
    {
        if !self.is_running() {
            return (true, None);
        }
        if let Some(elapsed) = self.elapsed(now_ms) {
            if elapsed < 15 {
                if warning {
                    if elapsed == 8 && self.played_sound == 0 {
                        self.played_sound = 1;
                        return (true, Some(InspectionWarning::First));
                    } else if elapsed == 12 && self.played_sound == 1 {
                        self.played_sound = 2;
                        return (true, Some(InspectionWarning::Second));
                    }
                }
                return (true, None);
            } else if elapsed < 17 {
                return (true, None);
            }
        }
        self.stop(now_ms);
        (false, None)
    }

    pub fn is_running(&self) -> (r: bool)
        ensures
            r == (self.starting_time is Some),
    {
        matches!(self.starting_time, Some(_))
    }

    /// Whether the countdown overran so far that the pending attempt is
    /// already failed.
    pub fn has_expired(&self) -> (r: bool)
        ensures
            r == (self.penalty is Dnf),
    {
        matches!(self.penalty, Penalty::Dnf)
    }
}

} // verus!
