use crate::number::Number;
use vstd::prelude::*;

verus! {

/// One candidate quote; a missing weight asks for the pool's average.
pub struct RawQuote {
    pub weight: Option<Number>,
    pub content: String,
}

/// The typing speed: mean and standard deviation of the milliseconds per character.
#[derive(Debug, Clone, Copy, PartialEq, Eq)]
pub struct Pace {
    pub mean: Number,
    pub stddev: Number,
}

pub struct Messages {
    pub interrupt: String,
}

pub struct Config {
    pub pace: Pace,
    pub messages: Messages,
    pub quotes: Vec<RawQuote>,
}

/// A partial configuration: every field that is present replaces the one it names.
pub struct ConfigPatch {
    pub pace: Option<PacePatch>,
    pub messages: Option<MessagesPatch>,
    pub quotes: Option<Vec<RawQuote>>,
}

pub struct PacePatch {
    pub mean: Option<Number>,
    pub stddev: Option<Number>,
}

pub struct MessagesPatch {
    pub interrupt: Option<String>,
}

/// The mean after `patch`.
pub open spec fn patched_mean(old: Number, patch: Option<PacePatch>) -> Number {
    match patch {
        Some(PacePatch { mean: Some(m), .. }) => m,
        _ => old,
    }
}

/// The standard deviation after `patch`.
pub open spec fn patched_stddev(old: Number, patch: Option<PacePatch>) -> Number {
    match patch {
        Some(PacePatch { stddev: Some(s), .. }) => s,
        _ => old,
    }
}

/// The interrupt message after `patch`.
pub open spec fn patched_interrupt(old: Seq<char>, patch: Option<MessagesPatch>) -> Seq<char> {
    match patch {
        Some(MessagesPatch { interrupt: Some(i) }) => i@,
        _ => old,
    }
}

impl Config {
    /// Overlays `patch` on this configuration, field by field.
    pub fn patch(&mut self, patch: ConfigPatch)
        ensures
            final(self).pace.mean == patched_mean(old(self).pace.mean, patch.pace),
            final(self).pace.stddev == patched_stddev(old(self).pace.stddev, patch.pace),
            final(self).messages.interrupt@ == patched_interrupt(
                old(self).messages.interrupt@,
                patch.messages,
            ),
            patch.quotes is None ==> final(self).quotes@ == old(self).quotes@,
            patch.quotes matches Some(q) ==> final(self).quotes@ == q@,
    {
        if let Some(pace) = patch.pace {
            if let Some(mean) = pace.mean {
                self.pace.mean = mean;
            }
            if let Some(stddev) = pace.stddev {
                self.pace.stddev = stddev;
            }
        }
        if let Some(messages) = patch.messages {
            if let Some(interrupt) = messages.interrupt {
                self.messages.interrupt = interrupt;
            }
        }
        if let Some(quotes) = patch.quotes {
            self.quotes = quotes;
        }
    }
}

} // verus!
