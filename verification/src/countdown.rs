//! One named countdown: an absolute target instant and its display colors.

use vstd::prelude::*;

use crate::clock::{TIMESTAMP_MAX, TIMESTAMP_MIN};

verus! {

/// A named countdown towards `target_time` (in epoch seconds), drawn with
/// the given RGB background and foreground colors.
#[derive(Debug, Clone, PartialEq)]
pub struct Countdown {
    pub name: String,
    pub background_color: u32,
    pub foreground_color: u32,
    pub target_time: i64,
}

/// The mathematical content of a [`Countdown`].
#[verifier::ext_equal]
pub ghost struct CountdownModel {
    pub name: Seq<char>,
    pub background_color: u32,
    pub foreground_color: u32,
    pub target_time: i64,
}

impl View for Countdown {
    type V = CountdownModel;

    open spec fn view(&self) -> CountdownModel {
        CountdownModel {
            name: self.name@,
            background_color: self.background_color,
            foreground_color: self.foreground_color,
            target_time: self.target_time,
        }
    }
}

impl CountdownModel {
    /// Well-formed: a non-empty name, colors that fit six hexadecimal digits,
    /// and a target instant the datetime library can represent.
    pub open spec fn wf(self) -> bool {
        &&& self.name.len() > 0
        &&& self.background_color < 0x1000000
        &&& self.foreground_color < 0x1000000
        &&& TIMESTAMP_MIN <= self.target_time <= TIMESTAMP_MAX
    }
}

/// The difference `a - b` clamped to the `i64` range.
pub open spec fn saturating_difference(a: int, b: int) -> int {
    if a - b > i64::MAX {
        i64::MAX as int
    } else if a - b < i64::MIN {
        i64::MIN as int
    } else {
        a - b
    }
}

impl Countdown {
    /// Whole seconds from `now` until the target instant; negative once the
    /// target has passed. The difference saturates at the `i64` bounds
    /// instead of wrapping.
    pub fn remaining_seconds(&self, now: i64) -> (r: i64)
        ensures
            r == saturating_difference(self.target_time as int, now as int),
    {
        if now <= 0 {
            if self.target_time <= i64::MAX + now {
                self.target_time - now
            } else {
                i64::MAX
            }
        } else {
            if self.target_time >= i64::MIN + now {
                self.target_time - now
            } else {
                i64::MIN
            }
        }
    }
}

} // verus!
