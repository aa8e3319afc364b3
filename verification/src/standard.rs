//! The standard decoding mode: an exact single-sample transition table,
//! intended to be polled at roughly 900 Hz.

use vstd::prelude::*;

use crate::code;
use crate::fresh_decoder;
use crate::updated;
use crate::DecoderView;
use crate::Direction;

verus! {

/// The exact-transition quadrature decoder. It remembers the levels of both
/// lines from the previous update and classifies each (previous, current)
/// detent-code pair by the quadrature transition table.
#[derive(Clone, Debug, PartialEq, Eq, Structural)]
pub struct StandardMode {
    direction: Direction,
    count: i128,
    prev_clk: bool,
    prev_dt: bool,
}

impl View for StandardMode {
    type V = DecoderView;

    closed spec fn view(&self) -> DecoderView {
        DecoderView {
            prev_code: code(self.prev_clk, self.prev_dt),
            direction: self.direction,
            count: self.count as int,
        }
    }
}

impl StandardMode {
    /// Initialises the decoder: both lines remembered as low, no step seen,
    /// count zero.
    pub fn new() -> (mode: Self)
        ensures
            mode@ == fresh_decoder(),
    {
        StandardMode { direction: Direction::NoStep, count: 0, prev_clk: false, prev_dt: false }
    }

    /// Classifies the transition from the previously observed levels to the
    /// current ones, advances the count by one on a valid step, and remembers
    /// the current levels.
    pub fn update(&mut self, dt_value: bool, clk_value: bool) -> (direction: Direction)
        requires
            i128::MIN < old(self)@.count < i128::MAX,
        ensures
            final(self)@ == updated(old(self)@, dt_value, clk_value),
            direction == final(self)@.direction,
    {
        let prev_state: u8 = (if self.prev_clk { 2 } else { 0 }) + (if self.prev_dt {
            1
        } else {
            0
        });
        let curr_state: u8 = (if clk_value { 2 } else { 0 }) + (if dt_value { 1 } else { 0 });

        let direction = match (prev_state, curr_state) {
            (0b00, 0b01) | (0b01, 0b11) | (0b11, 0b10) | (0b10, 0b00) => {
                self.count = self.count + 1;
                Direction::Clockwise
            },
            (0b00, 0b10) | (0b10, 0b11) | (0b11, 0b01) | (0b01, 0b00) => {
                self.count = self.count - 1;
                Direction::Anticlockwise
            },
            _ => Direction::NoStep,
        };

        self.prev_clk = clk_value;
        self.prev_dt = dt_value;
        self.direction = direction;

        direction
    }

    /// The cumulative signed step count. Call after update and between
    /// iterations.
    pub fn count(&self) -> (count: i128)
        ensures
            count as int == self@.count,
    {
        self.count
    }

    /// The direction computed by the most recent update.
    pub fn direction(&self) -> (direction: Direction)
        ensures
            direction == self@.direction,
    {
        self.direction
    }
}

impl Default for StandardMode {
    /// Same as `StandardMode::new`.
    fn default() -> (mode: Self)
        ensures
            mode@ == fresh_decoder(),
    {
        Self::new()
    }
}

} // verus!
