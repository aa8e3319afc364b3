//! Quadrature decoding for two-phase rotary encoders.
//!
//! A `RotaryEncoder` owns the two input pins (DT and CLK) of a mechanical
//! quadrature encoder and, when polled, classifies the transition between the
//! previously observed pin levels and the current ones as a clockwise step, an
//! anticlockwise step, or noise, keeping a running signed step count.

use vstd::prelude::*;

pub mod standard;

pub use standard::StandardMode;

verus! {

/// The rotation detected by the most recent update.
#[derive(Clone, Copy, Debug, PartialEq, Eq, Structural)]
pub enum Direction {
    /// No valid single step was observed.
    NoStep,
    /// One clockwise detent step.
    Clockwise,
    /// One anticlockwise detent step.
    Anticlockwise,
}

/// The two-bit detent code of one sample: `clk` is the high bit, `dt` the low bit.
pub open spec fn code(clk: bool, dt: bool) -> int {
    (if clk { 2int } else { 0int }) + (if dt { 1int } else { 0int })
}

/// The four transitions of the clockwise quadrature cycle, as (previous, current) codes.
pub open spec fn cw_step(prev: int, curr: int) -> bool {
    ||| (prev == 0 && curr == 1)
    ||| (prev == 1 && curr == 3)
    ||| (prev == 3 && curr == 2)
    ||| (prev == 2 && curr == 0)
}

/// The four transitions of the anticlockwise quadrature cycle, as (previous, current) codes.
pub open spec fn ccw_step(prev: int, curr: int) -> bool {
    ||| (prev == 0 && curr == 2)
    ||| (prev == 2 && curr == 3)
    ||| (prev == 3 && curr == 1)
    ||| (prev == 1 && curr == 0)
}

/// How a transition between two detent codes is classified.
pub open spec fn step_direction(prev: int, curr: int) -> Direction {
    if cw_step(prev, curr) {
        Direction::Clockwise
    } else if ccw_step(prev, curr) {
        Direction::Anticlockwise
    } else {
        Direction::NoStep
    }
}

/// What a transition between two detent codes adds to the running count.
pub open spec fn step_delta(prev: int, curr: int) -> int {
    if cw_step(prev, curr) {
        1
    } else if ccw_step(prev, curr) {
        -1
    } else {
        0
    }
}

/// The abstract state of a quadrature decoder: the detent code of the last
/// sample, the classification of the most recent update, and the running count.
pub struct DecoderView {
    /// The two-bit code of the previously observed (clk, dt) levels.
    pub prev_code: int,
    /// The direction computed by the most recent update.
    pub direction: Direction,
    /// The cumulative signed step count.
    pub count: int,
}

/// The state of a freshly constructed decoder: both lines remembered as low,
/// no step seen, count zero.
pub open spec fn fresh_decoder() -> DecoderView {
    DecoderView { prev_code: 0, direction: Direction::NoStep, count: 0 }
}

/// The decoder state after one update with the current levels `dt` and `clk`:
/// the transition from the remembered code to the new one is classified, the
/// count advances by its delta, and the new code is remembered.
pub open spec fn updated(v: DecoderView, dt: bool, clk: bool) -> DecoderView {
    DecoderView {
        prev_code: code(clk, dt),
        direction: step_direction(v.prev_code, code(clk, dt)),
        count: v.count + step_delta(v.prev_code, code(clk, dt)),
    }
}

/// Law: every (previous, current) detent-code pair is classified
/// unambiguously. The clockwise and anticlockwise tables are disjoint; an
/// update reports Clockwise exactly on the four clockwise pairs and then adds
/// one to the count, reports Anticlockwise exactly on the four anticlockwise
/// pairs and then subtracts one, and on every other pair — among them every
/// repeated code and every two-detent jump — reports NoStep and leaves the
/// count unchanged.
pub proof fn lemma_update_classification(v: DecoderView, dt: bool, clk: bool)
    ensures
        !(cw_step(v.prev_code, code(clk, dt)) && ccw_step(v.prev_code, code(clk, dt))),
        updated(v, dt, clk).direction == Direction::Clockwise <==> cw_step(
            v.prev_code,
            code(clk, dt),
        ),
        updated(v, dt, clk).direction == Direction::Anticlockwise <==> ccw_step(
            v.prev_code,
            code(clk, dt),
        ),
        updated(v, dt, clk).direction == Direction::Clockwise ==> updated(v, dt, clk).count
            == v.count + 1,
        updated(v, dt, clk).direction == Direction::Anticlockwise ==> updated(v, dt, clk).count
            == v.count - 1,
        updated(v, dt, clk).direction == Direction::NoStep ==> updated(v, dt, clk).count == v.count,
        v.prev_code == code(clk, dt) ==> updated(v, dt, clk).direction == Direction::NoStep,
        0 <= v.prev_code < 4 && code(clk, dt) == 3 - v.prev_code ==> updated(
            v,
            dt,
            clk,
        ).direction == Direction::NoStep,
{
}

/// Law: a repeated sample is a no-op. After an update with some pair of
/// levels, a second update with the same pair reports NoStep and leaves the
/// count unchanged.
pub proof fn lemma_repeated_sample_noop(v: DecoderView, dt: bool, clk: bool)
    ensures
        updated(updated(v, dt, clk), dt, clk).direction == Direction::NoStep,
        updated(updated(v, dt, clk), dt, clk).count == updated(v, dt, clk).count,
{
}

/// A rotary encoder: the two input pins together with the decoding mode that
/// interprets their levels.
pub struct RotaryEncoder<MODE, DT, CLK> {
    pin_dt: DT,
    pin_clk: CLK,
    mode: MODE,
}

/// The mode of a newly constructed `RotaryEncoder`, before a decoding mode is
/// selected.
pub struct InitializeMode;

impl<MODE, DT, CLK> RotaryEncoder<MODE, DT, CLK> {
    /// The current decoding mode.
    pub closed spec fn spec_mode(&self) -> MODE {
        self.mode
    }

    /// The DT input pin.
    pub closed spec fn spec_pin_dt(&self) -> DT {
        self.pin_dt
    }

    /// The CLK input pin.
    pub closed spec fn spec_pin_clk(&self) -> CLK {
        self.pin_clk
    }
}

impl<DT, CLK> RotaryEncoder<InitializeMode, DT, CLK> where
    DT: embedded_hal::digital::InputPin,
    CLK: embedded_hal::digital::InputPin,
 {
    /// Takes ownership of the two pins; a decoding mode is selected afterwards.
    pub fn new(pin_dt: DT, pin_clk: CLK) -> (encoder: Self)
        ensures
            encoder.spec_pin_dt() == pin_dt,
            encoder.spec_pin_clk() == pin_clk,
    {
        RotaryEncoder { pin_dt, pin_clk, mode: InitializeMode }
    }
}

/// Relies on `embedded_hal::digital::InputPin::is_high`: reads the
/// instantaneous logical level of the line; an unreadable pin is resolved to
/// low. The level depends on the hardware, so nothing is promised of it.
#[verifier::external_body]
fn read_pin_level<P: embedded_hal::digital::InputPin>(pin: &mut P) -> bool {
    pin.is_high().unwrap_or_default()
}

impl<DT, CLK> RotaryEncoder<StandardMode, DT, CLK> where
    DT: embedded_hal::digital::InputPin,
    CLK: embedded_hal::digital::InputPin,
 {
    /// Polls both pins and feeds their levels to the decoder: some pair of
    /// levels was read, and the decoder state advances by exactly one update
    /// with that pair.
    pub fn update(&mut self) -> (direction: Direction)
        requires
            i128::MIN < old(self).spec_mode()@.count < i128::MAX,
        ensures
            direction == final(self).spec_mode()@.direction,
            exists|dt: bool, clk: bool| #![auto]
                final(self).spec_mode()@ == updated(old(self).spec_mode()@, dt, clk),
    {
        let dt = read_pin_level(&mut self.pin_dt);
        let clk = read_pin_level(&mut self.pin_clk);
        self.mode.update(dt, clk)
    }

    /// The cumulative signed step count. Call after update and between
    /// iterations.
    pub fn count(&self) -> (count: i128)
        ensures
            count as int == self.spec_mode()@.count,
    {
        self.mode.count()
    }

    /// The direction computed by the most recent update.
    pub fn direction(&self) -> (direction: Direction)
        ensures
            direction == self.spec_mode()@.direction,
    {
        self.mode.direction()
    }
}

impl<MODE, DT, CLK> RotaryEncoder<MODE, DT, CLK> where
    DT: embedded_hal::digital::InputPin,
    CLK: embedded_hal::digital::InputPin,
 {
    /// Configures the encoder to use the standard decoding mode, keeping the
    /// pins and starting from a fresh decoder state.
    pub fn into_standard_mode(self) -> (encoder: RotaryEncoder<StandardMode, DT, CLK>)
        ensures
            encoder.spec_pin_dt() == self.spec_pin_dt(),
            encoder.spec_pin_clk() == self.spec_pin_clk(),
            encoder.spec_mode()@ == fresh_decoder(),
    {
        RotaryEncoder { pin_dt: self.pin_dt, pin_clk: self.pin_clk, mode: StandardMode::new() }
    }
}

} // verus!
