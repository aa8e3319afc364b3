use embedded_hal::digital::ErrorKind;
use embedded_hal::digital::ErrorType;
use embedded_hal::digital::InputPin;
use rotary_encoder_embedded::Direction;
use rotary_encoder_embedded::RotaryEncoder;

/// A pin that replays a scripted sequence of read outcomes; `None` is a read
/// failure.
struct ScriptPin {
    reads: Vec<Option<bool>>,
    next: usize,
}

impl ScriptPin {
    fn new(reads: Vec<Option<bool>>) -> Self {
        ScriptPin { reads, next: 0 }
    }
}

impl ErrorType for ScriptPin {
    type Error = ErrorKind;
}

impl InputPin for ScriptPin {
    fn is_high(&mut self) -> Result<bool, ErrorKind> {
        let read = self.reads[self.next];
        self.next += 1;
        read.ok_or(ErrorKind::Other)
    }

    fn is_low(&mut self) -> Result<bool, ErrorKind> {
        self.is_high().map(|level| !level)
    }
}

#[test]
fn encoder_decodes_a_full_cycle_from_its_pins() {
    // The clockwise detent sequence 00 -> 01 -> 11 -> 10 -> 00, one sample per update.
    let dt = ScriptPin::new(vec![Some(true), Some(true), Some(false), Some(false)]);
    let clk = ScriptPin::new(vec![Some(false), Some(true), Some(true), Some(false)]);
    let mut encoder = RotaryEncoder::new(dt, clk).into_standard_mode();
    for _ in 0..4 {
        assert_eq!(encoder.update(), Direction::Clockwise);
    }
    assert_eq!(encoder.count(), 4);
    assert_eq!(encoder.direction(), Direction::Clockwise);
}

#[test]
fn unreadable_pin_reads_as_low() {
    // DT reads high while CLK fails; the failure resolves to low, so the
    // sample is detent code 01 and the first step is clockwise.
    let dt = ScriptPin::new(vec![Some(true)]);
    let clk = ScriptPin::new(vec![None]);
    let mut encoder = RotaryEncoder::new(dt, clk).into_standard_mode();
    assert_eq!(encoder.update(), Direction::Clockwise);
    assert_eq!(encoder.count(), 1);
}

#[test]
fn encoder_starts_at_zero() {
    let dt = ScriptPin::new(Vec::new());
    let clk = ScriptPin::new(Vec::new());
    let encoder = RotaryEncoder::new(dt, clk).into_standard_mode();
    assert_eq!(encoder.count(), 0);
    assert_eq!(encoder.direction(), Direction::NoStep);
}
