use bitbang::pin::{Dummy, HighPin, InputFn, Input, LowPin, Not, Output, OutputFn, PinState};
use std::cell::Cell;
use std::rc::Rc;

#[test]
fn level_predicates() {
    assert!(PinState::High.is_high());
    assert!(!PinState::High.is_low());
    assert!(PinState::Low.is_low());
    assert!(!PinState::Low.is_high());
}

#[test]
fn level_negation() {
    assert_eq!(PinState::High.not(), PinState::Low);
    assert_eq!(PinState::Low.not(), PinState::High);
    assert_eq!(PinState::Low.not().not(), PinState::Low);
}

#[test]
fn level_bits() {
    assert_eq!(PinState::High.bit(), 1);
    assert_eq!(PinState::Low.bit(), 0);
}

#[test]
fn level_from_byte() {
    assert_eq!(PinState::from(0u8), PinState::Low);
    assert_eq!(PinState::from(1u8), PinState::High);
    assert_eq!(PinState::from(0b1000_0000u8), PinState::High);
}

#[test]
fn level_from_bool() {
    assert_eq!(PinState::from(false), PinState::Low);
    assert_eq!(PinState::from(true), PinState::High);
}

#[test]
fn pin_state_as_output_stores_last_drive() {
    let mut p = PinState::Low;
    p.high();
    assert_eq!(p, PinState::High);
    p.low();
    assert_eq!(p, PinState::Low);
    p.write(PinState::High);
    assert_eq!(p, PinState::High);
}

#[test]
fn bool_as_output_stores_last_drive() {
    let mut p = false;
    p.high();
    assert!(p);
    p.write(PinState::Low);
    assert!(!p);
}

#[test]
fn inverted_output_swaps_drives() {
    let mut p = Not(PinState::Low);
    p.high();
    assert_eq!(p.0, PinState::Low);
    p.low();
    assert_eq!(p.0, PinState::High);
}

#[test]
fn inverted_input_negates_samples() {
    assert_eq!(Not(HighPin).read(), PinState::Low);
    assert_eq!(Not(LowPin).read(), PinState::High);
}

#[test]
fn double_inversion_acts_like_bare_pin() {
    let mut wrapped = Not(Not(PinState::Low));
    let mut bare = PinState::Low;
    wrapped.high();
    bare.high();
    assert_eq!(wrapped.0.0, bare);
    wrapped.write(PinState::Low);
    bare.write(PinState::Low);
    assert_eq!(wrapped.0.0, bare);
    assert_eq!(Not(Not(HighPin)).read(), HighPin.read());
    assert_eq!(Not(Not(LowPin)).read(), LowPin.read());
}

#[test]
fn dummy_and_constant_pins_are_inert() {
    let mut out = Dummy;
    let mut high = HighPin;
    let mut low = LowPin;
    let mut dummy_in = Dummy;
    for _ in 0..3 {
        out.high();
        assert_eq!(high.read(), PinState::High);
        assert_eq!(low.read(), PinState::Low);
        assert_eq!(dummy_in.read(), PinState::Low);
        out.low();
        assert_eq!(high.read(), PinState::High);
        assert_eq!(low.read(), PinState::Low);
        assert_eq!(dummy_in.read(), PinState::Low);
        out.write(PinState::High);
        assert_eq!(high.read(), PinState::High);
    }
}

#[test]
fn function_backed_output_forwards_levels() {
    let seen: Rc<Cell<PinState>> = Rc::new(Cell::new(PinState::Low));
    let sink = seen.clone();
    let mut out = OutputFn(move |level: PinState| sink.set(level));
    out.high();
    assert_eq!(seen.get(), PinState::High);
    out.low();
    assert_eq!(seen.get(), PinState::Low);
    out.write(PinState::High);
    assert_eq!(seen.get(), PinState::High);
}

#[test]
fn function_backed_input_samples_source() {
    let source: Rc<Cell<PinState>> = Rc::new(Cell::new(PinState::Low));
    let tap = source.clone();
    let mut pin = InputFn(move || tap.get());
    assert_eq!(pin.read(), PinState::Low);
    source.set(PinState::High);
    assert_eq!(pin.read(), PinState::High);
}
