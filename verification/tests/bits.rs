use bitbang::bits::{decompose_lsb, decompose_msb, foreach_lsb, foreach_msb, lsb_to_byte, msb_to_byte};
use bitbang::pin::PinState;
use std::cell::RefCell;
use std::rc::Rc;

#[test]
fn msb_round_trip_all_bytes() {
    for b in 0..=255u8 {
        assert_eq!(msb_to_byte(decompose_msb(b)), b);
    }
}

#[test]
fn lsb_round_trip_all_bytes() {
    for b in 0..=255u8 {
        assert_eq!(lsb_to_byte(decompose_lsb(b)), b);
    }
}

#[test]
fn msb_reversed_is_lsb_all_bytes() {
    for b in 0..=255u8 {
        let mut msb = decompose_msb(b);
        msb.reverse();
        assert_eq!(msb, decompose_lsb(b));
    }
}

#[test]
fn decompose_msb_exact_levels() {
    let levels = decompose_msb(0b1010_0011);
    assert_eq!(
        levels,
        [
            PinState::High,
            PinState::Low,
            PinState::High,
            PinState::Low,
            PinState::Low,
            PinState::Low,
            PinState::High,
            PinState::High,
        ]
    );
}

#[test]
fn decompose_lsb_exact_levels() {
    let levels = decompose_lsb(0b1010_0011);
    assert_eq!(
        levels,
        [
            PinState::High,
            PinState::High,
            PinState::Low,
            PinState::Low,
            PinState::Low,
            PinState::High,
            PinState::Low,
            PinState::High,
        ]
    );
}

#[test]
fn msb_to_byte_exact_value() {
    let byte = msb_to_byte([
        PinState::High,
        PinState::Low,
        PinState::Low,
        PinState::High,
        PinState::Low,
        PinState::High,
        PinState::High,
        PinState::Low,
    ]);
    assert_eq!(byte, 0b1001_0110);
}

#[test]
fn lsb_to_byte_exact_value() {
    let byte = lsb_to_byte([
        PinState::High,
        PinState::Low,
        PinState::Low,
        PinState::High,
        PinState::Low,
        PinState::High,
        PinState::High,
        PinState::Low,
    ]);
    assert_eq!(byte, 0b0110_1001);
}

#[test]
fn foreach_msb_applies_in_significance_order() {
    let seen: Rc<RefCell<Vec<PinState>>> = Rc::new(RefCell::new(Vec::new()));
    let log = seen.clone();
    let echoed = foreach_msb(0b1000_0001, move |bit: PinState| {
        log.borrow_mut().push(bit);
        bit
    });
    assert_eq!(
        *seen.borrow(),
        vec![
            PinState::High,
            PinState::Low,
            PinState::Low,
            PinState::Low,
            PinState::Low,
            PinState::Low,
            PinState::Low,
            PinState::High,
        ]
    );
    assert_eq!(echoed.to_vec(), *seen.borrow());
}

#[test]
fn foreach_lsb_applies_in_significance_order() {
    let seen: Rc<RefCell<Vec<PinState>>> = Rc::new(RefCell::new(Vec::new()));
    let log = seen.clone();
    foreach_lsb(0b1100_0000, move |bit: PinState| {
        log.borrow_mut().push(bit);
        bit
    });
    assert_eq!(
        *seen.borrow(),
        vec![
            PinState::Low,
            PinState::Low,
            PinState::Low,
            PinState::Low,
            PinState::Low,
            PinState::Low,
            PinState::High,
            PinState::High,
        ]
    );
}
