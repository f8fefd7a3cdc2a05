use bitbang::pin::{Dummy, Not, PinState};
use bitbang::w1::{
    BitBanging, Command, DelayFn, Enumeration, Master, DELAY_LONG_US, DELAY_MID_US,
    DELAY_RESET_US, DELAY_SHORT_US,
};
use std::cell::RefCell;
use std::rc::Rc;

#[test]
fn reset_detects_presence_on_pulled_down_line() {
    // A Dummy line always samples Low, as a responding device would leave it.
    let delays: Rc<RefCell<Vec<u32>>> = Rc::new(RefCell::new(Vec::new()));
    let log = delays.clone();
    let mut master = BitBanging::new(Dummy, DelayFn(move |us: u32| log.borrow_mut().push(us)));
    assert!(master.reset());
    assert_eq!(*delays.borrow(), vec![DELAY_RESET_US, DELAY_MID_US]);
}

#[test]
fn reset_detects_absence_on_idle_line() {
    // An inverted Dummy line always samples High, as an idle pulled-up bus.
    let mut master = BitBanging::new(Not(Dummy), DelayFn(|_us: u32| {}));
    assert!(!master.reset());
}

#[test]
fn write_bit_durations_distinguish_the_bit() {
    let delays: Rc<RefCell<Vec<u32>>> = Rc::new(RefCell::new(Vec::new()));
    let log = delays.clone();
    let mut master = BitBanging::new(Dummy, DelayFn(move |us: u32| log.borrow_mut().push(us)));
    master.write_bit(PinState::High);
    master.write_bit(PinState::Low);
    let seen = delays.borrow();
    assert_eq!(*seen, vec![DELAY_LONG_US, DELAY_SHORT_US]);
    assert_ne!(seen[0], seen[1]);
}

#[test]
fn read_bit_returns_line_level_after_short_windows() {
    let delays: Rc<RefCell<Vec<u32>>> = Rc::new(RefCell::new(Vec::new()));
    let log = delays.clone();
    let mut master = BitBanging::new(Dummy, DelayFn(move |us: u32| log.borrow_mut().push(us)));
    assert_eq!(master.read_bit(), PinState::Low);
    assert_eq!(*delays.borrow(), vec![DELAY_SHORT_US, DELAY_MID_US]);

    let mut idle = BitBanging::new(Not(Dummy), DelayFn(|_us: u32| {}));
    assert_eq!(idle.read_bit(), PinState::High);
}

#[test]
fn timing_classes_are_distinct_constants() {
    assert_eq!(DELAY_SHORT_US, 10);
    assert_eq!(DELAY_MID_US, 30);
    assert_eq!(DELAY_LONG_US, 60);
    assert_eq!(DELAY_RESET_US, 500);
    assert_ne!(DELAY_SHORT_US, DELAY_LONG_US);
}

#[test]
fn search_command_code() {
    assert_eq!(Command::Search.code(), 0xF0);
}

#[test]
fn enumeration_holds_last_identifier() {
    let context = Enumeration { last_id: 0x2A };
    assert_eq!(context.last_id, 0x2A);
}
