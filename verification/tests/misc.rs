use machine::client::ClientError;
use machine::emulator::abstractions::{Tickable, Ticker};
use machine::events::{MemCellChangeEvent, NextEvent};
use machine::utils::{do_vecs_match, if_else};

#[test]
fn client_error_message() {
    let e = ClientError::new("Machine is already running");
    assert_eq!("Machine Client error: Machine is already running", e.message());
}

#[test]
fn ticker_counts() {
    let mut t = Ticker::new();
    assert_eq!(0, t.cycles());
    t.tick();
    t.tick_times(4);
    assert_eq!(5, t.cycles());
}

#[test]
fn utils_helpers() {
    assert_eq!(3, if_else(true, 3, 4));
    assert_eq!(4, if_else(false, 3, 4));
    assert!(do_vecs_match(&vec![1, 2, 3], &vec![1, 2, 3]));
    assert!(!do_vecs_match(&vec![1, 2, 3], &vec![1, 2]));
    assert!(!do_vecs_match(&vec![1, 2, 3], &vec![1, 5, 3]));
}


#[test]
fn event_values() {
    let e = MemCellChangeEvent { new_val: 1, old_val: 0, addr: 0x10 };
    assert_eq!(0x10, e.addr);
    let _n = NextEvent {};
}
