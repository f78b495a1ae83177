use machine::debugger::breakpoint::Breakpoint;
use machine::debugger::debugger_state::DebuggerState;

#[test]
fn test_add_breakpoint() {
    let mut state = DebuggerState::default();
    state.add_breakpoint(&Breakpoint::Address(0xff));
    assert_eq!(1, state.breakpoints.len());

    state.add_breakpoint(&Breakpoint::Address(0xaa));
    assert_eq!(2, state.breakpoints.len());

    state.add_breakpoint(&Breakpoint::Address(0xff));
    assert_eq!(2, state.breakpoints.len());
}

#[test]
fn test_remove_breakpoint() {
    let mut state = DebuggerState::default();
    state.add_breakpoint(&Breakpoint::Address(0xff));
    state.remove_breakpoint(&Breakpoint::Address(0xaa));
    assert_eq!(1, state.breakpoints.len());
}

#[test]
fn remove_present_breakpoint_keeps_others_in_order() {
    let mut state = DebuggerState::default();
    state.add_breakpoint(&Breakpoint::Address(0x10));
    state.add_breakpoint(&Breakpoint::Address(0x20));
    state.add_breakpoint(&Breakpoint::Address(0x30));
    state.remove_breakpoint(&Breakpoint::Address(0x20));
    assert_eq!(2, state.breakpoints.len());
    assert!(state.breakpoints[0] == Breakpoint::Address(0x10));
    assert!(state.breakpoints[1] == Breakpoint::Address(0x30));
}
