pub mod breakpoint;
pub mod debugger;
pub mod debugger_state;
pub mod variable;

pub use breakpoint::Breakpoint;
pub use debugger::{DebugMachine, MachineObserver};
pub use debugger_state::DebuggerState;
pub use variable::Variable;
