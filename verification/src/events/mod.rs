pub mod events;

pub use events::{CpuStateChangeEvent, Event, MemCellChangeEvent, NextEvent};
