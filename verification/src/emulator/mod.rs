pub mod abstractions;
pub mod components;
pub mod cpus;
pub mod errors;

pub use errors::EmulatorError;
