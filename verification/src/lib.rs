#![allow(non_snake_case)]
#![allow(non_camel_case_types)]

pub mod utils;
pub mod text;
pub mod error;
pub mod emulator;
pub mod mos6502;
pub mod machine;
pub mod debugger;
pub mod events;
pub mod cli;
pub mod client;
