pub mod address_mode;
pub mod cpu;
pub mod instruction_laws;
pub mod laws;
pub mod mnemonic;
pub mod opcodes_def;
pub mod opcodes_impl;
pub mod operand;
pub mod operation;
pub mod operation_def;
pub mod processor_status;
pub mod registers;
pub mod table_laws;

pub use address_mode::AddressMode;
pub use cpu::MOS6502;
pub use mnemonic::Mnemonic;
pub use opcodes_def::{define_operations, OpFamily, OpsMap};
pub use operand::Operand;
pub use operation::Operation;
pub use operation_def::OperationDef;
pub use processor_status::ProcessorStatus;
pub use registers::Registers;
