use vstd::prelude::*;
use super::memory::{next_addr, MemView};
use super::{Addr, FromConfig, MOS6502Memory, MachineConfig, Memory};
use crate::mos6502::opcodes_def::is_instruction_table;
use crate::mos6502::opcodes_impl::{execute_operation, spec_execute, spec_execute_ok};
use crate::mos6502::processor_status::{spec_status_from_byte, spec_status_to_byte};
use crate::mos6502::{AddressMode, MOS6502, Operand, Operation, OperationDef, ProcessorStatus, Registers};

verus! {

broadcast use vstd::std_specs::hash::group_hash_axioms;

/// Whether a machine is stopped, running freely or paused in the debugger.
#[derive(Debug, PartialEq, Eq, Copy, Clone, Structural)]
pub enum MachineStatus {
    Stopped,
    Running,
    Debug,
}

/// Setters of the A, X, Y and stack pointer registers.
pub trait RegSetter<T> {
    fn set_A(&mut self, val: T);

    fn set_X(&mut self, val: T);

    fn set_Y(&mut self, val: T);

    fn set_SC(&mut self, val: T);
}

/// `x + 1` on a byte, wrapping from 255 to 0.
pub open spec fn inc8(x: u8) -> u8 {
    ((x + 1) % 256) as u8
}

/// `x - 1` on a byte, wrapping from 0 to 255.
pub open spec fn dec8(x: u8) -> u8 {
    ((x + 255) % 256) as u8
}

/// `addr + n`, wrapping past $ffff.
pub open spec fn next_addr_pc(addr: u16, n: int) -> u16 {
    next_addr(addr, n)
}

/// The bit 7 of a byte, its sign in two's complement.
pub open spec fn spec_neg(v: u8) -> bool {
    v >= 0x80
}

/// The state of a machine that instructions read and change.
pub struct MachineView {
    pub regs: Registers,
    pub mem: MemView,
    pub status: MachineStatus,
}

impl MachineView {
    pub open spec fn with_regs(self, regs: Registers) -> MachineView {
        MachineView { regs, ..self }
    }

    pub open spec fn with_status(self, status: MachineStatus) -> MachineView {
        MachineView { status, ..self }
    }

    pub open spec fn with_mem(self, mem: MemView) -> MachineView {
        MachineView { mem, ..self }
    }

    pub open spec fn read(self, addr: u16) -> u8 {
        self.mem.read(addr)
    }

    pub open spec fn write(self, addr: u16, val: u8) -> MachineView {
        MachineView { mem: self.mem.write(addr, val), ..self }
    }

    pub open spec fn set_a(self, v: u8) -> MachineView {
        self.with_regs(Registers { accumulator: v, ..self.regs })
    }

    pub open spec fn set_x(self, v: u8) -> MachineView {
        self.with_regs(Registers { x: v, ..self.regs })
    }

    pub open spec fn set_y(self, v: u8) -> MachineView {
        self.with_regs(Registers { y: v, ..self.regs })
    }

    pub open spec fn set_sp(self, v: u8) -> MachineView {
        self.with_regs(Registers { stack: v, ..self.regs })
    }

    pub open spec fn set_pc(self, v: u16) -> MachineView {
        self.with_regs(Registers { counter: v, ..self.regs })
    }

    pub open spec fn set_flags(self, p: ProcessorStatus) -> MachineView {
        self.with_regs(Registers { status: p, ..self.regs })
    }

    /// Sets N and Z from a value.
    pub open spec fn set_nz(self, v: u8) -> MachineView {
        self.set_flags(ProcessorStatus { negative: spec_neg(v), zero: v == 0, ..self.regs.status })
    }

    /// The address in page 1 that the stack pointer designates.
    pub open spec fn stack_addr(self) -> u16 {
        (0x100 + self.regs.stack) as u16
    }

    /// Writes a byte at the top of the stack and moves the stack pointer down.
    pub open spec fn push(self, v: u8) -> MachineView {
        self.write(self.stack_addr(), v).set_sp(dec8(self.regs.stack))
    }

    /// The state after a pop: the stack pointer moved up.
    pub open spec fn popped(self) -> MachineView {
        self.set_sp(inc8(self.regs.stack))
    }

    /// The byte that a pop returns.
    pub open spec fn pop_val(self) -> u8 {
        self.read((0x100 + inc8(self.regs.stack)) as u16)
    }

    /// Pushes the return address and the status, sets I and jumps through `vector`.
    pub open spec fn interrupt(self, vector: u16) -> MachineView {
        let pc = self.regs.counter;
        let s1 = self.push((pc / 256) as u8).push((pc % 256) as u8);
        let s2 = s1.push(spec_status_to_byte(s1.regs.status));
        let s3 = s2.set_flags(ProcessorStatus { interrupt_disable: true, ..s2.regs.status });
        s3.set_pc(s3.mem.read_word(vector))
    }

    /// A maskable interrupt: taken unless I is set.
    pub open spec fn irq(self) -> MachineView {
        if !self.regs.status.interrupt_disable {
            self.interrupt(0xfffe)
        } else {
            self
        }
    }
}

/// The operand that follows the opcode, and the state after fetching it.
pub open spec fn spec_decode_operand(def: OperationDef, s: MachineView) -> (
    Option<Operand>,
    MachineView,
) {
    let pc = s.regs.counter;
    if def.address_mode == AddressMode::Implicit || def.address_mode == AddressMode::Accumulator {
        (None, s)
    } else if def.address_mode == AddressMode::Immediate || def.address_mode
        == AddressMode::Relative || def.address_mode == AddressMode::ZeroPage || def.address_mode
        == AddressMode::ZeroPageX || def.address_mode == AddressMode::ZeroPageY
        || def.address_mode == AddressMode::IndirectX || def.address_mode
        == AddressMode::IndirectY {
        (Some(Operand::Byte(s.read(pc))), s.set_pc(next_addr(pc, 1)))
    } else {
        (Some(Operand::Word(s.mem.read_word(pc))), s.set_pc(next_addr(pc, 2)))
    }
}

/// The byte of a one-byte operand read as a signed offset.
pub open spec fn signed_offset(o: u8) -> int {
    if o < 128 {
        o as int
    } else {
        o - 256
    }
}

/// The effective address of an operand in each addressing mode.
pub open spec fn spec_decode_address(def: OperationDef, operand: Operand, s: MachineView) -> Option<
    u16,
> {
    let x = s.regs.x;
    let y = s.regs.y;
    match def.address_mode {
        AddressMode::Absolute => operand.get_word_spec(),
        AddressMode::AbsoluteX => Some((operand->Word_0 + x) as u16),
        AddressMode::AbsoluteY => Some((operand->Word_0 + y) as u16),
        AddressMode::ZeroPage => Some(operand->Byte_0 as u16),
        AddressMode::ZeroPageX => Some(((operand->Byte_0 + x) % 256) as u16),
        AddressMode::ZeroPageY => Some(((operand->Byte_0 + y) % 256) as u16),
        AddressMode::Indirect => {
            let a = operand->Word_0;
            let a2 = ((a / 256) * 256 + (a + 1) % 256) as u16;
            Some((s.read(a) + 256 * s.read(a2)) as u16)
        },
        AddressMode::IndirectX => {
            let o = operand->Byte_0;
            Some(
                (s.read(((o + x) % 256) as u16) + 256 * s.read(((o + x + 1) % 256) as u16)) as u16,
            )
        },
        AddressMode::IndirectY => {
            let o = operand->Byte_0;
            Some((s.read(o as u16) + 256 * s.read(((o + 1) % 256) as u16) + y) as u16)
        },
        AddressMode::Relative => Some(
            ((s.regs.counter + signed_offset(operand->Byte_0) + 0x10000) % 0x10000) as u16,
        ),
        _ => None,
    }
}

/// Decoding the address does not fail: the operand has the width that the
/// mode reads, and no address computation runs past $ffff.
pub open spec fn spec_decode_address_ok(def: OperationDef, operand: Operand, s: MachineView) -> bool {
    match def.address_mode {
        AddressMode::AbsoluteX => operand is Word && operand->Word_0 + s.regs.x <= 0xffff,
        AddressMode::AbsoluteY => operand is Word && operand->Word_0 + s.regs.y <= 0xffff,
        AddressMode::ZeroPage | AddressMode::ZeroPageX | AddressMode::ZeroPageY
        | AddressMode::IndirectX | AddressMode::Relative => operand is Byte,
        AddressMode::Indirect => operand is Word && operand->Word_0 < 0xffff,
        AddressMode::IndirectY => operand is Byte && s.read(operand->Byte_0 as u16) + 256 * s.read(
            ((operand->Byte_0 + 1) % 256) as u16,
        ) + s.regs.y <= 0xffff,
        _ => true,
    }
}

impl Operand {
    pub open spec fn get_word_spec(self) -> Option<u16> {
        match self {
            Operand::Byte(_) => None,
            Operand::Word(w) => Some(w),
        }
    }
}

/// The operation that the bytes at the program counter decode to, and the
/// state after fetching them.
pub open spec fn spec_fetch(ops: Map<u8, OperationDef>, s: MachineView) -> (Operation, MachineView) {
    let pc = s.regs.counter;
    let def = ops[s.read(pc)];
    let (operand, s2) = spec_decode_operand(def, s.set_pc(next_addr(pc, 1)));
    let address = match operand {
        None => None,
        Some(o) => spec_decode_address(def, o, s2),
    };
    (Operation { def, operand, address }, s2)
}

/// The instruction at the program counter can be fetched and executed.
pub open spec fn spec_next_ok(ops: Map<u8, OperationDef>, s: MachineView) -> bool {
    let pc = s.regs.counter;
    let opcode = s.read(pc);
    let (op, s2) = spec_fetch(ops, s);
    &&& ops.contains_key(opcode)
    &&& (op.operand matches Some(o) ==> spec_decode_address_ok(op.def, o, s2))
    &&& spec_execute_ok(&op, s2)
}

/// One step of the machine: fetch, decode and execute the instruction at the
/// program counter; the result is the new state and the cycles it took.
pub open spec fn spec_next(ops: Map<u8, OperationDef>, s: MachineView) -> (MachineView, u8) {
    let (op, s2) = spec_fetch(ops, s);
    spec_execute(&op, s2)
}

/// The generic 6502 machine: a processor, its memory and a configuration.
pub struct MOS6502Machine {
    pub config: MachineConfig,
    pub mos6502: MOS6502,
    pub mem: MOS6502Memory,
    pub status: MachineStatus,
}

impl View for MOS6502Machine {
    type V = MachineView;

    open spec fn view(&self) -> MachineView {
        MachineView { regs: self.mos6502.registers, mem: self.mem.mem_view(), status: self.status }
    }
}

impl MOS6502Machine {
    /// The opcode table and the configuration are as in `other`.
    pub open spec fn same_setup(&self, other: &MOS6502Machine) -> bool {
        self.config == other.config && self.mos6502.operations == other.mos6502.operations
    }

    /// A stopped machine at power-on, with zeroed RAM of the configured size and no ROM.
    pub fn new(config: MachineConfig) -> (r: Self)
        ensures
            r@.regs == Registers::spec_new(),
            r@.mem.ram == Seq::new(config.ram_size as nat, |i: int| 0u8),
            r@.mem.rom_mask == Seq::new(0x10000, |i: int| false),
            r@.mem.wf(),
            r@.status == MachineStatus::Stopped,
            r.config == config,
            is_instruction_table(r.mos6502.operations@),
    {
        let size = config.ram_size;
        MOS6502Machine {
            config: config,
            mos6502: MOS6502::new(),
            mem: MOS6502Memory::new(size),
            status: MachineStatus::Stopped,
        }
    }

    pub fn memory(&self) -> (r: &MOS6502Memory)
        ensures
            r == &self.mem,
    {
        &self.mem
    }

    pub fn cpu(&self) -> (r: &MOS6502)
        ensures
            r == &self.mos6502,
    {
        &self.mos6502
    }

    /// The memory, for changing it in place.
    pub fn memory_mut(&mut self) -> (r: &mut MOS6502Memory)
        ensures
            *r == old(self).mem,
            final(self).mem == *final(r),
            final(self).mos6502 == old(self).mos6502,
            final(self).config == old(self).config,
            final(self).status == old(self).status,
    {
        &mut self.mem
    }

    /// The processor, for changing it in place.
    pub fn cpu_mut(&mut self) -> (r: &mut MOS6502)
        ensures
            *r == old(self).mos6502,
            final(self).mos6502 == *final(r),
            final(self).mem == old(self).mem,
            final(self).config == old(self).config,
            final(self).status == old(self).status,
    {
        &mut self.mos6502
    }

    pub fn get_config(&self) -> (r: &MachineConfig)
        ensures
            r == &self.config,
    {
        &self.config
    }

    pub fn get_status(&self) -> (r: MachineStatus)
        ensures
            r == self@.status,
    {
        self.status
    }

    pub fn set_status(&mut self, status: MachineStatus)
        ensures
            final(self)@ == old(self)@.with_status(status),
            final(self).same_setup(old(self)),
    {
        self.status = status;
    }

    pub fn A8(&self) -> (r: u8)
        ensures
            r == self@.regs.accumulator,
    {
        self.mos6502.registers.accumulator
    }

    pub fn X8(&self) -> (r: u8)
        ensures
            r == self@.regs.x,
    {
        self.mos6502.registers.x
    }

    pub fn Y8(&self) -> (r: u8)
        ensures
            r == self@.regs.y,
    {
        self.mos6502.registers.y
    }

    pub fn A16(&self) -> (r: u16)
        ensures
            r == self@.regs.accumulator,
    {
        self.mos6502.registers.accumulator as u16
    }

    pub fn X16(&self) -> (r: u16)
        ensures
            r == self@.regs.x,
    {
        self.mos6502.registers.x as u16
    }

    pub fn Y16(&self) -> (r: u16)
        ensures
            r == self@.regs.y,
    {
        self.mos6502.registers.y as u16
    }

    /// The status register.
    pub fn P(&self) -> (r: ProcessorStatus)
        ensures
            r == self@.regs.status,
    {
        self.mos6502.registers.status
    }

    /// The program counter.
    pub fn PC(&self) -> (r: u16)
        ensures
            r == self@.regs.counter,
    {
        self.mos6502.registers.counter
    }

    /// The stack pointer.
    pub fn SC(&self) -> (r: u8)
        ensures
            r == self@.regs.stack,
    {
        self.mos6502.registers.stack
    }

    pub fn set_PC(&mut self, addr: u16)
        ensures
            final(self)@ == old(self)@.set_pc(addr),
            final(self).same_setup(old(self)),
    {
        self.mos6502.registers.counter = addr;
    }

    pub fn set_P(&mut self, p: ProcessorStatus)
        ensures
            final(self)@ == old(self)@.set_flags(p),
            final(self).same_setup(old(self)),
    {
        self.mos6502.registers.status = p;
    }

    pub fn get_byte(&self, addr: Addr) -> (r: u8)
        ensures
            r == self@.read(addr),
    {
        self.mem.read_byte(addr)
    }

    pub fn set_byte(&mut self, addr: Addr, val: u8)
        ensures
            final(self)@ == old(self)@.write(addr, val),
            final(self).same_setup(old(self)),
    {
        self.mem.write_byte(addr, val);
    }

    /// Sets up memory and the program counter from the reset vector and
    /// marks the machine running; it does not run any instruction.
    pub fn start(&mut self)
        ensures
            final(self)@ == ({
                let s = old(self)@.write(0x0000, 0x2f).write(0x0001, 0x37);
                s.set_pc(s.mem.read_word(0xfffc)).with_status(MachineStatus::Running)
            }),
            final(self).same_setup(old(self)),
    {
        // see https://www.pagetable.com/c64ref/c64mem/
        self.set_byte(0x0000, 0x2f);
        self.set_byte(0x0001, 0x37);
        // after start the program counter is taken from the reset vector ($fffc)
        let pc = self.mem.read_word(0xfffc);
        self.set_PC(pc);
        self.set_status(MachineStatus::Running);
    }

    pub fn stop(&mut self)
        ensures
            final(self)@ == old(self)@.with_status(MachineStatus::Stopped),
            final(self).same_setup(old(self)),
    {
        self.set_status(MachineStatus::Stopped);
    }

    pub fn debug(&mut self)
        ensures
            final(self)@ == old(self)@.with_status(MachineStatus::Debug),
            final(self).same_setup(old(self)),
    {
        self.set_status(MachineStatus::Debug);
    }

    pub fn resume(&mut self)
        ensures
            final(self)@ == old(self)@.with_status(MachineStatus::Running),
            final(self).same_setup(old(self)),
    {
        self.set_status(MachineStatus::Running);
    }

    pub fn execute_operation(&mut self, op: &Operation) -> (r: u8)
        requires
            spec_execute_ok(op, old(self)@),
        ensures
            (final(self)@, r) == spec_execute(op, old(self)@),
            final(self).same_setup(old(self)),
    {
        execute_operation(op, self)
    }

    /// Runs the instruction at the program counter; tells whether the
    /// machine is still not stopped afterwards.
    pub fn next(&mut self) -> (r: bool)
        requires
            spec_next_ok(old(self).mos6502.operations@, old(self)@),
        ensures
            final(self)@ == spec_next(old(self).mos6502.operations@, old(self)@).0,
            r == (final(self)@.status != MachineStatus::Stopped),
            final(self).same_setup(old(self)),
    {
        let ghost s0 = self@;
        let ghost ops = self.mos6502.operations@;
        let def = self.decode_op();
        let operand = self.decode_operand(&def);
        let address = match &operand {
            None => None,
            Some(o) => self.decode_address(&def, o),
        };
        let op = Operation::new(def.clone(), operand, address);
        assert(op == spec_fetch(ops, s0).0);
        self.execute_operation(&op);
        self.get_status() != MachineStatus::Stopped
    }

    pub fn get_byte_and_inc_pc(&mut self) -> (r: u8)
        ensures
            r == old(self)@.read(old(self)@.regs.counter),
            final(self)@ == old(self)@.set_pc(next_addr(old(self)@.regs.counter, 1)),
            final(self).same_setup(old(self)),
    {
        let val = self.get_byte(self.PC());
        self.inc_counter();
        val
    }

    pub fn get_word_and_inc_pc(&mut self) -> (r: u16)
        ensures
            r == old(self)@.mem.read_word(old(self)@.regs.counter),
            final(self)@ == old(self)@.set_pc(next_addr(old(self)@.regs.counter, 2)),
            final(self).same_setup(old(self)),
    {
        let val = self.mem.read_word(self.PC());
        self.inc_counter();
        self.inc_counter();
        val
    }

    pub fn inc_counter(&mut self)
        ensures
            final(self)@ == old(self)@.set_pc(next_addr(old(self)@.regs.counter, 1)),
            final(self).same_setup(old(self)),
    {
        self.set_PC(self.PC().wrapping_add(1));
    }

    /// Fetches the opcode at the program counter and looks it up.
    pub fn decode_op(&mut self) -> (r: OperationDef)
        requires
            old(self).mos6502.operations@.contains_key(old(self)@.read(old(self)@.regs.counter)),
        ensures
            r == old(self).mos6502.operations@[old(self)@.read(old(self)@.regs.counter)],
            final(self)@ == old(self)@.set_pc(next_addr(old(self)@.regs.counter, 1)),
            final(self).same_setup(old(self)),
    {
        let opcode = self.get_byte_and_inc_pc();
        match self.mos6502.operations.get(&opcode) {
            Some(op) => op.clone(),
            None => {
                assert(false);
                OperationDef::default()
            },
        }
    }

    /// Fetches the operand that the addressing mode of `op` takes.
    pub fn decode_operand(&mut self, op: &OperationDef) -> (r: Option<Operand>)
        ensures
            (r, final(self)@) == spec_decode_operand(*op, old(self)@),
            final(self).same_setup(old(self)),
    {
        match op.operand_len() {
            0 => None,
            1 => Some(Operand::Byte(self.get_byte_and_inc_pc())),
            _ => Some(Operand::Word(self.get_word_and_inc_pc())),
        }
    }

    /// The effective address that `operand` designates in the mode of `op`.
    pub fn decode_address(&self, op: &OperationDef, operand: &Operand) -> (r: Option<u16>)
        requires
            spec_decode_address_ok(*op, *operand, self@),
        ensures
            r == spec_decode_address(*op, *operand, self@),
    {
        match op.address_mode {
            AddressMode::Absolute => operand.get_word(),
            AddressMode::AbsoluteX => {
                let w = operand.get_word().unwrap();
                Some(w + self.X16())
            },
            AddressMode::AbsoluteY => {
                let w = operand.get_word().unwrap();
                Some(w + self.Y16())
            },
            AddressMode::ZeroPage => Some(operand.get_byte_as_u16().unwrap()),
            AddressMode::ZeroPageX => {
                let o = operand.get_byte().unwrap() as u16;
                Some((o + self.X16()) % 256)
            },
            AddressMode::ZeroPageY => {
                let o = operand.get_byte().unwrap() as u16;
                Some((o + self.Y16()) % 256)
            },
            AddressMode::Indirect => {
                let addr = operand.get_word().unwrap();
                // the pointer never crosses a page: its high byte is read from the same page
                let addr2 = (addr / 256) * 256 + (addr + 1) % 256;
                let lo = self.get_byte(addr) as u16;
                let hi = self.get_byte(addr2) as u16;
                Some(lo + 256 * hi)
            },
            AddressMode::IndirectX => {
                let o = operand.get_byte().unwrap() as u16;
                let x = self.X16();
                let lo = self.get_byte((o + x) % 256) as u16;
                let hi = self.get_byte((o + x + 1) % 256) as u16;
                Some(lo + 256 * hi)
            },
            AddressMode::IndirectY => {
                let o = operand.get_byte().unwrap() as u16;
                let lo = self.get_byte(o) as u16;
                let hi = self.get_byte((o + 1) % 256) as u16;
                Some(lo + 256 * hi + self.Y16())
            },
            AddressMode::Relative => {
                let o = operand.get_byte().unwrap();
                let pc = self.PC();
                if o < 128 {
                    Some(pc.wrapping_add(o as u16))
                } else {
                    Some(pc.wrapping_sub(256 - o as u16))
                }
            },
            _ => None,
        }
    }

    /// Pushes a byte onto the stack in page 1.
    pub fn push(&mut self, val: u8)
        ensures
            final(self)@ == old(self)@.push(val),
            final(self).same_setup(old(self)),
    {
        let sc = self.SC() as u16;
        self.set_byte(0x0100 + sc, val);
        self.mos6502.registers.stack = self.mos6502.registers.stack.wrapping_sub(1);
    }

    /// Pops a byte from the stack in page 1.
    pub fn pop(&mut self) -> (r: u8)
        ensures
            r == old(self)@.pop_val(),
            final(self)@ == old(self)@.popped(),
            final(self).same_setup(old(self)),
    {
        self.mos6502.registers.stack = self.mos6502.registers.stack.wrapping_add(1);
        let sc = self.SC() as u16;
        self.get_byte(0x0100 + sc)
    }

    /// Copies a program into memory from `addr` on.
    pub fn load(&mut self, progmem: &[u8], addr: u16)
        ensures
            final(self)@ == old(self)@.with_mem(old(self)@.mem.write_seq(addr, progmem@)),
            final(self).same_setup(old(self)),
    {
        self.mem.write(addr, progmem);
    }

    /// Sets the program counter and starts the machine.
    pub fn run(&mut self, addr: u16)
        ensures
            final(self)@ == ({
                let s = old(self)@.set_pc(addr).write(0x0000, 0x2f).write(0x0001, 0x37);
                s.set_pc(s.mem.read_word(0xfffc)).with_status(MachineStatus::Running)
            }),
            final(self).same_setup(old(self)),
    {
        self.mos6502.registers.counter = addr;
        self.start();
    }

    /// The address that the stack pointer designates.
    pub fn stack_addr(&self) -> (r: u16)
        ensures
            r == self@.stack_addr(),
    {
        0x0100 + self.SC() as u16
    }

    /// Pushes the program counter and the status, sets I and jumps through the vector at `addr`.
    pub fn handle_interrupt(&mut self, addr: u16)
        ensures
            final(self)@ == old(self)@.interrupt(addr),
            final(self).same_setup(old(self)),
    {
        let pc = self.PC();
        let msb = (pc / 256) as u8;
        let lsb = (pc % 256) as u8;
        self.push(msb);
        self.push(lsb);
        let p = self.P().to_byte();
        self.push(p);
        self.mos6502.registers.status.interrupt_disable = true;
        let target = self.mem.read_word(addr);
        self.set_PC(target);
    }

    /// A maskable interrupt through $fffe, ignored while I is set.
    pub fn irq(&mut self)
        ensures
            final(self)@ == old(self)@.irq(),
            final(self).same_setup(old(self)),
    {
        if !self.P().interrupt_disable {
            self.handle_interrupt(0xfffe);
        }
    }

    /// A non-maskable interrupt through $fffa.
    pub fn nmi(&mut self)
        ensures
            final(self)@ == old(self)@.interrupt(0xfffa),
            final(self).same_setup(old(self)),
    {
        self.handle_interrupt(0xfffa);
    }
}

impl RegSetter<u8> for MOS6502Machine {
    fn set_A(&mut self, val: u8)
        ensures
            final(self)@ == old(self)@.set_a(val),
            final(self).same_setup(old(self)),
    {
        self.mos6502.registers.accumulator = val;
    }

    fn set_X(&mut self, val: u8)
        ensures
            final(self)@ == old(self)@.set_x(val),
            final(self).same_setup(old(self)),
    {
        self.mos6502.registers.x = val;
    }

    fn set_Y(&mut self, val: u8)
        ensures
            final(self)@ == old(self)@.set_y(val),
            final(self).same_setup(old(self)),
    {
        self.mos6502.registers.y = val;
    }

    fn set_SC(&mut self, val: u8)
        ensures
            final(self)@ == old(self)@.set_sp(val),
            final(self).same_setup(old(self)),
    {
        self.mos6502.registers.stack = val;
    }
}

impl FromConfig for MOS6502Machine {
    fn from_config(config: MachineConfig) -> (r: Self)
        ensures
            r@.regs == Registers::spec_new(),
            r@.mem.ram == Seq::new(config.ram_size as nat, |i: int| 0u8),
            r@.mem.rom_mask == Seq::new(0x10000, |i: int| false),
            r@.mem.wf(),
            r@.status == MachineStatus::Stopped,
            r.config == config,
            is_instruction_table(r.mos6502.operations@),
    {
        MOS6502Machine::new(config)
    }
}

} // verus!
