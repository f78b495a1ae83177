use vstd::prelude::*;

verus! {

/// The processor status register (P) of the 6502, one flag per field.
#[derive(Debug, Copy, Clone, PartialEq, Eq, Structural)]
pub struct ProcessorStatus {
    pub negative: bool,
    pub overflow: bool,
    pub break_command: bool,
    pub decimal_mode: bool,
    pub interrupt_disable: bool,
    pub zero: bool,
    pub carry: bool,
}

/// The flags that a status byte encodes: N V - B D I Z C from bit 7 down to bit 0.
pub open spec fn spec_status_from_byte(b: u8) -> ProcessorStatus {
    ProcessorStatus {
        negative: b & 0x80 != 0,
        overflow: b & 0x40 != 0,
        break_command: b & 0x10 != 0,
        decimal_mode: b & 0x08 != 0,
        interrupt_disable: b & 0x04 != 0,
        zero: b & 0x02 != 0,
        carry: b & 0x01 != 0,
    }
}

pub open spec fn bit_if(flag: bool, bit: u8) -> u8 {
    if flag {
        bit
    } else {
        0
    }
}

/// The status byte of a set of flags; the unused bit 5 always reads as 1.
pub open spec fn spec_status_to_byte(p: ProcessorStatus) -> u8 {
    (bit_if(p.negative, 0x80) + bit_if(p.overflow, 0x40) + 0x20 + bit_if(p.break_command, 0x10)
        + bit_if(p.decimal_mode, 0x08) + bit_if(p.interrupt_disable, 0x04) + bit_if(p.zero, 0x02)
        + bit_if(p.carry, 0x01)) as u8
}

impl ProcessorStatus {
    pub open spec fn spec_new() -> ProcessorStatus {
        ProcessorStatus {
            negative: false,
            overflow: false,
            break_command: false,
            decimal_mode: false,
            interrupt_disable: false,
            zero: false,
            carry: false,
        }
    }

    /// A status register with every flag cleared.
    pub fn new() -> (r: Self)
        ensures
            r == Self::spec_new(),
    {
        ProcessorStatus {
            negative: false,
            overflow: false,
            break_command: false,
            decimal_mode: false,
            interrupt_disable: false,
            zero: false,
            carry: false,
        }
    }

    /// Reads the flags from a status byte.
    pub fn from_byte(b: u8) -> (r: Self)
        ensures
            r == spec_status_from_byte(b),
    {
        ProcessorStatus {
            negative: b & 0x80 != 0,
            overflow: b & 0x40 != 0,
            break_command: b & 0x10 != 0,
            decimal_mode: b & 0x08 != 0,
            interrupt_disable: b & 0x04 != 0,
            zero: b & 0x02 != 0,
            carry: b & 0x01 != 0,
        }
    }

    /// Packs the flags into a status byte.
    pub fn to_byte(&self) -> (r: u8)
        ensures
            r == spec_status_to_byte(*self),
    {
        let mut r: u8 = 0x20;
        if self.negative {
            r = r + 0x80;
        }
        if self.overflow {
            r = r + 0x40;
        }
        if self.break_command {
            r = r + 0x10;
        }
        if self.decimal_mode {
            r = r + 0x08;
        }
        if self.interrupt_disable {
            r = r + 0x04;
        }
        if self.zero {
            r = r + 0x02;
        }
        if self.carry {
            r = r + 0x01;
        }
        r
    }
}

impl Default for ProcessorStatus {
    fn default() -> (r: Self)
        ensures
            r == Self::spec_new(),
    {
        Self::new()
    }
}

/// Reading back the byte of a set of flags gives the same flags.
pub proof fn lemma_status_round_trip(p: ProcessorStatus)
    ensures
        spec_status_from_byte(spec_status_to_byte(p)) == p,
{
    let b = spec_status_to_byte(p);
    let (n, v, bk, d, i, z, c) = (
        p.negative,
        p.overflow,
        p.break_command,
        p.decimal_mode,
        p.interrupt_disable,
        p.zero,
        p.carry,
    );
    assert({
        let x: u8 = ((if n { 0x80u8 } else { 0u8 }) + (if v { 0x40u8 } else { 0u8 }) + 0x20u8 + (
        if bk { 0x10u8 } else { 0u8 }) + (if d { 0x08u8 } else { 0u8 }) + (if i { 0x04u8 } else {
            0u8
        }) + (if z { 0x02u8 } else { 0u8 }) + (if c { 0x01u8 } else { 0u8 })) as u8;
        &&& (x & 0x80 != 0) == n
        &&& (x & 0x40 != 0) == v
        &&& (x & 0x10 != 0) == bk
        &&& (x & 0x08 != 0) == d
        &&& (x & 0x04 != 0) == i
        &&& (x & 0x02 != 0) == z
        &&& (x & 0x01 != 0) == c
    }) by (bit_vector);
}

/// Packing the flags read from a byte gives the byte back with bit 5 set.
pub proof fn lemma_byte_round_trip(b: u8)
    ensures
        spec_status_to_byte(spec_status_from_byte(b)) == b | 0x20,
{
    assert(((if b & 0x80 != 0 { 0x80u8 } else { 0u8 }) + (if b & 0x40 != 0 { 0x40u8 } else { 0u8 })
        + 0x20u8 + (if b & 0x10 != 0 { 0x10u8 } else { 0u8 }) + (if b & 0x08 != 0 { 0x08u8 } else {
        0u8
    }) + (if b & 0x04 != 0 { 0x04u8 } else { 0u8 }) + (if b & 0x02 != 0 { 0x02u8 } else { 0u8 }) + (
    if b & 0x01 != 0 { 0x01u8 } else { 0u8 })) as u8 == b | 0x20) by (bit_vector);
}

} // verus!
