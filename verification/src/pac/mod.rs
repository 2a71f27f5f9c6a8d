//! Peripheral access layer: register maps of the QEMU virt devices, and the
//! values read from and written to their registers.
//!
//! A register's value is carried by a reader (`R`) or a writer (`W`) of its own
//! module; each field accessor extracts or replaces the field's bits exactly as
//! the hardware lays them out. A register block gives the address of each of its
//! registers relative to the block's base address.
use vstd::prelude::*;

pub mod espi0;
pub mod gpio;
pub mod i2c0;
pub mod i2c_target;
pub mod interrupt;
pub mod plic;
pub mod uart0;

verus! {

// ------------------------------------------------------------------------------------------
// Bit-level model of register values.
// ------------------------------------------------------------------------------------------

/// Bit `n` of a 32-bit register value.
pub open spec fn bit32(bits: u32, n: u32) -> bool {
    (bits >> n) & 1u32 == 1u32
}

/// `bits` with bit `n` replaced by `value`.
pub open spec fn with_bit32(bits: u32, n: u32, value: bool) -> u32 {
    if value {
        bits | (1u32 << n)
    } else {
        bits & !(1u32 << n)
    }
}

/// The field of a 32-bit register value that starts at bit `offset` and is selected by `mask`.
pub open spec fn field32(bits: u32, offset: u32, mask: u32) -> u32 {
    (bits >> offset) & mask
}

/// `bits` with the field at `offset` (selected by `mask`) replaced by `value & mask`.
pub open spec fn with_field32(bits: u32, offset: u32, mask: u32, value: u32) -> u32 {
    (bits & !(mask << offset)) | ((value & mask) << offset)
}

/// Bit `n` of an 8-bit register value.
pub open spec fn bit8(bits: u8, n: u8) -> bool {
    (bits >> n) & 1u8 == 1u8
}

/// `bits` with bit `n` replaced by `value`.
pub open spec fn with_bit8(bits: u8, n: u8, value: bool) -> u8 {
    if value {
        bits | (1u8 << n)
    } else {
        bits & !(1u8 << n)
    }
}

/// The field of an 8-bit register value that starts at bit `offset` and is selected by `mask`.
pub open spec fn field8(bits: u8, offset: u8, mask: u8) -> u8 {
    (bits >> offset) & mask
}

/// `bits` with the field at `offset` (selected by `mask`) replaced by `value & mask`.
pub open spec fn with_field8(bits: u8, offset: u8, mask: u8, value: u8) -> u8 {
    (bits & !(mask << offset)) | ((value & mask) << offset)
}

/// Reads bit `n` of a 32-bit register value.
pub fn get_bit32(bits: u32, n: u32) -> (b: bool)
    requires
        n < 32,
    ensures
        b == bit32(bits, n),
{
    (bits >> n) & 1u32 == 1u32
}

/// Replaces bit `n` of a 32-bit register value.
pub fn put_bit32(bits: u32, n: u32, value: bool) -> (r: u32)
    requires
        n < 32,
    ensures
        r == with_bit32(bits, n, value),
{
    if value {
        bits | (1u32 << n)
    } else {
        bits & !(1u32 << n)
    }
}

/// Replaces the field at `offset` (selected by `mask`) of a 32-bit register value.
pub fn put_field32(bits: u32, offset: u32, mask: u32, value: u32) -> (r: u32)
    requires
        offset < 32,
    ensures
        r == with_field32(bits, offset, mask, value),
{
    (bits & !(mask << offset)) | ((value & mask) << offset)
}

/// Reads bit `n` of an 8-bit register value.
pub fn get_bit8(bits: u8, n: u8) -> (b: bool)
    requires
        n < 8,
    ensures
        b == bit8(bits, n),
{
    (bits >> n) & 1u8 == 1u8
}

/// Replaces bit `n` of an 8-bit register value.
pub fn put_bit8(bits: u8, n: u8, value: bool) -> (r: u8)
    requires
        n < 8,
    ensures
        r == with_bit8(bits, n, value),
{
    if value {
        bits | (1u8 << n)
    } else {
        bits & !(1u8 << n)
    }
}

/// Replaces the field at `offset` (selected by `mask`) of an 8-bit register value.
pub fn put_field8(bits: u8, offset: u8, mask: u8, value: u8) -> (r: u8)
    requires
        offset < 8,
    ensures
        r == with_field8(bits, offset, mask, value),
{
    (bits & !(mask << offset)) | ((value & mask) << offset)
}

/// Writing a bit and reading it back gives the written value; every other bit keeps
/// the value it had.
pub proof fn lemma_bit32_write_read(bits: u32, n: u32, m: u32, value: bool)
    requires
        n < 32,
        m < 32,
    ensures
        bit32(with_bit32(bits, n, value), m) == if m == n { value } else { bit32(bits, m) },
{
    if value {
        assert(((bits | (1u32 << n)) >> m) & 1u32 == 1u32 <==> (m == n || (bits >> m) & 1u32
            == 1u32)) by (bit_vector)
            requires
                n < 32,
                m < 32,
        ;
    } else {
        assert(((bits & !(1u32 << n)) >> m) & 1u32 == 1u32 <==> (m != n && (bits >> m) & 1u32
            == 1u32)) by (bit_vector)
            requires
                n < 32,
                m < 32,
        ;
    }
}

/// Writing a bit and reading it back gives the written value; every other bit keeps
/// the value it had.
pub proof fn lemma_bit8_write_read(bits: u8, n: u8, m: u8, value: bool)
    requires
        n < 8,
        m < 8,
    ensures
        bit8(with_bit8(bits, n, value), m) == if m == n { value } else { bit8(bits, m) },
{
    if value {
        assert(((bits | (1u8 << n)) >> m) & 1u8 == 1u8 <==> (m == n || (bits >> m) & 1u8 == 1u8))
            by (bit_vector)
            requires
                n < 8,
                m < 8,
        ;
    } else {
        assert(((bits & !(1u8 << n)) >> m) & 1u8 == 1u8 <==> (m != n && (bits >> m) & 1u8 == 1u8))
            by (bit_vector)
            requires
                n < 8,
                m < 8,
        ;
    }
}

/// Writing a field of `width` bits (selected by `mask`) and reading it back gives the
/// written value cut to the field's width; every bit outside the field keeps the value
/// it had.
pub proof fn lemma_field32_write_read(
    bits: u32,
    offset: u32,
    width: u32,
    mask: u32,
    value: u32,
    m: u32,
)
    requires
        0 < width < 32,
        offset + width <= 32,
        mask == ((1u32 << width) - 1) as u32,
        m < 32,
    ensures
        field32(with_field32(bits, offset, mask, value), offset, mask) == value & mask,
        (m < offset || offset + width <= m) ==> bit32(with_field32(bits, offset, mask, value), m)
            == bit32(bits, m),
{
    assert((((bits & !(mask << offset)) | ((value & mask) << offset)) >> offset) & mask == value
        & mask) by (bit_vector)
        requires
            0 < width < 32,
            offset + width <= 32,
            mask == ((1u32 << width) - 1) as u32,
    ;
    assert((m < offset || offset + width <= m) ==> ((((bits & !(mask << offset)) | ((value & mask)
        << offset)) >> m) & 1u32 == 1u32 <==> (bits >> m) & 1u32 == 1u32)) by (bit_vector)
        requires
            0 < width < 32,
            offset + width <= 32,
            mask == ((1u32 << width) - 1) as u32,
            m < 32,
    ;
}

// ------------------------------------------------------------------------------------------
// Field readers and register handles.
// ------------------------------------------------------------------------------------------

/// Value of a single-bit field.
#[derive(Clone, Copy, Debug, PartialEq, Eq)]
pub struct BitReader {
    /// The bit.
    pub bit: bool,
}

impl BitReader {
    /// Wraps a field's bit.
    pub fn new(bit: bool) -> (r: BitReader)
        ensures
            r.bit == bit,
    {
        BitReader { bit }
    }

    /// The field's bit.
    pub fn bit(&self) -> (b: bool)
        ensures
            b == self.bit,
    {
        self.bit
    }

    /// Whether the field's bit is set.
    pub fn bit_is_set(&self) -> (b: bool)
        ensures
            b == self.bit,
    {
        self.bit
    }

    /// Whether the field's bit is clear.
    pub fn bit_is_clear(&self) -> (b: bool)
        ensures
            b == !self.bit,
    {
        !self.bit
    }
}

/// Value of a multi-bit field.
#[derive(Clone, Copy, Debug, PartialEq, Eq)]
pub struct FieldReader<FI> {
    /// The field's bits, shifted down to bit 0.
    pub bits: FI,
}

impl<FI: Copy> FieldReader<FI> {
    /// Wraps a field's bits.
    pub fn new(bits: FI) -> (r: FieldReader<FI>)
        ensures
            r.bits == bits,
    {
        FieldReader { bits }
    }

    /// The field's bits.
    pub fn bits(&self) -> (r: FI)
        ensures
            r == self.bits,
    {
        self.bits
    }
}

/// Location of one register of type `REG` in the address space.
#[verifier::reject_recursive_types(REG)]
pub struct Reg<REG> {
    /// Absolute address of the register.
    pub addr: usize,
    /// The register's type.
    pub spec: core::marker::PhantomData<REG>,
}

impl<REG> Reg<REG> {
    /// The register at `addr`.
    pub fn at(addr: usize) -> (r: Reg<REG>)
        ensures
            r.addr == addr,
    {
        Reg { addr, spec: core::marker::PhantomData }
    }

    /// Absolute address of the register.
    pub fn addr(&self) -> (a: usize)
        ensures
            a == self.addr,
    {
        self.addr
    }
}

} // verus!
