use vstd::prelude::*;

verus! {

/// One runtime value of the abstract machine: a tagged union of the native
/// widths the instruction set manipulates. Values are never coerced
/// implicitly; a conversion opcode builds a new value of the target variant.
/// The two floating kinds carry their raw bit patterns, so that every
/// conversion stays exact integer arithmetic.
#[derive(Debug, PartialEq, Eq, Clone, Copy)]
pub enum NativeValue {
    Boolean(bool),
    Byte(i8),
    Char(u16),
    Short(i16),
    Integer(i32),
    /// A 32-bit float, as its raw bit pattern.
    Float(u32),
    Long(i64),
    /// A 64-bit float, as its raw bit pattern.
    Double(u64),
    Reference(usize),
    ReturnAddress(usize),
}

} // verus!
