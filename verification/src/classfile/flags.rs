use vstd::prelude::*;

verus! {

/// A fixed-width bitset of access flags; bits outside the known set are
/// dropped when a value is read from the wire.
#[derive(Debug, PartialEq, Eq, Clone, Copy)]
pub struct ClassAccessFlags {
    pub bits: u16,
}

impl ClassAccessFlags {
    /// The value that keeping only the known bits of `bits` yields.
    pub open spec fn sp_from_bits(bits: u16) -> Self {
        ClassAccessFlags { bits: bits & 0xf631 }
    }

    /// Keeps only the bits this record kind defines.
    pub fn from_bits_truncate(bits: u16) -> (r: Self)
        ensures
            r == Self::sp_from_bits(bits),
    {
        ClassAccessFlags { bits: bits & 0xf631 }
    }

    pub fn bits(&self) -> (r: u16)
        ensures
            r == self.bits,
    {
        self.bits
    }

    pub fn is_public(&self) -> (r: bool)
        ensures
            r == (self.bits & 0x1 != 0),
    {
        self.bits & 0x1 != 0
    }

    pub fn is_final_flag(&self) -> (r: bool)
        ensures
            r == (self.bits & 0x10 != 0),
    {
        self.bits & 0x10 != 0
    }

    pub fn is_super_flag(&self) -> (r: bool)
        ensures
            r == (self.bits & 0x20 != 0),
    {
        self.bits & 0x20 != 0
    }

    pub fn is_interface(&self) -> (r: bool)
        ensures
            r == (self.bits & 0x200 != 0),
    {
        self.bits & 0x200 != 0
    }

    pub fn is_abstract_flag(&self) -> (r: bool)
        ensures
            r == (self.bits & 0x400 != 0),
    {
        self.bits & 0x400 != 0
    }

    pub fn is_synthetic(&self) -> (r: bool)
        ensures
            r == (self.bits & 0x1000 != 0),
    {
        self.bits & 0x1000 != 0
    }

    pub fn is_annotation(&self) -> (r: bool)
        ensures
            r == (self.bits & 0x2000 != 0),
    {
        self.bits & 0x2000 != 0
    }

    pub fn is_enum_flag(&self) -> (r: bool)
        ensures
            r == (self.bits & 0x4000 != 0),
    {
        self.bits & 0x4000 != 0
    }

    pub fn is_module(&self) -> (r: bool)
        ensures
            r == (self.bits & 0x8000 != 0),
    {
        self.bits & 0x8000 != 0
    }

}

/// A fixed-width bitset of access flags; bits outside the known set are
/// dropped when a value is read from the wire.
#[derive(Debug, PartialEq, Eq, Clone, Copy)]
pub struct FieldAccessFlags {
    pub bits: u16,
}

impl FieldAccessFlags {
    /// The value that keeping only the known bits of `bits` yields.
    pub open spec fn sp_from_bits(bits: u16) -> Self {
        FieldAccessFlags { bits: bits & 0x50df }
    }

    /// Keeps only the bits this record kind defines.
    pub fn from_bits_truncate(bits: u16) -> (r: Self)
        ensures
            r == Self::sp_from_bits(bits),
    {
        FieldAccessFlags { bits: bits & 0x50df }
    }

    pub fn bits(&self) -> (r: u16)
        ensures
            r == self.bits,
    {
        self.bits
    }

    pub fn is_public(&self) -> (r: bool)
        ensures
            r == (self.bits & 0x1 != 0),
    {
        self.bits & 0x1 != 0
    }

    pub fn is_private(&self) -> (r: bool)
        ensures
            r == (self.bits & 0x2 != 0),
    {
        self.bits & 0x2 != 0
    }

    pub fn is_protected(&self) -> (r: bool)
        ensures
            r == (self.bits & 0x4 != 0),
    {
        self.bits & 0x4 != 0
    }

    pub fn is_static_flag(&self) -> (r: bool)
        ensures
            r == (self.bits & 0x8 != 0),
    {
        self.bits & 0x8 != 0
    }

    pub fn is_final_flag(&self) -> (r: bool)
        ensures
            r == (self.bits & 0x10 != 0),
    {
        self.bits & 0x10 != 0
    }

    pub fn is_volatile(&self) -> (r: bool)
        ensures
            r == (self.bits & 0x40 != 0),
    {
        self.bits & 0x40 != 0
    }

    pub fn is_transient(&self) -> (r: bool)
        ensures
            r == (self.bits & 0x80 != 0),
    {
        self.bits & 0x80 != 0
    }

    pub fn is_synthetic(&self) -> (r: bool)
        ensures
            r == (self.bits & 0x1000 != 0),
    {
        self.bits & 0x1000 != 0
    }

    pub fn is_enum_flag(&self) -> (r: bool)
        ensures
            r == (self.bits & 0x4000 != 0),
    {
        self.bits & 0x4000 != 0
    }

}

/// A fixed-width bitset of access flags; bits outside the known set are
/// dropped when a value is read from the wire.
#[derive(Debug, PartialEq, Eq, Clone, Copy)]
pub struct MethodAccessFlags {
    pub bits: u16,
}

impl MethodAccessFlags {
    /// The value that keeping only the known bits of `bits` yields.
    pub open spec fn sp_from_bits(bits: u16) -> Self {
        MethodAccessFlags { bits: bits & 0x1dff }
    }

    /// Keeps only the bits this record kind defines.
    pub fn from_bits_truncate(bits: u16) -> (r: Self)
        ensures
            r == Self::sp_from_bits(bits),
    {
        MethodAccessFlags { bits: bits & 0x1dff }
    }

    pub fn bits(&self) -> (r: u16)
        ensures
            r == self.bits,
    {
        self.bits
    }

    pub fn is_public(&self) -> (r: bool)
        ensures
            r == (self.bits & 0x1 != 0),
    {
        self.bits & 0x1 != 0
    }

    pub fn is_private(&self) -> (r: bool)
        ensures
            r == (self.bits & 0x2 != 0),
    {
        self.bits & 0x2 != 0
    }

    pub fn is_protected(&self) -> (r: bool)
        ensures
            r == (self.bits & 0x4 != 0),
    {
        self.bits & 0x4 != 0
    }

    pub fn is_static_flag(&self) -> (r: bool)
        ensures
            r == (self.bits & 0x8 != 0),
    {
        self.bits & 0x8 != 0
    }

    pub fn is_final_flag(&self) -> (r: bool)
        ensures
            r == (self.bits & 0x10 != 0),
    {
        self.bits & 0x10 != 0
    }

    pub fn is_synchronized(&self) -> (r: bool)
        ensures
            r == (self.bits & 0x20 != 0),
    {
        self.bits & 0x20 != 0
    }

    pub fn is_bridge(&self) -> (r: bool)
        ensures
            r == (self.bits & 0x40 != 0),
    {
        self.bits & 0x40 != 0
    }

    pub fn is_varargs(&self) -> (r: bool)
        ensures
            r == (self.bits & 0x80 != 0),
    {
        self.bits & 0x80 != 0
    }

    pub fn is_native(&self) -> (r: bool)
        ensures
            r == (self.bits & 0x100 != 0),
    {
        self.bits & 0x100 != 0
    }

    pub fn is_abstract_flag(&self) -> (r: bool)
        ensures
            r == (self.bits & 0x400 != 0),
    {
        self.bits & 0x400 != 0
    }

    pub fn is_strict(&self) -> (r: bool)
        ensures
            r == (self.bits & 0x800 != 0),
    {
        self.bits & 0x800 != 0
    }

    pub fn is_synthetic(&self) -> (r: bool)
        ensures
            r == (self.bits & 0x1000 != 0),
    {
        self.bits & 0x1000 != 0
    }

}

/// A fixed-width bitset of access flags; bits outside the known set are
/// dropped when a value is read from the wire.
#[derive(Debug, PartialEq, Eq, Clone, Copy)]
pub struct InnerClassAccessFlags {
    pub bits: u16,
}

impl InnerClassAccessFlags {
    /// The value that keeping only the known bits of `bits` yields.
    pub open spec fn sp_from_bits(bits: u16) -> Self {
        InnerClassAccessFlags { bits: bits & 0x761f }
    }

    /// Keeps only the bits this record kind defines.
    pub fn from_bits_truncate(bits: u16) -> (r: Self)
        ensures
            r == Self::sp_from_bits(bits),
    {
        InnerClassAccessFlags { bits: bits & 0x761f }
    }

    pub fn bits(&self) -> (r: u16)
        ensures
            r == self.bits,
    {
        self.bits
    }

    pub fn is_public(&self) -> (r: bool)
        ensures
            r == (self.bits & 0x1 != 0),
    {
        self.bits & 0x1 != 0
    }

    pub fn is_private(&self) -> (r: bool)
        ensures
            r == (self.bits & 0x2 != 0),
    {
        self.bits & 0x2 != 0
    }

    pub fn is_protected(&self) -> (r: bool)
        ensures
            r == (self.bits & 0x4 != 0),
    {
        self.bits & 0x4 != 0
    }

    pub fn is_static_flag(&self) -> (r: bool)
        ensures
            r == (self.bits & 0x8 != 0),
    {
        self.bits & 0x8 != 0
    }

    pub fn is_final_flag(&self) -> (r: bool)
        ensures
            r == (self.bits & 0x10 != 0),
    {
        self.bits & 0x10 != 0
    }

    pub fn is_interface(&self) -> (r: bool)
        ensures
            r == (self.bits & 0x200 != 0),
    {
        self.bits & 0x200 != 0
    }

    pub fn is_abstract_flag(&self) -> (r: bool)
        ensures
            r == (self.bits & 0x400 != 0),
    {
        self.bits & 0x400 != 0
    }

    pub fn is_synthetic(&self) -> (r: bool)
        ensures
            r == (self.bits & 0x1000 != 0),
    {
        self.bits & 0x1000 != 0
    }

    pub fn is_annotation(&self) -> (r: bool)
        ensures
            r == (self.bits & 0x2000 != 0),
    {
        self.bits & 0x2000 != 0
    }

    pub fn is_enum_flag(&self) -> (r: bool)
        ensures
            r == (self.bits & 0x4000 != 0),
    {
        self.bits & 0x4000 != 0
    }

}

/// A fixed-width bitset of access flags; bits outside the known set are
/// dropped when a value is read from the wire.
#[derive(Debug, PartialEq, Eq, Clone, Copy)]
pub struct MethodParameterAccessFlags {
    pub bits: u16,
}

impl MethodParameterAccessFlags {
    /// The value that keeping only the known bits of `bits` yields.
    pub open spec fn sp_from_bits(bits: u16) -> Self {
        MethodParameterAccessFlags { bits: bits & 0x9010 }
    }

    /// Keeps only the bits this record kind defines.
    pub fn from_bits_truncate(bits: u16) -> (r: Self)
        ensures
            r == Self::sp_from_bits(bits),
    {
        MethodParameterAccessFlags { bits: bits & 0x9010 }
    }

    pub fn bits(&self) -> (r: u16)
        ensures
            r == self.bits,
    {
        self.bits
    }

    pub fn is_final_flag(&self) -> (r: bool)
        ensures
            r == (self.bits & 0x10 != 0),
    {
        self.bits & 0x10 != 0
    }

    pub fn is_synthetic(&self) -> (r: bool)
        ensures
            r == (self.bits & 0x1000 != 0),
    {
        self.bits & 0x1000 != 0
    }

    pub fn is_mandated(&self) -> (r: bool)
        ensures
            r == (self.bits & 0x8000 != 0),
    {
        self.bits & 0x8000 != 0
    }

}

/// A fixed-width bitset of access flags; bits outside the known set are
/// dropped when a value is read from the wire.
#[derive(Debug, PartialEq, Eq, Clone, Copy)]
pub struct ModuleFlags {
    pub bits: u16,
}

impl ModuleFlags {
    /// The value that keeping only the known bits of `bits` yields.
    pub open spec fn sp_from_bits(bits: u16) -> Self {
        ModuleFlags { bits: bits & 0x9020 }
    }

    /// Keeps only the bits this record kind defines.
    pub fn from_bits_truncate(bits: u16) -> (r: Self)
        ensures
            r == Self::sp_from_bits(bits),
    {
        ModuleFlags { bits: bits & 0x9020 }
    }

    pub fn bits(&self) -> (r: u16)
        ensures
            r == self.bits,
    {
        self.bits
    }

    pub fn is_open(&self) -> (r: bool)
        ensures
            r == (self.bits & 0x20 != 0),
    {
        self.bits & 0x20 != 0
    }

    pub fn is_synthetic(&self) -> (r: bool)
        ensures
            r == (self.bits & 0x1000 != 0),
    {
        self.bits & 0x1000 != 0
    }

    pub fn is_module(&self) -> (r: bool)
        ensures
            r == (self.bits & 0x8000 != 0),
    {
        self.bits & 0x8000 != 0
    }

}

/// A fixed-width bitset of access flags; bits outside the known set are
/// dropped when a value is read from the wire.
#[derive(Debug, PartialEq, Eq, Clone, Copy)]
pub struct RequiresFlags {
    pub bits: u16,
}

impl RequiresFlags {
    /// The value that keeping only the known bits of `bits` yields.
    pub open spec fn sp_from_bits(bits: u16) -> Self {
        RequiresFlags { bits: bits & 0x9060 }
    }

    /// Keeps only the bits this record kind defines.
    pub fn from_bits_truncate(bits: u16) -> (r: Self)
        ensures
            r == Self::sp_from_bits(bits),
    {
        RequiresFlags { bits: bits & 0x9060 }
    }

    pub fn bits(&self) -> (r: u16)
        ensures
            r == self.bits,
    {
        self.bits
    }

    pub fn is_transitive(&self) -> (r: bool)
        ensures
            r == (self.bits & 0x20 != 0),
    {
        self.bits & 0x20 != 0
    }

    pub fn is_static_phase(&self) -> (r: bool)
        ensures
            r == (self.bits & 0x40 != 0),
    {
        self.bits & 0x40 != 0
    }

    pub fn is_synthetic(&self) -> (r: bool)
        ensures
            r == (self.bits & 0x1000 != 0),
    {
        self.bits & 0x1000 != 0
    }

    pub fn is_mandated(&self) -> (r: bool)
        ensures
            r == (self.bits & 0x8000 != 0),
    {
        self.bits & 0x8000 != 0
    }

}

/// A fixed-width bitset of access flags; bits outside the known set are
/// dropped when a value is read from the wire.
#[derive(Debug, PartialEq, Eq, Clone, Copy)]
pub struct ExportsFlags {
    pub bits: u16,
}

impl ExportsFlags {
    /// The value that keeping only the known bits of `bits` yields.
    pub open spec fn sp_from_bits(bits: u16) -> Self {
        ExportsFlags { bits: bits & 0x9000 }
    }

    /// Keeps only the bits this record kind defines.
    pub fn from_bits_truncate(bits: u16) -> (r: Self)
        ensures
            r == Self::sp_from_bits(bits),
    {
        ExportsFlags { bits: bits & 0x9000 }
    }

    pub fn bits(&self) -> (r: u16)
        ensures
            r == self.bits,
    {
        self.bits
    }

    pub fn is_synthetic(&self) -> (r: bool)
        ensures
            r == (self.bits & 0x1000 != 0),
    {
        self.bits & 0x1000 != 0
    }

    pub fn is_mandated(&self) -> (r: bool)
        ensures
            r == (self.bits & 0x8000 != 0),
    {
        self.bits & 0x8000 != 0
    }

}

/// A fixed-width bitset of access flags; bits outside the known set are
/// dropped when a value is read from the wire.
#[derive(Debug, PartialEq, Eq, Clone, Copy)]
pub struct OpensFlags {
    pub bits: u16,
}

impl OpensFlags {
    /// The value that keeping only the known bits of `bits` yields.
    pub open spec fn sp_from_bits(bits: u16) -> Self {
        OpensFlags { bits: bits & 0x9000 }
    }

    /// Keeps only the bits this record kind defines.
    pub fn from_bits_truncate(bits: u16) -> (r: Self)
        ensures
            r == Self::sp_from_bits(bits),
    {
        OpensFlags { bits: bits & 0x9000 }
    }

    pub fn bits(&self) -> (r: u16)
        ensures
            r == self.bits,
    {
        self.bits
    }

    pub fn is_synthetic(&self) -> (r: bool)
        ensures
            r == (self.bits & 0x1000 != 0),
    {
        self.bits & 0x1000 != 0
    }

    pub fn is_mandated(&self) -> (r: bool)
        ensures
            r == (self.bits & 0x8000 != 0),
    {
        self.bits & 0x8000 != 0
    }

}

} // verus!
