use vstd::prelude::*;

verus! {

/// The ways a class-file byte stream can be rejected. Decoding aborts on the
/// first error; no partial value is returned. `InvalidAttributeLength` is for
/// a known attribute whose declared length contradicts the fixed shape its
/// name selects, where the format makes the length an invariant.
#[derive(Debug, PartialEq, Eq, Clone, Copy)]
pub enum ClassFileParseError {
    InvalidTypePathKind,
    InvalidAttributeLength,
    InvalidTypeAnnotationTargetType,
    InvalidElementValueTag,
    InvalidAttributeNameIndex,
    InvalidMagicValue,
    InvalidConstantPoolInfoTag,
    InvalidVerificationTypeTag,
    InvalidReferenceKind,
    UnexpectedEOF,
}

} // verus!
