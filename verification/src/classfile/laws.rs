use vstd::prelude::*;

use crate::classfile::err::ClassFileParseError;
use crate::classfile::grammar::{sp_attribute, sp_class_file};
use crate::classfile::names::{AttrName, sp_attr_name};
use crate::classfile::pool::sp_slot_get;
use crate::classfile::reader::{can_read, sp_u16, sp_u32};
use crate::classfile::types::{AttrV, CpInfoV};

verus! {

/// Any stream whose first four bytes are not the magic number is rejected
/// with exactly `InvalidMagicValue`, whatever follows them.
pub proof fn lemma_magic_rejected(s: Seq<u8>)
    requires
        s.len() >= 4,
        sp_u32(s, 0) != 0xCAFEBABE,
    ensures
        sp_class_file(s) == Err::<(crate::classfile::types::ClassFileV, nat), ClassFileParseError>(
            ClassFileParseError::InvalidMagicValue,
        ),
{
}

/// An attribute whose name is not in the canonical table is skipped, never
/// an error: the parse consumes exactly the declared length past the
/// six-byte name-and-length header, whatever that length is, and the
/// attribute leaves no trace in the produced tree.
pub proof fn lemma_unknown_attribute_skipped(s: Seq<u8>, pos: int, cp: Seq<CpInfoV>)
    requires
        can_read(s, pos, 6),
        match sp_slot_get(cp, sp_u16(s, pos)) {
            Some(CpInfoV::Utf8Info { length, bytes }) => sp_attr_name(bytes) is Unknown,
            _ => false,
        },
        can_read(s, pos + 6, sp_u32(s, pos + 2) as int),
    ensures
        sp_attribute(s, pos, cp) == Ok::<(Option<AttrV>, nat), ClassFileParseError>((
            None,
            (6 + sp_u32(s, pos + 2)) as nat,
        )),
{
}

} // verus!
