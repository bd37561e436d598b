use vstd::prelude::*;

use crate::classfile::err::ClassFileParseError;
use crate::classfile::flags;
use crate::classfile::names::{AttrName, sp_attr_name};
use crate::classfile::pool::{sp_slot_get, sp_slot_width};
use crate::classfile::reader::{can_read, sp_u16, sp_u32, sp_u8};
use crate::classfile::types::{
    AnnotationV, AttrV, BootstrapMethodV, ClassFileV, CpInfoV, ElementValuePairV, ElementValueV,
    ExceptionTableEntry, FieldInfoV, InnerClass, LineNumberTableEntry, LocalVarTargetTableEntry,
    LocalVariableTableEntry, LocalVariableTypeTableEntry, MethodInfoV, MethodParameter,
    ModuleExportsV, ModuleOpensV, ModuleProvidesV, ModuleRequires, Path, RecordComponentInfoV,
    StackMapFrameV, TargetInfoV, TypeAnnotationV, TypePathV, VerificationTypeInfo, sp_cp_tag,
    sp_ref_kind, sp_type_path_kind, ConstantPoolInfoTag,
};

verus! {

// The whole wire grammar, written as one mathematical parser per record
// shape. Each function answers what value starts at `pos` of `s` and how
// many bytes it occupies, or with which error the stream is rejected.
// Parsing is strictly sequential and non-backtracking; a missing byte is
// always `UnexpectedEOF`.

pub open spec fn sp_exception_table_entry(s: Seq<u8>, pos: int) -> Result<(ExceptionTableEntry, nat), ClassFileParseError> {
    if can_read(s, pos, 8) {
        Ok((
            ExceptionTableEntry {
                start_pc: sp_u16(s, pos),
                end_pc: sp_u16(s, pos + 2),
                handler_pc: sp_u16(s, pos + 4),
                catch_type: sp_u16(s, pos + 6),
            },
            8,
        ))
    } else {
        Err(ClassFileParseError::UnexpectedEOF)
    }
}
pub open spec fn sp_ete_list(s: Seq<u8>, pos: int, n: nat) -> Result<(Seq<ExceptionTableEntry>, nat), ClassFileParseError>
    decreases n,
{
    if n == 0 {
        Ok((Seq::empty(), 0))
    } else {
        match sp_exception_table_entry(s, pos) {
            Err(e) => Err(e),
            Ok((x, k)) => match sp_ete_list(s, pos + k, (n - 1) as nat) {
                Err(e) => Err(e),
                Ok((xs, k2)) => Ok((seq![x] + xs, (k + k2) as nat)),
            },
        }
    }
}
pub open spec fn sp_line_number_entry(s: Seq<u8>, pos: int) -> Result<(LineNumberTableEntry, nat), ClassFileParseError> {
    if can_read(s, pos, 4) {
        Ok((
            LineNumberTableEntry {
                start_pc: sp_u16(s, pos),
                line_number: sp_u16(s, pos + 2),
            },
            4,
        ))
    } else {
        Err(ClassFileParseError::UnexpectedEOF)
    }
}
pub open spec fn sp_lnt_list(s: Seq<u8>, pos: int, n: nat) -> Result<(Seq<LineNumberTableEntry>, nat), ClassFileParseError>
    decreases n,
{
    if n == 0 {
        Ok((Seq::empty(), 0))
    } else {
        match sp_line_number_entry(s, pos) {
            Err(e) => Err(e),
            Ok((x, k)) => match sp_lnt_list(s, pos + k, (n - 1) as nat) {
                Err(e) => Err(e),
                Ok((xs, k2)) => Ok((seq![x] + xs, (k + k2) as nat)),
            },
        }
    }
}
pub open spec fn sp_local_variable_entry(s: Seq<u8>, pos: int) -> Result<(LocalVariableTableEntry, nat), ClassFileParseError> {
    if can_read(s, pos, 10) {
        Ok((
            LocalVariableTableEntry {
                start_pc: sp_u16(s, pos),
                length: sp_u16(s, pos + 2),
                name_index: sp_u16(s, pos + 4),
                descriptor_index: sp_u16(s, pos + 6),
                index: sp_u16(s, pos + 8),
            },
            10,
        ))
    } else {
        Err(ClassFileParseError::UnexpectedEOF)
    }
}
pub open spec fn sp_lvt_list(s: Seq<u8>, pos: int, n: nat) -> Result<(Seq<LocalVariableTableEntry>, nat), ClassFileParseError>
    decreases n,
{
    if n == 0 {
        Ok((Seq::empty(), 0))
    } else {
        match sp_local_variable_entry(s, pos) {
            Err(e) => Err(e),
            Ok((x, k)) => match sp_lvt_list(s, pos + k, (n - 1) as nat) {
                Err(e) => Err(e),
                Ok((xs, k2)) => Ok((seq![x] + xs, (k + k2) as nat)),
            },
        }
    }
}
pub open spec fn sp_local_variable_type_entry(s: Seq<u8>, pos: int) -> Result<(LocalVariableTypeTableEntry, nat), ClassFileParseError> {
    if can_read(s, pos, 10) {
        Ok((
            LocalVariableTypeTableEntry {
                start_pc: sp_u16(s, pos),
                length: sp_u16(s, pos + 2),
                name_index: sp_u16(s, pos + 4),
                signature_index: sp_u16(s, pos + 6),
                index: sp_u16(s, pos + 8),
            },
            10,
        ))
    } else {
        Err(ClassFileParseError::UnexpectedEOF)
    }
}
pub open spec fn sp_lvtt_list(s: Seq<u8>, pos: int, n: nat) -> Result<(Seq<LocalVariableTypeTableEntry>, nat), ClassFileParseError>
    decreases n,
{
    if n == 0 {
        Ok((Seq::empty(), 0))
    } else {
        match sp_local_variable_type_entry(s, pos) {
            Err(e) => Err(e),
            Ok((x, k)) => match sp_lvtt_list(s, pos + k, (n - 1) as nat) {
                Err(e) => Err(e),
                Ok((xs, k2)) => Ok((seq![x] + xs, (k + k2) as nat)),
            },
        }
    }
}
pub open spec fn sp_inner_class(s: Seq<u8>, pos: int) -> Result<(InnerClass, nat), ClassFileParseError> {
    if can_read(s, pos, 8) {
        Ok((
            InnerClass {
                inner_class_info_index: sp_u16(s, pos),
                outer_class_info_index: sp_u16(s, pos + 2),
                inner_name_index: sp_u16(s, pos + 4),
                inner_class_access_flags: flags::InnerClassAccessFlags::sp_from_bits(
                    sp_u16(s, pos + 6),
                ),
            },
            8,
        ))
    } else {
        Err(ClassFileParseError::UnexpectedEOF)
    }
}
pub open spec fn sp_inner_class_list(s: Seq<u8>, pos: int, n: nat) -> Result<(Seq<InnerClass>, nat), ClassFileParseError>
    decreases n,
{
    if n == 0 {
        Ok((Seq::empty(), 0))
    } else {
        match sp_inner_class(s, pos) {
            Err(e) => Err(e),
            Ok((x, k)) => match sp_inner_class_list(s, pos + k, (n - 1) as nat) {
                Err(e) => Err(e),
                Ok((xs, k2)) => Ok((seq![x] + xs, (k + k2) as nat)),
            },
        }
    }
}
pub open spec fn sp_local_var_target_entry(s: Seq<u8>, pos: int) -> Result<(LocalVarTargetTableEntry, nat), ClassFileParseError> {
    if can_read(s, pos, 6) {
        Ok((
            LocalVarTargetTableEntry {
                start_pc: sp_u16(s, pos),
                length: sp_u16(s, pos + 2),
                index: sp_u16(s, pos + 4),
            },
            6,
        ))
    } else {
        Err(ClassFileParseError::UnexpectedEOF)
    }
}
pub open spec fn sp_lvtar_list(s: Seq<u8>, pos: int, n: nat) -> Result<(Seq<LocalVarTargetTableEntry>, nat), ClassFileParseError>
    decreases n,
{
    if n == 0 {
        Ok((Seq::empty(), 0))
    } else {
        match sp_local_var_target_entry(s, pos) {
            Err(e) => Err(e),
            Ok((x, k)) => match sp_lvtar_list(s, pos + k, (n - 1) as nat) {
                Err(e) => Err(e),
                Ok((xs, k2)) => Ok((seq![x] + xs, (k + k2) as nat)),
            },
        }
    }
}
pub open spec fn sp_method_parameter(s: Seq<u8>, pos: int) -> Result<(MethodParameter, nat), ClassFileParseError> {
    if can_read(s, pos, 4) {
        Ok((
            MethodParameter {
                name_index: sp_u16(s, pos),
                access_flags: flags::MethodParameterAccessFlags::sp_from_bits(sp_u16(s, pos + 2)),
            },
            4,
        ))
    } else {
        Err(ClassFileParseError::UnexpectedEOF)
    }
}
pub open spec fn sp_method_parameter_list(s: Seq<u8>, pos: int, n: nat) -> Result<(Seq<MethodParameter>, nat), ClassFileParseError>
    decreases n,
{
    if n == 0 {
        Ok((Seq::empty(), 0))
    } else {
        match sp_method_parameter(s, pos) {
            Err(e) => Err(e),
            Ok((x, k)) => match sp_method_parameter_list(s, pos + k, (n - 1) as nat) {
                Err(e) => Err(e),
                Ok((xs, k2)) => Ok((seq![x] + xs, (k + k2) as nat)),
            },
        }
    }
}
pub open spec fn sp_module_requires(s: Seq<u8>, pos: int) -> Result<(ModuleRequires, nat), ClassFileParseError> {
    if can_read(s, pos, 6) {
        Ok((
            ModuleRequires {
                requires_index: sp_u16(s, pos),
                requires_flags: flags::RequiresFlags::sp_from_bits(sp_u16(s, pos + 2)),
                requires_version_index: sp_u16(s, pos + 4),
            },
            6,
        ))
    } else {
        Err(ClassFileParseError::UnexpectedEOF)
    }
}
pub open spec fn sp_module_requires_list(s: Seq<u8>, pos: int, n: nat) -> Result<(Seq<ModuleRequires>, nat), ClassFileParseError>
    decreases n,
{
    if n == 0 {
        Ok((Seq::empty(), 0))
    } else {
        match sp_module_requires(s, pos) {
            Err(e) => Err(e),
            Ok((x, k)) => match sp_module_requires_list(s, pos + k, (n - 1) as nat) {
                Err(e) => Err(e),
                Ok((xs, k2)) => Ok((seq![x] + xs, (k + k2) as nat)),
            },
        }
    }
}
/// A single checked step of a type-annotation path.
pub open spec fn sp_path_entry(s: Seq<u8>, pos: int) -> Result<(Path, nat), ClassFileParseError> {
    if !can_read(s, pos, 1) {
        Err(ClassFileParseError::UnexpectedEOF)
    } else {
        match sp_type_path_kind(sp_u8(s, pos)) {
            None => Err(ClassFileParseError::InvalidTypePathKind),
            Some(kind) => {
                if can_read(s, pos + 1, 1) {
                    Ok((
                        Path { type_path_kind: kind, type_path_argument_index: sp_u8(s, pos + 1) },
                        2,
                    ))
                } else {
                    Err(ClassFileParseError::UnexpectedEOF)
                }
            },
        }
    }
}

pub open spec fn sp_path_list(s: Seq<u8>, pos: int, n: nat) -> Result<(Seq<Path>, nat), ClassFileParseError>
    decreases n,
{
    if n == 0 {
        Ok((Seq::empty(), 0))
    } else {
        match sp_path_entry(s, pos) {
            Err(e) => Err(e),
            Ok((x, k)) => match sp_path_list(s, pos + k, (n - 1) as nat) {
                Err(e) => Err(e),
                Ok((xs, k2)) => Ok((seq![x] + xs, (k + k2) as nat)),
            },
        }
    }
}
/// A count-prefixed list of plain big-endian 16-bit values.
pub open spec fn sp_u16_list(s: Seq<u8>, pos: int, n: nat) -> Result<(Seq<u16>, nat), ClassFileParseError>
    decreases n,
{
    if n == 0 {
        Ok((Seq::empty(), 0))
    } else if can_read(s, pos, 2) {
        match sp_u16_list(s, pos + 2, (n - 1) as nat) {
            Err(e) => Err(e),
            Ok((xs, k2)) => Ok((seq![sp_u16(s, pos)] + xs, (2 + k2) as nat)),
        }
    } else {
        Err(ClassFileParseError::UnexpectedEOF)
    }
}
pub open spec fn sp_bootstrap_method(s: Seq<u8>, pos: int) -> Result<(BootstrapMethodV, nat), ClassFileParseError> {
    if can_read(s, pos, 4) {
        match sp_u16_list(s, pos + 4, sp_u16(s, pos + 2) as nat) {
            Err(e) => Err(e),
            Ok((args, k)) => Ok((
                BootstrapMethodV {
                    bootstrap_method_ref: sp_u16(s, pos),
                    bootstrap_arguments: args,
                },
                (4 + k) as nat,
            )),
        }
    } else {
        Err(ClassFileParseError::UnexpectedEOF)
    }
}
pub open spec fn sp_bootstrap_method_list(s: Seq<u8>, pos: int, n: nat) -> Result<(Seq<BootstrapMethodV>, nat), ClassFileParseError>
    decreases n,
{
    if n == 0 {
        Ok((Seq::empty(), 0))
    } else {
        match sp_bootstrap_method(s, pos) {
            Err(e) => Err(e),
            Ok((x, k)) => match sp_bootstrap_method_list(s, pos + k, (n - 1) as nat) {
                Err(e) => Err(e),
                Ok((xs, k2)) => Ok((seq![x] + xs, (k + k2) as nat)),
            },
        }
    }
}
pub open spec fn sp_module_exports(s: Seq<u8>, pos: int) -> Result<(ModuleExportsV, nat), ClassFileParseError> {
    if can_read(s, pos, 6) {
        match sp_u16_list(s, pos + 6, sp_u16(s, pos + 4) as nat) {
            Err(e) => Err(e),
            Ok((to, k)) => Ok((
                ModuleExportsV {
                    exports_index: sp_u16(s, pos),
                    exports_flags: flags::ExportsFlags::sp_from_bits(sp_u16(s, pos + 2)),
                    exports_to_index: to,
                },
                (6 + k) as nat,
            )),
        }
    } else {
        Err(ClassFileParseError::UnexpectedEOF)
    }
}
pub open spec fn sp_module_exports_list(s: Seq<u8>, pos: int, n: nat) -> Result<(Seq<ModuleExportsV>, nat), ClassFileParseError>
    decreases n,
{
    if n == 0 {
        Ok((Seq::empty(), 0))
    } else {
        match sp_module_exports(s, pos) {
            Err(e) => Err(e),
            Ok((x, k)) => match sp_module_exports_list(s, pos + k, (n - 1) as nat) {
                Err(e) => Err(e),
                Ok((xs, k2)) => Ok((seq![x] + xs, (k + k2) as nat)),
            },
        }
    }
}
pub open spec fn sp_module_opens(s: Seq<u8>, pos: int) -> Result<(ModuleOpensV, nat), ClassFileParseError> {
    if can_read(s, pos, 6) {
        match sp_u16_list(s, pos + 6, sp_u16(s, pos + 4) as nat) {
            Err(e) => Err(e),
            Ok((to, k)) => Ok((
                ModuleOpensV {
                    opens_index: sp_u16(s, pos),
                    opens_flags: flags::OpensFlags::sp_from_bits(sp_u16(s, pos + 2)),
                    opens_to_index: to,
                },
                (6 + k) as nat,
            )),
        }
    } else {
        Err(ClassFileParseError::UnexpectedEOF)
    }
}
pub open spec fn sp_module_opens_list(s: Seq<u8>, pos: int, n: nat) -> Result<(Seq<ModuleOpensV>, nat), ClassFileParseError>
    decreases n,
{
    if n == 0 {
        Ok((Seq::empty(), 0))
    } else {
        match sp_module_opens(s, pos) {
            Err(e) => Err(e),
            Ok((x, k)) => match sp_module_opens_list(s, pos + k, (n - 1) as nat) {
                Err(e) => Err(e),
                Ok((xs, k2)) => Ok((seq![x] + xs, (k + k2) as nat)),
            },
        }
    }
}
pub open spec fn sp_module_provides(s: Seq<u8>, pos: int) -> Result<(ModuleProvidesV, nat), ClassFileParseError> {
    if can_read(s, pos, 4) {
        match sp_u16_list(s, pos + 4, sp_u16(s, pos + 2) as nat) {
            Err(e) => Err(e),
            Ok((with, k)) => Ok((
                ModuleProvidesV {
                    provides_index: sp_u16(s, pos),
                    provides_with_index: with,
                },
                (4 + k) as nat,
            )),
        }
    } else {
        Err(ClassFileParseError::UnexpectedEOF)
    }
}
pub open spec fn sp_module_provides_list(s: Seq<u8>, pos: int, n: nat) -> Result<(Seq<ModuleProvidesV>, nat), ClassFileParseError>
    decreases n,
{
    if n == 0 {
        Ok((Seq::empty(), 0))
    } else {
        match sp_module_provides(s, pos) {
            Err(e) => Err(e),
            Ok((x, k)) => match sp_module_provides_list(s, pos + k, (n - 1) as nat) {
                Err(e) => Err(e),
                Ok((xs, k2)) => Ok((seq![x] + xs, (k + k2) as nat)),
            },
        }
    }
}
/// One verification-type record: a tag byte, where tags 7 and 8 carry one
/// extra 16-bit operand and tags above 8 are rejected.
pub open spec fn sp_verification_type(s: Seq<u8>, pos: int) -> Result<(VerificationTypeInfo, nat), ClassFileParseError> {
    if can_read(s, pos, 1) {
        let tag = sp_u8(s, pos);
        if tag == 0 { Ok((VerificationTypeInfo::TopVariable { tag }, 1)) }
        else if tag == 1 { Ok((VerificationTypeInfo::IntegerVariable { tag }, 1)) }
        else if tag == 2 { Ok((VerificationTypeInfo::FloatVariable { tag }, 1)) }
        else if tag == 3 { Ok((VerificationTypeInfo::DoubleVariable { tag }, 1)) }
        else if tag == 4 { Ok((VerificationTypeInfo::LongVariable { tag }, 1)) }
        else if tag == 5 { Ok((VerificationTypeInfo::NullVariable { tag }, 1)) }
        else if tag == 6 { Ok((VerificationTypeInfo::UninitializedThisVariable { tag }, 1)) }
        else if tag == 7 {
            if can_read(s, pos + 1, 2) {
                Ok((VerificationTypeInfo::ObjectVariable { tag, cpool_index: sp_u16(s, pos + 1) }, 3))
            } else {
                Err(ClassFileParseError::UnexpectedEOF)
            }
        }
        else if tag == 8 {
            if can_read(s, pos + 1, 2) {
                Ok((VerificationTypeInfo::UninitializedVariable { tag, offset: sp_u16(s, pos + 1) }, 3))
            } else {
                Err(ClassFileParseError::UnexpectedEOF)
            }
        }
        else { Err(ClassFileParseError::InvalidVerificationTypeTag) }
    } else {
        Err(ClassFileParseError::UnexpectedEOF)
    }
}
pub open spec fn sp_vti_list(s: Seq<u8>, pos: int, n: nat) -> Result<(Seq<VerificationTypeInfo>, nat), ClassFileParseError>
    decreases n,
{
    if n == 0 {
        Ok((Seq::empty(), 0))
    } else {
        match sp_verification_type(s, pos) {
            Err(e) => Err(e),
            Ok((x, k)) => match sp_vti_list(s, pos + k, (n - 1) as nat) {
                Err(e) => Err(e),
                Ok((xs, k2)) => Ok((seq![x] + xs, (k + k2) as nat)),
            },
        }
    }
}
/// The one-item frame: one verification type follows the frame-type byte.
pub open spec fn sp_smf_same_locals_one(s: Seq<u8>, pos: int, ft: u8) -> Result<(StackMapFrameV, nat), ClassFileParseError> {
    match sp_verification_type(s, pos) {
        Err(e) => Err(e),
        Ok((v, k)) => Ok((
            StackMapFrameV::SameLocals1StackItem { frame_type: ft, stack: v },
            k,
        )),
    }
}

/// The extended one-item frame: an offset delta, then one verification type.
pub open spec fn sp_smf_same_locals_one_ext(s: Seq<u8>, pos: int, ft: u8) -> Result<(StackMapFrameV, nat), ClassFileParseError> {
    if !can_read(s, pos, 2) {
        Err(ClassFileParseError::UnexpectedEOF)
    } else {
        match sp_verification_type(s, pos + 2) {
            Err(e) => Err(e),
            Ok((v, k)) => Ok((
                StackMapFrameV::SameLocals1StackItemExtended {
                    frame_type: ft,
                    offset_delta: sp_u16(s, pos),
                    stack: v,
                },
                (2 + k) as nat,
            )),
        }
    }
}

/// The chop frame: an offset delta alone.
pub open spec fn sp_smf_chop(s: Seq<u8>, pos: int, ft: u8) -> Result<(StackMapFrameV, nat), ClassFileParseError> {
    if can_read(s, pos, 2) {
        Ok((StackMapFrameV::Chop { frame_type: ft, offset_delta: sp_u16(s, pos) }, 2))
    } else {
        Err(ClassFileParseError::UnexpectedEOF)
    }
}

/// The extended same frame: an offset delta alone.
pub open spec fn sp_smf_same_ext(s: Seq<u8>, pos: int, ft: u8) -> Result<(StackMapFrameV, nat), ClassFileParseError> {
    if can_read(s, pos, 2) {
        Ok((StackMapFrameV::SameExtended { frame_type: ft, offset_delta: sp_u16(s, pos) }, 2))
    } else {
        Err(ClassFileParseError::UnexpectedEOF)
    }
}

/// The append frame: the frame type encodes how many new locals follow.
pub open spec fn sp_smf_append(s: Seq<u8>, pos: int, ft: u8) -> Result<(StackMapFrameV, nat), ClassFileParseError> {
    if !can_read(s, pos, 2) {
        Err(ClassFileParseError::UnexpectedEOF)
    } else {
        match sp_vti_list(s, pos + 2, (ft - 251) as nat) {
            Err(e) => Err(e),
            Ok((locals, k)) => Ok((
                StackMapFrameV::Append { frame_type: ft, offset_delta: sp_u16(s, pos), locals },
                (2 + k) as nat,
            )),
        }
    }
}

/// The full frame: counted locals, then a counted stack.
pub open spec fn sp_smf_full(s: Seq<u8>, pos: int, ft: u8) -> Result<(StackMapFrameV, nat), ClassFileParseError> {
    if !can_read(s, pos, 4) {
        Err(ClassFileParseError::UnexpectedEOF)
    } else {
        match sp_vti_list(s, pos + 4, sp_u16(s, pos + 2) as nat) {
            Err(e) => Err(e),
            Ok((locals, k)) => {
                if !can_read(s, pos + 4 + k, 2) {
                    Err(ClassFileParseError::UnexpectedEOF)
                } else {
                    match sp_vti_list(s, pos + 6 + k, sp_u16(s, pos + 4 + k) as nat) {
                        Err(e) => Err(e),
                        Ok((stack, k2)) => Ok((
                            StackMapFrameV::Full {
                                frame_type: ft,
                                offset_delta: sp_u16(s, pos),
                                locals,
                                stack,
                            },
                            (6 + k + k2) as nat,
                        )),
                    }
                }
            },
        }
    }
}

/// One stack-map frame. The frame-type byte ranges select the variant; the
/// bytes 128 to 246 are unassigned in the format and rejected outright.
pub open spec fn sp_stack_map_frame(s: Seq<u8>, pos: int) -> Result<(StackMapFrameV, nat), ClassFileParseError> {
    if !can_read(s, pos, 1) {
        Err(ClassFileParseError::UnexpectedEOF)
    } else {
        let ft = sp_u8(s, pos);
        let body = if ft <= 63 {
            Ok((StackMapFrameV::Same { frame_type: ft }, 0nat))
        } else if ft <= 127 {
            sp_smf_same_locals_one(s, pos + 1, ft)
        } else if ft == 247 {
            sp_smf_same_locals_one_ext(s, pos + 1, ft)
        } else if 248 <= ft && ft <= 250 {
            sp_smf_chop(s, pos + 1, ft)
        } else if ft == 251 {
            sp_smf_same_ext(s, pos + 1, ft)
        } else if 252 <= ft && ft <= 254 {
            sp_smf_append(s, pos + 1, ft)
        } else if ft == 255 {
            sp_smf_full(s, pos + 1, ft)
        } else {
            Err(ClassFileParseError::InvalidVerificationTypeTag)
        };
        match body {
            Err(e) => Err(e),
            Ok((x, k)) => Ok((x, (1 + k) as nat)),
        }
    }
}

pub open spec fn sp_smf_list(s: Seq<u8>, pos: int, n: nat) -> Result<(Seq<StackMapFrameV>, nat), ClassFileParseError>
    decreases n,
{
    if n == 0 {
        Ok((Seq::empty(), 0))
    } else {
        match sp_stack_map_frame(s, pos) {
            Err(e) => Err(e),
            Ok((x, k)) => match sp_smf_list(s, pos + k, (n - 1) as nat) {
                Err(e) => Err(e),
                Ok((xs, k2)) => Ok((seq![x] + xs, (k + k2) as nat)),
            },
        }
    }
}
/// A length-prefixed byte string entry.
pub open spec fn sp_cp_utf8(s: Seq<u8>, pos: int) -> Result<(CpInfoV, nat), ClassFileParseError> {
    if !can_read(s, pos, 2) {
        Err(ClassFileParseError::UnexpectedEOF)
    } else if !can_read(s, pos + 2, sp_u16(s, pos) as int) {
        Err(ClassFileParseError::UnexpectedEOF)
    } else {
        Ok((
            CpInfoV::Utf8Info {
                length: sp_u16(s, pos),
                bytes: s.subrange(pos + 2, pos + 2 + sp_u16(s, pos) as int),
            },
            (2 + sp_u16(s, pos)) as nat,
        ))
    }
}
/// A 32-bit integer literal entry.
pub open spec fn sp_cp_integer(s: Seq<u8>, pos: int) -> Result<(CpInfoV, nat), ClassFileParseError> {
    if can_read(s, pos, 4) {
        Ok((CpInfoV::IntegerInfo { bytes: sp_u32(s, pos) }, 4))
    } else {
        Err(ClassFileParseError::UnexpectedEOF)
    }
}
/// A 32-bit float literal entry, kept as its raw bytes.
pub open spec fn sp_cp_float(s: Seq<u8>, pos: int) -> Result<(CpInfoV, nat), ClassFileParseError> {
    if can_read(s, pos, 4) {
        Ok((CpInfoV::FloatInfo { bytes: sp_u32(s, pos) }, 4))
    } else {
        Err(ClassFileParseError::UnexpectedEOF)
    }
}
/// A 64-bit integer literal entry, two slots wide.
pub open spec fn sp_cp_long(s: Seq<u8>, pos: int) -> Result<(CpInfoV, nat), ClassFileParseError> {
    if can_read(s, pos, 8) {
        Ok((CpInfoV::LongInfo { high_bytes: sp_u32(s, pos), low_bytes: sp_u32(s, pos + 4) }, 8))
    } else {
        Err(ClassFileParseError::UnexpectedEOF)
    }
}
/// A 64-bit float literal entry, two slots wide.
pub open spec fn sp_cp_double(s: Seq<u8>, pos: int) -> Result<(CpInfoV, nat), ClassFileParseError> {
    if can_read(s, pos, 8) {
        Ok((CpInfoV::DoubleInfo { high_bytes: sp_u32(s, pos), low_bytes: sp_u32(s, pos + 4) }, 8))
    } else {
        Err(ClassFileParseError::UnexpectedEOF)
    }
}
/// A class reference entry.
pub open spec fn sp_cp_class(s: Seq<u8>, pos: int) -> Result<(CpInfoV, nat), ClassFileParseError> {
    if can_read(s, pos, 2) {
        Ok((CpInfoV::ClassInfo { name_index: sp_u16(s, pos) }, 2))
    } else {
        Err(ClassFileParseError::UnexpectedEOF)
    }
}
/// A string literal entry.
pub open spec fn sp_cp_string(s: Seq<u8>, pos: int) -> Result<(CpInfoV, nat), ClassFileParseError> {
    if can_read(s, pos, 2) {
        Ok((CpInfoV::StringInfo { string_index: sp_u16(s, pos) }, 2))
    } else {
        Err(ClassFileParseError::UnexpectedEOF)
    }
}
/// A field reference entry.
pub open spec fn sp_cp_fieldref(s: Seq<u8>, pos: int) -> Result<(CpInfoV, nat), ClassFileParseError> {
    if can_read(s, pos, 4) {
        Ok((CpInfoV::FieldrefInfo { class_index: sp_u16(s, pos), name_and_type_index: sp_u16(s, pos + 2) }, 4))
    } else {
        Err(ClassFileParseError::UnexpectedEOF)
    }
}
/// A method reference entry.
pub open spec fn sp_cp_methodref(s: Seq<u8>, pos: int) -> Result<(CpInfoV, nat), ClassFileParseError> {
    if can_read(s, pos, 4) {
        Ok((CpInfoV::MethodrefInfo { class_index: sp_u16(s, pos), name_and_type_index: sp_u16(s, pos + 2) }, 4))
    } else {
        Err(ClassFileParseError::UnexpectedEOF)
    }
}
/// An interface-method reference entry.
pub open spec fn sp_cp_interface_methodref(s: Seq<u8>, pos: int) -> Result<(CpInfoV, nat), ClassFileParseError> {
    if can_read(s, pos, 4) {
        Ok((CpInfoV::InterfaceMethodrefInfo { class_index: sp_u16(s, pos), name_and_type_index: sp_u16(s, pos + 2) }, 4))
    } else {
        Err(ClassFileParseError::UnexpectedEOF)
    }
}
/// A name-and-descriptor pair entry.
pub open spec fn sp_cp_name_and_type(s: Seq<u8>, pos: int) -> Result<(CpInfoV, nat), ClassFileParseError> {
    if can_read(s, pos, 4) {
        Ok((CpInfoV::NameAndTypeInfo { name_index: sp_u16(s, pos), descriptor_index: sp_u16(s, pos + 2) }, 4))
    } else {
        Err(ClassFileParseError::UnexpectedEOF)
    }
}
/// A method-handle entry: a checked reference kind and a reference index.
pub open spec fn sp_cp_method_handle(s: Seq<u8>, pos: int) -> Result<(CpInfoV, nat), ClassFileParseError> {
    if !can_read(s, pos, 1) {
        Err(ClassFileParseError::UnexpectedEOF)
    } else if sp_ref_kind(sp_u8(s, pos)) is None {
        Err(ClassFileParseError::InvalidReferenceKind)
    } else if !can_read(s, pos + 1, 2) {
        Err(ClassFileParseError::UnexpectedEOF)
    } else {
        Ok((
            CpInfoV::MethodHandleInfo {
                reference_kind: sp_ref_kind(sp_u8(s, pos))->0,
                reference_index: sp_u16(s, pos + 1),
            },
            3,
        ))
    }
}
/// A method-type descriptor entry.
pub open spec fn sp_cp_method_type(s: Seq<u8>, pos: int) -> Result<(CpInfoV, nat), ClassFileParseError> {
    if can_read(s, pos, 2) {
        Ok((CpInfoV::MethodTypeInfo { descriptor_index: sp_u16(s, pos) }, 2))
    } else {
        Err(ClassFileParseError::UnexpectedEOF)
    }
}
/// A dynamically computed constant entry.
pub open spec fn sp_cp_dynamic(s: Seq<u8>, pos: int) -> Result<(CpInfoV, nat), ClassFileParseError> {
    if can_read(s, pos, 4) {
        Ok((CpInfoV::DynamicInfo { bootstrap_method_attr_index: sp_u16(s, pos), name_and_type_index: sp_u16(s, pos + 2) }, 4))
    } else {
        Err(ClassFileParseError::UnexpectedEOF)
    }
}
/// A dynamic call-site entry.
pub open spec fn sp_cp_invoke_dynamic(s: Seq<u8>, pos: int) -> Result<(CpInfoV, nat), ClassFileParseError> {
    if can_read(s, pos, 4) {
        Ok((CpInfoV::InvokeDynamicInfo { bootstrap_method_attr_index: sp_u16(s, pos), name_and_type_index: sp_u16(s, pos + 2) }, 4))
    } else {
        Err(ClassFileParseError::UnexpectedEOF)
    }
}
/// A module reference entry.
pub open spec fn sp_cp_module(s: Seq<u8>, pos: int) -> Result<(CpInfoV, nat), ClassFileParseError> {
    if can_read(s, pos, 2) {
        Ok((CpInfoV::ModuleInfo { name_index: sp_u16(s, pos) }, 2))
    } else {
        Err(ClassFileParseError::UnexpectedEOF)
    }
}
/// A package reference entry.
pub open spec fn sp_cp_package(s: Seq<u8>, pos: int) -> Result<(CpInfoV, nat), ClassFileParseError> {
    if can_read(s, pos, 2) {
        Ok((CpInfoV::PackageInfo { name_index: sp_u16(s, pos) }, 2))
    } else {
        Err(ClassFileParseError::UnexpectedEOF)
    }
}
/// One constant-pool entry: a checked tag byte followed by the payload the
/// tag selects; unknown tags are rejected, never skipped.
pub open spec fn sp_cp_info(s: Seq<u8>, pos: int) -> Result<(CpInfoV, nat), ClassFileParseError> {
    if !can_read(s, pos, 1) {
        Err(ClassFileParseError::UnexpectedEOF)
    } else {
        match sp_cp_tag(sp_u8(s, pos)) {
            None => Err(ClassFileParseError::InvalidConstantPoolInfoTag),
            Some(tag) => {
                let body = match tag {
                    ConstantPoolInfoTag::Utf8 => sp_cp_utf8(s, pos + 1),
                    ConstantPoolInfoTag::Integer => sp_cp_integer(s, pos + 1),
                    ConstantPoolInfoTag::Float => sp_cp_float(s, pos + 1),
                    ConstantPoolInfoTag::Long => sp_cp_long(s, pos + 1),
                    ConstantPoolInfoTag::Double => sp_cp_double(s, pos + 1),
                    ConstantPoolInfoTag::Class => sp_cp_class(s, pos + 1),
                    ConstantPoolInfoTag::String => sp_cp_string(s, pos + 1),
                    ConstantPoolInfoTag::Fieldref => sp_cp_fieldref(s, pos + 1),
                    ConstantPoolInfoTag::Methodref => sp_cp_methodref(s, pos + 1),
                    ConstantPoolInfoTag::InterfaceMethodref => sp_cp_interface_methodref(s, pos + 1),
                    ConstantPoolInfoTag::NameAndType => sp_cp_name_and_type(s, pos + 1),
                    ConstantPoolInfoTag::MethodHandle => sp_cp_method_handle(s, pos + 1),
                    ConstantPoolInfoTag::MethodType => sp_cp_method_type(s, pos + 1),
                    ConstantPoolInfoTag::Dynamic => sp_cp_dynamic(s, pos + 1),
                    ConstantPoolInfoTag::InvokeDynamic => sp_cp_invoke_dynamic(s, pos + 1),
                    ConstantPoolInfoTag::Module => sp_cp_module(s, pos + 1),
                    ConstantPoolInfoTag::Package => sp_cp_package(s, pos + 1),
                };
                match body {
                    Err(e) => Err(e),
                    Ok((x, k)) => Ok((x, (1 + k) as nat)),
                }
            },
        }
    }
}

/// The constant-pool table: entries are parsed until `slots` index slots are
/// filled, an eight-byte literal filling two at once.
pub open spec fn sp_cp_entries(s: Seq<u8>, pos: int, slots: nat) -> Result<(Seq<CpInfoV>, nat), ClassFileParseError>
    decreases slots,
{
    if slots == 0 {
        Ok((Seq::empty(), 0))
    } else {
        match sp_cp_info(s, pos) {
            Err(e) => Err(e),
            Ok((x, k)) => {
                let w = sp_slot_width(x);
                let rest = if w < slots { (slots - w) as nat } else { 0nat };
                match sp_cp_entries(s, pos + k, rest) {
                    Err(e) => Err(e),
                    Ok((xs, k2)) => Ok((seq![x] + xs, (k + k2) as nat)),
                }
            },
        }
    }
}

// The annotation grammar is mutually recursive: an element value may hold a
// nested annotation or an array of element values. Every nested value sits
// behind at least one consumed byte, so the remaining input shrinks.

/// One element value, selected by its ASCII tag character.
pub open spec fn sp_element_value(s: Seq<u8>, pos: int) -> Result<(ElementValueV, nat), ClassFileParseError>
    decreases s.len() - pos, 0int, 0int,
{
    if !can_read(s, pos, 1) {
        Err(ClassFileParseError::UnexpectedEOF)
    } else {
        let tag = sp_u8(s, pos);
        if tag == 66 || tag == 67 || tag == 68 || tag == 70 || tag == 73 || tag == 74 || tag == 83
            || tag == 90 || tag == 115 {
            if can_read(s, pos + 1, 2) {
                Ok((ElementValueV::ConstValueIndex(sp_u16(s, pos + 1)), 3))
            } else {
                Err(ClassFileParseError::UnexpectedEOF)
            }
        } else if tag == 101 {
            if can_read(s, pos + 1, 4) {
                Ok((
                    ElementValueV::EnumConstValue {
                        type_name_index: sp_u16(s, pos + 1),
                        const_name_index: sp_u16(s, pos + 3),
                    },
                    5,
                ))
            } else {
                Err(ClassFileParseError::UnexpectedEOF)
            }
        } else if tag == 99 {
            if can_read(s, pos + 1, 2) {
                Ok((ElementValueV::ClassInfoIndex(sp_u16(s, pos + 1)), 3))
            } else {
                Err(ClassFileParseError::UnexpectedEOF)
            }
        } else if tag == 64 {
            match sp_annotation(s, pos + 1) {
                Err(e) => Err(e),
                Ok((a, k)) => Ok((ElementValueV::AnnotationValue(a), (1 + k) as nat)),
            }
        } else if tag == 91 {
            if can_read(s, pos + 1, 2) {
                match sp_ev_list(s, pos + 3, sp_u16(s, pos + 1) as nat) {
                    Err(e) => Err(e),
                    Ok((vs, k)) => Ok((ElementValueV::ArrayValue { values: vs }, (3 + k) as nat)),
                }
            } else {
                Err(ClassFileParseError::UnexpectedEOF)
            }
        } else {
            Err(ClassFileParseError::InvalidElementValueTag)
        }
    }
}

pub open spec fn sp_ev_list(s: Seq<u8>, pos: int, n: nat) -> Result<(Seq<ElementValueV>, nat), ClassFileParseError>
    decreases s.len() - pos, n, 1int,
{
    if n == 0 {
        Ok((Seq::empty(), 0))
    } else {
        match sp_element_value(s, pos) {
            Err(e) => Err(e),
            Ok((x, k)) => {
                if pos + k <= s.len() {
                    match sp_ev_list(s, pos + k, (n - 1) as nat) {
                        Err(e) => Err(e),
                        Ok((xs, k2)) => Ok((seq![x] + xs, (k + k2) as nat)),
                    }
                } else {
                    Err(ClassFileParseError::UnexpectedEOF)
                }
            },
        }
    }
}

/// One name-and-value pair of an annotation.
pub open spec fn sp_ev_pair(s: Seq<u8>, pos: int) -> Result<(ElementValuePairV, nat), ClassFileParseError>
    decreases s.len() - pos, 0int, 2int,
{
    if !can_read(s, pos, 2) {
        Err(ClassFileParseError::UnexpectedEOF)
    } else {
        match sp_element_value(s, pos + 2) {
            Err(e) => Err(e),
            Ok((v, k)) => Ok((
                ElementValuePairV { element_name_index: sp_u16(s, pos), value: v },
                (2 + k) as nat,
            )),
        }
    }
}

pub open spec fn sp_ev_pair_list(s: Seq<u8>, pos: int, n: nat) -> Result<(Seq<ElementValuePairV>, nat), ClassFileParseError>
    decreases s.len() - pos, n, 3int,
{
    if n == 0 {
        Ok((Seq::empty(), 0))
    } else {
        match sp_ev_pair(s, pos) {
            Err(e) => Err(e),
            Ok((x, k)) => {
                if pos + k <= s.len() {
                    match sp_ev_pair_list(s, pos + k, (n - 1) as nat) {
                        Err(e) => Err(e),
                        Ok((xs, k2)) => Ok((seq![x] + xs, (k + k2) as nat)),
                    }
                } else {
                    Err(ClassFileParseError::UnexpectedEOF)
                }
            },
        }
    }
}

/// One annotation: a type index and its counted name-and-value pairs.
pub open spec fn sp_annotation(s: Seq<u8>, pos: int) -> Result<(AnnotationV, nat), ClassFileParseError>
    decreases s.len() - pos, 0int, 4int,
{
    if !can_read(s, pos, 4) {
        Err(ClassFileParseError::UnexpectedEOF)
    } else {
        match sp_ev_pair_list(s, pos + 4, sp_u16(s, pos + 2) as nat) {
            Err(e) => Err(e),
            Ok((ps, k)) => Ok((
                AnnotationV { type_index: sp_u16(s, pos), element_value_pairs: ps },
                (4 + k) as nat,
            )),
        }
    }
}

pub open spec fn sp_annotation_list(s: Seq<u8>, pos: int, n: nat) -> Result<(Seq<AnnotationV>, nat), ClassFileParseError>
    decreases s.len() - pos, n, 5int,
{
    if n == 0 {
        Ok((Seq::empty(), 0))
    } else {
        match sp_annotation(s, pos) {
            Err(e) => Err(e),
            Ok((x, k)) => {
                if pos + k <= s.len() {
                    match sp_annotation_list(s, pos + k, (n - 1) as nat) {
                        Err(e) => Err(e),
                        Ok((xs, k2)) => Ok((seq![x] + xs, (k + k2) as nat)),
                    }
                } else {
                    Err(ClassFileParseError::UnexpectedEOF)
                }
            },
        }
    }
}

/// The annotations of one parameter: a counted annotation list.
pub open spec fn sp_param_anno_item(s: Seq<u8>, pos: int) -> Result<(Seq<AnnotationV>, nat), ClassFileParseError>
    decreases s.len() - pos, 0int, 6int,
{
    if !can_read(s, pos, 2) {
        Err(ClassFileParseError::UnexpectedEOF)
    } else {
        match sp_annotation_list(s, pos + 2, sp_u16(s, pos) as nat) {
            Err(e) => Err(e),
            Ok((x, k)) => Ok((x, (2 + k) as nat)),
        }
    }
}

/// The per-parameter annotation table: a byte count of parameters, each with
/// its own counted annotation list.
pub open spec fn sp_param_annotation_list(s: Seq<u8>, pos: int, n: nat) -> Result<(Seq<Seq<AnnotationV>>, nat), ClassFileParseError>
    decreases n,
{
    if n == 0 {
        Ok((Seq::empty(), 0))
    } else {
        match sp_param_anno_item(s, pos) {
            Err(e) => Err(e),
            Ok((x, k)) => match sp_param_annotation_list(s, pos + k, (n - 1) as nat) {
                Err(e) => Err(e),
                Ok((xs, k2)) => Ok((seq![x] + xs, (k + k2) as nat)),
            },
        }
    }
}

/// The target of a type annotation, selected by the target-type byte. Several
/// byte ranges share one shape; an unassigned byte is rejected.
pub open spec fn sp_target_info(s: Seq<u8>, pos: int) -> Result<(TargetInfoV, nat), ClassFileParseError> {
    if !can_read(s, pos, 1) {
        Err(ClassFileParseError::UnexpectedEOF)
    } else {
        let tt = sp_u8(s, pos);
        let body: Result<(TargetInfoV, nat), ClassFileParseError> = if tt == 0x00 || tt == 0x01 {
            if can_read(s, pos + 1, 1) {
                Ok((TargetInfoV::TypeParameter { type_parameter_index: sp_u8(s, pos + 1) }, 1))
            } else {
                Err(ClassFileParseError::UnexpectedEOF)
            }
        } else if tt == 0x10 {
            if can_read(s, pos + 1, 2) {
                Ok((TargetInfoV::Supertype { supertype_index: sp_u16(s, pos + 1) }, 2))
            } else {
                Err(ClassFileParseError::UnexpectedEOF)
            }
        } else if tt == 0x11 || tt == 0x12 {
            if can_read(s, pos + 1, 2) {
                Ok((
                    TargetInfoV::TypeParameterBound {
                        type_parameter_index: sp_u8(s, pos + 1),
                        bound_index: sp_u8(s, pos + 2),
                    },
                    2,
                ))
            } else {
                Err(ClassFileParseError::UnexpectedEOF)
            }
        } else if 0x13 <= tt && tt <= 0x15 {
            Ok((TargetInfoV::Empty, 0))
        } else if tt == 0x16 {
            if can_read(s, pos + 1, 1) {
                Ok((TargetInfoV::FormalParameter { formal_parameter_index: sp_u8(s, pos + 1) }, 1))
            } else {
                Err(ClassFileParseError::UnexpectedEOF)
            }
        } else if tt == 0x17 {
            if can_read(s, pos + 1, 2) {
                Ok((TargetInfoV::Throws { throws_type_index: sp_u16(s, pos + 1) }, 2))
            } else {
                Err(ClassFileParseError::UnexpectedEOF)
            }
        } else if tt == 0x40 || tt == 0x41 {
            if can_read(s, pos + 1, 2) {
                match sp_lvtar_list(s, pos + 3, sp_u16(s, pos + 1) as nat) {
                    Err(e) => Err(e),
                    Ok((t, k)) => Ok((TargetInfoV::Localvar { table: t }, (2 + k) as nat)),
                }
            } else {
                Err(ClassFileParseError::UnexpectedEOF)
            }
        } else if tt == 0x42 {
            if can_read(s, pos + 1, 2) {
                Ok((TargetInfoV::Catch { exception_table_index: sp_u16(s, pos + 1) }, 2))
            } else {
                Err(ClassFileParseError::UnexpectedEOF)
            }
        } else if 0x43 <= tt && tt <= 0x46 {
            if can_read(s, pos + 1, 2) {
                Ok((TargetInfoV::Offset { offset: sp_u16(s, pos + 1) }, 2))
            } else {
                Err(ClassFileParseError::UnexpectedEOF)
            }
        } else if 0x47 <= tt && tt <= 0x4B {
            if can_read(s, pos + 1, 3) {
                Ok((
                    TargetInfoV::TypeArgument {
                        offset: sp_u16(s, pos + 1),
                        type_argument_index: sp_u8(s, pos + 3),
                    },
                    3,
                ))
            } else {
                Err(ClassFileParseError::UnexpectedEOF)
            }
        } else {
            Err(ClassFileParseError::InvalidTypeAnnotationTargetType)
        };
        match body {
            Err(e) => Err(e),
            Ok((x, k)) => Ok((x, (1 + k) as nat)),
        }
    }
}

/// The path from an annotated outer type to the annotated inner type.
pub open spec fn sp_type_path(s: Seq<u8>, pos: int) -> Result<(TypePathV, nat), ClassFileParseError> {
    if !can_read(s, pos, 1) {
        Err(ClassFileParseError::UnexpectedEOF)
    } else {
        match sp_path_list(s, pos + 1, sp_u8(s, pos) as nat) {
            Err(e) => Err(e),
            Ok((p, k)) => Ok((TypePathV { path: p }, (1 + k) as nat)),
        }
    }
}

/// One type annotation: target, path, type index, then its pairs.
pub open spec fn sp_type_annotation(s: Seq<u8>, pos: int) -> Result<(TypeAnnotationV, nat), ClassFileParseError> {
    match sp_target_info(s, pos) {
        Err(e) => Err(e),
        Ok((ti, k1)) => match sp_type_path(s, pos + k1) {
            Err(e) => Err(e),
            Ok((tp, k2)) => {
                if !can_read(s, pos + k1 + k2, 4) {
                    Err(ClassFileParseError::UnexpectedEOF)
                } else {
                    match sp_ev_pair_list(
                        s,
                        pos + k1 + k2 + 4,
                        sp_u16(s, pos + k1 + k2 + 2) as nat,
                    ) {
                        Err(e) => Err(e),
                        Ok((ps, k3)) => Ok((
                            TypeAnnotationV {
                                target_path: tp,
                                target_info: ti,
                                type_index: sp_u16(s, pos + k1 + k2),
                                element_value_pairs: ps,
                            },
                            (k1 + k2 + 4 + k3) as nat,
                        )),
                    }
                }
            },
        },
    }
}

pub open spec fn sp_type_annotation_list(s: Seq<u8>, pos: int, n: nat) -> Result<(Seq<TypeAnnotationV>, nat), ClassFileParseError>
    decreases n,
{
    if n == 0 {
        Ok((Seq::empty(), 0))
    } else {
        match sp_type_annotation(s, pos) {
            Err(e) => Err(e),
            Ok((x, k)) => match sp_type_annotation_list(s, pos + k, (n - 1) as nat) {
                Err(e) => Err(e),
                Ok((xs, k2)) => Ok((seq![x] + xs, (k + k2) as nat)),
            },
        }
    }
}

// Attribute payloads. Each helper parses the bytes after the six-byte
// name-and-length header of one known attribute kind.

/// A reference to one constant. The format fixes this attribute's length at
/// two bytes; a different declared length is a parse error, never an abort.
pub open spec fn sp_attr_constant_value(s: Seq<u8>, pos: int, ni: u16, len: u32) -> Result<(AttrV, nat), ClassFileParseError> {
    if len != 2 {
        Err(ClassFileParseError::InvalidAttributeLength)
    } else if can_read(s, pos, 2) {
        Ok((
            AttrV::ConstantValue {
                attribute_name_index: ni,
                attribute_length: len,
                constantvalue_index: sp_u16(s, pos),
            },
            2,
        ))
    } else {
        Err(ClassFileParseError::UnexpectedEOF)
    }
}

/// The innermost enclosing method of a local or anonymous class.
pub open spec fn sp_attr_enclosing_method(s: Seq<u8>, pos: int, ni: u16, len: u32) -> Result<(AttrV, nat), ClassFileParseError> {
    if can_read(s, pos, 4) {
        Ok((
            AttrV::EnclosingMethod {
                attribute_name_index: ni,
                attribute_length: len,
                class_index: sp_u16(s, pos),
                method_index: sp_u16(s, pos + 2),
            },
            4,
        ))
    } else {
        Err(ClassFileParseError::UnexpectedEOF)
    }
}

/// A generics signature reference.
pub open spec fn sp_attr_signature(s: Seq<u8>, pos: int, ni: u16, len: u32) -> Result<(AttrV, nat), ClassFileParseError> {
    if can_read(s, pos, 2) {
        Ok((
            AttrV::Signature {
                attribute_name_index: ni,
                attribute_length: len,
                signature_index: sp_u16(s, pos),
            },
            2,
        ))
    } else {
        Err(ClassFileParseError::UnexpectedEOF)
    }
}

/// The source-file name reference.
pub open spec fn sp_attr_source_file(s: Seq<u8>, pos: int, ni: u16, len: u32) -> Result<(AttrV, nat), ClassFileParseError> {
    if can_read(s, pos, 2) {
        Ok((
            AttrV::SourceFile {
                attribute_name_index: ni,
                attribute_length: len,
                sourcefile_index: sp_u16(s, pos),
            },
            2,
        ))
    } else {
        Err(ClassFileParseError::UnexpectedEOF)
    }
}

/// The main class of a module.
pub open spec fn sp_attr_module_main_class(s: Seq<u8>, pos: int, ni: u16, len: u32) -> Result<(AttrV, nat), ClassFileParseError> {
    if can_read(s, pos, 2) {
        Ok((
            AttrV::ModuleMainClass {
                attribute_name_index: ni,
                attribute_length: len,
                main_class_index: sp_u16(s, pos),
            },
            2,
        ))
    } else {
        Err(ClassFileParseError::UnexpectedEOF)
    }
}

/// The nest host of this class.
pub open spec fn sp_attr_nest_host(s: Seq<u8>, pos: int, ni: u16, len: u32) -> Result<(AttrV, nat), ClassFileParseError> {
    if can_read(s, pos, 2) {
        Ok((
            AttrV::NestHost {
                attribute_name_index: ni,
                attribute_length: len,
                host_class_index: sp_u16(s, pos),
            },
            2,
        ))
    } else {
        Err(ClassFileParseError::UnexpectedEOF)
    }
}

/// An opaque vendor debug blob: exactly the declared length, kept as bytes.
pub open spec fn sp_attr_source_debug_extension(s: Seq<u8>, pos: int, ni: u16, len: u32) -> Result<(AttrV, nat), ClassFileParseError> {
    if can_read(s, pos, len as int) {
        Ok((
            AttrV::SourceDebugExtension {
                attribute_name_index: ni,
                attribute_length: len,
                debug_extension: s.subrange(pos, pos + len as int),
            },
            len as nat,
        ))
    } else {
        Err(ClassFileParseError::UnexpectedEOF)
    }
}

/// The stack-map table: a counted list of frames.
pub open spec fn sp_attr_stack_map_table(s: Seq<u8>, pos: int, ni: u16, len: u32) -> Result<(AttrV, nat), ClassFileParseError> {
    if !can_read(s, pos, 2) {
        Err(ClassFileParseError::UnexpectedEOF)
    } else {
        match sp_smf_list(s, pos + 2, sp_u16(s, pos) as nat) {
            Err(e) => Err(e),
            Ok((xs, k)) => Ok((
                AttrV::StackMapTable {
                    attribute_name_index: ni,
                    attribute_length: len,
                    entries: xs,
                },
                (2 + k) as nat,
            )),
        }
    }
}

/// The checked exceptions a method declares.
pub open spec fn sp_attr_exceptions(s: Seq<u8>, pos: int, ni: u16, len: u32) -> Result<(AttrV, nat), ClassFileParseError> {
    if !can_read(s, pos, 2) {
        Err(ClassFileParseError::UnexpectedEOF)
    } else {
        match sp_u16_list(s, pos + 2, sp_u16(s, pos) as nat) {
            Err(e) => Err(e),
            Ok((xs, k)) => Ok((
                AttrV::Exceptions {
                    attribute_name_index: ni,
                    attribute_length: len,
                    exception_index_table: xs,
                },
                (2 + k) as nat,
            )),
        }
    }
}

/// The inner-class table.
pub open spec fn sp_attr_inner_classes(s: Seq<u8>, pos: int, ni: u16, len: u32) -> Result<(AttrV, nat), ClassFileParseError> {
    if !can_read(s, pos, 2) {
        Err(ClassFileParseError::UnexpectedEOF)
    } else {
        match sp_inner_class_list(s, pos + 2, sp_u16(s, pos) as nat) {
            Err(e) => Err(e),
            Ok((xs, k)) => Ok((
                AttrV::InnerClasses {
                    attribute_name_index: ni,
                    attribute_length: len,
                    classes: xs,
                },
                (2 + k) as nat,
            )),
        }
    }
}

/// The line-number table of a code body.
pub open spec fn sp_attr_line_number_table(s: Seq<u8>, pos: int, ni: u16, len: u32) -> Result<(AttrV, nat), ClassFileParseError> {
    if !can_read(s, pos, 2) {
        Err(ClassFileParseError::UnexpectedEOF)
    } else {
        match sp_lnt_list(s, pos + 2, sp_u16(s, pos) as nat) {
            Err(e) => Err(e),
            Ok((xs, k)) => Ok((
                AttrV::LineNumberTable {
                    attribute_name_index: ni,
                    attribute_length: len,
                    line_number_table: xs,
                },
                (2 + k) as nat,
            )),
        }
    }
}

/// The local-variable table of a code body.
pub open spec fn sp_attr_local_variable_table(s: Seq<u8>, pos: int, ni: u16, len: u32) -> Result<(AttrV, nat), ClassFileParseError> {
    if !can_read(s, pos, 2) {
        Err(ClassFileParseError::UnexpectedEOF)
    } else {
        match sp_lvt_list(s, pos + 2, sp_u16(s, pos) as nat) {
            Err(e) => Err(e),
            Ok((xs, k)) => Ok((
                AttrV::LocalVariableTable {
                    attribute_name_index: ni,
                    attribute_length: len,
                    local_variable_table: xs,
                },
                (2 + k) as nat,
            )),
        }
    }
}

/// The local-variable generics table of a code body.
pub open spec fn sp_attr_local_variable_type_table(s: Seq<u8>, pos: int, ni: u16, len: u32) -> Result<(AttrV, nat), ClassFileParseError> {
    if !can_read(s, pos, 2) {
        Err(ClassFileParseError::UnexpectedEOF)
    } else {
        match sp_lvtt_list(s, pos + 2, sp_u16(s, pos) as nat) {
            Err(e) => Err(e),
            Ok((xs, k)) => Ok((
                AttrV::LocalVariableTypeTable {
                    attribute_name_index: ni,
                    attribute_length: len,
                    local_variable_type_table: xs,
                },
                (2 + k) as nat,
            )),
        }
    }
}

/// The bootstrap-method table for dynamic call sites.
pub open spec fn sp_attr_bootstrap_methods(s: Seq<u8>, pos: int, ni: u16, len: u32) -> Result<(AttrV, nat), ClassFileParseError> {
    if !can_read(s, pos, 2) {
        Err(ClassFileParseError::UnexpectedEOF)
    } else {
        match sp_bootstrap_method_list(s, pos + 2, sp_u16(s, pos) as nat) {
            Err(e) => Err(e),
            Ok((xs, k)) => Ok((
                AttrV::BootstrapMethods {
                    attribute_name_index: ni,
                    attribute_length: len,
                    bootstrap_methods: xs,
                },
                (2 + k) as nat,
            )),
        }
    }
}

/// The declared method parameters; the count is one byte.
pub open spec fn sp_attr_method_parameters(s: Seq<u8>, pos: int, ni: u16, len: u32) -> Result<(AttrV, nat), ClassFileParseError> {
    if !can_read(s, pos, 1) {
        Err(ClassFileParseError::UnexpectedEOF)
    } else {
        match sp_method_parameter_list(s, pos + 1, sp_u8(s, pos) as nat) {
            Err(e) => Err(e),
            Ok((xs, k)) => Ok((
                AttrV::MethodParameters {
                    attribute_name_index: ni,
                    attribute_length: len,
                    parameters: xs,
                },
                (1 + k) as nat,
            )),
        }
    }
}

/// The packages of a module.
pub open spec fn sp_attr_module_packages(s: Seq<u8>, pos: int, ni: u16, len: u32) -> Result<(AttrV, nat), ClassFileParseError> {
    if !can_read(s, pos, 2) {
        Err(ClassFileParseError::UnexpectedEOF)
    } else {
        match sp_u16_list(s, pos + 2, sp_u16(s, pos) as nat) {
            Err(e) => Err(e),
            Ok((xs, k)) => Ok((
                AttrV::ModulePackages {
                    attribute_name_index: ni,
                    attribute_length: len,
                    package_index: xs,
                },
                (2 + k) as nat,
            )),
        }
    }
}

/// The members of this class's nest.
pub open spec fn sp_attr_nest_members(s: Seq<u8>, pos: int, ni: u16, len: u32) -> Result<(AttrV, nat), ClassFileParseError> {
    if !can_read(s, pos, 2) {
        Err(ClassFileParseError::UnexpectedEOF)
    } else {
        match sp_u16_list(s, pos + 2, sp_u16(s, pos) as nat) {
            Err(e) => Err(e),
            Ok((xs, k)) => Ok((
                AttrV::NestMembers {
                    attribute_name_index: ni,
                    attribute_length: len,
                    classes: xs,
                },
                (2 + k) as nat,
            )),
        }
    }
}

/// The classes permitted to extend a sealed class.
pub open spec fn sp_attr_permitted_subclasses(s: Seq<u8>, pos: int, ni: u16, len: u32) -> Result<(AttrV, nat), ClassFileParseError> {
    if !can_read(s, pos, 2) {
        Err(ClassFileParseError::UnexpectedEOF)
    } else {
        match sp_u16_list(s, pos + 2, sp_u16(s, pos) as nat) {
            Err(e) => Err(e),
            Ok((xs, k)) => Ok((
                AttrV::PermittedSubclasses {
                    attribute_name_index: ni,
                    attribute_length: len,
                    classes: xs,
                },
                (2 + k) as nat,
            )),
        }
    }
}

/// A counted annotation table.
pub open spec fn sp_attr_rva(s: Seq<u8>, pos: int, ni: u16, len: u32) -> Result<(AttrV, nat), ClassFileParseError> {
    if !can_read(s, pos, 2) {
        Err(ClassFileParseError::UnexpectedEOF)
    } else {
        match sp_annotation_list(s, pos + 2, sp_u16(s, pos) as nat) {
            Err(e) => Err(e),
            Ok((xs, k)) => Ok((
                AttrV::RuntimeVisibleAnnotations {
                    attribute_name_index: ni,
                    attribute_length: len,
                    annotations: xs,
                },
                (2 + k) as nat,
            )),
        }
    }
}

/// A counted annotation table.
pub open spec fn sp_attr_ria(s: Seq<u8>, pos: int, ni: u16, len: u32) -> Result<(AttrV, nat), ClassFileParseError> {
    if !can_read(s, pos, 2) {
        Err(ClassFileParseError::UnexpectedEOF)
    } else {
        match sp_annotation_list(s, pos + 2, sp_u16(s, pos) as nat) {
            Err(e) => Err(e),
            Ok((xs, k)) => Ok((
                AttrV::RuntimeInvisibleAnnotations {
                    attribute_name_index: ni,
                    attribute_length: len,
                    annotations: xs,
                },
                (2 + k) as nat,
            )),
        }
    }
}

/// A per-parameter annotation table; the parameter count is one byte.
pub open spec fn sp_attr_rvpa(s: Seq<u8>, pos: int, ni: u16, len: u32) -> Result<(AttrV, nat), ClassFileParseError> {
    if !can_read(s, pos, 1) {
        Err(ClassFileParseError::UnexpectedEOF)
    } else {
        match sp_param_annotation_list(s, pos + 1, sp_u8(s, pos) as nat) {
            Err(e) => Err(e),
            Ok((xs, k)) => Ok((
                AttrV::RuntimeVisibleParameterAnnotations {
                    attribute_name_index: ni,
                    attribute_length: len,
                    parameter_annotations: xs,
                },
                (1 + k) as nat,
            )),
        }
    }
}

/// A per-parameter annotation table; the parameter count is one byte.
pub open spec fn sp_attr_ripa(s: Seq<u8>, pos: int, ni: u16, len: u32) -> Result<(AttrV, nat), ClassFileParseError> {
    if !can_read(s, pos, 1) {
        Err(ClassFileParseError::UnexpectedEOF)
    } else {
        match sp_param_annotation_list(s, pos + 1, sp_u8(s, pos) as nat) {
            Err(e) => Err(e),
            Ok((xs, k)) => Ok((
                AttrV::RuntimeInvisibleParameterAnnotations {
                    attribute_name_index: ni,
                    attribute_length: len,
                    parameter_annotations: xs,
                },
                (1 + k) as nat,
            )),
        }
    }
}

/// A counted type-annotation table.
pub open spec fn sp_attr_rvta(s: Seq<u8>, pos: int, ni: u16, len: u32) -> Result<(AttrV, nat), ClassFileParseError> {
    if !can_read(s, pos, 2) {
        Err(ClassFileParseError::UnexpectedEOF)
    } else {
        match sp_type_annotation_list(s, pos + 2, sp_u16(s, pos) as nat) {
            Err(e) => Err(e),
            Ok((xs, k)) => Ok((
                AttrV::RuntimeVisibleTypeAnnotations {
                    attribute_name_index: ni,
                    attribute_length: len,
                    annotations: xs,
                },
                (2 + k) as nat,
            )),
        }
    }
}

/// A counted type-annotation table.
pub open spec fn sp_attr_rita(s: Seq<u8>, pos: int, ni: u16, len: u32) -> Result<(AttrV, nat), ClassFileParseError> {
    if !can_read(s, pos, 2) {
        Err(ClassFileParseError::UnexpectedEOF)
    } else {
        match sp_type_annotation_list(s, pos + 2, sp_u16(s, pos) as nat) {
            Err(e) => Err(e),
            Ok((xs, k)) => Ok((
                AttrV::RuntimeInvisibleTypeAnnotations {
                    attribute_name_index: ni,
                    attribute_length: len,
                    annotations: xs,
                },
                (2 + k) as nat,
            )),
        }
    }
}

/// The default value of an annotation interface member.
pub open spec fn sp_attr_annotation_default(s: Seq<u8>, pos: int, ni: u16, len: u32) -> Result<(AttrV, nat), ClassFileParseError> {
    match sp_element_value(s, pos) {
        Err(e) => Err(e),
        Ok((v, k)) => Ok((
            AttrV::AnnotationDefault {
                attribute_name_index: ni,
                attribute_length: len,
                default_value: v,
            },
            k,
        )),
    }
}

/// The module definition: name, flags and version, then five counted tables.
pub open spec fn sp_attr_module(s: Seq<u8>, pos: int, ni: u16, len: u32) -> Result<(AttrV, nat), ClassFileParseError> {
    if !can_read(s, pos, 8) {
        Err(ClassFileParseError::UnexpectedEOF)
    } else {
        match sp_module_requires_list(s, pos + 8, sp_u16(s, pos + 6) as nat) {
            Err(e) => Err(e),
            Ok((reqs, ka)) => sp_attr_module_mid(s, pos, ni, len, reqs, pos + 8 + ka),
        }
    }
}

/// The exports and opens tables of a module definition.
pub open spec fn sp_attr_module_mid(
    s: Seq<u8>,
    pos: int,
    ni: u16,
    len: u32,
    reqs: Seq<ModuleRequires>,
    p1: int,
) -> Result<(AttrV, nat), ClassFileParseError> {
    if !can_read(s, p1, 2) {
        Err(ClassFileParseError::UnexpectedEOF)
    } else {
        match sp_module_exports_list(s, p1 + 2, sp_u16(s, p1) as nat) {
            Err(e) => Err(e),
            Ok((exps, kb)) => {
                let p2 = p1 + 2 + kb;
                if !can_read(s, p2, 2) {
                    Err(ClassFileParseError::UnexpectedEOF)
                } else {
                    match sp_module_opens_list(s, p2 + 2, sp_u16(s, p2) as nat) {
                        Err(e) => Err(e),
                        Ok((ops, kc)) => sp_attr_module_tail(
                            s, pos, ni, len, reqs, exps, ops, p2 + 2 + kc,
                        ),
                    }
                }
            },
        }
    }
}

/// The uses and provides tables of a module definition, then the assembly.
pub open spec fn sp_attr_module_tail(
    s: Seq<u8>,
    pos: int,
    ni: u16,
    len: u32,
    reqs: Seq<ModuleRequires>,
    exps: Seq<ModuleExportsV>,
    ops: Seq<ModuleOpensV>,
    p3: int,
) -> Result<(AttrV, nat), ClassFileParseError> {
    if !can_read(s, p3, 2) {
        Err(ClassFileParseError::UnexpectedEOF)
    } else {
        match sp_u16_list(s, p3 + 2, sp_u16(s, p3) as nat) {
            Err(e) => Err(e),
            Ok((uses, kd)) => {
                let p4 = p3 + 2 + kd;
                if !can_read(s, p4, 2) {
                    Err(ClassFileParseError::UnexpectedEOF)
                } else {
                    match sp_module_provides_list(s, p4 + 2, sp_u16(s, p4) as nat) {
                        Err(e) => Err(e),
                        Ok((provs, ke)) => Ok((
                            AttrV::Module {
                                attribute_name_index: ni,
                                attribute_length: len,
                                module_name_index: sp_u16(s, pos),
                                module_flags: flags::ModuleFlags::sp_from_bits(sp_u16(s, pos + 2)),
                                module_version_index: sp_u16(s, pos + 4),
                                requires_entries: reqs,
                                exports: exps,
                                opens: ops,
                                uses_index: uses,
                                provides: provs,
                            },
                            (p4 + 2 + ke - pos) as nat,
                        )),
                    }
                }
            },
        }
    }
}

// The attribute tree itself is mutually recursive: a code body and a record
// component both carry nested attribute lists. Each level of nesting sits
// behind a six-byte header, so the remaining input shrinks.

/// A code body: sizes, the instruction bytes, the exception table, then the
/// nested attribute list.
pub open spec fn sp_attr_code(s: Seq<u8>, pos: int, ni: u16, len: u32, cp: Seq<CpInfoV>) -> Result<(AttrV, nat), ClassFileParseError>
    decreases s.len() - pos, 0int, 1int,
{
    if !can_read(s, pos, 8) {
        Err(ClassFileParseError::UnexpectedEOF)
    } else if !can_read(s, pos + 8, sp_u32(s, pos + 4) as int) {
        Err(ClassFileParseError::UnexpectedEOF)
    } else {
        let cl = sp_u32(s, pos + 4) as int;
        let p1 = pos + 8 + cl;
        if !can_read(s, p1, 2) {
            Err(ClassFileParseError::UnexpectedEOF)
        } else {
            match sp_ete_list(s, p1 + 2, sp_u16(s, p1) as nat) {
                Err(e) => Err(e),
                Ok((ets, ka)) => sp_attr_code_tail(s, pos, ni, len, cp, ets, p1 + 2 + ka),
            }
        }
    }
}

/// The nested attribute list of a code body, then the assembly.
pub open spec fn sp_attr_code_tail(
    s: Seq<u8>,
    pos: int,
    ni: u16,
    len: u32,
    cp: Seq<CpInfoV>,
    ets: Seq<ExceptionTableEntry>,
    p2: int,
) -> Result<(AttrV, nat), ClassFileParseError>
    decreases s.len() - pos, 0int, 0int,
{
    if !(pos + 8 <= p2 <= s.len()) {
        Err(ClassFileParseError::UnexpectedEOF)
    } else if !can_read(s, p2, 2) {
        Err(ClassFileParseError::UnexpectedEOF)
    } else {
        match sp_attr_list(s, p2 + 2, sp_u16(s, p2) as nat, cp) {
            Err(e) => Err(e),
            Ok((ats, kb)) => Ok((
                AttrV::Code {
                    attribute_name_index: ni,
                    attribute_length: len,
                    max_stack: sp_u16(s, pos),
                    max_locals: sp_u16(s, pos + 2),
                    code_length: sp_u32(s, pos + 4),
                    code: s.subrange(pos + 8, pos + 8 + sp_u32(s, pos + 4) as int),
                    exception_table: ets,
                    attributes: ats,
                },
                (p2 + 2 + kb - pos) as nat,
            )),
        }
    }
}

/// One record component: name and descriptor, then nested attributes.
pub open spec fn sp_record_component(s: Seq<u8>, pos: int, cp: Seq<CpInfoV>) -> Result<(RecordComponentInfoV, nat), ClassFileParseError>
    decreases s.len() - pos, 0int, 1int,
{
    if !can_read(s, pos, 6) {
        Err(ClassFileParseError::UnexpectedEOF)
    } else {
        match sp_attr_list(s, pos + 6, sp_u16(s, pos + 4) as nat, cp) {
            Err(e) => Err(e),
            Ok((ats, k)) => Ok((
                RecordComponentInfoV {
                    name_index: sp_u16(s, pos),
                    descriptor_index: sp_u16(s, pos + 2),
                    attributes: ats,
                },
                (6 + k) as nat,
            )),
        }
    }
}

pub open spec fn sp_rc_list(s: Seq<u8>, pos: int, n: nat, cp: Seq<CpInfoV>) -> Result<(Seq<RecordComponentInfoV>, nat), ClassFileParseError>
    decreases s.len() - pos, n, 2int,
{
    if n == 0 {
        Ok((Seq::empty(), 0))
    } else {
        match sp_record_component(s, pos, cp) {
            Err(e) => Err(e),
            Ok((x, k)) => {
                if pos + k <= s.len() {
                    match sp_rc_list(s, pos + k, (n - 1) as nat, cp) {
                        Err(e) => Err(e),
                        Ok((xs, k2)) => Ok((seq![x] + xs, (k + k2) as nat)),
                    }
                } else {
                    Err(ClassFileParseError::UnexpectedEOF)
                }
            },
        }
    }
}

/// The record components of a record class.
pub open spec fn sp_attr_record(s: Seq<u8>, pos: int, ni: u16, len: u32, cp: Seq<CpInfoV>) -> Result<(AttrV, nat), ClassFileParseError>
    decreases s.len() - pos, 0int, 3int,
{
    if !can_read(s, pos, 2) {
        Err(ClassFileParseError::UnexpectedEOF)
    } else {
        match sp_rc_list(s, pos + 2, sp_u16(s, pos) as nat, cp) {
            Err(e) => Err(e),
            Ok((cs, k)) => Ok((
                AttrV::Record {
                    attribute_name_index: ni,
                    attribute_length: len,
                    components: cs,
                },
                (2 + k) as nat,
            )),
        }
    }
}

/// The payload of one known attribute, dispatched on its canonical name.
pub open spec fn sp_known_attr(s: Seq<u8>, pos: int, name: AttrName, ni: u16, len: u32, cp: Seq<CpInfoV>) -> Result<(AttrV, nat), ClassFileParseError>
    decreases s.len() - pos, 0int, 4int,
{
    match name {
        AttrName::ConstantValue => sp_attr_constant_value(s, pos, ni, len),
        AttrName::Code => sp_attr_code(s, pos, ni, len, cp),
        AttrName::StackMapTable => sp_attr_stack_map_table(s, pos, ni, len),
        AttrName::Exceptions => sp_attr_exceptions(s, pos, ni, len),
        AttrName::InnerClasses => sp_attr_inner_classes(s, pos, ni, len),
        AttrName::EnclosingMethod => sp_attr_enclosing_method(s, pos, ni, len),
        AttrName::Synthetic => Ok((
            AttrV::Synthetic { attribute_name_index: ni, attribute_length: len },
            0,
        )),
        AttrName::Signature => sp_attr_signature(s, pos, ni, len),
        AttrName::SourceFile => sp_attr_source_file(s, pos, ni, len),
        AttrName::SourceDebugExtension => sp_attr_source_debug_extension(s, pos, ni, len),
        AttrName::LineNumberTable => sp_attr_line_number_table(s, pos, ni, len),
        AttrName::LocalVariableTable => sp_attr_local_variable_table(s, pos, ni, len),
        AttrName::LocalVariableTypeTable => sp_attr_local_variable_type_table(s, pos, ni, len),
        AttrName::Deprecated => Ok((
            AttrV::Deprecated { attribute_name_index: ni, attribute_length: len },
            0,
        )),
        AttrName::RuntimeVisibleAnnotations => sp_attr_rva(s, pos, ni, len),
        AttrName::RuntimeInvisibleAnnotations => sp_attr_ria(s, pos, ni, len),
        AttrName::RuntimeVisibleParameterAnnotations => sp_attr_rvpa(s, pos, ni, len),
        AttrName::RuntimeInvisibleParameterAnnotations => sp_attr_ripa(s, pos, ni, len),
        AttrName::RuntimeVisibleTypeAnnotations => sp_attr_rvta(s, pos, ni, len),
        AttrName::RuntimeInvisibleTypeAnnotations => sp_attr_rita(s, pos, ni, len),
        AttrName::AnnotationDefault => sp_attr_annotation_default(s, pos, ni, len),
        AttrName::BootstrapMethods => sp_attr_bootstrap_methods(s, pos, ni, len),
        AttrName::MethodParameters => sp_attr_method_parameters(s, pos, ni, len),
        AttrName::Module => sp_attr_module(s, pos, ni, len),
        AttrName::ModulePackages => sp_attr_module_packages(s, pos, ni, len),
        AttrName::ModuleMainClass => sp_attr_module_main_class(s, pos, ni, len),
        AttrName::NestHost => sp_attr_nest_host(s, pos, ni, len),
        AttrName::NestMembers => sp_attr_nest_members(s, pos, ni, len),
        AttrName::Record => sp_attr_record(s, pos, ni, len, cp),
        AttrName::PermittedSubclasses => sp_attr_permitted_subclasses(s, pos, ni, len),
        AttrName::Unknown => Err(ClassFileParseError::InvalidAttributeNameIndex),
    }
}

/// One attribute: its name index must resolve, through the pool's slot
/// indexing, to a byte-string entry. A name in the canonical table selects a
/// shape; any other name is skipped by consuming exactly the declared length,
/// and the attribute is omitted from the produced tree.
pub open spec fn sp_attribute(s: Seq<u8>, pos: int, cp: Seq<CpInfoV>) -> Result<(Option<AttrV>, nat), ClassFileParseError>
    decreases s.len() - pos, 0int, 5int,
{
    if !can_read(s, pos, 6) {
        Err(ClassFileParseError::UnexpectedEOF)
    } else {
        let ni = sp_u16(s, pos);
        let len = sp_u32(s, pos + 2);
        match sp_slot_get(cp, ni) {
            Some(CpInfoV::Utf8Info { length: _, bytes }) => {
                let name = sp_attr_name(bytes);
                if name is Unknown {
                    if can_read(s, pos + 6, len as int) {
                        Ok((None, (6 + len) as nat))
                    } else {
                        Err(ClassFileParseError::UnexpectedEOF)
                    }
                } else {
                    match sp_known_attr(s, pos + 6, name, ni, len, cp) {
                        Err(e) => Err(e),
                        Ok((a, k)) => Ok((Some(a), (6 + k) as nat)),
                    }
                }
            },
            _ => Err(ClassFileParseError::InvalidAttributeNameIndex),
        }
    }
}

/// A counted attribute list; skipped attributes leave no trace in the result.
pub open spec fn sp_attr_list(s: Seq<u8>, pos: int, n: nat, cp: Seq<CpInfoV>) -> Result<(Seq<AttrV>, nat), ClassFileParseError>
    decreases s.len() - pos, n, 6int,
{
    if n == 0 {
        Ok((Seq::empty(), 0))
    } else {
        match sp_attribute(s, pos, cp) {
            Err(e) => Err(e),
            Ok((x, k)) => {
                if pos + k <= s.len() {
                    match sp_attr_list(s, pos + k, (n - 1) as nat, cp) {
                        Err(e) => Err(e),
                        Ok((xs, k2)) => {
                            let head = match x {
                                Some(a) => seq![a],
                                None => Seq::<AttrV>::empty(),
                            };
                            Ok((head + xs, (k + k2) as nat))
                        },
                    }
                } else {
                    Err(ClassFileParseError::UnexpectedEOF)
                }
            },
        }
    }
}

/// One field: flags, name, descriptor, then its attributes.
pub open spec fn sp_field_info(s: Seq<u8>, pos: int, cp: Seq<CpInfoV>) -> Result<(FieldInfoV, nat), ClassFileParseError> {
    if !can_read(s, pos, 8) {
        Err(ClassFileParseError::UnexpectedEOF)
    } else {
        match sp_attr_list(s, pos + 8, sp_u16(s, pos + 6) as nat, cp) {
            Err(e) => Err(e),
            Ok((ats, k)) => Ok((
                FieldInfoV {
                    access_flags: flags::FieldAccessFlags::sp_from_bits(sp_u16(s, pos)),
                    name_index: sp_u16(s, pos + 2),
                    descriptor_index: sp_u16(s, pos + 4),
                    attributes: ats,
                },
                (8 + k) as nat,
            )),
        }
    }
}

pub open spec fn sp_fi_list(s: Seq<u8>, pos: int, n: nat, cp: Seq<CpInfoV>) -> Result<(Seq<FieldInfoV>, nat), ClassFileParseError>
    decreases n,
{
    if n == 0 {
        Ok((Seq::empty(), 0))
    } else {
        match sp_field_info(s, pos, cp) {
            Err(e) => Err(e),
            Ok((x, k)) => match sp_fi_list(s, pos + k, (n - 1) as nat, cp) {
                Err(e) => Err(e),
                Ok((xs, k2)) => Ok((seq![x] + xs, (k + k2) as nat)),
            },
        }
    }
}

/// One method: flags, name, descriptor, then its attributes.
pub open spec fn sp_method_info(s: Seq<u8>, pos: int, cp: Seq<CpInfoV>) -> Result<(MethodInfoV, nat), ClassFileParseError> {
    if !can_read(s, pos, 8) {
        Err(ClassFileParseError::UnexpectedEOF)
    } else {
        match sp_attr_list(s, pos + 8, sp_u16(s, pos + 6) as nat, cp) {
            Err(e) => Err(e),
            Ok((ats, k)) => Ok((
                MethodInfoV {
                    access_flags: flags::MethodAccessFlags::sp_from_bits(sp_u16(s, pos)),
                    name_index: sp_u16(s, pos + 2),
                    descriptor_index: sp_u16(s, pos + 4),
                    attributes: ats,
                },
                (8 + k) as nat,
            )),
        }
    }
}

pub open spec fn sp_mi_list(s: Seq<u8>, pos: int, n: nat, cp: Seq<CpInfoV>) -> Result<(Seq<MethodInfoV>, nat), ClassFileParseError>
    decreases n,
{
    if n == 0 {
        Ok((Seq::empty(), 0))
    } else {
        match sp_method_info(s, pos, cp) {
            Err(e) => Err(e),
            Ok((x, k)) => match sp_mi_list(s, pos + k, (n - 1) as nat, cp) {
                Err(e) => Err(e),
                Ok((xs, k2)) => Ok((seq![x] + xs, (k + k2) as nat)),
            },
        }
    }
}

/// Everything after the constant pool: flags, self and super references, the
/// interface list, fields, methods, and the class-level attributes.
pub open spec fn sp_class_tail(s: Seq<u8>, pos: int, cp: Seq<CpInfoV>) -> Result<(ClassFileV, nat), ClassFileParseError> {
    if !can_read(s, pos, 8) {
        Err(ClassFileParseError::UnexpectedEOF)
    } else {
        match sp_u16_list(s, pos + 8, sp_u16(s, pos + 6) as nat) {
            Err(e) => Err(e),
            Ok((ifs, ka)) => {
                let p1 = pos + 8 + ka;
                if !can_read(s, p1, 2) {
                    Err(ClassFileParseError::UnexpectedEOF)
                } else {
                    match sp_fi_list(s, p1 + 2, sp_u16(s, p1) as nat, cp) {
                        Err(e) => Err(e),
                        Ok((fis, kb)) => sp_class_tail_methods(s, pos, cp, ifs, fis, p1 + 2 + kb),
                    }
                }
            },
        }
    }
}

/// The method list and class-level attributes, then the assembled value.
pub open spec fn sp_class_tail_methods(
    s: Seq<u8>,
    pos: int,
    cp: Seq<CpInfoV>,
    ifs: Seq<u16>,
    fis: Seq<FieldInfoV>,
    p2: int,
) -> Result<(ClassFileV, nat), ClassFileParseError> {
    if !can_read(s, p2, 2) {
        Err(ClassFileParseError::UnexpectedEOF)
    } else {
        match sp_mi_list(s, p2 + 2, sp_u16(s, p2) as nat, cp) {
            Err(e) => Err(e),
            Ok((mis, kc)) => {
                let p3 = p2 + 2 + kc;
                if !can_read(s, p3, 2) {
                    Err(ClassFileParseError::UnexpectedEOF)
                } else {
                    match sp_attr_list(s, p3 + 2, sp_u16(s, p3) as nat, cp) {
                        Err(e) => Err(e),
                        Ok((ats, kd)) => Ok((
                            ClassFileV {
                                magic: 0xCAFEBABE,
                                minor_version: sp_u16(s, 4),
                                major_version: sp_u16(s, 6),
                                cp_info: cp,
                                access_flags: flags::ClassAccessFlags::sp_from_bits(sp_u16(s, pos)),
                                this_class: sp_u16(s, pos + 2),
                                super_class: sp_u16(s, pos + 4),
                                interfaces: ifs,
                                fields: fis,
                                methods: mis,
                                attributes: ats,
                            },
                            (p3 + 2 + kd - pos) as nat,
                        )),
                    }
                }
            },
        }
    }
}

/// A whole class file, from its first byte. The magic number is checked
/// before anything else; the constant pool is parsed next, because every
/// later attribute resolves its name through it.
pub open spec fn sp_class_file(s: Seq<u8>) -> Result<(ClassFileV, nat), ClassFileParseError> {
    if !can_read(s, 0, 4) {
        Err(ClassFileParseError::UnexpectedEOF)
    } else if sp_u32(s, 0) != 0xCAFEBABE {
        Err(ClassFileParseError::InvalidMagicValue)
    } else if !can_read(s, 4, 6) {
        Err(ClassFileParseError::UnexpectedEOF)
    } else {
        let count = sp_u16(s, 8);
        let slots: nat = if count == 0 { 0nat } else { (count - 1) as nat };
        match sp_cp_entries(s, 10, slots) {
            Err(e) => Err(e),
            Ok((cp, k)) => match sp_class_tail(s, 10 + k as int, cp) {
                Err(e) => Err(e),
                Ok((cf, k2)) => Ok((cf, (10 + k + k2) as nat)),
            },
        }
    }
}

} // verus!
