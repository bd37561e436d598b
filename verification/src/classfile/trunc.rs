use vstd::prelude::*;

use crate::classfile::err::ClassFileParseError;
use crate::classfile::grammar::{
    sp_annotation, sp_annotation_list, sp_attr_annotation_default, sp_attr_bootstrap_methods,
    sp_attr_code, sp_attr_code_tail, sp_attr_constant_value, sp_attr_enclosing_method,
    sp_attr_exceptions, sp_attr_inner_classes, sp_attr_line_number_table, sp_attr_list,
    sp_attr_local_variable_table, sp_attr_local_variable_type_table, sp_attr_method_parameters,
    sp_attr_module, sp_attr_module_main_class, sp_attr_module_mid, sp_attr_module_packages,
    sp_attr_module_tail, sp_attr_nest_host, sp_attr_nest_members, sp_attr_permitted_subclasses,
    sp_attr_record, sp_attr_ria, sp_attr_ripa, sp_attr_rita, sp_attr_rva, sp_attr_rvpa,
    sp_attr_rvta, sp_attr_signature, sp_attr_source_debug_extension, sp_attr_source_file,
    sp_attr_stack_map_table, sp_attribute, sp_bootstrap_method, sp_bootstrap_method_list,
    sp_class_file, sp_class_tail, sp_class_tail_methods, sp_cp_class, sp_cp_double,
    sp_cp_dynamic, sp_cp_entries, sp_cp_fieldref, sp_cp_float, sp_cp_info, sp_cp_integer,
    sp_cp_interface_methodref, sp_cp_invoke_dynamic, sp_cp_long, sp_cp_method_handle,
    sp_cp_method_type, sp_cp_methodref, sp_cp_module, sp_cp_name_and_type, sp_cp_package,
    sp_cp_string, sp_cp_utf8, sp_element_value, sp_ete_list, sp_ev_list, sp_ev_pair,
    sp_ev_pair_list, sp_exception_table_entry, sp_fi_list, sp_field_info, sp_inner_class,
    sp_inner_class_list, sp_known_attr, sp_line_number_entry, sp_lnt_list,
    sp_local_var_target_entry, sp_local_variable_entry, sp_local_variable_type_entry,
    sp_lvt_list, sp_lvtar_list, sp_lvtt_list, sp_method_info, sp_method_parameter,
    sp_method_parameter_list, sp_mi_list, sp_module_exports, sp_module_exports_list,
    sp_module_opens, sp_module_opens_list, sp_module_provides, sp_module_provides_list,
    sp_module_requires, sp_module_requires_list, sp_param_anno_item, sp_param_annotation_list,
    sp_path_entry, sp_path_list, sp_rc_list, sp_record_component, sp_smf_chop, sp_smf_append,
    sp_smf_full, sp_smf_list, sp_smf_same_ext, sp_smf_same_locals_one,
    sp_smf_same_locals_one_ext, sp_stack_map_frame, sp_target_info, sp_type_annotation,
    sp_type_annotation_list, sp_type_path, sp_u16_list, sp_verification_type, sp_vti_list,
};
use crate::classfile::names::AttrName;
use crate::classfile::pool::sp_slot_get;
use crate::classfile::reader::{can_read, sp_u16, sp_u32, sp_u8};
use crate::classfile::types::{
    AnnotationV, AttrV, BootstrapMethodV, ClassFileV, CpInfoV, ElementValuePairV, ElementValueV,
    ExceptionTableEntry, FieldInfoV, InnerClass, LineNumberTableEntry, LocalVarTargetTableEntry,
    LocalVariableTableEntry, LocalVariableTypeTableEntry, MethodInfoV, MethodParameter,
    ModuleExportsV, ModuleOpensV, ModuleProvidesV, ModuleRequires, Path, RecordComponentInfoV,
    StackMapFrameV, TargetInfoV, TypeAnnotationV, TypePathV, VerificationTypeInfo,
};

verus! {

// Truncation: cutting a valid stream short at any byte boundary before its
// logical end turns the parse into `UnexpectedEOF`, never a panic and never
// a different value. The lemmas here say this for every record shape of the
// grammar, by one induction that mirrors the grammar itself: every decision
// a parser takes before the cut reads only bytes before the cut, so it goes
// the same way, and the first read past the cut fails as end-of-input.

/// What cutting does to one record's parse: a record that ends at or before
/// the cut parses identically; one that reaches past it hits end-of-input.
pub open spec fn sp_cut_to<T>(
    full: Result<(T, nat), ClassFileParseError>,
    cut: Result<(T, nat), ClassFileParseError>,
    pos: int,
    m: int,
) -> bool {
    match full {
        Ok((v, k)) => if pos + k <= m {
            cut == full
        } else {
            cut == Err::<(T, nat), ClassFileParseError>(ClassFileParseError::UnexpectedEOF)
        },
        Err(_) => true,
    }
}

proof fn lemma_take_eq(s: Seq<u8>, m: int)
    requires
        0 <= m <= s.len(),
    ensures
        s.take(m).len() == m,
        forall|i: int| 0 <= i < m ==> #[trigger] s.take(m)[i] == s[i],
{
}

proof fn lemma_take_subrange(s: Seq<u8>, m: int, a: int, b: int)
    requires
        0 <= a <= b <= m <= s.len(),
    ensures
        s.take(m).subrange(a, b) == s.subrange(a, b),
{
    assert(s.take(m).subrange(a, b) =~= s.subrange(a, b));
}

proof fn trunc_exception_table_entry(s: Seq<u8>, m: int, pos: int)
    requires
        0 <= pos <= m <= s.len(),
    ensures
        sp_cut_to::<ExceptionTableEntry>(sp_exception_table_entry(s, pos), sp_exception_table_entry(s.take(m), pos), pos, m),
{
    lemma_take_eq(s, m);
}

proof fn trunc_line_number_entry(s: Seq<u8>, m: int, pos: int)
    requires
        0 <= pos <= m <= s.len(),
    ensures
        sp_cut_to::<LineNumberTableEntry>(sp_line_number_entry(s, pos), sp_line_number_entry(s.take(m), pos), pos, m),
{
    lemma_take_eq(s, m);
}

proof fn trunc_local_variable_entry(s: Seq<u8>, m: int, pos: int)
    requires
        0 <= pos <= m <= s.len(),
    ensures
        sp_cut_to::<LocalVariableTableEntry>(sp_local_variable_entry(s, pos), sp_local_variable_entry(s.take(m), pos), pos, m),
{
    lemma_take_eq(s, m);
}

proof fn trunc_local_variable_type_entry(s: Seq<u8>, m: int, pos: int)
    requires
        0 <= pos <= m <= s.len(),
    ensures
        sp_cut_to::<LocalVariableTypeTableEntry>(sp_local_variable_type_entry(s, pos), sp_local_variable_type_entry(s.take(m), pos), pos, m),
{
    lemma_take_eq(s, m);
}

proof fn trunc_inner_class(s: Seq<u8>, m: int, pos: int)
    requires
        0 <= pos <= m <= s.len(),
    ensures
        sp_cut_to::<InnerClass>(sp_inner_class(s, pos), sp_inner_class(s.take(m), pos), pos, m),
{
    lemma_take_eq(s, m);
}

proof fn trunc_local_var_target_entry(s: Seq<u8>, m: int, pos: int)
    requires
        0 <= pos <= m <= s.len(),
    ensures
        sp_cut_to::<LocalVarTargetTableEntry>(sp_local_var_target_entry(s, pos), sp_local_var_target_entry(s.take(m), pos), pos, m),
{
    lemma_take_eq(s, m);
}

proof fn trunc_method_parameter(s: Seq<u8>, m: int, pos: int)
    requires
        0 <= pos <= m <= s.len(),
    ensures
        sp_cut_to::<MethodParameter>(sp_method_parameter(s, pos), sp_method_parameter(s.take(m), pos), pos, m),
{
    lemma_take_eq(s, m);
}

proof fn trunc_module_requires(s: Seq<u8>, m: int, pos: int)
    requires
        0 <= pos <= m <= s.len(),
    ensures
        sp_cut_to::<ModuleRequires>(sp_module_requires(s, pos), sp_module_requires(s.take(m), pos), pos, m),
{
    lemma_take_eq(s, m);
}

proof fn trunc_path_entry(s: Seq<u8>, m: int, pos: int)
    requires
        0 <= pos <= m <= s.len(),
    ensures
        sp_cut_to::<Path>(sp_path_entry(s, pos), sp_path_entry(s.take(m), pos), pos, m),
{
    lemma_take_eq(s, m);
}

proof fn trunc_verification_type(s: Seq<u8>, m: int, pos: int)
    requires
        0 <= pos <= m <= s.len(),
    ensures
        sp_cut_to::<VerificationTypeInfo>(sp_verification_type(s, pos), sp_verification_type(s.take(m), pos), pos, m),
{
    lemma_take_eq(s, m);
}

proof fn trunc_cp_integer(s: Seq<u8>, m: int, pos: int)
    requires
        0 <= pos <= m <= s.len(),
    ensures
        sp_cut_to::<CpInfoV>(sp_cp_integer(s, pos), sp_cp_integer(s.take(m), pos), pos, m),
{
    lemma_take_eq(s, m);
}

proof fn trunc_cp_float(s: Seq<u8>, m: int, pos: int)
    requires
        0 <= pos <= m <= s.len(),
    ensures
        sp_cut_to::<CpInfoV>(sp_cp_float(s, pos), sp_cp_float(s.take(m), pos), pos, m),
{
    lemma_take_eq(s, m);
}

proof fn trunc_cp_long(s: Seq<u8>, m: int, pos: int)
    requires
        0 <= pos <= m <= s.len(),
    ensures
        sp_cut_to::<CpInfoV>(sp_cp_long(s, pos), sp_cp_long(s.take(m), pos), pos, m),
{
    lemma_take_eq(s, m);
}

proof fn trunc_cp_double(s: Seq<u8>, m: int, pos: int)
    requires
        0 <= pos <= m <= s.len(),
    ensures
        sp_cut_to::<CpInfoV>(sp_cp_double(s, pos), sp_cp_double(s.take(m), pos), pos, m),
{
    lemma_take_eq(s, m);
}

proof fn trunc_cp_class(s: Seq<u8>, m: int, pos: int)
    requires
        0 <= pos <= m <= s.len(),
    ensures
        sp_cut_to::<CpInfoV>(sp_cp_class(s, pos), sp_cp_class(s.take(m), pos), pos, m),
{
    lemma_take_eq(s, m);
}

proof fn trunc_cp_string(s: Seq<u8>, m: int, pos: int)
    requires
        0 <= pos <= m <= s.len(),
    ensures
        sp_cut_to::<CpInfoV>(sp_cp_string(s, pos), sp_cp_string(s.take(m), pos), pos, m),
{
    lemma_take_eq(s, m);
}

proof fn trunc_cp_fieldref(s: Seq<u8>, m: int, pos: int)
    requires
        0 <= pos <= m <= s.len(),
    ensures
        sp_cut_to::<CpInfoV>(sp_cp_fieldref(s, pos), sp_cp_fieldref(s.take(m), pos), pos, m),
{
    lemma_take_eq(s, m);
}

proof fn trunc_cp_methodref(s: Seq<u8>, m: int, pos: int)
    requires
        0 <= pos <= m <= s.len(),
    ensures
        sp_cut_to::<CpInfoV>(sp_cp_methodref(s, pos), sp_cp_methodref(s.take(m), pos), pos, m),
{
    lemma_take_eq(s, m);
}

proof fn trunc_cp_interface_methodref(s: Seq<u8>, m: int, pos: int)
    requires
        0 <= pos <= m <= s.len(),
    ensures
        sp_cut_to::<CpInfoV>(sp_cp_interface_methodref(s, pos), sp_cp_interface_methodref(s.take(m), pos), pos, m),
{
    lemma_take_eq(s, m);
}

proof fn trunc_cp_name_and_type(s: Seq<u8>, m: int, pos: int)
    requires
        0 <= pos <= m <= s.len(),
    ensures
        sp_cut_to::<CpInfoV>(sp_cp_name_and_type(s, pos), sp_cp_name_and_type(s.take(m), pos), pos, m),
{
    lemma_take_eq(s, m);
}

proof fn trunc_cp_method_handle(s: Seq<u8>, m: int, pos: int)
    requires
        0 <= pos <= m <= s.len(),
    ensures
        sp_cut_to::<CpInfoV>(sp_cp_method_handle(s, pos), sp_cp_method_handle(s.take(m), pos), pos, m),
{
    lemma_take_eq(s, m);
}

proof fn trunc_cp_method_type(s: Seq<u8>, m: int, pos: int)
    requires
        0 <= pos <= m <= s.len(),
    ensures
        sp_cut_to::<CpInfoV>(sp_cp_method_type(s, pos), sp_cp_method_type(s.take(m), pos), pos, m),
{
    lemma_take_eq(s, m);
}

proof fn trunc_cp_dynamic(s: Seq<u8>, m: int, pos: int)
    requires
        0 <= pos <= m <= s.len(),
    ensures
        sp_cut_to::<CpInfoV>(sp_cp_dynamic(s, pos), sp_cp_dynamic(s.take(m), pos), pos, m),
{
    lemma_take_eq(s, m);
}

proof fn trunc_cp_invoke_dynamic(s: Seq<u8>, m: int, pos: int)
    requires
        0 <= pos <= m <= s.len(),
    ensures
        sp_cut_to::<CpInfoV>(sp_cp_invoke_dynamic(s, pos), sp_cp_invoke_dynamic(s.take(m), pos), pos, m),
{
    lemma_take_eq(s, m);
}

proof fn trunc_cp_module(s: Seq<u8>, m: int, pos: int)
    requires
        0 <= pos <= m <= s.len(),
    ensures
        sp_cut_to::<CpInfoV>(sp_cp_module(s, pos), sp_cp_module(s.take(m), pos), pos, m),
{
    lemma_take_eq(s, m);
}

proof fn trunc_cp_package(s: Seq<u8>, m: int, pos: int)
    requires
        0 <= pos <= m <= s.len(),
    ensures
        sp_cut_to::<CpInfoV>(sp_cp_package(s, pos), sp_cp_package(s.take(m), pos), pos, m),
{
    lemma_take_eq(s, m);
}

proof fn trunc_cp_utf8(s: Seq<u8>, m: int, pos: int)
    requires
        0 <= pos <= m <= s.len(),
    ensures
        sp_cut_to::<CpInfoV>(sp_cp_utf8(s, pos), sp_cp_utf8(s.take(m), pos), pos, m),
{
    lemma_take_eq(s, m);
    match sp_cp_utf8(s, pos) {
        Ok((x, k)) => {
            if pos + k <= m {
                lemma_take_subrange(s, m, pos + 2, pos + 2 + sp_u16(s, pos) as int);
            }
        },
        Err(_) => {},
    }
}

proof fn trunc_cp_info(s: Seq<u8>, m: int, pos: int)
    requires
        0 <= pos <= m <= s.len(),
    ensures
        sp_cut_to::<CpInfoV>(sp_cp_info(s, pos), sp_cp_info(s.take(m), pos), pos, m),
{
    lemma_take_eq(s, m);
    if pos + 1 <= m && can_read(s, pos, 1) {
        trunc_cp_utf8(s, m, pos + 1);
        trunc_cp_integer(s, m, pos + 1);
        trunc_cp_float(s, m, pos + 1);
        trunc_cp_long(s, m, pos + 1);
        trunc_cp_double(s, m, pos + 1);
        trunc_cp_class(s, m, pos + 1);
        trunc_cp_string(s, m, pos + 1);
        trunc_cp_fieldref(s, m, pos + 1);
        trunc_cp_methodref(s, m, pos + 1);
        trunc_cp_interface_methodref(s, m, pos + 1);
        trunc_cp_name_and_type(s, m, pos + 1);
        trunc_cp_method_handle(s, m, pos + 1);
        trunc_cp_method_type(s, m, pos + 1);
        trunc_cp_dynamic(s, m, pos + 1);
        trunc_cp_invoke_dynamic(s, m, pos + 1);
        trunc_cp_module(s, m, pos + 1);
        trunc_cp_package(s, m, pos + 1);
    }
}

proof fn trunc_cp_entries(s: Seq<u8>, m: int, pos: int, slots: nat)
    requires
        0 <= pos <= m <= s.len(),
    ensures
        sp_cut_to::<Seq<CpInfoV>>(
            sp_cp_entries(s, pos, slots),
            sp_cp_entries(s.take(m), pos, slots),
            pos,
            m,
        ),
    decreases slots,
{
    lemma_take_eq(s, m);
    if slots > 0 {
        match sp_cp_info(s, pos) {
            Ok((x, k)) => {
                trunc_cp_info(s, m, pos);
                if pos + k <= m {
                    let w = crate::classfile::pool::sp_slot_width(x);
                    let rest = if w < slots { (slots - w) as nat } else { 0nat };
                    trunc_cp_entries(s, m, pos + k, rest);
                }
            },
            Err(_) => {},
        }
    }
}

proof fn trunc_u16_list(s: Seq<u8>, m: int, pos: int, n: nat)
    requires
        0 <= pos <= m <= s.len(),
    ensures
        sp_cut_to::<Seq<u16>>(sp_u16_list(s, pos, n), sp_u16_list(s.take(m), pos, n), pos, m),
    decreases n,
{
    lemma_take_eq(s, m);
    if n > 0 && can_read(s, pos, 2) && pos + 2 <= m {
        trunc_u16_list(s, m, pos + 2, (n - 1) as nat);
    }
}

proof fn trunc_ete_list(s: Seq<u8>, m: int, pos: int, n: nat)
    requires
        0 <= pos <= m <= s.len(),
    ensures
        sp_cut_to::<Seq<ExceptionTableEntry>>(
            sp_ete_list(s, pos, n),
            sp_ete_list(s.take(m), pos, n),
            pos,
            m,
        ),
    decreases n,
{
    lemma_take_eq(s, m);
    if n > 0 {
        match sp_exception_table_entry(s, pos) {
            Ok((x, k)) => {
                trunc_exception_table_entry(s, m, pos);
                if pos + k <= m {
                    trunc_ete_list(s, m, pos + k, (n - 1) as nat);
                }
            },
            Err(_) => {},
        }
    }
}

proof fn trunc_lnt_list(s: Seq<u8>, m: int, pos: int, n: nat)
    requires
        0 <= pos <= m <= s.len(),
    ensures
        sp_cut_to::<Seq<LineNumberTableEntry>>(
            sp_lnt_list(s, pos, n),
            sp_lnt_list(s.take(m), pos, n),
            pos,
            m,
        ),
    decreases n,
{
    lemma_take_eq(s, m);
    if n > 0 {
        match sp_line_number_entry(s, pos) {
            Ok((x, k)) => {
                trunc_line_number_entry(s, m, pos);
                if pos + k <= m {
                    trunc_lnt_list(s, m, pos + k, (n - 1) as nat);
                }
            },
            Err(_) => {},
        }
    }
}

proof fn trunc_lvt_list(s: Seq<u8>, m: int, pos: int, n: nat)
    requires
        0 <= pos <= m <= s.len(),
    ensures
        sp_cut_to::<Seq<LocalVariableTableEntry>>(
            sp_lvt_list(s, pos, n),
            sp_lvt_list(s.take(m), pos, n),
            pos,
            m,
        ),
    decreases n,
{
    lemma_take_eq(s, m);
    if n > 0 {
        match sp_local_variable_entry(s, pos) {
            Ok((x, k)) => {
                trunc_local_variable_entry(s, m, pos);
                if pos + k <= m {
                    trunc_lvt_list(s, m, pos + k, (n - 1) as nat);
                }
            },
            Err(_) => {},
        }
    }
}

proof fn trunc_lvtt_list(s: Seq<u8>, m: int, pos: int, n: nat)
    requires
        0 <= pos <= m <= s.len(),
    ensures
        sp_cut_to::<Seq<LocalVariableTypeTableEntry>>(
            sp_lvtt_list(s, pos, n),
            sp_lvtt_list(s.take(m), pos, n),
            pos,
            m,
        ),
    decreases n,
{
    lemma_take_eq(s, m);
    if n > 0 {
        match sp_local_variable_type_entry(s, pos) {
            Ok((x, k)) => {
                trunc_local_variable_type_entry(s, m, pos);
                if pos + k <= m {
                    trunc_lvtt_list(s, m, pos + k, (n - 1) as nat);
                }
            },
            Err(_) => {},
        }
    }
}

proof fn trunc_inner_class_list(s: Seq<u8>, m: int, pos: int, n: nat)
    requires
        0 <= pos <= m <= s.len(),
    ensures
        sp_cut_to::<Seq<InnerClass>>(
            sp_inner_class_list(s, pos, n),
            sp_inner_class_list(s.take(m), pos, n),
            pos,
            m,
        ),
    decreases n,
{
    lemma_take_eq(s, m);
    if n > 0 {
        match sp_inner_class(s, pos) {
            Ok((x, k)) => {
                trunc_inner_class(s, m, pos);
                if pos + k <= m {
                    trunc_inner_class_list(s, m, pos + k, (n - 1) as nat);
                }
            },
            Err(_) => {},
        }
    }
}

proof fn trunc_lvtar_list(s: Seq<u8>, m: int, pos: int, n: nat)
    requires
        0 <= pos <= m <= s.len(),
    ensures
        sp_cut_to::<Seq<LocalVarTargetTableEntry>>(
            sp_lvtar_list(s, pos, n),
            sp_lvtar_list(s.take(m), pos, n),
            pos,
            m,
        ),
    decreases n,
{
    lemma_take_eq(s, m);
    if n > 0 {
        match sp_local_var_target_entry(s, pos) {
            Ok((x, k)) => {
                trunc_local_var_target_entry(s, m, pos);
                if pos + k <= m {
                    trunc_lvtar_list(s, m, pos + k, (n - 1) as nat);
                }
            },
            Err(_) => {},
        }
    }
}

proof fn trunc_method_parameter_list(s: Seq<u8>, m: int, pos: int, n: nat)
    requires
        0 <= pos <= m <= s.len(),
    ensures
        sp_cut_to::<Seq<MethodParameter>>(
            sp_method_parameter_list(s, pos, n),
            sp_method_parameter_list(s.take(m), pos, n),
            pos,
            m,
        ),
    decreases n,
{
    lemma_take_eq(s, m);
    if n > 0 {
        match sp_method_parameter(s, pos) {
            Ok((x, k)) => {
                trunc_method_parameter(s, m, pos);
                if pos + k <= m {
                    trunc_method_parameter_list(s, m, pos + k, (n - 1) as nat);
                }
            },
            Err(_) => {},
        }
    }
}

proof fn trunc_module_requires_list(s: Seq<u8>, m: int, pos: int, n: nat)
    requires
        0 <= pos <= m <= s.len(),
    ensures
        sp_cut_to::<Seq<ModuleRequires>>(
            sp_module_requires_list(s, pos, n),
            sp_module_requires_list(s.take(m), pos, n),
            pos,
            m,
        ),
    decreases n,
{
    lemma_take_eq(s, m);
    if n > 0 {
        match sp_module_requires(s, pos) {
            Ok((x, k)) => {
                trunc_module_requires(s, m, pos);
                if pos + k <= m {
                    trunc_module_requires_list(s, m, pos + k, (n - 1) as nat);
                }
            },
            Err(_) => {},
        }
    }
}

proof fn trunc_path_list(s: Seq<u8>, m: int, pos: int, n: nat)
    requires
        0 <= pos <= m <= s.len(),
    ensures
        sp_cut_to::<Seq<Path>>(
            sp_path_list(s, pos, n),
            sp_path_list(s.take(m), pos, n),
            pos,
            m,
        ),
    decreases n,
{
    lemma_take_eq(s, m);
    if n > 0 {
        match sp_path_entry(s, pos) {
            Ok((x, k)) => {
                trunc_path_entry(s, m, pos);
                if pos + k <= m {
                    trunc_path_list(s, m, pos + k, (n - 1) as nat);
                }
            },
            Err(_) => {},
        }
    }
}

proof fn trunc_vti_list(s: Seq<u8>, m: int, pos: int, n: nat)
    requires
        0 <= pos <= m <= s.len(),
    ensures
        sp_cut_to::<Seq<VerificationTypeInfo>>(
            sp_vti_list(s, pos, n),
            sp_vti_list(s.take(m), pos, n),
            pos,
            m,
        ),
    decreases n,
{
    lemma_take_eq(s, m);
    if n > 0 {
        match sp_verification_type(s, pos) {
            Ok((x, k)) => {
                trunc_verification_type(s, m, pos);
                if pos + k <= m {
                    trunc_vti_list(s, m, pos + k, (n - 1) as nat);
                }
            },
            Err(_) => {},
        }
    }
}

proof fn trunc_bootstrap_method(s: Seq<u8>, m: int, pos: int)
    requires
        0 <= pos <= m <= s.len(),
    ensures
        sp_cut_to::<BootstrapMethodV>(sp_bootstrap_method(s, pos), sp_bootstrap_method(s.take(m), pos), pos, m),
{
    lemma_take_eq(s, m);
    if pos + 4 <= m && can_read(s, pos, 4) {
        trunc_u16_list(s, m, pos + 4, sp_u16(s, pos + 2) as nat);
    }
}

proof fn trunc_module_provides(s: Seq<u8>, m: int, pos: int)
    requires
        0 <= pos <= m <= s.len(),
    ensures
        sp_cut_to::<ModuleProvidesV>(sp_module_provides(s, pos), sp_module_provides(s.take(m), pos), pos, m),
{
    lemma_take_eq(s, m);
    if pos + 4 <= m && can_read(s, pos, 4) {
        trunc_u16_list(s, m, pos + 4, sp_u16(s, pos + 2) as nat);
    }
}

proof fn trunc_module_exports(s: Seq<u8>, m: int, pos: int)
    requires
        0 <= pos <= m <= s.len(),
    ensures
        sp_cut_to::<ModuleExportsV>(sp_module_exports(s, pos), sp_module_exports(s.take(m), pos), pos, m),
{
    lemma_take_eq(s, m);
    if pos + 6 <= m && can_read(s, pos, 6) {
        trunc_u16_list(s, m, pos + 6, sp_u16(s, pos + 4) as nat);
    }
}

proof fn trunc_module_opens(s: Seq<u8>, m: int, pos: int)
    requires
        0 <= pos <= m <= s.len(),
    ensures
        sp_cut_to::<ModuleOpensV>(sp_module_opens(s, pos), sp_module_opens(s.take(m), pos), pos, m),
{
    lemma_take_eq(s, m);
    if pos + 6 <= m && can_read(s, pos, 6) {
        trunc_u16_list(s, m, pos + 6, sp_u16(s, pos + 4) as nat);
    }
}

proof fn trunc_bootstrap_method_list(s: Seq<u8>, m: int, pos: int, n: nat)
    requires
        0 <= pos <= m <= s.len(),
    ensures
        sp_cut_to::<Seq<BootstrapMethodV>>(
            sp_bootstrap_method_list(s, pos, n),
            sp_bootstrap_method_list(s.take(m), pos, n),
            pos,
            m,
        ),
    decreases n,
{
    lemma_take_eq(s, m);
    if n > 0 {
        match sp_bootstrap_method(s, pos) {
            Ok((x, k)) => {
                trunc_bootstrap_method(s, m, pos);
                if pos + k <= m {
                    trunc_bootstrap_method_list(s, m, pos + k, (n - 1) as nat);
                }
            },
            Err(_) => {},
        }
    }
}

proof fn trunc_module_exports_list(s: Seq<u8>, m: int, pos: int, n: nat)
    requires
        0 <= pos <= m <= s.len(),
    ensures
        sp_cut_to::<Seq<ModuleExportsV>>(
            sp_module_exports_list(s, pos, n),
            sp_module_exports_list(s.take(m), pos, n),
            pos,
            m,
        ),
    decreases n,
{
    lemma_take_eq(s, m);
    if n > 0 {
        match sp_module_exports(s, pos) {
            Ok((x, k)) => {
                trunc_module_exports(s, m, pos);
                if pos + k <= m {
                    trunc_module_exports_list(s, m, pos + k, (n - 1) as nat);
                }
            },
            Err(_) => {},
        }
    }
}

proof fn trunc_module_opens_list(s: Seq<u8>, m: int, pos: int, n: nat)
    requires
        0 <= pos <= m <= s.len(),
    ensures
        sp_cut_to::<Seq<ModuleOpensV>>(
            sp_module_opens_list(s, pos, n),
            sp_module_opens_list(s.take(m), pos, n),
            pos,
            m,
        ),
    decreases n,
{
    lemma_take_eq(s, m);
    if n > 0 {
        match sp_module_opens(s, pos) {
            Ok((x, k)) => {
                trunc_module_opens(s, m, pos);
                if pos + k <= m {
                    trunc_module_opens_list(s, m, pos + k, (n - 1) as nat);
                }
            },
            Err(_) => {},
        }
    }
}

proof fn trunc_module_provides_list(s: Seq<u8>, m: int, pos: int, n: nat)
    requires
        0 <= pos <= m <= s.len(),
    ensures
        sp_cut_to::<Seq<ModuleProvidesV>>(
            sp_module_provides_list(s, pos, n),
            sp_module_provides_list(s.take(m), pos, n),
            pos,
            m,
        ),
    decreases n,
{
    lemma_take_eq(s, m);
    if n > 0 {
        match sp_module_provides(s, pos) {
            Ok((x, k)) => {
                trunc_module_provides(s, m, pos);
                if pos + k <= m {
                    trunc_module_provides_list(s, m, pos + k, (n - 1) as nat);
                }
            },
            Err(_) => {},
        }
    }
}

proof fn trunc_smf_variants(s: Seq<u8>, m: int, pos: int, ft: u8)
    requires
        0 <= pos <= m <= s.len(),
    ensures
        sp_cut_to::<StackMapFrameV>(
            sp_smf_same_locals_one(s, pos, ft),
            sp_smf_same_locals_one(s.take(m), pos, ft),
            pos,
            m,
        ),
        sp_cut_to::<StackMapFrameV>(
            sp_smf_same_locals_one_ext(s, pos, ft),
            sp_smf_same_locals_one_ext(s.take(m), pos, ft),
            pos,
            m,
        ),
        sp_cut_to::<StackMapFrameV>(
            sp_smf_chop(s, pos, ft),
            sp_smf_chop(s.take(m), pos, ft),
            pos,
            m,
        ),
        sp_cut_to::<StackMapFrameV>(
            sp_smf_same_ext(s, pos, ft),
            sp_smf_same_ext(s.take(m), pos, ft),
            pos,
            m,
        ),
        sp_cut_to::<StackMapFrameV>(
            sp_smf_append(s, pos, ft),
            sp_smf_append(s.take(m), pos, ft),
            pos,
            m,
        ),
        sp_cut_to::<StackMapFrameV>(
            sp_smf_full(s, pos, ft),
            sp_smf_full(s.take(m), pos, ft),
            pos,
            m,
        ),
{
    lemma_take_eq(s, m);
    trunc_verification_type(s, m, pos);
    if pos + 2 <= m && can_read(s, pos, 2) {
        trunc_verification_type(s, m, pos + 2);
        trunc_vti_list(s, m, pos + 2, (ft - 251) as nat);
    }
    if pos + 4 <= m && can_read(s, pos, 4) {
        match sp_vti_list(s, pos + 4, sp_u16(s, pos + 2) as nat) {
            Ok((locals, k)) => {
                trunc_vti_list(s, m, pos + 4, sp_u16(s, pos + 2) as nat);
                if pos + 4 + k <= m && can_read(s, pos + 4 + k, 2) && pos + 6 + k <= m {
                    trunc_vti_list(s, m, pos + 6 + k, sp_u16(s, pos + 4 + k) as nat);
                }
            },
            Err(_) => {},
        }
    }
}

proof fn trunc_stack_map_frame(s: Seq<u8>, m: int, pos: int)
    requires
        0 <= pos <= m <= s.len(),
    ensures
        sp_cut_to::<StackMapFrameV>(
            sp_stack_map_frame(s, pos),
            sp_stack_map_frame(s.take(m), pos),
            pos,
            m,
        ),
{
    lemma_take_eq(s, m);
    if pos + 1 <= m && can_read(s, pos, 1) {
        trunc_smf_variants(s, m, pos + 1, sp_u8(s, pos));
    }
}

proof fn trunc_smf_list(s: Seq<u8>, m: int, pos: int, n: nat)
    requires
        0 <= pos <= m <= s.len(),
    ensures
        sp_cut_to::<Seq<StackMapFrameV>>(
            sp_smf_list(s, pos, n),
            sp_smf_list(s.take(m), pos, n),
            pos,
            m,
        ),
    decreases n,
{
    lemma_take_eq(s, m);
    if n > 0 {
        match sp_stack_map_frame(s, pos) {
            Ok((x, k)) => {
                trunc_stack_map_frame(s, m, pos);
                if pos + k <= m {
                    trunc_smf_list(s, m, pos + k, (n - 1) as nat);
                }
            },
            Err(_) => {},
        }
    }
}

proof fn trunc_element_value(s: Seq<u8>, m: int, pos: int)
    requires
        0 <= pos <= m <= s.len(),
    ensures
        sp_cut_to::<ElementValueV>(
            sp_element_value(s, pos),
            sp_element_value(s.take(m), pos),
            pos,
            m,
        ),
    decreases s.len() - pos, 0int, 0int,
{
    lemma_take_eq(s, m);
    if pos + 1 <= m && can_read(s, pos, 1) {
        let tag = sp_u8(s, pos);
        if tag == 64 {
            trunc_annotation(s, m, pos + 1);
        }
        if tag == 91 && pos + 3 <= m && can_read(s, pos + 1, 2) {
            trunc_ev_list(s, m, pos + 3, sp_u16(s, pos + 1) as nat);
        }
    }
}

proof fn trunc_ev_list(s: Seq<u8>, m: int, pos: int, n: nat)
    requires
        0 <= pos <= m <= s.len(),
    ensures
        sp_cut_to::<Seq<ElementValueV>>(
            sp_ev_list(s, pos, n),
            sp_ev_list(s.take(m), pos, n),
            pos,
            m,
        ),
    decreases s.len() - pos, n, 1int,
{
    lemma_take_eq(s, m);
    if n > 0 {
        match sp_element_value(s, pos) {
            Ok((x, k)) => {
                trunc_element_value(s, m, pos);
                if pos + k <= m && pos + k <= s.len() {
                    trunc_ev_list(s, m, pos + k, (n - 1) as nat);
                }
            },
            Err(_) => {},
        }
    }
}

proof fn trunc_ev_pair(s: Seq<u8>, m: int, pos: int)
    requires
        0 <= pos <= m <= s.len(),
    ensures
        sp_cut_to::<ElementValuePairV>(
            sp_ev_pair(s, pos),
            sp_ev_pair(s.take(m), pos),
            pos,
            m,
        ),
    decreases s.len() - pos, 0int, 2int,
{
    lemma_take_eq(s, m);
    if pos + 2 <= m && can_read(s, pos, 2) {
        trunc_element_value(s, m, pos + 2);
    }
}

proof fn trunc_ev_pair_list(s: Seq<u8>, m: int, pos: int, n: nat)
    requires
        0 <= pos <= m <= s.len(),
    ensures
        sp_cut_to::<Seq<ElementValuePairV>>(
            sp_ev_pair_list(s, pos, n),
            sp_ev_pair_list(s.take(m), pos, n),
            pos,
            m,
        ),
    decreases s.len() - pos, n, 3int,
{
    lemma_take_eq(s, m);
    if n > 0 {
        match sp_ev_pair(s, pos) {
            Ok((x, k)) => {
                trunc_ev_pair(s, m, pos);
                if pos + k <= m && pos + k <= s.len() {
                    trunc_ev_pair_list(s, m, pos + k, (n - 1) as nat);
                }
            },
            Err(_) => {},
        }
    }
}

proof fn trunc_annotation(s: Seq<u8>, m: int, pos: int)
    requires
        0 <= pos <= m <= s.len(),
    ensures
        sp_cut_to::<AnnotationV>(sp_annotation(s, pos), sp_annotation(s.take(m), pos), pos, m),
    decreases s.len() - pos, 0int, 4int,
{
    lemma_take_eq(s, m);
    if pos + 4 <= m && can_read(s, pos, 4) {
        trunc_ev_pair_list(s, m, pos + 4, sp_u16(s, pos + 2) as nat);
    }
}

proof fn trunc_annotation_list(s: Seq<u8>, m: int, pos: int, n: nat)
    requires
        0 <= pos <= m <= s.len(),
    ensures
        sp_cut_to::<Seq<AnnotationV>>(
            sp_annotation_list(s, pos, n),
            sp_annotation_list(s.take(m), pos, n),
            pos,
            m,
        ),
    decreases s.len() - pos, n, 5int,
{
    lemma_take_eq(s, m);
    if n > 0 {
        match sp_annotation(s, pos) {
            Ok((x, k)) => {
                trunc_annotation(s, m, pos);
                if pos + k <= m && pos + k <= s.len() {
                    trunc_annotation_list(s, m, pos + k, (n - 1) as nat);
                }
            },
            Err(_) => {},
        }
    }
}

proof fn trunc_param_anno_item(s: Seq<u8>, m: int, pos: int)
    requires
        0 <= pos <= m <= s.len(),
    ensures
        sp_cut_to::<Seq<AnnotationV>>(
            sp_param_anno_item(s, pos),
            sp_param_anno_item(s.take(m), pos),
            pos,
            m,
        ),
{
    lemma_take_eq(s, m);
    if pos + 2 <= m && can_read(s, pos, 2) {
        trunc_annotation_list(s, m, pos + 2, sp_u16(s, pos) as nat);
    }
}

proof fn trunc_param_annotation_list(s: Seq<u8>, m: int, pos: int, n: nat)
    requires
        0 <= pos <= m <= s.len(),
    ensures
        sp_cut_to::<Seq<Seq<AnnotationV>>>(
            sp_param_annotation_list(s, pos, n),
            sp_param_annotation_list(s.take(m), pos, n),
            pos,
            m,
        ),
    decreases n,
{
    lemma_take_eq(s, m);
    if n > 0 {
        match sp_param_anno_item(s, pos) {
            Ok((x, k)) => {
                trunc_param_anno_item(s, m, pos);
                if pos + k <= m {
                    trunc_param_annotation_list(s, m, pos + k, (n - 1) as nat);
                }
            },
            Err(_) => {},
        }
    }
}

proof fn trunc_target_info(s: Seq<u8>, m: int, pos: int)
    requires
        0 <= pos <= m <= s.len(),
    ensures
        sp_cut_to::<TargetInfoV>(sp_target_info(s, pos), sp_target_info(s.take(m), pos), pos, m),
{
    lemma_take_eq(s, m);
    if pos + 3 <= m && can_read(s, pos + 1, 2) {
        trunc_lvtar_list(s, m, pos + 3, sp_u16(s, pos + 1) as nat);
    }
}

proof fn trunc_type_path(s: Seq<u8>, m: int, pos: int)
    requires
        0 <= pos <= m <= s.len(),
    ensures
        sp_cut_to::<TypePathV>(sp_type_path(s, pos), sp_type_path(s.take(m), pos), pos, m),
{
    lemma_take_eq(s, m);
    if pos + 1 <= m && can_read(s, pos, 1) {
        trunc_path_list(s, m, pos + 1, sp_u8(s, pos) as nat);
    }
}

proof fn trunc_type_annotation(s: Seq<u8>, m: int, pos: int)
    requires
        0 <= pos <= m <= s.len(),
    ensures
        sp_cut_to::<TypeAnnotationV>(
            sp_type_annotation(s, pos),
            sp_type_annotation(s.take(m), pos),
            pos,
            m,
        ),
{
    lemma_take_eq(s, m);
    trunc_target_info(s, m, pos);
    match sp_target_info(s, pos) {
        Ok((ti, k1)) => {
            if pos + k1 <= m {
                trunc_type_path(s, m, pos + k1);
                match sp_type_path(s, pos + k1) {
                    Ok((tp, k2)) => {
                        if pos + k1 + k2 + 4 <= m && can_read(s, pos + k1 + k2, 4) {
                            trunc_ev_pair_list(
                                s,
                                m,
                                pos + k1 + k2 + 4,
                                sp_u16(s, pos + k1 + k2 + 2) as nat,
                            );
                        }
                    },
                    Err(_) => {},
                }
            }
        },
        Err(_) => {},
    }
}

proof fn trunc_type_annotation_list(s: Seq<u8>, m: int, pos: int, n: nat)
    requires
        0 <= pos <= m <= s.len(),
    ensures
        sp_cut_to::<Seq<TypeAnnotationV>>(
            sp_type_annotation_list(s, pos, n),
            sp_type_annotation_list(s.take(m), pos, n),
            pos,
            m,
        ),
    decreases n,
{
    lemma_take_eq(s, m);
    if n > 0 {
        match sp_type_annotation(s, pos) {
            Ok((x, k)) => {
                trunc_type_annotation(s, m, pos);
                if pos + k <= m {
                    trunc_type_annotation_list(s, m, pos + k, (n - 1) as nat);
                }
            },
            Err(_) => {},
        }
    }
}

proof fn trunc_attr_constant_value(s: Seq<u8>, m: int, pos: int, ni: u16, len: u32)
    requires
        0 <= pos <= m <= s.len(),
    ensures
        sp_cut_to::<AttrV>(sp_attr_constant_value(s, pos, ni, len), sp_attr_constant_value(s.take(m), pos, ni, len), pos, m),
{
    lemma_take_eq(s, m);
}

proof fn trunc_attr_enclosing_method(s: Seq<u8>, m: int, pos: int, ni: u16, len: u32)
    requires
        0 <= pos <= m <= s.len(),
    ensures
        sp_cut_to::<AttrV>(sp_attr_enclosing_method(s, pos, ni, len), sp_attr_enclosing_method(s.take(m), pos, ni, len), pos, m),
{
    lemma_take_eq(s, m);
}

proof fn trunc_attr_signature(s: Seq<u8>, m: int, pos: int, ni: u16, len: u32)
    requires
        0 <= pos <= m <= s.len(),
    ensures
        sp_cut_to::<AttrV>(sp_attr_signature(s, pos, ni, len), sp_attr_signature(s.take(m), pos, ni, len), pos, m),
{
    lemma_take_eq(s, m);
}

proof fn trunc_attr_source_file(s: Seq<u8>, m: int, pos: int, ni: u16, len: u32)
    requires
        0 <= pos <= m <= s.len(),
    ensures
        sp_cut_to::<AttrV>(sp_attr_source_file(s, pos, ni, len), sp_attr_source_file(s.take(m), pos, ni, len), pos, m),
{
    lemma_take_eq(s, m);
}

proof fn trunc_attr_module_main_class(s: Seq<u8>, m: int, pos: int, ni: u16, len: u32)
    requires
        0 <= pos <= m <= s.len(),
    ensures
        sp_cut_to::<AttrV>(sp_attr_module_main_class(s, pos, ni, len), sp_attr_module_main_class(s.take(m), pos, ni, len), pos, m),
{
    lemma_take_eq(s, m);
}

proof fn trunc_attr_nest_host(s: Seq<u8>, m: int, pos: int, ni: u16, len: u32)
    requires
        0 <= pos <= m <= s.len(),
    ensures
        sp_cut_to::<AttrV>(sp_attr_nest_host(s, pos, ni, len), sp_attr_nest_host(s.take(m), pos, ni, len), pos, m),
{
    lemma_take_eq(s, m);
}

proof fn trunc_attr_source_debug_extension(s: Seq<u8>, m: int, pos: int, ni: u16, len: u32)
    requires
        0 <= pos <= m <= s.len(),
    ensures
        sp_cut_to::<AttrV>(sp_attr_source_debug_extension(s, pos, ni, len), sp_attr_source_debug_extension(s.take(m), pos, ni, len), pos, m),
{
    lemma_take_eq(s, m);
    if pos + len <= m && can_read(s, pos, len as int) {
        lemma_take_subrange(s, m, pos, pos + len as int);
    }
}

proof fn trunc_attr_stack_map_table(s: Seq<u8>, m: int, pos: int, ni: u16, len: u32)
    requires
        0 <= pos <= m <= s.len(),
    ensures
        sp_cut_to::<AttrV>(sp_attr_stack_map_table(s, pos, ni, len), sp_attr_stack_map_table(s.take(m), pos, ni, len), pos, m),
{
    lemma_take_eq(s, m);
    if pos + 2 <= m && can_read(s, pos, 2) {
        trunc_smf_list(s, m, pos + 2, sp_u16(s, pos) as nat);
    }
}

proof fn trunc_attr_exceptions(s: Seq<u8>, m: int, pos: int, ni: u16, len: u32)
    requires
        0 <= pos <= m <= s.len(),
    ensures
        sp_cut_to::<AttrV>(sp_attr_exceptions(s, pos, ni, len), sp_attr_exceptions(s.take(m), pos, ni, len), pos, m),
{
    lemma_take_eq(s, m);
    if pos + 2 <= m && can_read(s, pos, 2) {
        trunc_u16_list(s, m, pos + 2, sp_u16(s, pos) as nat);
    }
}

proof fn trunc_attr_inner_classes(s: Seq<u8>, m: int, pos: int, ni: u16, len: u32)
    requires
        0 <= pos <= m <= s.len(),
    ensures
        sp_cut_to::<AttrV>(sp_attr_inner_classes(s, pos, ni, len), sp_attr_inner_classes(s.take(m), pos, ni, len), pos, m),
{
    lemma_take_eq(s, m);
    if pos + 2 <= m && can_read(s, pos, 2) {
        trunc_inner_class_list(s, m, pos + 2, sp_u16(s, pos) as nat);
    }
}

proof fn trunc_attr_line_number_table(s: Seq<u8>, m: int, pos: int, ni: u16, len: u32)
    requires
        0 <= pos <= m <= s.len(),
    ensures
        sp_cut_to::<AttrV>(sp_attr_line_number_table(s, pos, ni, len), sp_attr_line_number_table(s.take(m), pos, ni, len), pos, m),
{
    lemma_take_eq(s, m);
    if pos + 2 <= m && can_read(s, pos, 2) {
        trunc_lnt_list(s, m, pos + 2, sp_u16(s, pos) as nat);
    }
}

proof fn trunc_attr_local_variable_table(s: Seq<u8>, m: int, pos: int, ni: u16, len: u32)
    requires
        0 <= pos <= m <= s.len(),
    ensures
        sp_cut_to::<AttrV>(sp_attr_local_variable_table(s, pos, ni, len), sp_attr_local_variable_table(s.take(m), pos, ni, len), pos, m),
{
    lemma_take_eq(s, m);
    if pos + 2 <= m && can_read(s, pos, 2) {
        trunc_lvt_list(s, m, pos + 2, sp_u16(s, pos) as nat);
    }
}

proof fn trunc_attr_local_variable_type_table(s: Seq<u8>, m: int, pos: int, ni: u16, len: u32)
    requires
        0 <= pos <= m <= s.len(),
    ensures
        sp_cut_to::<AttrV>(sp_attr_local_variable_type_table(s, pos, ni, len), sp_attr_local_variable_type_table(s.take(m), pos, ni, len), pos, m),
{
    lemma_take_eq(s, m);
    if pos + 2 <= m && can_read(s, pos, 2) {
        trunc_lvtt_list(s, m, pos + 2, sp_u16(s, pos) as nat);
    }
}

proof fn trunc_attr_bootstrap_methods(s: Seq<u8>, m: int, pos: int, ni: u16, len: u32)
    requires
        0 <= pos <= m <= s.len(),
    ensures
        sp_cut_to::<AttrV>(sp_attr_bootstrap_methods(s, pos, ni, len), sp_attr_bootstrap_methods(s.take(m), pos, ni, len), pos, m),
{
    lemma_take_eq(s, m);
    if pos + 2 <= m && can_read(s, pos, 2) {
        trunc_bootstrap_method_list(s, m, pos + 2, sp_u16(s, pos) as nat);
    }
}

proof fn trunc_attr_method_parameters(s: Seq<u8>, m: int, pos: int, ni: u16, len: u32)
    requires
        0 <= pos <= m <= s.len(),
    ensures
        sp_cut_to::<AttrV>(sp_attr_method_parameters(s, pos, ni, len), sp_attr_method_parameters(s.take(m), pos, ni, len), pos, m),
{
    lemma_take_eq(s, m);
    if pos + 1 <= m && can_read(s, pos, 1) {
        trunc_method_parameter_list(s, m, pos + 1, sp_u8(s, pos) as nat);
    }
}

proof fn trunc_attr_module_packages(s: Seq<u8>, m: int, pos: int, ni: u16, len: u32)
    requires
        0 <= pos <= m <= s.len(),
    ensures
        sp_cut_to::<AttrV>(sp_attr_module_packages(s, pos, ni, len), sp_attr_module_packages(s.take(m), pos, ni, len), pos, m),
{
    lemma_take_eq(s, m);
    if pos + 2 <= m && can_read(s, pos, 2) {
        trunc_u16_list(s, m, pos + 2, sp_u16(s, pos) as nat);
    }
}

proof fn trunc_attr_nest_members(s: Seq<u8>, m: int, pos: int, ni: u16, len: u32)
    requires
        0 <= pos <= m <= s.len(),
    ensures
        sp_cut_to::<AttrV>(sp_attr_nest_members(s, pos, ni, len), sp_attr_nest_members(s.take(m), pos, ni, len), pos, m),
{
    lemma_take_eq(s, m);
    if pos + 2 <= m && can_read(s, pos, 2) {
        trunc_u16_list(s, m, pos + 2, sp_u16(s, pos) as nat);
    }
}

proof fn trunc_attr_permitted_subclasses(s: Seq<u8>, m: int, pos: int, ni: u16, len: u32)
    requires
        0 <= pos <= m <= s.len(),
    ensures
        sp_cut_to::<AttrV>(sp_attr_permitted_subclasses(s, pos, ni, len), sp_attr_permitted_subclasses(s.take(m), pos, ni, len), pos, m),
{
    lemma_take_eq(s, m);
    if pos + 2 <= m && can_read(s, pos, 2) {
        trunc_u16_list(s, m, pos + 2, sp_u16(s, pos) as nat);
    }
}

proof fn trunc_attr_rva(s: Seq<u8>, m: int, pos: int, ni: u16, len: u32)
    requires
        0 <= pos <= m <= s.len(),
    ensures
        sp_cut_to::<AttrV>(sp_attr_rva(s, pos, ni, len), sp_attr_rva(s.take(m), pos, ni, len), pos, m),
{
    lemma_take_eq(s, m);
    if pos + 2 <= m && can_read(s, pos, 2) {
        trunc_annotation_list(s, m, pos + 2, sp_u16(s, pos) as nat);
    }
}

proof fn trunc_attr_ria(s: Seq<u8>, m: int, pos: int, ni: u16, len: u32)
    requires
        0 <= pos <= m <= s.len(),
    ensures
        sp_cut_to::<AttrV>(sp_attr_ria(s, pos, ni, len), sp_attr_ria(s.take(m), pos, ni, len), pos, m),
{
    lemma_take_eq(s, m);
    if pos + 2 <= m && can_read(s, pos, 2) {
        trunc_annotation_list(s, m, pos + 2, sp_u16(s, pos) as nat);
    }
}

proof fn trunc_attr_rvta(s: Seq<u8>, m: int, pos: int, ni: u16, len: u32)
    requires
        0 <= pos <= m <= s.len(),
    ensures
        sp_cut_to::<AttrV>(sp_attr_rvta(s, pos, ni, len), sp_attr_rvta(s.take(m), pos, ni, len), pos, m),
{
    lemma_take_eq(s, m);
    if pos + 2 <= m && can_read(s, pos, 2) {
        trunc_type_annotation_list(s, m, pos + 2, sp_u16(s, pos) as nat);
    }
}

proof fn trunc_attr_rita(s: Seq<u8>, m: int, pos: int, ni: u16, len: u32)
    requires
        0 <= pos <= m <= s.len(),
    ensures
        sp_cut_to::<AttrV>(sp_attr_rita(s, pos, ni, len), sp_attr_rita(s.take(m), pos, ni, len), pos, m),
{
    lemma_take_eq(s, m);
    if pos + 2 <= m && can_read(s, pos, 2) {
        trunc_type_annotation_list(s, m, pos + 2, sp_u16(s, pos) as nat);
    }
}

proof fn trunc_attr_rvpa(s: Seq<u8>, m: int, pos: int, ni: u16, len: u32)
    requires
        0 <= pos <= m <= s.len(),
    ensures
        sp_cut_to::<AttrV>(sp_attr_rvpa(s, pos, ni, len), sp_attr_rvpa(s.take(m), pos, ni, len), pos, m),
{
    lemma_take_eq(s, m);
    if pos + 1 <= m && can_read(s, pos, 1) {
        trunc_param_annotation_list(s, m, pos + 1, sp_u8(s, pos) as nat);
    }
}

proof fn trunc_attr_ripa(s: Seq<u8>, m: int, pos: int, ni: u16, len: u32)
    requires
        0 <= pos <= m <= s.len(),
    ensures
        sp_cut_to::<AttrV>(sp_attr_ripa(s, pos, ni, len), sp_attr_ripa(s.take(m), pos, ni, len), pos, m),
{
    lemma_take_eq(s, m);
    if pos + 1 <= m && can_read(s, pos, 1) {
        trunc_param_annotation_list(s, m, pos + 1, sp_u8(s, pos) as nat);
    }
}

proof fn trunc_attr_annotation_default(s: Seq<u8>, m: int, pos: int, ni: u16, len: u32)
    requires
        0 <= pos <= m <= s.len(),
    ensures
        sp_cut_to::<AttrV>(
            sp_attr_annotation_default(s, pos, ni, len),
            sp_attr_annotation_default(s.take(m), pos, ni, len),
            pos,
            m,
        ),
{
    lemma_take_eq(s, m);
    trunc_element_value(s, m, pos);
}

proof fn trunc_attr_module(s: Seq<u8>, m: int, pos: int, ni: u16, len: u32)
    requires
        0 <= pos <= m <= s.len(),
    ensures
        sp_cut_to::<AttrV>(
            sp_attr_module(s, pos, ni, len),
            sp_attr_module(s.take(m), pos, ni, len),
            pos,
            m,
        ),
{
    lemma_take_eq(s, m);
    if pos + 8 <= m && can_read(s, pos, 8) {
        trunc_module_requires_list(s, m, pos + 8, sp_u16(s, pos + 6) as nat);
        match sp_module_requires_list(s, pos + 8, sp_u16(s, pos + 6) as nat) {
            Ok((reqs, ka)) => {
                if pos + 8 + ka <= m {
                    trunc_attr_module_mid(s, m, pos, ni, len, reqs, pos + 8 + ka);
                }
            },
            Err(_) => {},
        }
    }
}

proof fn trunc_attr_module_mid(
    s: Seq<u8>,
    m: int,
    pos: int,
    ni: u16,
    len: u32,
    reqs: Seq<ModuleRequires>,
    p1: int,
)
    requires
        0 <= pos <= m <= s.len(),
        pos + 8 <= p1 <= m,
    ensures
        sp_cut_to::<AttrV>(
            sp_attr_module_mid(s, pos, ni, len, reqs, p1),
            sp_attr_module_mid(s.take(m), pos, ni, len, reqs, p1),
            pos,
            m,
        ),
{
    lemma_take_eq(s, m);
    if p1 + 2 <= m && can_read(s, p1, 2) {
        trunc_module_exports_list(s, m, p1 + 2, sp_u16(s, p1) as nat);
        match sp_module_exports_list(s, p1 + 2, sp_u16(s, p1) as nat) {
            Ok((exps, kb)) => {
                let p2 = p1 + 2 + kb;
                if p2 + 2 <= m && can_read(s, p2, 2) {
                    trunc_module_opens_list(s, m, p2 + 2, sp_u16(s, p2) as nat);
                    match sp_module_opens_list(s, p2 + 2, sp_u16(s, p2) as nat) {
                        Ok((ops, kc)) => {
                            if p2 + 2 + kc <= m {
                                trunc_attr_module_tail(
                                    s, m, pos, ni, len, reqs, exps, ops, p2 + 2 + kc,
                                );
                            }
                        },
                        Err(_) => {},
                    }
                }
            },
            Err(_) => {},
        }
    }
}

proof fn trunc_attr_module_tail(
    s: Seq<u8>,
    m: int,
    pos: int,
    ni: u16,
    len: u32,
    reqs: Seq<ModuleRequires>,
    exps: Seq<ModuleExportsV>,
    ops: Seq<ModuleOpensV>,
    p3: int,
)
    requires
        0 <= pos <= m <= s.len(),
        pos + 8 <= p3 <= m,
    ensures
        sp_cut_to::<AttrV>(
            sp_attr_module_tail(s, pos, ni, len, reqs, exps, ops, p3),
            sp_attr_module_tail(s.take(m), pos, ni, len, reqs, exps, ops, p3),
            pos,
            m,
        ),
{
    lemma_take_eq(s, m);
    if p3 + 2 <= m && can_read(s, p3, 2) {
        trunc_u16_list(s, m, p3 + 2, sp_u16(s, p3) as nat);
        match sp_u16_list(s, p3 + 2, sp_u16(s, p3) as nat) {
            Ok((uses, kd)) => {
                let p4 = p3 + 2 + kd;
                if p4 + 2 <= m && can_read(s, p4, 2) {
                    trunc_module_provides_list(s, m, p4 + 2, sp_u16(s, p4) as nat);
                }
            },
            Err(_) => {},
        }
    }
}

proof fn trunc_attr_code(s: Seq<u8>, m: int, pos: int, ni: u16, len: u32, cp: Seq<CpInfoV>)
    requires
        0 <= pos <= m <= s.len(),
    ensures
        sp_cut_to::<AttrV>(
            sp_attr_code(s, pos, ni, len, cp),
            sp_attr_code(s.take(m), pos, ni, len, cp),
            pos,
            m,
        ),
    decreases s.len() - pos, 0int, 1int,
{
    lemma_take_eq(s, m);
    if pos + 8 <= m && can_read(s, pos, 8) {
        let cl = sp_u32(s, pos + 4) as int;
        if pos + 8 + cl <= m && can_read(s, pos + 8, cl) {
            lemma_take_subrange(s, m, pos + 8, pos + 8 + cl);
            let p1 = pos + 8 + cl;
            if p1 + 2 <= m && can_read(s, p1, 2) {
                trunc_ete_list(s, m, p1 + 2, sp_u16(s, p1) as nat);
                match sp_ete_list(s, p1 + 2, sp_u16(s, p1) as nat) {
                    Ok((ets, ka)) => {
                        if p1 + 2 + ka <= m && p1 + 2 + ka <= s.len() {
                            trunc_attr_code_tail(s, m, pos, ni, len, cp, ets, p1 + 2 + ka);
                        }
                    },
                    Err(_) => {},
                }
            }
        }
    }
}

#[verifier::rlimit(100)]
#[verifier::spinoff_prover]
proof fn trunc_attr_code_tail(
    s: Seq<u8>,
    m: int,
    pos: int,
    ni: u16,
    len: u32,
    cp: Seq<CpInfoV>,
    ets: Seq<ExceptionTableEntry>,
    p2: int,
)
    requires
        0 <= pos <= m <= s.len(),
        pos + 8 <= p2 <= m,
        pos + 8 + sp_u32(s, pos + 4) <= p2,
    ensures
        sp_cut_to::<AttrV>(
            sp_attr_code_tail(s, pos, ni, len, cp, ets, p2),
            sp_attr_code_tail(s.take(m), pos, ni, len, cp, ets, p2),
            pos,
            m,
        ),
    decreases s.len() - pos, 0int, 0int,
{
    lemma_take_eq(s, m);
    if p2 + 2 <= m && can_read(s, p2, 2) {
        trunc_attr_list(s, m, p2 + 2, sp_u16(s, p2) as nat, cp);
        match sp_attr_list(s, p2 + 2, sp_u16(s, p2) as nat, cp) {
            Ok((ats, kb)) => {
                if p2 + 2 + kb <= m {
                    lemma_take_subrange(s, m, pos + 8, pos + 8 + sp_u32(s, pos + 4) as int);
                }
            },
            Err(_) => {},
        }
    }
}

proof fn trunc_record_component(s: Seq<u8>, m: int, pos: int, cp: Seq<CpInfoV>)
    requires
        0 <= pos <= m <= s.len(),
    ensures
        sp_cut_to::<RecordComponentInfoV>(
            sp_record_component(s, pos, cp),
            sp_record_component(s.take(m), pos, cp),
            pos,
            m,
        ),
    decreases s.len() - pos, 0int, 1int,
{
    lemma_take_eq(s, m);
    if pos + 6 <= m && can_read(s, pos, 6) {
        trunc_attr_list(s, m, pos + 6, sp_u16(s, pos + 4) as nat, cp);
    }
}

proof fn trunc_rc_list(s: Seq<u8>, m: int, pos: int, n: nat, cp: Seq<CpInfoV>)
    requires
        0 <= pos <= m <= s.len(),
    ensures
        sp_cut_to::<Seq<RecordComponentInfoV>>(
            sp_rc_list(s, pos, n, cp),
            sp_rc_list(s.take(m), pos, n, cp),
            pos,
            m,
        ),
    decreases s.len() - pos, n, 2int,
{
    lemma_take_eq(s, m);
    if n > 0 {
        match sp_record_component(s, pos, cp) {
            Ok((x, k)) => {
                trunc_record_component(s, m, pos, cp);
                if pos + k <= m && pos + k <= s.len() {
                    trunc_rc_list(s, m, pos + k, (n - 1) as nat, cp);
                }
            },
            Err(_) => {},
        }
    }
}

proof fn trunc_attr_record(s: Seq<u8>, m: int, pos: int, ni: u16, len: u32, cp: Seq<CpInfoV>)
    requires
        0 <= pos <= m <= s.len(),
    ensures
        sp_cut_to::<AttrV>(
            sp_attr_record(s, pos, ni, len, cp),
            sp_attr_record(s.take(m), pos, ni, len, cp),
            pos,
            m,
        ),
    decreases s.len() - pos, 0int, 3int,
{
    lemma_take_eq(s, m);
    if pos + 2 <= m && can_read(s, pos, 2) {
        trunc_rc_list(s, m, pos + 2, sp_u16(s, pos) as nat, cp);
    }
}

proof fn trunc_known_attr(
    s: Seq<u8>,
    m: int,
    pos: int,
    name: AttrName,
    ni: u16,
    len: u32,
    cp: Seq<CpInfoV>,
)
    requires
        0 <= pos <= m <= s.len(),
    ensures
        sp_cut_to::<AttrV>(
            sp_known_attr(s, pos, name, ni, len, cp),
            sp_known_attr(s.take(m), pos, name, ni, len, cp),
            pos,
            m,
        ),
    decreases s.len() - pos, 0int, 4int,
{
    lemma_take_eq(s, m);
    match name {
        AttrName::ConstantValue => trunc_attr_constant_value(s, m, pos, ni, len),
        AttrName::Code => trunc_attr_code(s, m, pos, ni, len, cp),
        AttrName::StackMapTable => trunc_attr_stack_map_table(s, m, pos, ni, len),
        AttrName::Exceptions => trunc_attr_exceptions(s, m, pos, ni, len),
        AttrName::InnerClasses => trunc_attr_inner_classes(s, m, pos, ni, len),
        AttrName::EnclosingMethod => trunc_attr_enclosing_method(s, m, pos, ni, len),
        AttrName::Synthetic => {},
        AttrName::Signature => trunc_attr_signature(s, m, pos, ni, len),
        AttrName::SourceFile => trunc_attr_source_file(s, m, pos, ni, len),
        AttrName::SourceDebugExtension => trunc_attr_source_debug_extension(s, m, pos, ni, len),
        AttrName::LineNumberTable => trunc_attr_line_number_table(s, m, pos, ni, len),
        AttrName::LocalVariableTable => trunc_attr_local_variable_table(s, m, pos, ni, len),
        AttrName::LocalVariableTypeTable => trunc_attr_local_variable_type_table(
            s, m, pos, ni, len,
        ),
        AttrName::Deprecated => {},
        AttrName::RuntimeVisibleAnnotations => trunc_attr_rva(s, m, pos, ni, len),
        AttrName::RuntimeInvisibleAnnotations => trunc_attr_ria(s, m, pos, ni, len),
        AttrName::RuntimeVisibleParameterAnnotations => trunc_attr_rvpa(s, m, pos, ni, len),
        AttrName::RuntimeInvisibleParameterAnnotations => trunc_attr_ripa(s, m, pos, ni, len),
        AttrName::RuntimeVisibleTypeAnnotations => trunc_attr_rvta(s, m, pos, ni, len),
        AttrName::RuntimeInvisibleTypeAnnotations => trunc_attr_rita(s, m, pos, ni, len),
        AttrName::AnnotationDefault => trunc_attr_annotation_default(s, m, pos, ni, len),
        AttrName::BootstrapMethods => trunc_attr_bootstrap_methods(s, m, pos, ni, len),
        AttrName::MethodParameters => trunc_attr_method_parameters(s, m, pos, ni, len),
        AttrName::Module => trunc_attr_module(s, m, pos, ni, len),
        AttrName::ModulePackages => trunc_attr_module_packages(s, m, pos, ni, len),
        AttrName::ModuleMainClass => trunc_attr_module_main_class(s, m, pos, ni, len),
        AttrName::NestHost => trunc_attr_nest_host(s, m, pos, ni, len),
        AttrName::NestMembers => trunc_attr_nest_members(s, m, pos, ni, len),
        AttrName::Record => trunc_attr_record(s, m, pos, ni, len, cp),
        AttrName::PermittedSubclasses => trunc_attr_permitted_subclasses(s, m, pos, ni, len),
        AttrName::Unknown => {},
    }
}

proof fn trunc_attribute(s: Seq<u8>, m: int, pos: int, cp: Seq<CpInfoV>)
    requires
        0 <= pos <= m <= s.len(),
    ensures
        sp_cut_to::<Option<AttrV>>(
            sp_attribute(s, pos, cp),
            sp_attribute(s.take(m), pos, cp),
            pos,
            m,
        ),
    decreases s.len() - pos, 0int, 5int,
{
    lemma_take_eq(s, m);
    if pos + 6 <= m && can_read(s, pos, 6) {
        trunc_known_attr(
            s,
            m,
            pos + 6,
            sp_attr_name_at(s, pos, cp),
            sp_u16(s, pos),
            sp_u32(s, pos + 2),
            cp,
        );
    }
}

/// The canonical name the attribute at `pos` resolves to, if its name index
/// lands on a byte-string entry.
pub open spec fn sp_attr_name_at(s: Seq<u8>, pos: int, cp: Seq<CpInfoV>) -> AttrName {
    match sp_slot_get(cp, sp_u16(s, pos)) {
        Some(CpInfoV::Utf8Info { length, bytes }) => crate::classfile::names::sp_attr_name(bytes),
        _ => AttrName::Unknown,
    }
}

proof fn trunc_attr_list(s: Seq<u8>, m: int, pos: int, n: nat, cp: Seq<CpInfoV>)
    requires
        0 <= pos <= m <= s.len(),
    ensures
        sp_cut_to::<Seq<AttrV>>(
            sp_attr_list(s, pos, n, cp),
            sp_attr_list(s.take(m), pos, n, cp),
            pos,
            m,
        ),
    decreases s.len() - pos, n, 6int,
{
    lemma_take_eq(s, m);
    if n > 0 {
        match sp_attribute(s, pos, cp) {
            Ok((x, k)) => {
                trunc_attribute(s, m, pos, cp);
                if pos + k <= m && pos + k <= s.len() {
                    trunc_attr_list(s, m, pos + k, (n - 1) as nat, cp);
                }
            },
            Err(_) => {},
        }
    }
}

proof fn trunc_field_info(s: Seq<u8>, m: int, pos: int, cp: Seq<CpInfoV>)
    requires
        0 <= pos <= m <= s.len(),
    ensures
        sp_cut_to::<FieldInfoV>(
            sp_field_info(s, pos, cp),
            sp_field_info(s.take(m), pos, cp),
            pos,
            m,
        ),
{
    lemma_take_eq(s, m);
    if pos + 8 <= m && can_read(s, pos, 8) {
        trunc_attr_list(s, m, pos + 8, sp_u16(s, pos + 6) as nat, cp);
    }
}

proof fn trunc_method_info(s: Seq<u8>, m: int, pos: int, cp: Seq<CpInfoV>)
    requires
        0 <= pos <= m <= s.len(),
    ensures
        sp_cut_to::<MethodInfoV>(
            sp_method_info(s, pos, cp),
            sp_method_info(s.take(m), pos, cp),
            pos,
            m,
        ),
{
    lemma_take_eq(s, m);
    if pos + 8 <= m && can_read(s, pos, 8) {
        trunc_attr_list(s, m, pos + 8, sp_u16(s, pos + 6) as nat, cp);
    }
}

proof fn trunc_fi_list(s: Seq<u8>, m: int, pos: int, n: nat, cp: Seq<CpInfoV>)
    requires
        0 <= pos <= m <= s.len(),
    ensures
        sp_cut_to::<Seq<FieldInfoV>>(
            sp_fi_list(s, pos, n, cp),
            sp_fi_list(s.take(m), pos, n, cp),
            pos,
            m,
        ),
    decreases n,
{
    lemma_take_eq(s, m);
    if n > 0 {
        match sp_field_info(s, pos, cp) {
            Ok((x, k)) => {
                trunc_field_info(s, m, pos, cp);
                if pos + k <= m {
                    trunc_fi_list(s, m, pos + k, (n - 1) as nat, cp);
                }
            },
            Err(_) => {},
        }
    }
}

proof fn trunc_mi_list(s: Seq<u8>, m: int, pos: int, n: nat, cp: Seq<CpInfoV>)
    requires
        0 <= pos <= m <= s.len(),
    ensures
        sp_cut_to::<Seq<MethodInfoV>>(
            sp_mi_list(s, pos, n, cp),
            sp_mi_list(s.take(m), pos, n, cp),
            pos,
            m,
        ),
    decreases n,
{
    lemma_take_eq(s, m);
    if n > 0 {
        match sp_method_info(s, pos, cp) {
            Ok((x, k)) => {
                trunc_method_info(s, m, pos, cp);
                if pos + k <= m {
                    trunc_mi_list(s, m, pos + k, (n - 1) as nat, cp);
                }
            },
            Err(_) => {},
        }
    }
}

proof fn trunc_class_tail_methods(
    s: Seq<u8>,
    m: int,
    pos: int,
    cp: Seq<CpInfoV>,
    ifs: Seq<u16>,
    fis: Seq<FieldInfoV>,
    p2: int,
)
    requires
        10 <= pos,
        0 <= pos <= m <= s.len(),
        pos + 8 <= p2 <= m,
    ensures
        sp_cut_to::<ClassFileV>(
            sp_class_tail_methods(s, pos, cp, ifs, fis, p2),
            sp_class_tail_methods(s.take(m), pos, cp, ifs, fis, p2),
            pos,
            m,
        ),
{
    lemma_take_eq(s, m);
    if p2 + 2 <= m && can_read(s, p2, 2) {
        trunc_mi_list(s, m, p2 + 2, sp_u16(s, p2) as nat, cp);
        match sp_mi_list(s, p2 + 2, sp_u16(s, p2) as nat, cp) {
            Ok((mis, kc)) => {
                let p3 = p2 + 2 + kc;
                if p3 + 2 <= m && can_read(s, p3, 2) {
                    trunc_attr_list(s, m, p3 + 2, sp_u16(s, p3) as nat, cp);
                }
            },
            Err(_) => {},
        }
    }
}

proof fn trunc_class_tail(s: Seq<u8>, m: int, pos: int, cp: Seq<CpInfoV>)
    requires
        10 <= pos,
        0 <= pos <= m <= s.len(),
    ensures
        sp_cut_to::<ClassFileV>(
            sp_class_tail(s, pos, cp),
            sp_class_tail(s.take(m), pos, cp),
            pos,
            m,
        ),
{
    lemma_take_eq(s, m);
    if pos + 8 <= m && can_read(s, pos, 8) {
        trunc_u16_list(s, m, pos + 8, sp_u16(s, pos + 6) as nat);
        match sp_u16_list(s, pos + 8, sp_u16(s, pos + 6) as nat) {
            Ok((ifs, ka)) => {
                let p1 = pos + 8 + ka;
                if p1 + 2 <= m && can_read(s, p1, 2) {
                    trunc_fi_list(s, m, p1 + 2, sp_u16(s, p1) as nat, cp);
                    match sp_fi_list(s, p1 + 2, sp_u16(s, p1) as nat, cp) {
                        Ok((fis, kb)) => {
                            if p1 + 2 + kb <= m {
                                trunc_class_tail_methods(
                                    s, m, pos, cp, ifs, fis, p1 + 2 + kb,
                                );
                            }
                        },
                        Err(_) => {},
                    }
                }
            },
            Err(_) => {},
        }
    }
}

/// Truncation, stated of the whole container: when a stream decodes to a
/// class file whose logical end is byte `k`, cutting the stream anywhere
/// before `k` makes the decode answer exactly `UnexpectedEOF` - never a
/// panic, never some other error, and never a value.
pub proof fn lemma_truncation(s: Seq<u8>, m: int)
    requires
        sp_class_file(s) is Ok,
        0 <= m < sp_class_file(s)->Ok_0.1,
    ensures
        sp_class_file(s.take(m)) == Err::<(ClassFileV, nat), ClassFileParseError>(
            ClassFileParseError::UnexpectedEOF,
        ),
{
    let k = sp_class_file(s)->Ok_0.1 as int;
    lemma_class_file_consumed_bound(s);
    lemma_take_eq(s, m);
    if m >= 10 {
        let count = sp_u16(s, 8);
        let slots: nat = if count == 0 { 0nat } else { (count - 1) as nat };
        trunc_cp_entries(s, m, 10, slots);
        match sp_cp_entries(s, 10, slots) {
            Ok((cp, kc)) => {
                if 10 + kc <= m {
                    trunc_class_tail(s, m, 10 + kc as int, cp);
                }
            },
            Err(_) => {},
        }
    }
}

/// A successful whole-file parse consumes no more bytes than the stream has.
proof fn lemma_class_file_consumed_bound(s: Seq<u8>)
    requires
        sp_class_file(s) is Ok,
    ensures
        sp_class_file(s)->Ok_0.1 <= s.len(),
{
    lemma_take_eq(s, s.len() as int);
    assert(s.take(s.len() as int) =~= s);
    let k = sp_class_file(s)->Ok_0.1 as int;
    if k > s.len() {
        let m = s.len() as int;
        let count = sp_u16(s, 8);
        let slots: nat = if count == 0 { 0nat } else { (count - 1) as nat };
        trunc_cp_entries(s, m, 10, slots);
        match sp_cp_entries(s, 10, slots) {
            Ok((cp, kc)) => {
                if 10 + kc <= m {
                    trunc_class_tail(s, m, 10 + kc as int, cp);
                }
            },
            Err(_) => {},
        }
    }
}

} // verus!
