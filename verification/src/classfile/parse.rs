use vstd::prelude::*;

use crate::classfile::err::ClassFileParseError;
use crate::classfile::flags;
use crate::classfile::grammar::{
    sp_annotation, sp_annotation_list, sp_attr_annotation_default, sp_attr_bootstrap_methods,
    sp_attr_code, sp_attr_code_tail, sp_attr_constant_value, sp_attr_enclosing_method,
    sp_attr_exceptions, sp_attr_inner_classes, sp_attr_line_number_table, sp_attr_list,
    sp_attr_local_variable_table, sp_attr_local_variable_type_table, sp_attr_method_parameters,
    sp_attr_module, sp_attr_module_main_class, sp_attr_module_mid, sp_attr_module_packages,
    sp_attr_module_tail, sp_attr_nest_host, sp_param_anno_item, sp_attr_nest_members, sp_attr_permitted_subclasses,
    sp_attr_record, sp_attr_ria, sp_attr_ripa, sp_attr_rita, sp_attr_rva, sp_attr_rvpa,
    sp_attr_rvta, sp_attr_signature, sp_attr_source_debug_extension, sp_attr_source_file,
    sp_attr_stack_map_table, sp_attribute, sp_bootstrap_method, sp_bootstrap_method_list,
    sp_class_file, sp_class_tail, sp_class_tail_methods, sp_cp_class, sp_cp_double,
    sp_cp_dynamic, sp_cp_entries, sp_cp_fieldref, sp_cp_float, sp_cp_info, sp_cp_integer,
    sp_cp_interface_methodref, sp_cp_invoke_dynamic, sp_cp_long, sp_cp_method_handle,
    sp_cp_method_type, sp_cp_methodref, sp_cp_module, sp_cp_name_and_type, sp_cp_package,
    sp_cp_string, sp_cp_utf8, sp_element_value, sp_ete_list, sp_ev_list, sp_ev_pair,
    sp_ev_pair_list, sp_exception_table_entry, sp_fi_list, sp_field_info, sp_inner_class,
    sp_inner_class_list, sp_known_attr, sp_line_number_entry, sp_lnt_list,
    sp_local_var_target_entry, sp_local_variable_entry, sp_local_variable_type_entry,
    sp_lvt_list, sp_lvtar_list, sp_lvtt_list, sp_method_info, sp_method_parameter,
    sp_method_parameter_list, sp_mi_list, sp_module_exports, sp_module_exports_list,
    sp_module_opens, sp_module_opens_list, sp_module_provides, sp_module_provides_list,
    sp_module_requires, sp_module_requires_list, sp_param_annotation_list, sp_path_entry,
    sp_path_list, sp_rc_list, sp_record_component, sp_smf_chop, sp_smf_append, sp_smf_full,
    sp_smf_list, sp_smf_same_ext, sp_smf_same_locals_one, sp_smf_same_locals_one_ext,
    sp_stack_map_frame, sp_target_info, sp_type_annotation, sp_type_annotation_list,
    sp_type_path, sp_u16_list, sp_verification_type, sp_vti_list,
};
use crate::classfile::names::{AttrName, classify_attr_name, sp_attr_name};
use crate::classfile::pool::{sp_slot_get, sp_slot_width};
use crate::classfile::reader::{Reader, sp_u16};
use crate::classfile::types::{
    Annotation, AttributeInfo, BootstrapMethod, ClassFile, ConstantPool, ConstantPoolInfo,
    ConstantPoolInfoTag, CpInfoV, ElementValue, ElementValuePair, ExceptionTableEntry, FieldInfo,
    InnerClass, LineNumberTableEntry, LocalVarTargetTableEntry, LocalVariableTableEntry,
    LocalVariableTypeTableEntry, MethodInfo, MethodParameter, ModuleExports, ModuleOpens,
    ModuleProvides, ModuleRequires, Path, RecordComponentInfo, ReferenceKind, StackMapFrame,
    TargetInfo, TypeAnnotation, TypePath, TypePathKind, VerificationTypeInfo,
    AnnotationV, AttrV, BootstrapMethodV, ClassFileV, ElementValuePairV, ElementValueV,
    FieldInfoV, MethodInfoV, ModuleExportsV, ModuleOpensV, ModuleProvidesV,
    RecordComponentInfoV, StackMapFrameV, TargetInfoV, TypeAnnotationV, TypePathV,
    lemma_annos_view_as_map, lemma_attrs_view_as_map, lemma_evs_view_as_map,
    lemma_pairs_view_as_map, lemma_rcs_view_as_map, anno_view,
    annos_view, attr_view, attrs_view, bm_view, cf_view, cp_info_view, ev_view, evs_view,
    fi_view, mexp_view, mi_view, mop_view, mprov_view, pair_view, pairs_view, pool_view, rc_view,
    rcs_view, smf_view, ta_view, ti_view, tp_view,
};

verus! {

// The executable decoder. Every parser's contract ties its result and its
// cursor movement to the corresponding mathematical parser of `grammar`:
// whatever that one answers for the bytes at the cursor, this code returns.

/// Prepends an already-parsed head (of `head` items, `k` bytes) to the
/// outcome of parsing the remainder of a counted list.
pub open spec fn sp_chain<T>(
    head: Seq<T>,
    k: nat,
    rest: Result<(Seq<T>, nat), ClassFileParseError>,
) -> Result<(Seq<T>, nat), ClassFileParseError> {
    match rest {
        Ok((xs, k2)) => Ok((head + xs, (k + k2) as nat)),
        Err(e) => Err(e),
    }
}

proof fn lemma_chain_nil<T>(rest: Result<(Seq<T>, nat), ClassFileParseError>)
    ensures
        sp_chain(Seq::<T>::empty(), 0, rest) == rest,
{
    match rest {
        Ok((xs, k2)) => {
            assert(Seq::<T>::empty() + xs =~= xs);
        },
        Err(e) => {},
    }
}

proof fn lemma_chain_step<T>(
    head: Seq<T>,
    kacc: nat,
    x: T,
    k: nat,
    rest: Result<(Seq<T>, nat), ClassFileParseError>,
)
    ensures
        sp_chain(
            head,
            kacc,
            match rest {
                Ok((xs, k2)) => Ok::<(Seq<T>, nat), ClassFileParseError>((
                    seq![x] + xs,
                    (k + k2) as nat,
                )),
                Err(e) => Err(e),
            },
        ) == sp_chain(head.push(x), (kacc + k) as nat, rest),
{
    match rest {
        Ok((xs, k2)) => {
            assert(head + (seq![x] + xs) =~= head.push(x) + xs);
        },
        Err(e) => {},
    }
}

proof fn lemma_chain_done<T>(head: Seq<T>, kacc: nat)
    ensures
        sp_chain(
            head,
            kacc,
            Ok::<(Seq<T>, nat), ClassFileParseError>((Seq::<T>::empty(), 0)),
        ) == Ok::<(Seq<T>, nat), ClassFileParseError>((head, kacc)),
{
    assert(head + Seq::<T>::empty() =~= head);
}

impl ExceptionTableEntry {
    /// One row of a code body's exception table.
    pub fn parse(source: &mut Reader) -> (res: Result<ExceptionTableEntry, ClassFileParseError>)
        requires
            old(source).wf(),
        ensures
            final(source).wf(),
            final(source).data == old(source).data,
            old(source).pos <= final(source).pos,
            match res {
                Ok(v) => sp_exception_table_entry(old(source).data@, old(source).pos as int) == Ok::<(ExceptionTableEntry, nat), ClassFileParseError>((
                    v,
                    (final(source).pos - old(source).pos) as nat,
                )),
                Err(e) => sp_exception_table_entry(old(source).data@, old(source).pos as int) == Err::<(ExceptionTableEntry, nat), ClassFileParseError>(e),
            },
    {
        let start_pc = source.read_u16()?;
        let end_pc = source.read_u16()?;
        let handler_pc = source.read_u16()?;
        let catch_type = source.read_u16()?;
        Ok(ExceptionTableEntry { start_pc, end_pc, handler_pc, catch_type })
    }
}

fn parse_ete_list(source: &mut Reader, n: u16) -> (res: Result<Vec<ExceptionTableEntry>, ClassFileParseError>)
    requires
        old(source).wf(),
    ensures
        final(source).wf(),
        final(source).data == old(source).data,
        old(source).pos <= final(source).pos,
        match res {
            Ok(v) => sp_ete_list(old(source).data@, old(source).pos as int, n as nat) == Ok::<(Seq<ExceptionTableEntry>, nat), ClassFileParseError>((
                v@,
                (final(source).pos - old(source).pos) as nat,
            )),
            Err(e) => sp_ete_list(old(source).data@, old(source).pos as int, n as nat) == Err::<(Seq<ExceptionTableEntry>, nat), ClassFileParseError>(e),
        },
{
    let ghost s = old(source).data@;
    let ghost pos0 = old(source).pos as int;
    let mut out: Vec<ExceptionTableEntry> = Vec::new();
    let mut i: u16 = 0;
    proof {
        lemma_chain_nil(sp_ete_list(s, pos0, n as nat));
        assert(out@ =~= Seq::<ExceptionTableEntry>::empty());
    }
    while i < n
        invariant
            source.wf(),
            source.data == old(source).data,
            s == old(source).data@,
            pos0 == old(source).pos as int,
            i <= n,
            pos0 <= source.pos as int,
            sp_ete_list(s, pos0, n as nat) == sp_chain(
                out@,
                (source.pos - pos0) as nat,
                sp_ete_list(s, source.pos as int, (n - i) as nat),
            ),
        decreases n - i,
    {
        let ghost posb = source.pos as int;
        let ghost kacc = (source.pos - pos0) as nat;
        let x = match ExceptionTableEntry::parse(source) {
            Ok(x) => x,
            Err(e) => {
                return Err(e);
            },
        };
        proof {
            let k = (source.pos - posb) as nat;
            lemma_chain_step::<ExceptionTableEntry>(
                out@,
                kacc,
                x,
                k,
                sp_ete_list(s, source.pos as int, (n - i - 1) as nat),
            );
            assert(out@.push(x) =~= out@.push(x));
        }
        out.push(x);
        i = i + 1;
    }
    proof {
        lemma_chain_done::<ExceptionTableEntry>(out@, (source.pos - pos0) as nat);
    }
    Ok(out)
}

impl LineNumberTableEntry {
    /// One row of a line-number table.
    pub fn parse(source: &mut Reader) -> (res: Result<LineNumberTableEntry, ClassFileParseError>)
        requires
            old(source).wf(),
        ensures
            final(source).wf(),
            final(source).data == old(source).data,
            old(source).pos <= final(source).pos,
            match res {
                Ok(v) => sp_line_number_entry(old(source).data@, old(source).pos as int) == Ok::<(LineNumberTableEntry, nat), ClassFileParseError>((
                    v,
                    (final(source).pos - old(source).pos) as nat,
                )),
                Err(e) => sp_line_number_entry(old(source).data@, old(source).pos as int) == Err::<(LineNumberTableEntry, nat), ClassFileParseError>(e),
            },
    {
        let start_pc = source.read_u16()?;
        let line_number = source.read_u16()?;
        Ok(LineNumberTableEntry { start_pc, line_number })
    }
}

fn parse_lnt_list(source: &mut Reader, n: u16) -> (res: Result<Vec<LineNumberTableEntry>, ClassFileParseError>)
    requires
        old(source).wf(),
    ensures
        final(source).wf(),
        final(source).data == old(source).data,
        old(source).pos <= final(source).pos,
        match res {
            Ok(v) => sp_lnt_list(old(source).data@, old(source).pos as int, n as nat) == Ok::<(Seq<LineNumberTableEntry>, nat), ClassFileParseError>((
                v@,
                (final(source).pos - old(source).pos) as nat,
            )),
            Err(e) => sp_lnt_list(old(source).data@, old(source).pos as int, n as nat) == Err::<(Seq<LineNumberTableEntry>, nat), ClassFileParseError>(e),
        },
{
    let ghost s = old(source).data@;
    let ghost pos0 = old(source).pos as int;
    let mut out: Vec<LineNumberTableEntry> = Vec::new();
    let mut i: u16 = 0;
    proof {
        lemma_chain_nil(sp_lnt_list(s, pos0, n as nat));
        assert(out@ =~= Seq::<LineNumberTableEntry>::empty());
    }
    while i < n
        invariant
            source.wf(),
            source.data == old(source).data,
            s == old(source).data@,
            pos0 == old(source).pos as int,
            i <= n,
            pos0 <= source.pos as int,
            sp_lnt_list(s, pos0, n as nat) == sp_chain(
                out@,
                (source.pos - pos0) as nat,
                sp_lnt_list(s, source.pos as int, (n - i) as nat),
            ),
        decreases n - i,
    {
        let ghost posb = source.pos as int;
        let ghost kacc = (source.pos - pos0) as nat;
        let x = match LineNumberTableEntry::parse(source) {
            Ok(x) => x,
            Err(e) => {
                return Err(e);
            },
        };
        proof {
            let k = (source.pos - posb) as nat;
            lemma_chain_step::<LineNumberTableEntry>(
                out@,
                kacc,
                x,
                k,
                sp_lnt_list(s, source.pos as int, (n - i - 1) as nat),
            );
            assert(out@.push(x) =~= out@.push(x));
        }
        out.push(x);
        i = i + 1;
    }
    proof {
        lemma_chain_done::<LineNumberTableEntry>(out@, (source.pos - pos0) as nat);
    }
    Ok(out)
}

impl LocalVariableTableEntry {
    /// One row of a local-variable table.
    pub fn parse(source: &mut Reader) -> (res: Result<LocalVariableTableEntry, ClassFileParseError>)
        requires
            old(source).wf(),
        ensures
            final(source).wf(),
            final(source).data == old(source).data,
            old(source).pos <= final(source).pos,
            match res {
                Ok(v) => sp_local_variable_entry(old(source).data@, old(source).pos as int) == Ok::<(LocalVariableTableEntry, nat), ClassFileParseError>((
                    v,
                    (final(source).pos - old(source).pos) as nat,
                )),
                Err(e) => sp_local_variable_entry(old(source).data@, old(source).pos as int) == Err::<(LocalVariableTableEntry, nat), ClassFileParseError>(e),
            },
    {
        let start_pc = source.read_u16()?;
        let length = source.read_u16()?;
        let name_index = source.read_u16()?;
        let descriptor_index = source.read_u16()?;
        let index = source.read_u16()?;
        Ok(LocalVariableTableEntry { start_pc, length, name_index, descriptor_index, index })
    }
}

fn parse_lvt_list(source: &mut Reader, n: u16) -> (res: Result<Vec<LocalVariableTableEntry>, ClassFileParseError>)
    requires
        old(source).wf(),
    ensures
        final(source).wf(),
        final(source).data == old(source).data,
        old(source).pos <= final(source).pos,
        match res {
            Ok(v) => sp_lvt_list(old(source).data@, old(source).pos as int, n as nat) == Ok::<(Seq<LocalVariableTableEntry>, nat), ClassFileParseError>((
                v@,
                (final(source).pos - old(source).pos) as nat,
            )),
            Err(e) => sp_lvt_list(old(source).data@, old(source).pos as int, n as nat) == Err::<(Seq<LocalVariableTableEntry>, nat), ClassFileParseError>(e),
        },
{
    let ghost s = old(source).data@;
    let ghost pos0 = old(source).pos as int;
    let mut out: Vec<LocalVariableTableEntry> = Vec::new();
    let mut i: u16 = 0;
    proof {
        lemma_chain_nil(sp_lvt_list(s, pos0, n as nat));
        assert(out@ =~= Seq::<LocalVariableTableEntry>::empty());
    }
    while i < n
        invariant
            source.wf(),
            source.data == old(source).data,
            s == old(source).data@,
            pos0 == old(source).pos as int,
            i <= n,
            pos0 <= source.pos as int,
            sp_lvt_list(s, pos0, n as nat) == sp_chain(
                out@,
                (source.pos - pos0) as nat,
                sp_lvt_list(s, source.pos as int, (n - i) as nat),
            ),
        decreases n - i,
    {
        let ghost posb = source.pos as int;
        let ghost kacc = (source.pos - pos0) as nat;
        let x = match LocalVariableTableEntry::parse(source) {
            Ok(x) => x,
            Err(e) => {
                return Err(e);
            },
        };
        proof {
            let k = (source.pos - posb) as nat;
            lemma_chain_step::<LocalVariableTableEntry>(
                out@,
                kacc,
                x,
                k,
                sp_lvt_list(s, source.pos as int, (n - i - 1) as nat),
            );
            assert(out@.push(x) =~= out@.push(x));
        }
        out.push(x);
        i = i + 1;
    }
    proof {
        lemma_chain_done::<LocalVariableTableEntry>(out@, (source.pos - pos0) as nat);
    }
    Ok(out)
}

impl LocalVariableTypeTableEntry {
    /// One row of a local-variable generics table.
    pub fn parse(source: &mut Reader) -> (res: Result<LocalVariableTypeTableEntry, ClassFileParseError>)
        requires
            old(source).wf(),
        ensures
            final(source).wf(),
            final(source).data == old(source).data,
            old(source).pos <= final(source).pos,
            match res {
                Ok(v) => sp_local_variable_type_entry(old(source).data@, old(source).pos as int) == Ok::<(LocalVariableTypeTableEntry, nat), ClassFileParseError>((
                    v,
                    (final(source).pos - old(source).pos) as nat,
                )),
                Err(e) => sp_local_variable_type_entry(old(source).data@, old(source).pos as int) == Err::<(LocalVariableTypeTableEntry, nat), ClassFileParseError>(e),
            },
    {
        let start_pc = source.read_u16()?;
        let length = source.read_u16()?;
        let name_index = source.read_u16()?;
        let signature_index = source.read_u16()?;
        let index = source.read_u16()?;
        Ok(LocalVariableTypeTableEntry { start_pc, length, name_index, signature_index, index })
    }
}

fn parse_lvtt_list(source: &mut Reader, n: u16) -> (res: Result<Vec<LocalVariableTypeTableEntry>, ClassFileParseError>)
    requires
        old(source).wf(),
    ensures
        final(source).wf(),
        final(source).data == old(source).data,
        old(source).pos <= final(source).pos,
        match res {
            Ok(v) => sp_lvtt_list(old(source).data@, old(source).pos as int, n as nat) == Ok::<(Seq<LocalVariableTypeTableEntry>, nat), ClassFileParseError>((
                v@,
                (final(source).pos - old(source).pos) as nat,
            )),
            Err(e) => sp_lvtt_list(old(source).data@, old(source).pos as int, n as nat) == Err::<(Seq<LocalVariableTypeTableEntry>, nat), ClassFileParseError>(e),
        },
{
    let ghost s = old(source).data@;
    let ghost pos0 = old(source).pos as int;
    let mut out: Vec<LocalVariableTypeTableEntry> = Vec::new();
    let mut i: u16 = 0;
    proof {
        lemma_chain_nil(sp_lvtt_list(s, pos0, n as nat));
        assert(out@ =~= Seq::<LocalVariableTypeTableEntry>::empty());
    }
    while i < n
        invariant
            source.wf(),
            source.data == old(source).data,
            s == old(source).data@,
            pos0 == old(source).pos as int,
            i <= n,
            pos0 <= source.pos as int,
            sp_lvtt_list(s, pos0, n as nat) == sp_chain(
                out@,
                (source.pos - pos0) as nat,
                sp_lvtt_list(s, source.pos as int, (n - i) as nat),
            ),
        decreases n - i,
    {
        let ghost posb = source.pos as int;
        let ghost kacc = (source.pos - pos0) as nat;
        let x = match LocalVariableTypeTableEntry::parse(source) {
            Ok(x) => x,
            Err(e) => {
                return Err(e);
            },
        };
        proof {
            let k = (source.pos - posb) as nat;
            lemma_chain_step::<LocalVariableTypeTableEntry>(
                out@,
                kacc,
                x,
                k,
                sp_lvtt_list(s, source.pos as int, (n - i - 1) as nat),
            );
            assert(out@.push(x) =~= out@.push(x));
        }
        out.push(x);
        i = i + 1;
    }
    proof {
        lemma_chain_done::<LocalVariableTypeTableEntry>(out@, (source.pos - pos0) as nat);
    }
    Ok(out)
}

impl LocalVarTargetTableEntry {
    /// One row of a local-variable annotation target table.
    pub fn parse(source: &mut Reader) -> (res: Result<LocalVarTargetTableEntry, ClassFileParseError>)
        requires
            old(source).wf(),
        ensures
            final(source).wf(),
            final(source).data == old(source).data,
            old(source).pos <= final(source).pos,
            match res {
                Ok(v) => sp_local_var_target_entry(old(source).data@, old(source).pos as int) == Ok::<(LocalVarTargetTableEntry, nat), ClassFileParseError>((
                    v,
                    (final(source).pos - old(source).pos) as nat,
                )),
                Err(e) => sp_local_var_target_entry(old(source).data@, old(source).pos as int) == Err::<(LocalVarTargetTableEntry, nat), ClassFileParseError>(e),
            },
    {
        let start_pc = source.read_u16()?;
        let length = source.read_u16()?;
        let index = source.read_u16()?;
        Ok(LocalVarTargetTableEntry { start_pc, length, index })
    }
}

fn parse_lvtar_list(source: &mut Reader, n: u16) -> (res: Result<Vec<LocalVarTargetTableEntry>, ClassFileParseError>)
    requires
        old(source).wf(),
    ensures
        final(source).wf(),
        final(source).data == old(source).data,
        old(source).pos <= final(source).pos,
        match res {
            Ok(v) => sp_lvtar_list(old(source).data@, old(source).pos as int, n as nat) == Ok::<(Seq<LocalVarTargetTableEntry>, nat), ClassFileParseError>((
                v@,
                (final(source).pos - old(source).pos) as nat,
            )),
            Err(e) => sp_lvtar_list(old(source).data@, old(source).pos as int, n as nat) == Err::<(Seq<LocalVarTargetTableEntry>, nat), ClassFileParseError>(e),
        },
{
    let ghost s = old(source).data@;
    let ghost pos0 = old(source).pos as int;
    let mut out: Vec<LocalVarTargetTableEntry> = Vec::new();
    let mut i: u16 = 0;
    proof {
        lemma_chain_nil(sp_lvtar_list(s, pos0, n as nat));
        assert(out@ =~= Seq::<LocalVarTargetTableEntry>::empty());
    }
    while i < n
        invariant
            source.wf(),
            source.data == old(source).data,
            s == old(source).data@,
            pos0 == old(source).pos as int,
            i <= n,
            pos0 <= source.pos as int,
            sp_lvtar_list(s, pos0, n as nat) == sp_chain(
                out@,
                (source.pos - pos0) as nat,
                sp_lvtar_list(s, source.pos as int, (n - i) as nat),
            ),
        decreases n - i,
    {
        let ghost posb = source.pos as int;
        let ghost kacc = (source.pos - pos0) as nat;
        let x = match LocalVarTargetTableEntry::parse(source) {
            Ok(x) => x,
            Err(e) => {
                return Err(e);
            },
        };
        proof {
            let k = (source.pos - posb) as nat;
            lemma_chain_step::<LocalVarTargetTableEntry>(
                out@,
                kacc,
                x,
                k,
                sp_lvtar_list(s, source.pos as int, (n - i - 1) as nat),
            );
            assert(out@.push(x) =~= out@.push(x));
        }
        out.push(x);
        i = i + 1;
    }
    proof {
        lemma_chain_done::<LocalVarTargetTableEntry>(out@, (source.pos - pos0) as nat);
    }
    Ok(out)
}

impl InnerClass {
    /// One row of the inner-class table.
    pub fn parse(source: &mut Reader) -> (res: Result<InnerClass, ClassFileParseError>)
        requires
            old(source).wf(),
        ensures
            final(source).wf(),
            final(source).data == old(source).data,
            old(source).pos <= final(source).pos,
            match res {
                Ok(v) => sp_inner_class(old(source).data@, old(source).pos as int) == Ok::<(InnerClass, nat), ClassFileParseError>((
                    v,
                    (final(source).pos - old(source).pos) as nat,
                )),
                Err(e) => sp_inner_class(old(source).data@, old(source).pos as int) == Err::<(InnerClass, nat), ClassFileParseError>(e),
            },
    {
        let inner_class_info_index = source.read_u16()?;
        let outer_class_info_index = source.read_u16()?;
        let inner_name_index = source.read_u16()?;
        let inner_class_access_flags = flags::InnerClassAccessFlags::from_bits_truncate(source.read_u16()?);
        Ok(InnerClass {
            inner_class_info_index,
            outer_class_info_index,
            inner_name_index,
            inner_class_access_flags,
        })
    }
}

fn parse_inner_class_list(source: &mut Reader, n: u16) -> (res: Result<Vec<InnerClass>, ClassFileParseError>)
    requires
        old(source).wf(),
    ensures
        final(source).wf(),
        final(source).data == old(source).data,
        old(source).pos <= final(source).pos,
        match res {
            Ok(v) => sp_inner_class_list(old(source).data@, old(source).pos as int, n as nat) == Ok::<(Seq<InnerClass>, nat), ClassFileParseError>((
                v@,
                (final(source).pos - old(source).pos) as nat,
            )),
            Err(e) => sp_inner_class_list(old(source).data@, old(source).pos as int, n as nat) == Err::<(Seq<InnerClass>, nat), ClassFileParseError>(e),
        },
{
    let ghost s = old(source).data@;
    let ghost pos0 = old(source).pos as int;
    let mut out: Vec<InnerClass> = Vec::new();
    let mut i: u16 = 0;
    proof {
        lemma_chain_nil(sp_inner_class_list(s, pos0, n as nat));
        assert(out@ =~= Seq::<InnerClass>::empty());
    }
    while i < n
        invariant
            source.wf(),
            source.data == old(source).data,
            s == old(source).data@,
            pos0 == old(source).pos as int,
            i <= n,
            pos0 <= source.pos as int,
            sp_inner_class_list(s, pos0, n as nat) == sp_chain(
                out@,
                (source.pos - pos0) as nat,
                sp_inner_class_list(s, source.pos as int, (n - i) as nat),
            ),
        decreases n - i,
    {
        let ghost posb = source.pos as int;
        let ghost kacc = (source.pos - pos0) as nat;
        let x = match InnerClass::parse(source) {
            Ok(x) => x,
            Err(e) => {
                return Err(e);
            },
        };
        proof {
            let k = (source.pos - posb) as nat;
            lemma_chain_step::<InnerClass>(
                out@,
                kacc,
                x,
                k,
                sp_inner_class_list(s, source.pos as int, (n - i - 1) as nat),
            );
            assert(out@.push(x) =~= out@.push(x));
        }
        out.push(x);
        i = i + 1;
    }
    proof {
        lemma_chain_done::<InnerClass>(out@, (source.pos - pos0) as nat);
    }
    Ok(out)
}

impl MethodParameter {
    /// One declared method parameter.
    pub fn parse(source: &mut Reader) -> (res: Result<MethodParameter, ClassFileParseError>)
        requires
            old(source).wf(),
        ensures
            final(source).wf(),
            final(source).data == old(source).data,
            old(source).pos <= final(source).pos,
            match res {
                Ok(v) => sp_method_parameter(old(source).data@, old(source).pos as int) == Ok::<(MethodParameter, nat), ClassFileParseError>((
                    v,
                    (final(source).pos - old(source).pos) as nat,
                )),
                Err(e) => sp_method_parameter(old(source).data@, old(source).pos as int) == Err::<(MethodParameter, nat), ClassFileParseError>(e),
            },
    {
        let name_index = source.read_u16()?;
        let access_flags = flags::MethodParameterAccessFlags::from_bits_truncate(source.read_u16()?);
        Ok(MethodParameter { name_index, access_flags })
    }
}

fn parse_method_parameter_list(source: &mut Reader, n: u16) -> (res: Result<Vec<MethodParameter>, ClassFileParseError>)
    requires
        old(source).wf(),
    ensures
        final(source).wf(),
        final(source).data == old(source).data,
        old(source).pos <= final(source).pos,
        match res {
            Ok(v) => sp_method_parameter_list(old(source).data@, old(source).pos as int, n as nat) == Ok::<(Seq<MethodParameter>, nat), ClassFileParseError>((
                v@,
                (final(source).pos - old(source).pos) as nat,
            )),
            Err(e) => sp_method_parameter_list(old(source).data@, old(source).pos as int, n as nat) == Err::<(Seq<MethodParameter>, nat), ClassFileParseError>(e),
        },
{
    let ghost s = old(source).data@;
    let ghost pos0 = old(source).pos as int;
    let mut out: Vec<MethodParameter> = Vec::new();
    let mut i: u16 = 0;
    proof {
        lemma_chain_nil(sp_method_parameter_list(s, pos0, n as nat));
        assert(out@ =~= Seq::<MethodParameter>::empty());
    }
    while i < n
        invariant
            source.wf(),
            source.data == old(source).data,
            s == old(source).data@,
            pos0 == old(source).pos as int,
            i <= n,
            pos0 <= source.pos as int,
            sp_method_parameter_list(s, pos0, n as nat) == sp_chain(
                out@,
                (source.pos - pos0) as nat,
                sp_method_parameter_list(s, source.pos as int, (n - i) as nat),
            ),
        decreases n - i,
    {
        let ghost posb = source.pos as int;
        let ghost kacc = (source.pos - pos0) as nat;
        let x = match MethodParameter::parse(source) {
            Ok(x) => x,
            Err(e) => {
                return Err(e);
            },
        };
        proof {
            let k = (source.pos - posb) as nat;
            lemma_chain_step::<MethodParameter>(
                out@,
                kacc,
                x,
                k,
                sp_method_parameter_list(s, source.pos as int, (n - i - 1) as nat),
            );
            assert(out@.push(x) =~= out@.push(x));
        }
        out.push(x);
        i = i + 1;
    }
    proof {
        lemma_chain_done::<MethodParameter>(out@, (source.pos - pos0) as nat);
    }
    Ok(out)
}

impl ModuleRequires {
    /// One requires row of a module definition.
    pub fn parse(source: &mut Reader) -> (res: Result<ModuleRequires, ClassFileParseError>)
        requires
            old(source).wf(),
        ensures
            final(source).wf(),
            final(source).data == old(source).data,
            old(source).pos <= final(source).pos,
            match res {
                Ok(v) => sp_module_requires(old(source).data@, old(source).pos as int) == Ok::<(ModuleRequires, nat), ClassFileParseError>((
                    v,
                    (final(source).pos - old(source).pos) as nat,
                )),
                Err(e) => sp_module_requires(old(source).data@, old(source).pos as int) == Err::<(ModuleRequires, nat), ClassFileParseError>(e),
            },
    {
        let requires_index = source.read_u16()?;
        let requires_flags = flags::RequiresFlags::from_bits_truncate(source.read_u16()?);
        let requires_version_index = source.read_u16()?;
        Ok(ModuleRequires { requires_index, requires_flags, requires_version_index })
    }
}

fn parse_module_requires_list(source: &mut Reader, n: u16) -> (res: Result<Vec<ModuleRequires>, ClassFileParseError>)
    requires
        old(source).wf(),
    ensures
        final(source).wf(),
        final(source).data == old(source).data,
        old(source).pos <= final(source).pos,
        match res {
            Ok(v) => sp_module_requires_list(old(source).data@, old(source).pos as int, n as nat) == Ok::<(Seq<ModuleRequires>, nat), ClassFileParseError>((
                v@,
                (final(source).pos - old(source).pos) as nat,
            )),
            Err(e) => sp_module_requires_list(old(source).data@, old(source).pos as int, n as nat) == Err::<(Seq<ModuleRequires>, nat), ClassFileParseError>(e),
        },
{
    let ghost s = old(source).data@;
    let ghost pos0 = old(source).pos as int;
    let mut out: Vec<ModuleRequires> = Vec::new();
    let mut i: u16 = 0;
    proof {
        lemma_chain_nil(sp_module_requires_list(s, pos0, n as nat));
        assert(out@ =~= Seq::<ModuleRequires>::empty());
    }
    while i < n
        invariant
            source.wf(),
            source.data == old(source).data,
            s == old(source).data@,
            pos0 == old(source).pos as int,
            i <= n,
            pos0 <= source.pos as int,
            sp_module_requires_list(s, pos0, n as nat) == sp_chain(
                out@,
                (source.pos - pos0) as nat,
                sp_module_requires_list(s, source.pos as int, (n - i) as nat),
            ),
        decreases n - i,
    {
        let ghost posb = source.pos as int;
        let ghost kacc = (source.pos - pos0) as nat;
        let x = match ModuleRequires::parse(source) {
            Ok(x) => x,
            Err(e) => {
                return Err(e);
            },
        };
        proof {
            let k = (source.pos - posb) as nat;
            lemma_chain_step::<ModuleRequires>(
                out@,
                kacc,
                x,
                k,
                sp_module_requires_list(s, source.pos as int, (n - i - 1) as nat),
            );
            assert(out@.push(x) =~= out@.push(x));
        }
        out.push(x);
        i = i + 1;
    }
    proof {
        lemma_chain_done::<ModuleRequires>(out@, (source.pos - pos0) as nat);
    }
    Ok(out)
}

impl Path {
    /// One checked path step of a type annotation.
    pub fn parse(source: &mut Reader) -> (res: Result<Path, ClassFileParseError>)
        requires
            old(source).wf(),
        ensures
            final(source).wf(),
            final(source).data == old(source).data,
            old(source).pos <= final(source).pos,
            match res {
                Ok(v) => sp_path_entry(old(source).data@, old(source).pos as int) == Ok::<(Path, nat), ClassFileParseError>((
                    v,
                    (final(source).pos - old(source).pos) as nat,
                )),
                Err(e) => sp_path_entry(old(source).data@, old(source).pos as int) == Err::<(Path, nat), ClassFileParseError>(e),
            },
    {
        let kind_byte = source.read_u8()?;
        let type_path_kind = match TypePathKind::from_u8(kind_byte) {
            Some(k) => k,
            None => return Err(ClassFileParseError::InvalidTypePathKind),
        };
        let type_path_argument_index = source.read_u8()?;
        Ok(Path { type_path_kind, type_path_argument_index })
    }
}

fn parse_path_list(source: &mut Reader, n: u16) -> (res: Result<Vec<Path>, ClassFileParseError>)
    requires
        old(source).wf(),
    ensures
        final(source).wf(),
        final(source).data == old(source).data,
        old(source).pos <= final(source).pos,
        match res {
            Ok(v) => sp_path_list(old(source).data@, old(source).pos as int, n as nat) == Ok::<(Seq<Path>, nat), ClassFileParseError>((
                v@,
                (final(source).pos - old(source).pos) as nat,
            )),
            Err(e) => sp_path_list(old(source).data@, old(source).pos as int, n as nat) == Err::<(Seq<Path>, nat), ClassFileParseError>(e),
        },
{
    let ghost s = old(source).data@;
    let ghost pos0 = old(source).pos as int;
    let mut out: Vec<Path> = Vec::new();
    let mut i: u16 = 0;
    proof {
        lemma_chain_nil(sp_path_list(s, pos0, n as nat));
        assert(out@ =~= Seq::<Path>::empty());
    }
    while i < n
        invariant
            source.wf(),
            source.data == old(source).data,
            s == old(source).data@,
            pos0 == old(source).pos as int,
            i <= n,
            pos0 <= source.pos as int,
            sp_path_list(s, pos0, n as nat) == sp_chain(
                out@,
                (source.pos - pos0) as nat,
                sp_path_list(s, source.pos as int, (n - i) as nat),
            ),
        decreases n - i,
    {
        let ghost posb = source.pos as int;
        let ghost kacc = (source.pos - pos0) as nat;
        let x = match Path::parse(source) {
            Ok(x) => x,
            Err(e) => {
                return Err(e);
            },
        };
        proof {
            let k = (source.pos - posb) as nat;
            lemma_chain_step::<Path>(
                out@,
                kacc,
                x,
                k,
                sp_path_list(s, source.pos as int, (n - i - 1) as nat),
            );
            assert(out@.push(x) =~= out@.push(x));
        }
        out.push(x);
        i = i + 1;
    }
    proof {
        lemma_chain_done::<Path>(out@, (source.pos - pos0) as nat);
    }
    Ok(out)
}

fn parse_u16_list(source: &mut Reader, n: u16) -> (res: Result<Vec<u16>, ClassFileParseError>)
    requires
        old(source).wf(),
    ensures
        final(source).wf(),
        final(source).data == old(source).data,
        old(source).pos <= final(source).pos,
        match res {
            Ok(v) => sp_u16_list(old(source).data@, old(source).pos as int, n as nat) == Ok::<(Seq<u16>, nat), ClassFileParseError>((
                v@,
                (final(source).pos - old(source).pos) as nat,
            )),
            Err(e) => sp_u16_list(old(source).data@, old(source).pos as int, n as nat) == Err::<(Seq<u16>, nat), ClassFileParseError>(e),
        },
{
    let ghost s = old(source).data@;
    let ghost pos0 = old(source).pos as int;
    let mut out: Vec<u16> = Vec::new();
    let mut i: u16 = 0;
    proof {
        lemma_chain_nil(sp_u16_list(s, pos0, n as nat));
        assert(out@ =~= Seq::<u16>::empty());
    }
    while i < n
        invariant
            source.wf(),
            source.data == old(source).data,
            s == old(source).data@,
            pos0 == old(source).pos as int,
            i <= n,
            pos0 <= source.pos as int,
            sp_u16_list(s, pos0, n as nat) == sp_chain(
                out@,
                (source.pos - pos0) as nat,
                sp_u16_list(s, source.pos as int, (n - i) as nat),
            ),
        decreases n - i,
    {
        let ghost posb = source.pos as int;
        let ghost kacc = (source.pos - pos0) as nat;
        let x = match source.read_u16() {
            Ok(x) => x,
            Err(e) => {
                return Err(e);
            },
        };
        proof {
            let k = (source.pos - posb) as nat;
            lemma_chain_step::<u16>(
                out@,
                kacc,
                x,
                k,
                sp_u16_list(s, source.pos as int, (n - i - 1) as nat),
            );
            assert(out@.push(x) =~= out@.push(x));
        }
        out.push(x);
        i = i + 1;
    }
    proof {
        lemma_chain_done::<u16>(out@, (source.pos - pos0) as nat);
    }
    Ok(out)
}

impl BootstrapMethod {
    /// One bootstrap-method row: a handle reference and its static arguments.
    pub fn parse(source: &mut Reader) -> (res: Result<BootstrapMethod, ClassFileParseError>)
        requires
            old(source).wf(),
        ensures
            final(source).wf(),
            final(source).data == old(source).data,
            old(source).pos <= final(source).pos,
            match res {
                Ok(v) => sp_bootstrap_method(old(source).data@, old(source).pos as int) == Ok::<(BootstrapMethodV, nat), ClassFileParseError>((
                    bm_view(v),
                    (final(source).pos - old(source).pos) as nat,
                )),
                Err(e) => sp_bootstrap_method(old(source).data@, old(source).pos as int) == Err::<(BootstrapMethodV, nat), ClassFileParseError>(e),
            },
    {
        let bootstrap_method_ref = source.read_u16()?;
        let num_bootstrap_arguments = source.read_u16()?;
        let bootstrap_arguments = parse_u16_list(source, num_bootstrap_arguments)?;
        Ok(BootstrapMethod { bootstrap_method_ref, bootstrap_arguments })
    }
}

fn parse_bootstrap_method_list(source: &mut Reader, n: u16) -> (res: Result<Vec<BootstrapMethod>, ClassFileParseError>)
    requires
        old(source).wf(),
    ensures
        final(source).wf(),
        final(source).data == old(source).data,
        old(source).pos <= final(source).pos,
        match res {
            Ok(v) => sp_bootstrap_method_list(old(source).data@, old(source).pos as int, n as nat) == Ok::<(Seq<BootstrapMethodV>, nat), ClassFileParseError>((
                v@.map_values(|y: BootstrapMethod| bm_view(y)),
                (final(source).pos - old(source).pos) as nat,
            )),
            Err(e) => sp_bootstrap_method_list(old(source).data@, old(source).pos as int, n as nat) == Err::<(Seq<BootstrapMethodV>, nat), ClassFileParseError>(e),
        },
{
    let ghost s = old(source).data@;
    let ghost pos0 = old(source).pos as int;
    let mut out: Vec<BootstrapMethod> = Vec::new();
    let mut i: u16 = 0;
    proof {
        lemma_chain_nil(sp_bootstrap_method_list(s, pos0, n as nat));
        assert(out@.map_values(|y: BootstrapMethod| bm_view(y)) =~= Seq::<BootstrapMethodV>::empty());
    }
    while i < n
        invariant
            source.wf(),
            source.data == old(source).data,
            s == old(source).data@,
            pos0 == old(source).pos as int,
            i <= n,
            pos0 <= source.pos as int,
            sp_bootstrap_method_list(s, pos0, n as nat) == sp_chain(
                out@.map_values(|y: BootstrapMethod| bm_view(y)),
                (source.pos - pos0) as nat,
                sp_bootstrap_method_list(s, source.pos as int, (n - i) as nat),
            ),
        decreases n - i,
    {
        let ghost posb = source.pos as int;
        let ghost kacc = (source.pos - pos0) as nat;
        let x = match BootstrapMethod::parse(source) {
            Ok(x) => x,
            Err(e) => {
                return Err(e);
            },
        };
        proof {
            let k = (source.pos - posb) as nat;
            lemma_chain_step::<BootstrapMethodV>(
                out@.map_values(|y: BootstrapMethod| bm_view(y)),
                kacc,
                bm_view(x),
                k,
                sp_bootstrap_method_list(s, source.pos as int, (n - i - 1) as nat),
            );
            assert(out@.push(x).map_values(|y: BootstrapMethod| bm_view(y)) =~= out@.map_values(|y: BootstrapMethod| bm_view(y)).push(bm_view(x)));
        }
        out.push(x);
        i = i + 1;
    }
    proof {
        lemma_chain_done::<BootstrapMethodV>(out@.map_values(|y: BootstrapMethod| bm_view(y)), (source.pos - pos0) as nat);
    }
    Ok(out)
}

impl ModuleExports {
    /// One exports row of a module definition.
    pub fn parse(source: &mut Reader) -> (res: Result<ModuleExports, ClassFileParseError>)
        requires
            old(source).wf(),
        ensures
            final(source).wf(),
            final(source).data == old(source).data,
            old(source).pos <= final(source).pos,
            match res {
                Ok(v) => sp_module_exports(old(source).data@, old(source).pos as int) == Ok::<(ModuleExportsV, nat), ClassFileParseError>((
                    mexp_view(v),
                    (final(source).pos - old(source).pos) as nat,
                )),
                Err(e) => sp_module_exports(old(source).data@, old(source).pos as int) == Err::<(ModuleExportsV, nat), ClassFileParseError>(e),
            },
    {
        let exports_index = source.read_u16()?;
        let exports_flags = flags::ExportsFlags::from_bits_truncate(source.read_u16()?);
        let exports_to_count = source.read_u16()?;
        let exports_to_index = parse_u16_list(source, exports_to_count)?;
        Ok(ModuleExports { exports_index, exports_flags, exports_to_index })
    }
}

fn parse_module_exports_list(source: &mut Reader, n: u16) -> (res: Result<Vec<ModuleExports>, ClassFileParseError>)
    requires
        old(source).wf(),
    ensures
        final(source).wf(),
        final(source).data == old(source).data,
        old(source).pos <= final(source).pos,
        match res {
            Ok(v) => sp_module_exports_list(old(source).data@, old(source).pos as int, n as nat) == Ok::<(Seq<ModuleExportsV>, nat), ClassFileParseError>((
                v@.map_values(|y: ModuleExports| mexp_view(y)),
                (final(source).pos - old(source).pos) as nat,
            )),
            Err(e) => sp_module_exports_list(old(source).data@, old(source).pos as int, n as nat) == Err::<(Seq<ModuleExportsV>, nat), ClassFileParseError>(e),
        },
{
    let ghost s = old(source).data@;
    let ghost pos0 = old(source).pos as int;
    let mut out: Vec<ModuleExports> = Vec::new();
    let mut i: u16 = 0;
    proof {
        lemma_chain_nil(sp_module_exports_list(s, pos0, n as nat));
        assert(out@.map_values(|y: ModuleExports| mexp_view(y)) =~= Seq::<ModuleExportsV>::empty());
    }
    while i < n
        invariant
            source.wf(),
            source.data == old(source).data,
            s == old(source).data@,
            pos0 == old(source).pos as int,
            i <= n,
            pos0 <= source.pos as int,
            sp_module_exports_list(s, pos0, n as nat) == sp_chain(
                out@.map_values(|y: ModuleExports| mexp_view(y)),
                (source.pos - pos0) as nat,
                sp_module_exports_list(s, source.pos as int, (n - i) as nat),
            ),
        decreases n - i,
    {
        let ghost posb = source.pos as int;
        let ghost kacc = (source.pos - pos0) as nat;
        let x = match ModuleExports::parse(source) {
            Ok(x) => x,
            Err(e) => {
                return Err(e);
            },
        };
        proof {
            let k = (source.pos - posb) as nat;
            lemma_chain_step::<ModuleExportsV>(
                out@.map_values(|y: ModuleExports| mexp_view(y)),
                kacc,
                mexp_view(x),
                k,
                sp_module_exports_list(s, source.pos as int, (n - i - 1) as nat),
            );
            assert(out@.push(x).map_values(|y: ModuleExports| mexp_view(y)) =~= out@.map_values(|y: ModuleExports| mexp_view(y)).push(mexp_view(x)));
        }
        out.push(x);
        i = i + 1;
    }
    proof {
        lemma_chain_done::<ModuleExportsV>(out@.map_values(|y: ModuleExports| mexp_view(y)), (source.pos - pos0) as nat);
    }
    Ok(out)
}

impl ModuleOpens {
    /// One opens row of a module definition.
    pub fn parse(source: &mut Reader) -> (res: Result<ModuleOpens, ClassFileParseError>)
        requires
            old(source).wf(),
        ensures
            final(source).wf(),
            final(source).data == old(source).data,
            old(source).pos <= final(source).pos,
            match res {
                Ok(v) => sp_module_opens(old(source).data@, old(source).pos as int) == Ok::<(ModuleOpensV, nat), ClassFileParseError>((
                    mop_view(v),
                    (final(source).pos - old(source).pos) as nat,
                )),
                Err(e) => sp_module_opens(old(source).data@, old(source).pos as int) == Err::<(ModuleOpensV, nat), ClassFileParseError>(e),
            },
    {
        let opens_index = source.read_u16()?;
        let opens_flags = flags::OpensFlags::from_bits_truncate(source.read_u16()?);
        let opens_to_count = source.read_u16()?;
        let opens_to_index = parse_u16_list(source, opens_to_count)?;
        Ok(ModuleOpens { opens_index, opens_flags, opens_to_index })
    }
}

fn parse_module_opens_list(source: &mut Reader, n: u16) -> (res: Result<Vec<ModuleOpens>, ClassFileParseError>)
    requires
        old(source).wf(),
    ensures
        final(source).wf(),
        final(source).data == old(source).data,
        old(source).pos <= final(source).pos,
        match res {
            Ok(v) => sp_module_opens_list(old(source).data@, old(source).pos as int, n as nat) == Ok::<(Seq<ModuleOpensV>, nat), ClassFileParseError>((
                v@.map_values(|y: ModuleOpens| mop_view(y)),
                (final(source).pos - old(source).pos) as nat,
            )),
            Err(e) => sp_module_opens_list(old(source).data@, old(source).pos as int, n as nat) == Err::<(Seq<ModuleOpensV>, nat), ClassFileParseError>(e),
        },
{
    let ghost s = old(source).data@;
    let ghost pos0 = old(source).pos as int;
    let mut out: Vec<ModuleOpens> = Vec::new();
    let mut i: u16 = 0;
    proof {
        lemma_chain_nil(sp_module_opens_list(s, pos0, n as nat));
        assert(out@.map_values(|y: ModuleOpens| mop_view(y)) =~= Seq::<ModuleOpensV>::empty());
    }
    while i < n
        invariant
            source.wf(),
            source.data == old(source).data,
            s == old(source).data@,
            pos0 == old(source).pos as int,
            i <= n,
            pos0 <= source.pos as int,
            sp_module_opens_list(s, pos0, n as nat) == sp_chain(
                out@.map_values(|y: ModuleOpens| mop_view(y)),
                (source.pos - pos0) as nat,
                sp_module_opens_list(s, source.pos as int, (n - i) as nat),
            ),
        decreases n - i,
    {
        let ghost posb = source.pos as int;
        let ghost kacc = (source.pos - pos0) as nat;
        let x = match ModuleOpens::parse(source) {
            Ok(x) => x,
            Err(e) => {
                return Err(e);
            },
        };
        proof {
            let k = (source.pos - posb) as nat;
            lemma_chain_step::<ModuleOpensV>(
                out@.map_values(|y: ModuleOpens| mop_view(y)),
                kacc,
                mop_view(x),
                k,
                sp_module_opens_list(s, source.pos as int, (n - i - 1) as nat),
            );
            assert(out@.push(x).map_values(|y: ModuleOpens| mop_view(y)) =~= out@.map_values(|y: ModuleOpens| mop_view(y)).push(mop_view(x)));
        }
        out.push(x);
        i = i + 1;
    }
    proof {
        lemma_chain_done::<ModuleOpensV>(out@.map_values(|y: ModuleOpens| mop_view(y)), (source.pos - pos0) as nat);
    }
    Ok(out)
}

impl ModuleProvides {
    /// One provides row of a module definition.
    pub fn parse(source: &mut Reader) -> (res: Result<ModuleProvides, ClassFileParseError>)
        requires
            old(source).wf(),
        ensures
            final(source).wf(),
            final(source).data == old(source).data,
            old(source).pos <= final(source).pos,
            match res {
                Ok(v) => sp_module_provides(old(source).data@, old(source).pos as int) == Ok::<(ModuleProvidesV, nat), ClassFileParseError>((
                    mprov_view(v),
                    (final(source).pos - old(source).pos) as nat,
                )),
                Err(e) => sp_module_provides(old(source).data@, old(source).pos as int) == Err::<(ModuleProvidesV, nat), ClassFileParseError>(e),
            },
    {
        let provides_index = source.read_u16()?;
        let provides_with_count = source.read_u16()?;
        let provides_with_index = parse_u16_list(source, provides_with_count)?;
        Ok(ModuleProvides { provides_index, provides_with_index })
    }
}

fn parse_module_provides_list(source: &mut Reader, n: u16) -> (res: Result<Vec<ModuleProvides>, ClassFileParseError>)
    requires
        old(source).wf(),
    ensures
        final(source).wf(),
        final(source).data == old(source).data,
        old(source).pos <= final(source).pos,
        match res {
            Ok(v) => sp_module_provides_list(old(source).data@, old(source).pos as int, n as nat) == Ok::<(Seq<ModuleProvidesV>, nat), ClassFileParseError>((
                v@.map_values(|y: ModuleProvides| mprov_view(y)),
                (final(source).pos - old(source).pos) as nat,
            )),
            Err(e) => sp_module_provides_list(old(source).data@, old(source).pos as int, n as nat) == Err::<(Seq<ModuleProvidesV>, nat), ClassFileParseError>(e),
        },
{
    let ghost s = old(source).data@;
    let ghost pos0 = old(source).pos as int;
    let mut out: Vec<ModuleProvides> = Vec::new();
    let mut i: u16 = 0;
    proof {
        lemma_chain_nil(sp_module_provides_list(s, pos0, n as nat));
        assert(out@.map_values(|y: ModuleProvides| mprov_view(y)) =~= Seq::<ModuleProvidesV>::empty());
    }
    while i < n
        invariant
            source.wf(),
            source.data == old(source).data,
            s == old(source).data@,
            pos0 == old(source).pos as int,
            i <= n,
            pos0 <= source.pos as int,
            sp_module_provides_list(s, pos0, n as nat) == sp_chain(
                out@.map_values(|y: ModuleProvides| mprov_view(y)),
                (source.pos - pos0) as nat,
                sp_module_provides_list(s, source.pos as int, (n - i) as nat),
            ),
        decreases n - i,
    {
        let ghost posb = source.pos as int;
        let ghost kacc = (source.pos - pos0) as nat;
        let x = match ModuleProvides::parse(source) {
            Ok(x) => x,
            Err(e) => {
                return Err(e);
            },
        };
        proof {
            let k = (source.pos - posb) as nat;
            lemma_chain_step::<ModuleProvidesV>(
                out@.map_values(|y: ModuleProvides| mprov_view(y)),
                kacc,
                mprov_view(x),
                k,
                sp_module_provides_list(s, source.pos as int, (n - i - 1) as nat),
            );
            assert(out@.push(x).map_values(|y: ModuleProvides| mprov_view(y)) =~= out@.map_values(|y: ModuleProvides| mprov_view(y)).push(mprov_view(x)));
        }
        out.push(x);
        i = i + 1;
    }
    proof {
        lemma_chain_done::<ModuleProvidesV>(out@.map_values(|y: ModuleProvides| mprov_view(y)), (source.pos - pos0) as nat);
    }
    Ok(out)
}

impl VerificationTypeInfo {
    /// One verification-type record; tags above eight are rejected.
    pub fn parse(source: &mut Reader) -> (res: Result<VerificationTypeInfo, ClassFileParseError>)
        requires
            old(source).wf(),
        ensures
            final(source).wf(),
            final(source).data == old(source).data,
            old(source).pos <= final(source).pos,
            match res {
                Ok(v) => sp_verification_type(old(source).data@, old(source).pos as int) == Ok::<(VerificationTypeInfo, nat), ClassFileParseError>((
                    v,
                    (final(source).pos - old(source).pos) as nat,
                )),
                Err(e) => sp_verification_type(old(source).data@, old(source).pos as int) == Err::<(VerificationTypeInfo, nat), ClassFileParseError>(e),
            },
    {
        let tag = source.read_u8()?;
        if tag == 0 { Ok(VerificationTypeInfo::TopVariable { tag }) }
        else if tag == 1 { Ok(VerificationTypeInfo::IntegerVariable { tag }) }
        else if tag == 2 { Ok(VerificationTypeInfo::FloatVariable { tag }) }
        else if tag == 3 { Ok(VerificationTypeInfo::DoubleVariable { tag }) }
        else if tag == 4 { Ok(VerificationTypeInfo::LongVariable { tag }) }
        else if tag == 5 { Ok(VerificationTypeInfo::NullVariable { tag }) }
        else if tag == 6 { Ok(VerificationTypeInfo::UninitializedThisVariable { tag }) }
        else if tag == 7 {
            let cpool_index = source.read_u16()?;
            Ok(VerificationTypeInfo::ObjectVariable { tag, cpool_index })
        }
        else if tag == 8 {
            let offset = source.read_u16()?;
            Ok(VerificationTypeInfo::UninitializedVariable { tag, offset })
        }
        else { Err(ClassFileParseError::InvalidVerificationTypeTag) }
    }
}

fn parse_vti_list(source: &mut Reader, n: u16) -> (res: Result<Vec<VerificationTypeInfo>, ClassFileParseError>)
    requires
        old(source).wf(),
    ensures
        final(source).wf(),
        final(source).data == old(source).data,
        old(source).pos <= final(source).pos,
        match res {
            Ok(v) => sp_vti_list(old(source).data@, old(source).pos as int, n as nat) == Ok::<(Seq<VerificationTypeInfo>, nat), ClassFileParseError>((
                v@,
                (final(source).pos - old(source).pos) as nat,
            )),
            Err(e) => sp_vti_list(old(source).data@, old(source).pos as int, n as nat) == Err::<(Seq<VerificationTypeInfo>, nat), ClassFileParseError>(e),
        },
{
    let ghost s = old(source).data@;
    let ghost pos0 = old(source).pos as int;
    let mut out: Vec<VerificationTypeInfo> = Vec::new();
    let mut i: u16 = 0;
    proof {
        lemma_chain_nil(sp_vti_list(s, pos0, n as nat));
        assert(out@ =~= Seq::<VerificationTypeInfo>::empty());
    }
    while i < n
        invariant
            source.wf(),
            source.data == old(source).data,
            s == old(source).data@,
            pos0 == old(source).pos as int,
            i <= n,
            pos0 <= source.pos as int,
            sp_vti_list(s, pos0, n as nat) == sp_chain(
                out@,
                (source.pos - pos0) as nat,
                sp_vti_list(s, source.pos as int, (n - i) as nat),
            ),
        decreases n - i,
    {
        let ghost posb = source.pos as int;
        let ghost kacc = (source.pos - pos0) as nat;
        let x = match VerificationTypeInfo::parse(source) {
            Ok(x) => x,
            Err(e) => {
                return Err(e);
            },
        };
        proof {
            let k = (source.pos - posb) as nat;
            lemma_chain_step::<VerificationTypeInfo>(
                out@,
                kacc,
                x,
                k,
                sp_vti_list(s, source.pos as int, (n - i - 1) as nat),
            );
            assert(out@.push(x) =~= out@.push(x));
        }
        out.push(x);
        i = i + 1;
    }
    proof {
        lemma_chain_done::<VerificationTypeInfo>(out@, (source.pos - pos0) as nat);
    }
    Ok(out)
}

impl ConstantPoolInfo {
    /// A length-prefixed byte string entry.
    fn parse_utf8(source: &mut Reader) -> (res: Result<ConstantPoolInfo, ClassFileParseError>)
        requires
            old(source).wf(),
        ensures
            final(source).wf(),
            final(source).data == old(source).data,
            old(source).pos <= final(source).pos,
            match res {
                Ok(v) => sp_cp_utf8(old(source).data@, old(source).pos as int) == Ok::<(CpInfoV, nat), ClassFileParseError>((
                    cp_info_view(v),
                    (final(source).pos - old(source).pos) as nat,
                )),
                Err(e) => sp_cp_utf8(old(source).data@, old(source).pos as int) == Err::<(CpInfoV, nat), ClassFileParseError>(e),
            },
    {
        let length = source.read_u16()?;
        let bytes = source.read_bytes(length as usize)?;
        Ok(ConstantPoolInfo::Utf8Info { length, bytes })
    }

    /// A 32-bit integer literal entry.
    fn parse_integer(source: &mut Reader) -> (res: Result<ConstantPoolInfo, ClassFileParseError>)
        requires
            old(source).wf(),
        ensures
            final(source).wf(),
            final(source).data == old(source).data,
            old(source).pos <= final(source).pos,
            match res {
                Ok(v) => sp_cp_integer(old(source).data@, old(source).pos as int) == Ok::<(CpInfoV, nat), ClassFileParseError>((
                    cp_info_view(v),
                    (final(source).pos - old(source).pos) as nat,
                )),
                Err(e) => sp_cp_integer(old(source).data@, old(source).pos as int) == Err::<(CpInfoV, nat), ClassFileParseError>(e),
            },
    {
        let bytes = source.read_u32()?;
        Ok(ConstantPoolInfo::IntegerInfo { bytes })
    }

    /// A 32-bit float literal entry, kept as its raw bytes.
    fn parse_float(source: &mut Reader) -> (res: Result<ConstantPoolInfo, ClassFileParseError>)
        requires
            old(source).wf(),
        ensures
            final(source).wf(),
            final(source).data == old(source).data,
            old(source).pos <= final(source).pos,
            match res {
                Ok(v) => sp_cp_float(old(source).data@, old(source).pos as int) == Ok::<(CpInfoV, nat), ClassFileParseError>((
                    cp_info_view(v),
                    (final(source).pos - old(source).pos) as nat,
                )),
                Err(e) => sp_cp_float(old(source).data@, old(source).pos as int) == Err::<(CpInfoV, nat), ClassFileParseError>(e),
            },
    {
        let bytes = source.read_u32()?;
        Ok(ConstantPoolInfo::FloatInfo { bytes })
    }

    /// A 64-bit integer literal entry, two slots wide.
    fn parse_long(source: &mut Reader) -> (res: Result<ConstantPoolInfo, ClassFileParseError>)
        requires
            old(source).wf(),
        ensures
            final(source).wf(),
            final(source).data == old(source).data,
            old(source).pos <= final(source).pos,
            match res {
                Ok(v) => sp_cp_long(old(source).data@, old(source).pos as int) == Ok::<(CpInfoV, nat), ClassFileParseError>((
                    cp_info_view(v),
                    (final(source).pos - old(source).pos) as nat,
                )),
                Err(e) => sp_cp_long(old(source).data@, old(source).pos as int) == Err::<(CpInfoV, nat), ClassFileParseError>(e),
            },
    {
        let high_bytes = source.read_u32()?;
        let low_bytes = source.read_u32()?;
        Ok(ConstantPoolInfo::LongInfo { high_bytes, low_bytes })
    }

    /// A 64-bit float literal entry, two slots wide.
    fn parse_double(source: &mut Reader) -> (res: Result<ConstantPoolInfo, ClassFileParseError>)
        requires
            old(source).wf(),
        ensures
            final(source).wf(),
            final(source).data == old(source).data,
            old(source).pos <= final(source).pos,
            match res {
                Ok(v) => sp_cp_double(old(source).data@, old(source).pos as int) == Ok::<(CpInfoV, nat), ClassFileParseError>((
                    cp_info_view(v),
                    (final(source).pos - old(source).pos) as nat,
                )),
                Err(e) => sp_cp_double(old(source).data@, old(source).pos as int) == Err::<(CpInfoV, nat), ClassFileParseError>(e),
            },
    {
        let high_bytes = source.read_u32()?;
        let low_bytes = source.read_u32()?;
        Ok(ConstantPoolInfo::DoubleInfo { high_bytes, low_bytes })
    }

    /// A class reference entry.
    fn parse_class(source: &mut Reader) -> (res: Result<ConstantPoolInfo, ClassFileParseError>)
        requires
            old(source).wf(),
        ensures
            final(source).wf(),
            final(source).data == old(source).data,
            old(source).pos <= final(source).pos,
            match res {
                Ok(v) => sp_cp_class(old(source).data@, old(source).pos as int) == Ok::<(CpInfoV, nat), ClassFileParseError>((
                    cp_info_view(v),
                    (final(source).pos - old(source).pos) as nat,
                )),
                Err(e) => sp_cp_class(old(source).data@, old(source).pos as int) == Err::<(CpInfoV, nat), ClassFileParseError>(e),
            },
    {
        let name_index = source.read_u16()?;
        Ok(ConstantPoolInfo::ClassInfo { name_index })
    }

    /// A string literal entry.
    fn parse_string(source: &mut Reader) -> (res: Result<ConstantPoolInfo, ClassFileParseError>)
        requires
            old(source).wf(),
        ensures
            final(source).wf(),
            final(source).data == old(source).data,
            old(source).pos <= final(source).pos,
            match res {
                Ok(v) => sp_cp_string(old(source).data@, old(source).pos as int) == Ok::<(CpInfoV, nat), ClassFileParseError>((
                    cp_info_view(v),
                    (final(source).pos - old(source).pos) as nat,
                )),
                Err(e) => sp_cp_string(old(source).data@, old(source).pos as int) == Err::<(CpInfoV, nat), ClassFileParseError>(e),
            },
    {
        let string_index = source.read_u16()?;
        Ok(ConstantPoolInfo::StringInfo { string_index })
    }

    /// A field reference entry.
    fn parse_fieldref(source: &mut Reader) -> (res: Result<ConstantPoolInfo, ClassFileParseError>)
        requires
            old(source).wf(),
        ensures
            final(source).wf(),
            final(source).data == old(source).data,
            old(source).pos <= final(source).pos,
            match res {
                Ok(v) => sp_cp_fieldref(old(source).data@, old(source).pos as int) == Ok::<(CpInfoV, nat), ClassFileParseError>((
                    cp_info_view(v),
                    (final(source).pos - old(source).pos) as nat,
                )),
                Err(e) => sp_cp_fieldref(old(source).data@, old(source).pos as int) == Err::<(CpInfoV, nat), ClassFileParseError>(e),
            },
    {
        let class_index = source.read_u16()?;
        let name_and_type_index = source.read_u16()?;
        Ok(ConstantPoolInfo::FieldrefInfo { class_index, name_and_type_index })
    }

    /// A method reference entry.
    fn parse_methodref(source: &mut Reader) -> (res: Result<ConstantPoolInfo, ClassFileParseError>)
        requires
            old(source).wf(),
        ensures
            final(source).wf(),
            final(source).data == old(source).data,
            old(source).pos <= final(source).pos,
            match res {
                Ok(v) => sp_cp_methodref(old(source).data@, old(source).pos as int) == Ok::<(CpInfoV, nat), ClassFileParseError>((
                    cp_info_view(v),
                    (final(source).pos - old(source).pos) as nat,
                )),
                Err(e) => sp_cp_methodref(old(source).data@, old(source).pos as int) == Err::<(CpInfoV, nat), ClassFileParseError>(e),
            },
    {
        let class_index = source.read_u16()?;
        let name_and_type_index = source.read_u16()?;
        Ok(ConstantPoolInfo::MethodrefInfo { class_index, name_and_type_index })
    }

    /// An interface-method reference entry.
    fn parse_interface_methodref(source: &mut Reader) -> (res: Result<ConstantPoolInfo, ClassFileParseError>)
        requires
            old(source).wf(),
        ensures
            final(source).wf(),
            final(source).data == old(source).data,
            old(source).pos <= final(source).pos,
            match res {
                Ok(v) => sp_cp_interface_methodref(old(source).data@, old(source).pos as int) == Ok::<(CpInfoV, nat), ClassFileParseError>((
                    cp_info_view(v),
                    (final(source).pos - old(source).pos) as nat,
                )),
                Err(e) => sp_cp_interface_methodref(old(source).data@, old(source).pos as int) == Err::<(CpInfoV, nat), ClassFileParseError>(e),
            },
    {
        let class_index = source.read_u16()?;
        let name_and_type_index = source.read_u16()?;
        Ok(ConstantPoolInfo::InterfaceMethodrefInfo { class_index, name_and_type_index })
    }

    /// A name-and-descriptor pair entry.
    fn parse_name_and_type(source: &mut Reader) -> (res: Result<ConstantPoolInfo, ClassFileParseError>)
        requires
            old(source).wf(),
        ensures
            final(source).wf(),
            final(source).data == old(source).data,
            old(source).pos <= final(source).pos,
            match res {
                Ok(v) => sp_cp_name_and_type(old(source).data@, old(source).pos as int) == Ok::<(CpInfoV, nat), ClassFileParseError>((
                    cp_info_view(v),
                    (final(source).pos - old(source).pos) as nat,
                )),
                Err(e) => sp_cp_name_and_type(old(source).data@, old(source).pos as int) == Err::<(CpInfoV, nat), ClassFileParseError>(e),
            },
    {
        let name_index = source.read_u16()?;
        let descriptor_index = source.read_u16()?;
        Ok(ConstantPoolInfo::NameAndTypeInfo { name_index, descriptor_index })
    }

    /// A method-handle entry with a checked reference kind.
    fn parse_method_handle(source: &mut Reader) -> (res: Result<ConstantPoolInfo, ClassFileParseError>)
        requires
            old(source).wf(),
        ensures
            final(source).wf(),
            final(source).data == old(source).data,
            old(source).pos <= final(source).pos,
            match res {
                Ok(v) => sp_cp_method_handle(old(source).data@, old(source).pos as int) == Ok::<(CpInfoV, nat), ClassFileParseError>((
                    cp_info_view(v),
                    (final(source).pos - old(source).pos) as nat,
                )),
                Err(e) => sp_cp_method_handle(old(source).data@, old(source).pos as int) == Err::<(CpInfoV, nat), ClassFileParseError>(e),
            },
    {
        let kind_byte = source.read_u8()?;
        let reference_kind = match ReferenceKind::from_u8(kind_byte) {
            Some(k) => k,
            None => return Err(ClassFileParseError::InvalidReferenceKind),
        };
        let reference_index = source.read_u16()?;
        Ok(ConstantPoolInfo::MethodHandleInfo { reference_kind, reference_index })
    }

    /// A method-type descriptor entry.
    fn parse_method_type(source: &mut Reader) -> (res: Result<ConstantPoolInfo, ClassFileParseError>)
        requires
            old(source).wf(),
        ensures
            final(source).wf(),
            final(source).data == old(source).data,
            old(source).pos <= final(source).pos,
            match res {
                Ok(v) => sp_cp_method_type(old(source).data@, old(source).pos as int) == Ok::<(CpInfoV, nat), ClassFileParseError>((
                    cp_info_view(v),
                    (final(source).pos - old(source).pos) as nat,
                )),
                Err(e) => sp_cp_method_type(old(source).data@, old(source).pos as int) == Err::<(CpInfoV, nat), ClassFileParseError>(e),
            },
    {
        let descriptor_index = source.read_u16()?;
        Ok(ConstantPoolInfo::MethodTypeInfo { descriptor_index })
    }

    /// A dynamically computed constant entry.
    fn parse_dynamic(source: &mut Reader) -> (res: Result<ConstantPoolInfo, ClassFileParseError>)
        requires
            old(source).wf(),
        ensures
            final(source).wf(),
            final(source).data == old(source).data,
            old(source).pos <= final(source).pos,
            match res {
                Ok(v) => sp_cp_dynamic(old(source).data@, old(source).pos as int) == Ok::<(CpInfoV, nat), ClassFileParseError>((
                    cp_info_view(v),
                    (final(source).pos - old(source).pos) as nat,
                )),
                Err(e) => sp_cp_dynamic(old(source).data@, old(source).pos as int) == Err::<(CpInfoV, nat), ClassFileParseError>(e),
            },
    {
        let bootstrap_method_attr_index = source.read_u16()?;
        let name_and_type_index = source.read_u16()?;
        Ok(ConstantPoolInfo::DynamicInfo { bootstrap_method_attr_index, name_and_type_index })
    }

    /// A dynamic call-site entry.
    fn parse_invoke_dynamic(source: &mut Reader) -> (res: Result<ConstantPoolInfo, ClassFileParseError>)
        requires
            old(source).wf(),
        ensures
            final(source).wf(),
            final(source).data == old(source).data,
            old(source).pos <= final(source).pos,
            match res {
                Ok(v) => sp_cp_invoke_dynamic(old(source).data@, old(source).pos as int) == Ok::<(CpInfoV, nat), ClassFileParseError>((
                    cp_info_view(v),
                    (final(source).pos - old(source).pos) as nat,
                )),
                Err(e) => sp_cp_invoke_dynamic(old(source).data@, old(source).pos as int) == Err::<(CpInfoV, nat), ClassFileParseError>(e),
            },
    {
        let bootstrap_method_attr_index = source.read_u16()?;
        let name_and_type_index = source.read_u16()?;
        Ok(ConstantPoolInfo::InvokeDynamicInfo { bootstrap_method_attr_index, name_and_type_index })
    }

    /// A module reference entry.
    fn parse_module(source: &mut Reader) -> (res: Result<ConstantPoolInfo, ClassFileParseError>)
        requires
            old(source).wf(),
        ensures
            final(source).wf(),
            final(source).data == old(source).data,
            old(source).pos <= final(source).pos,
            match res {
                Ok(v) => sp_cp_module(old(source).data@, old(source).pos as int) == Ok::<(CpInfoV, nat), ClassFileParseError>((
                    cp_info_view(v),
                    (final(source).pos - old(source).pos) as nat,
                )),
                Err(e) => sp_cp_module(old(source).data@, old(source).pos as int) == Err::<(CpInfoV, nat), ClassFileParseError>(e),
            },
    {
        let name_index = source.read_u16()?;
        Ok(ConstantPoolInfo::ModuleInfo { name_index })
    }

    /// A package reference entry.
    fn parse_package(source: &mut Reader) -> (res: Result<ConstantPoolInfo, ClassFileParseError>)
        requires
            old(source).wf(),
        ensures
            final(source).wf(),
            final(source).data == old(source).data,
            old(source).pos <= final(source).pos,
            match res {
                Ok(v) => sp_cp_package(old(source).data@, old(source).pos as int) == Ok::<(CpInfoV, nat), ClassFileParseError>((
                    cp_info_view(v),
                    (final(source).pos - old(source).pos) as nat,
                )),
                Err(e) => sp_cp_package(old(source).data@, old(source).pos as int) == Err::<(CpInfoV, nat), ClassFileParseError>(e),
            },
    {
        let name_index = source.read_u16()?;
        Ok(ConstantPoolInfo::PackageInfo { name_index })
    }

    /// One constant-pool entry: the tag byte is checked, then the payload
    /// parser the tag selects runs.
    pub fn parse(source: &mut Reader) -> (res: Result<ConstantPoolInfo, ClassFileParseError>)
        requires
            old(source).wf(),
        ensures
            final(source).wf(),
            final(source).data == old(source).data,
            old(source).pos <= final(source).pos,
            match res {
                Ok(v) => sp_cp_info(old(source).data@, old(source).pos as int) == Ok::<(CpInfoV, nat), ClassFileParseError>((
                    cp_info_view(v),
                    (final(source).pos - old(source).pos) as nat,
                )),
                Err(e) => sp_cp_info(old(source).data@, old(source).pos as int) == Err::<(CpInfoV, nat), ClassFileParseError>(e),
            },
    {
        let tag_byte = source.read_u8()?;
        let tag = match ConstantPoolInfoTag::from_u8(tag_byte) {
            Some(t) => t,
            None => return Err(ClassFileParseError::InvalidConstantPoolInfoTag),
        };
        match tag {
            ConstantPoolInfoTag::Utf8 => ConstantPoolInfo::parse_utf8(source),
            ConstantPoolInfoTag::Integer => ConstantPoolInfo::parse_integer(source),
            ConstantPoolInfoTag::Float => ConstantPoolInfo::parse_float(source),
            ConstantPoolInfoTag::Long => ConstantPoolInfo::parse_long(source),
            ConstantPoolInfoTag::Double => ConstantPoolInfo::parse_double(source),
            ConstantPoolInfoTag::Class => ConstantPoolInfo::parse_class(source),
            ConstantPoolInfoTag::String => ConstantPoolInfo::parse_string(source),
            ConstantPoolInfoTag::Fieldref => ConstantPoolInfo::parse_fieldref(source),
            ConstantPoolInfoTag::Methodref => ConstantPoolInfo::parse_methodref(source),
            ConstantPoolInfoTag::InterfaceMethodref => {
                ConstantPoolInfo::parse_interface_methodref(source)
            },
            ConstantPoolInfoTag::NameAndType => ConstantPoolInfo::parse_name_and_type(source),
            ConstantPoolInfoTag::MethodHandle => ConstantPoolInfo::parse_method_handle(source),
            ConstantPoolInfoTag::MethodType => ConstantPoolInfo::parse_method_type(source),
            ConstantPoolInfoTag::Dynamic => ConstantPoolInfo::parse_dynamic(source),
            ConstantPoolInfoTag::InvokeDynamic => ConstantPoolInfo::parse_invoke_dynamic(source),
            ConstantPoolInfoTag::Module => ConstantPoolInfo::parse_module(source),
            ConstantPoolInfoTag::Package => ConstantPoolInfo::parse_package(source),
        }
    }
}

/// The constant-pool table: entries are parsed until the given number of
/// index slots is filled, an eight-byte literal filling two at once.
fn parse_cp_entries(source: &mut Reader, slots: u16) -> (res: Result<Vec<ConstantPoolInfo>, ClassFileParseError>)
    requires
        old(source).wf(),
    ensures
        final(source).wf(),
        final(source).data == old(source).data,
        old(source).pos <= final(source).pos,
        match res {
            Ok(v) => sp_cp_entries(old(source).data@, old(source).pos as int, slots as nat) == Ok::<(Seq<CpInfoV>, nat), ClassFileParseError>((
                v@.map_values(|y: ConstantPoolInfo| cp_info_view(y)),
                (final(source).pos - old(source).pos) as nat,
            )),
            Err(e) => sp_cp_entries(old(source).data@, old(source).pos as int, slots as nat) == Err::<(Seq<CpInfoV>, nat), ClassFileParseError>(e),
        },
{
    let ghost s = old(source).data@;
    let ghost pos0 = old(source).pos as int;
    let mut out: Vec<ConstantPoolInfo> = Vec::new();
    let mut left: u16 = slots;
    proof {
        lemma_chain_nil(sp_cp_entries(s, pos0, slots as nat));
        assert(out@.map_values(|y: ConstantPoolInfo| cp_info_view(y)) =~= Seq::<CpInfoV>::empty());
    }
    while left > 0
        invariant
            source.wf(),
            source.data == old(source).data,
            s == old(source).data@,
            pos0 == old(source).pos as int,
            pos0 <= source.pos as int,
            sp_cp_entries(s, pos0, slots as nat) == sp_chain(
                out@.map_values(|y: ConstantPoolInfo| cp_info_view(y)),
                (source.pos - pos0) as nat,
                sp_cp_entries(s, source.pos as int, left as nat),
            ),
        decreases left,
    {
        let ghost posb = source.pos as int;
        let ghost kacc = (source.pos - pos0) as nat;
        let x = match ConstantPoolInfo::parse(source) {
            Ok(x) => x,
            Err(e) => {
                return Err(e);
            },
        };
        let wide = match &x {
            ConstantPoolInfo::LongInfo { .. } => true,
            ConstantPoolInfo::DoubleInfo { .. } => true,
            _ => false,
        };
        let w: u16 = if wide { 2 } else { 1 };
        let next_left: u16 = if w < left { left - w } else { 0 };
        proof {
            assert(sp_slot_width(cp_info_view(x)) == w as nat);
            let k = (source.pos - posb) as nat;
            lemma_chain_step::<CpInfoV>(
                out@.map_values(|y: ConstantPoolInfo| cp_info_view(y)),
                kacc,
                cp_info_view(x),
                k,
                sp_cp_entries(s, source.pos as int, next_left as nat),
            );
            assert(out@.push(x).map_values(|y: ConstantPoolInfo| cp_info_view(y)) =~= out@.map_values(
                |y: ConstantPoolInfo| cp_info_view(y),
            ).push(cp_info_view(x)));
        }
        out.push(x);
        left = next_left;
    }
    proof {
        lemma_chain_done::<CpInfoV>(
            out@.map_values(|y: ConstantPoolInfo| cp_info_view(y)),
            (source.pos - pos0) as nat,
        );
    }
    Ok(out)
}

impl StackMapFrame {
    /// The one-item frame: one verification type follows the frame type.
    fn parse_same_locals_1_item_stack(source: &mut Reader, frame_type: u8) -> (res: Result<StackMapFrame, ClassFileParseError>)
        requires
            old(source).wf(),
        ensures
            final(source).wf(),
            final(source).data == old(source).data,
            old(source).pos <= final(source).pos,
            match res {
                Ok(v) => sp_smf_same_locals_one(old(source).data@, old(source).pos as int, frame_type) == Ok::<(StackMapFrameV, nat), ClassFileParseError>((
                    smf_view(v),
                    (final(source).pos - old(source).pos) as nat,
                )),
                Err(e) => sp_smf_same_locals_one(old(source).data@, old(source).pos as int, frame_type) == Err::<(StackMapFrameV, nat), ClassFileParseError>(e),
            },
    {
        let stack = VerificationTypeInfo::parse(source)?;
        Ok(StackMapFrame::SameLocals1StackItem { frame_type, stack })
    }

    /// The extended one-item frame: an offset delta, then one verification type.
    fn parse_same_locals_1_stack_item_frame_extended(source: &mut Reader, frame_type: u8) -> (res: Result<StackMapFrame, ClassFileParseError>)
        requires
            old(source).wf(),
        ensures
            final(source).wf(),
            final(source).data == old(source).data,
            old(source).pos <= final(source).pos,
            match res {
                Ok(v) => sp_smf_same_locals_one_ext(old(source).data@, old(source).pos as int, frame_type) == Ok::<(StackMapFrameV, nat), ClassFileParseError>((
                    smf_view(v),
                    (final(source).pos - old(source).pos) as nat,
                )),
                Err(e) => sp_smf_same_locals_one_ext(old(source).data@, old(source).pos as int, frame_type) == Err::<(StackMapFrameV, nat), ClassFileParseError>(e),
            },
    {
        let offset_delta = source.read_u16()?;
        let stack = VerificationTypeInfo::parse(source)?;
        Ok(StackMapFrame::SameLocals1StackItemExtended { frame_type, offset_delta, stack })
    }

    /// The chop frame: an offset delta alone.
    fn parse_chop_frame(source: &mut Reader, frame_type: u8) -> (res: Result<StackMapFrame, ClassFileParseError>)
        requires
            old(source).wf(),
        ensures
            final(source).wf(),
            final(source).data == old(source).data,
            old(source).pos <= final(source).pos,
            match res {
                Ok(v) => sp_smf_chop(old(source).data@, old(source).pos as int, frame_type) == Ok::<(StackMapFrameV, nat), ClassFileParseError>((
                    smf_view(v),
                    (final(source).pos - old(source).pos) as nat,
                )),
                Err(e) => sp_smf_chop(old(source).data@, old(source).pos as int, frame_type) == Err::<(StackMapFrameV, nat), ClassFileParseError>(e),
            },
    {
        let offset_delta = source.read_u16()?;
        Ok(StackMapFrame::Chop { frame_type, offset_delta })
    }

    /// The extended same frame: an offset delta alone.
    fn parse_same_frame_extended(source: &mut Reader, frame_type: u8) -> (res: Result<StackMapFrame, ClassFileParseError>)
        requires
            old(source).wf(),
        ensures
            final(source).wf(),
            final(source).data == old(source).data,
            old(source).pos <= final(source).pos,
            match res {
                Ok(v) => sp_smf_same_ext(old(source).data@, old(source).pos as int, frame_type) == Ok::<(StackMapFrameV, nat), ClassFileParseError>((
                    smf_view(v),
                    (final(source).pos - old(source).pos) as nat,
                )),
                Err(e) => sp_smf_same_ext(old(source).data@, old(source).pos as int, frame_type) == Err::<(StackMapFrameV, nat), ClassFileParseError>(e),
            },
    {
        let offset_delta = source.read_u16()?;
        Ok(StackMapFrame::SameExtended { frame_type, offset_delta })
    }

    /// The append frame: the frame type encodes how many new locals follow.
    fn parse_append_frame(source: &mut Reader, frame_type: u8) -> (res: Result<StackMapFrame, ClassFileParseError>)
        requires
            old(source).wf(),
            252 <= frame_type <= 254,
        ensures
            final(source).wf(),
            final(source).data == old(source).data,
            old(source).pos <= final(source).pos,
            match res {
                Ok(v) => sp_smf_append(old(source).data@, old(source).pos as int, frame_type) == Ok::<(StackMapFrameV, nat), ClassFileParseError>((
                    smf_view(v),
                    (final(source).pos - old(source).pos) as nat,
                )),
                Err(e) => sp_smf_append(old(source).data@, old(source).pos as int, frame_type) == Err::<(StackMapFrameV, nat), ClassFileParseError>(e),
            },
    {
        let offset_delta = source.read_u16()?;
        let locals = parse_vti_list(source, (frame_type - 251) as u16)?;
        Ok(StackMapFrame::Append { frame_type, offset_delta, locals })
    }

    /// The full frame: counted locals, then a counted stack.
    fn parse_full_frame(source: &mut Reader, frame_type: u8) -> (res: Result<StackMapFrame, ClassFileParseError>)
        requires
            old(source).wf(),
        ensures
            final(source).wf(),
            final(source).data == old(source).data,
            old(source).pos <= final(source).pos,
            match res {
                Ok(v) => sp_smf_full(old(source).data@, old(source).pos as int, frame_type) == Ok::<(StackMapFrameV, nat), ClassFileParseError>((
                    smf_view(v),
                    (final(source).pos - old(source).pos) as nat,
                )),
                Err(e) => sp_smf_full(old(source).data@, old(source).pos as int, frame_type) == Err::<(StackMapFrameV, nat), ClassFileParseError>(e),
            },
    {
        let offset_delta = source.read_u16()?;
        let number_of_locals = source.read_u16()?;
        let locals = parse_vti_list(source, number_of_locals)?;
        let number_of_stack_items = source.read_u16()?;
        let stack = parse_vti_list(source, number_of_stack_items)?;
        Ok(StackMapFrame::Full { frame_type, offset_delta, locals, stack })
    }

    /// One stack-map frame, selected by the frame-type byte's range. The
    /// unassigned bytes 128 to 246 are a decode error, never a guess.
    pub fn parse(source: &mut Reader) -> (res: Result<StackMapFrame, ClassFileParseError>)
        requires
            old(source).wf(),
        ensures
            final(source).wf(),
            final(source).data == old(source).data,
            old(source).pos <= final(source).pos,
            match res {
                Ok(v) => sp_stack_map_frame(old(source).data@, old(source).pos as int) == Ok::<(StackMapFrameV, nat), ClassFileParseError>((
                    smf_view(v),
                    (final(source).pos - old(source).pos) as nat,
                )),
                Err(e) => sp_stack_map_frame(old(source).data@, old(source).pos as int) == Err::<(StackMapFrameV, nat), ClassFileParseError>(e),
            },
    {
        let frame_type = source.read_u8()?;
        if frame_type <= 63 {
            Ok(StackMapFrame::Same { frame_type })
        } else if frame_type <= 127 {
            StackMapFrame::parse_same_locals_1_item_stack(source, frame_type)
        } else if frame_type == 247 {
            StackMapFrame::parse_same_locals_1_stack_item_frame_extended(source, frame_type)
        } else if 248 <= frame_type && frame_type <= 250 {
            StackMapFrame::parse_chop_frame(source, frame_type)
        } else if frame_type == 251 {
            StackMapFrame::parse_same_frame_extended(source, frame_type)
        } else if 252 <= frame_type && frame_type <= 254 {
            StackMapFrame::parse_append_frame(source, frame_type)
        } else if frame_type == 255 {
            StackMapFrame::parse_full_frame(source, frame_type)
        } else {
            Err(ClassFileParseError::InvalidVerificationTypeTag)
        }
    }
}

impl ElementValue {
    /// One element value, selected by its ASCII tag character. Array and
    /// annotation values recurse; both sit behind the consumed tag byte.
    pub fn parse(source: &mut Reader) -> (res: Result<ElementValue, ClassFileParseError>)
        requires
            old(source).wf(),
        ensures
            final(source).wf(),
            final(source).data == old(source).data,
            old(source).pos <= final(source).pos,
            match res {
                Ok(v) => sp_element_value(old(source).data@, old(source).pos as int) == Ok::<(ElementValueV, nat), ClassFileParseError>((
                    ev_view(v),
                    (final(source).pos - old(source).pos) as nat,
                )),
                Err(e) => sp_element_value(old(source).data@, old(source).pos as int) == Err::<(ElementValueV, nat), ClassFileParseError>(e),
            },
        decreases old(source).data@.len() - old(source).pos, 0int, 0int,
    {
        let tag = source.read_u8()?;
        if tag == 66 || tag == 67 || tag == 68 || tag == 70 || tag == 73 || tag == 74 || tag == 83
            || tag == 90 || tag == 115 {
            let idx = source.read_u16()?;
            Ok(ElementValue::ConstValueIndex(idx))
        } else if tag == 101 {
            let type_name_index = source.read_u16()?;
            let const_name_index = source.read_u16()?;
            Ok(ElementValue::EnumConstValue { type_name_index, const_name_index })
        } else if tag == 99 {
            let idx = source.read_u16()?;
            Ok(ElementValue::ClassInfoIndex(idx))
        } else if tag == 64 {
            let a = Annotation::parse(source)?;
            Ok(ElementValue::AnnotationValue(a))
        } else if tag == 91 {
            let num_values = source.read_u16()?;
            let values = parse_ev_list(source, num_values)?;
            proof {
                lemma_evs_view_as_map(values@, 0);
                assert(values@.subrange(0, values@.len() as int) =~= values@);
            }
            Ok(ElementValue::ArrayValue { values })
        } else {
            Err(ClassFileParseError::InvalidElementValueTag)
        }
    }
}

fn parse_ev_list(source: &mut Reader, n: u16) -> (res: Result<Vec<ElementValue>, ClassFileParseError>)
    requires
        old(source).wf(),
    ensures
        final(source).wf(),
        final(source).data == old(source).data,
        old(source).pos <= final(source).pos,
        match res {
            Ok(v) => sp_ev_list(old(source).data@, old(source).pos as int, n as nat) == Ok::<(Seq<ElementValueV>, nat), ClassFileParseError>((
                v@.map_values(|y: ElementValue| ev_view(y)),
                (final(source).pos - old(source).pos) as nat,
            )),
            Err(e) => sp_ev_list(old(source).data@, old(source).pos as int, n as nat) == Err::<(Seq<ElementValueV>, nat), ClassFileParseError>(e),
        },
    decreases old(source).data@.len() - old(source).pos, n as int, 1int,
{
    let ghost s = old(source).data@;
    let ghost pos0 = old(source).pos as int;
    let mut out: Vec<ElementValue> = Vec::new();
    let mut i: u16 = 0;
    proof {
        lemma_chain_nil(sp_ev_list(s, pos0, n as nat));
        assert(out@.map_values(|y: ElementValue| ev_view(y)) =~= Seq::<ElementValueV>::empty());
    }
    while i < n
        invariant
            source.wf(),
            source.data == old(source).data,
            s == old(source).data@,
            pos0 == old(source).pos as int,
            i <= n,
            pos0 <= source.pos as int,
            sp_ev_list(s, pos0, n as nat) == sp_chain(
                out@.map_values(|y: ElementValue| ev_view(y)),
                (source.pos - pos0) as nat,
                sp_ev_list(s, source.pos as int, (n - i) as nat),
            ),
        decreases n - i,
    {
        let ghost posb = source.pos as int;
        let ghost kacc = (source.pos - pos0) as nat;
        let x = match ElementValue::parse(source) {
            Ok(x) => x,
            Err(e) => {
                return Err(e);
            },
        };
        proof {
            let k = (source.pos - posb) as nat;
            lemma_chain_step::<ElementValueV>(
                out@.map_values(|y: ElementValue| ev_view(y)),
                kacc,
                ev_view(x),
                k,
                sp_ev_list(s, source.pos as int, (n - i - 1) as nat),
            );
            assert(out@.push(x).map_values(|y: ElementValue| ev_view(y)) =~= out@.map_values(
                |y: ElementValue| ev_view(y),
            ).push(ev_view(x)));
        }
        out.push(x);
        i = i + 1;
    }
    proof {
        lemma_chain_done::<ElementValueV>(
            out@.map_values(|y: ElementValue| ev_view(y)),
            (source.pos - pos0) as nat,
        );
    }
    Ok(out)
}

impl ElementValuePair {
    /// One name-and-value pair of an annotation.
    pub fn parse(source: &mut Reader) -> (res: Result<ElementValuePair, ClassFileParseError>)
        requires
            old(source).wf(),
        ensures
            final(source).wf(),
            final(source).data == old(source).data,
            old(source).pos <= final(source).pos,
            match res {
                Ok(v) => sp_ev_pair(old(source).data@, old(source).pos as int) == Ok::<(ElementValuePairV, nat), ClassFileParseError>((
                    pair_view(v),
                    (final(source).pos - old(source).pos) as nat,
                )),
                Err(e) => sp_ev_pair(old(source).data@, old(source).pos as int) == Err::<(ElementValuePairV, nat), ClassFileParseError>(e),
            },
        decreases old(source).data@.len() - old(source).pos, 0int, 2int,
    {
        let element_name_index = source.read_u16()?;
        let value = ElementValue::parse(source)?;
        Ok(ElementValuePair { element_name_index, value })
    }
}

fn parse_ev_pair_list(source: &mut Reader, n: u16) -> (res: Result<Vec<ElementValuePair>, ClassFileParseError>)
    requires
        old(source).wf(),
    ensures
        final(source).wf(),
        final(source).data == old(source).data,
        old(source).pos <= final(source).pos,
        match res {
            Ok(v) => sp_ev_pair_list(old(source).data@, old(source).pos as int, n as nat) == Ok::<(Seq<ElementValuePairV>, nat), ClassFileParseError>((
                v@.map_values(|y: ElementValuePair| pair_view(y)),
                (final(source).pos - old(source).pos) as nat,
            )),
            Err(e) => sp_ev_pair_list(old(source).data@, old(source).pos as int, n as nat) == Err::<(Seq<ElementValuePairV>, nat), ClassFileParseError>(e),
        },
    decreases old(source).data@.len() - old(source).pos, n as int, 3int,
{
    let ghost s = old(source).data@;
    let ghost pos0 = old(source).pos as int;
    let mut out: Vec<ElementValuePair> = Vec::new();
    let mut i: u16 = 0;
    proof {
        lemma_chain_nil(sp_ev_pair_list(s, pos0, n as nat));
        assert(out@.map_values(|y: ElementValuePair| pair_view(y)) =~= Seq::<ElementValuePairV>::empty());
    }
    while i < n
        invariant
            source.wf(),
            source.data == old(source).data,
            s == old(source).data@,
            pos0 == old(source).pos as int,
            i <= n,
            pos0 <= source.pos as int,
            sp_ev_pair_list(s, pos0, n as nat) == sp_chain(
                out@.map_values(|y: ElementValuePair| pair_view(y)),
                (source.pos - pos0) as nat,
                sp_ev_pair_list(s, source.pos as int, (n - i) as nat),
            ),
        decreases n - i,
    {
        let ghost posb = source.pos as int;
        let ghost kacc = (source.pos - pos0) as nat;
        let x = match ElementValuePair::parse(source) {
            Ok(x) => x,
            Err(e) => {
                return Err(e);
            },
        };
        proof {
            let k = (source.pos - posb) as nat;
            lemma_chain_step::<ElementValuePairV>(
                out@.map_values(|y: ElementValuePair| pair_view(y)),
                kacc,
                pair_view(x),
                k,
                sp_ev_pair_list(s, source.pos as int, (n - i - 1) as nat),
            );
            assert(out@.push(x).map_values(|y: ElementValuePair| pair_view(y)) =~= out@.map_values(
                |y: ElementValuePair| pair_view(y),
            ).push(pair_view(x)));
        }
        out.push(x);
        i = i + 1;
    }
    proof {
        lemma_chain_done::<ElementValuePairV>(
            out@.map_values(|y: ElementValuePair| pair_view(y)),
            (source.pos - pos0) as nat,
        );
    }
    Ok(out)
}

impl Annotation {
    /// One annotation: a type index and its counted name-and-value pairs.
    pub fn parse(source: &mut Reader) -> (res: Result<Annotation, ClassFileParseError>)
        requires
            old(source).wf(),
        ensures
            final(source).wf(),
            final(source).data == old(source).data,
            old(source).pos <= final(source).pos,
            match res {
                Ok(v) => sp_annotation(old(source).data@, old(source).pos as int) == Ok::<(AnnotationV, nat), ClassFileParseError>((
                    anno_view(v),
                    (final(source).pos - old(source).pos) as nat,
                )),
                Err(e) => sp_annotation(old(source).data@, old(source).pos as int) == Err::<(AnnotationV, nat), ClassFileParseError>(e),
            },
        decreases old(source).data@.len() - old(source).pos, 0int, 4int,
    {
        let type_index = source.read_u16()?;
        let num_element_value_pairs = source.read_u16()?;
        let element_value_pairs = parse_ev_pair_list(source, num_element_value_pairs)?;
        proof {
            lemma_pairs_view_as_map(element_value_pairs@, 0);
            assert(element_value_pairs@.subrange(0, element_value_pairs@.len() as int)
                =~= element_value_pairs@);
        }
        Ok(Annotation { type_index, element_value_pairs })
    }
}

fn parse_annotation_list(source: &mut Reader, n: u16) -> (res: Result<Vec<Annotation>, ClassFileParseError>)
    requires
        old(source).wf(),
    ensures
        final(source).wf(),
        final(source).data == old(source).data,
        old(source).pos <= final(source).pos,
        match res {
            Ok(v) => sp_annotation_list(old(source).data@, old(source).pos as int, n as nat) == Ok::<(Seq<AnnotationV>, nat), ClassFileParseError>((
                v@.map_values(|y: Annotation| anno_view(y)),
                (final(source).pos - old(source).pos) as nat,
            )),
            Err(e) => sp_annotation_list(old(source).data@, old(source).pos as int, n as nat) == Err::<(Seq<AnnotationV>, nat), ClassFileParseError>(e),
        },
{
    let ghost s = old(source).data@;
    let ghost pos0 = old(source).pos as int;
    let mut out: Vec<Annotation> = Vec::new();
    let mut i: u16 = 0;
    proof {
        lemma_chain_nil(sp_annotation_list(s, pos0, n as nat));
        assert(out@.map_values(|y: Annotation| anno_view(y)) =~= Seq::<AnnotationV>::empty());
    }
    while i < n
        invariant
            source.wf(),
            source.data == old(source).data,
            s == old(source).data@,
            pos0 == old(source).pos as int,
            i <= n,
            pos0 <= source.pos as int,
            sp_annotation_list(s, pos0, n as nat) == sp_chain(
                out@.map_values(|y: Annotation| anno_view(y)),
                (source.pos - pos0) as nat,
                sp_annotation_list(s, source.pos as int, (n - i) as nat),
            ),
        decreases n - i,
    {
        let ghost posb = source.pos as int;
        let ghost kacc = (source.pos - pos0) as nat;
        let x = match Annotation::parse(source) {
            Ok(x) => x,
            Err(e) => {
                return Err(e);
            },
        };
        proof {
            let k = (source.pos - posb) as nat;
            lemma_chain_step::<AnnotationV>(
                out@.map_values(|y: Annotation| anno_view(y)),
                kacc,
                anno_view(x),
                k,
                sp_annotation_list(s, source.pos as int, (n - i - 1) as nat),
            );
            assert(out@.push(x).map_values(|y: Annotation| anno_view(y)) =~= out@.map_values(|y: Annotation| anno_view(y)).push(anno_view(x)));
        }
        out.push(x);
        i = i + 1;
    }
    proof {
        lemma_chain_done::<AnnotationV>(out@.map_values(|y: Annotation| anno_view(y)), (source.pos - pos0) as nat);
    }
    Ok(out)
}

/// The annotations of one parameter: a counted annotation list.
fn parse_param_anno_item(source: &mut Reader) -> (res: Result<Vec<Annotation>, ClassFileParseError>)
    requires
        old(source).wf(),
    ensures
        final(source).wf(),
        final(source).data == old(source).data,
        old(source).pos <= final(source).pos,
        match res {
            Ok(v) => sp_param_anno_item(old(source).data@, old(source).pos as int) == Ok::<(Seq<AnnotationV>, nat), ClassFileParseError>((
                v@.map_values(|y: Annotation| anno_view(y)),
                (final(source).pos - old(source).pos) as nat,
            )),
            Err(e) => sp_param_anno_item(old(source).data@, old(source).pos as int) == Err::<(Seq<AnnotationV>, nat), ClassFileParseError>(e),
        },
{
    let num_annotations = source.read_u16()?;
    let annotations = parse_annotation_list(source, num_annotations)?;
    Ok(annotations)
}

fn parse_param_annotation_list(source: &mut Reader, n: u16) -> (res: Result<Vec<Vec<Annotation>>, ClassFileParseError>)
    requires
        old(source).wf(),
    ensures
        final(source).wf(),
        final(source).data == old(source).data,
        old(source).pos <= final(source).pos,
        match res {
            Ok(v) => sp_param_annotation_list(old(source).data@, old(source).pos as int, n as nat) == Ok::<(Seq<Seq<AnnotationV>>, nat), ClassFileParseError>((
                v@.map_values(|y: Vec<Annotation>| y@.map_values(|z: Annotation| anno_view(z))),
                (final(source).pos - old(source).pos) as nat,
            )),
            Err(e) => sp_param_annotation_list(old(source).data@, old(source).pos as int, n as nat) == Err::<(Seq<Seq<AnnotationV>>, nat), ClassFileParseError>(e),
        },
{
    let ghost s = old(source).data@;
    let ghost pos0 = old(source).pos as int;
    let mut out: Vec<Vec<Annotation>> = Vec::new();
    let mut i: u16 = 0;
    proof {
        lemma_chain_nil(sp_param_annotation_list(s, pos0, n as nat));
        assert(out@.map_values(|y: Vec<Annotation>| y@.map_values(|z: Annotation| anno_view(z))) =~= Seq::<Seq<AnnotationV>>::empty());
    }
    while i < n
        invariant
            source.wf(),
            source.data == old(source).data,
            s == old(source).data@,
            pos0 == old(source).pos as int,
            i <= n,
            pos0 <= source.pos as int,
            sp_param_annotation_list(s, pos0, n as nat) == sp_chain(
                out@.map_values(|y: Vec<Annotation>| y@.map_values(|z: Annotation| anno_view(z))),
                (source.pos - pos0) as nat,
                sp_param_annotation_list(s, source.pos as int, (n - i) as nat),
            ),
        decreases n - i,
    {
        let ghost posb = source.pos as int;
        let ghost kacc = (source.pos - pos0) as nat;
        let x = match parse_param_anno_item(source) {
            Ok(x) => x,
            Err(e) => {
                return Err(e);
            },
        };
        proof {
            let k = (source.pos - posb) as nat;
            lemma_chain_step::<Seq<AnnotationV>>(
                out@.map_values(|y: Vec<Annotation>| y@.map_values(|z: Annotation| anno_view(z))),
                kacc,
                x@.map_values(|z: Annotation| anno_view(z)),
                k,
                sp_param_annotation_list(s, source.pos as int, (n - i - 1) as nat),
            );
            assert(out@.push(x).map_values(|y: Vec<Annotation>| y@.map_values(|z: Annotation| anno_view(z))) =~= out@.map_values(|y: Vec<Annotation>| y@.map_values(|z: Annotation| anno_view(z))).push(x@.map_values(|z: Annotation| anno_view(z))));
        }
        out.push(x);
        i = i + 1;
    }
    proof {
        lemma_chain_done::<Seq<AnnotationV>>(out@.map_values(|y: Vec<Annotation>| y@.map_values(|z: Annotation| anno_view(z))), (source.pos - pos0) as nat);
    }
    Ok(out)
}

/// The target of a type annotation, selected by the target-type byte.
fn parse_target_info(source: &mut Reader) -> (res: Result<TargetInfo, ClassFileParseError>)
    requires
        old(source).wf(),
    ensures
        final(source).wf(),
        final(source).data == old(source).data,
        old(source).pos <= final(source).pos,
        match res {
            Ok(v) => sp_target_info(old(source).data@, old(source).pos as int) == Ok::<(TargetInfoV, nat), ClassFileParseError>((
                ti_view(v),
                (final(source).pos - old(source).pos) as nat,
            )),
            Err(e) => sp_target_info(old(source).data@, old(source).pos as int) == Err::<(TargetInfoV, nat), ClassFileParseError>(e),
        },
{
    let target_type = source.read_u8()?;
    if target_type == 0x00 || target_type == 0x01 {
        let type_parameter_index = source.read_u8()?;
        Ok(TargetInfo::TypeParameter { type_parameter_index })
    } else if target_type == 0x10 {
        let supertype_index = source.read_u16()?;
        Ok(TargetInfo::Supertype { supertype_index })
    } else if target_type == 0x11 || target_type == 0x12 {
        let type_parameter_index = source.read_u8()?;
        let bound_index = source.read_u8()?;
        Ok(TargetInfo::TypeParameterBound { type_parameter_index, bound_index })
    } else if 0x13 <= target_type && target_type <= 0x15 {
        Ok(TargetInfo::Empty)
    } else if target_type == 0x16 {
        let formal_parameter_index = source.read_u8()?;
        Ok(TargetInfo::FormalParameter { formal_parameter_index })
    } else if target_type == 0x17 {
        let throws_type_index = source.read_u16()?;
        Ok(TargetInfo::Throws { throws_type_index })
    } else if target_type == 0x40 || target_type == 0x41 {
        let table_length = source.read_u16()?;
        let table = parse_lvtar_list(source, table_length)?;
        Ok(TargetInfo::Localvar { table })
    } else if target_type == 0x42 {
        let exception_table_index = source.read_u16()?;
        Ok(TargetInfo::Catch { exception_table_index })
    } else if 0x43 <= target_type && target_type <= 0x46 {
        let offset = source.read_u16()?;
        Ok(TargetInfo::Offset { offset })
    } else if 0x47 <= target_type && target_type <= 0x4B {
        let offset = source.read_u16()?;
        let type_argument_index = source.read_u8()?;
        Ok(TargetInfo::TypeArgument { offset, type_argument_index })
    } else {
        Err(ClassFileParseError::InvalidTypeAnnotationTargetType)
    }
}

impl TypePath {
    /// The path from an annotated outer type to the annotated inner type.
    pub fn parse(source: &mut Reader) -> (res: Result<TypePath, ClassFileParseError>)
        requires
            old(source).wf(),
        ensures
            final(source).wf(),
            final(source).data == old(source).data,
            old(source).pos <= final(source).pos,
            match res {
                Ok(v) => sp_type_path(old(source).data@, old(source).pos as int) == Ok::<(TypePathV, nat), ClassFileParseError>((
                    tp_view(v),
                    (final(source).pos - old(source).pos) as nat,
                )),
                Err(e) => sp_type_path(old(source).data@, old(source).pos as int) == Err::<(TypePathV, nat), ClassFileParseError>(e),
            },
    {
        let path_length = source.read_u8()?;
        let path = parse_path_list(source, path_length as u16)?;
        Ok(TypePath { path })
    }
}

impl TypeAnnotation {
    /// One type annotation: target, path, type index, then its pairs.
    pub fn parse(source: &mut Reader) -> (res: Result<TypeAnnotation, ClassFileParseError>)
        requires
            old(source).wf(),
        ensures
            final(source).wf(),
            final(source).data == old(source).data,
            old(source).pos <= final(source).pos,
            match res {
                Ok(v) => sp_type_annotation(old(source).data@, old(source).pos as int) == Ok::<(TypeAnnotationV, nat), ClassFileParseError>((
                    ta_view(v),
                    (final(source).pos - old(source).pos) as nat,
                )),
                Err(e) => sp_type_annotation(old(source).data@, old(source).pos as int) == Err::<(TypeAnnotationV, nat), ClassFileParseError>(e),
            },
    {
        let target_info = parse_target_info(source)?;
        let target_path = TypePath::parse(source)?;
        let type_index = source.read_u16()?;
        let num_element_value_pairs = source.read_u16()?;
        let element_value_pairs = parse_ev_pair_list(source, num_element_value_pairs)?;
        proof {
            lemma_pairs_view_as_map(element_value_pairs@, 0);
            assert(element_value_pairs@.subrange(0, element_value_pairs@.len() as int)
                =~= element_value_pairs@);
        }
        Ok(TypeAnnotation { target_path, target_info, type_index, element_value_pairs })
    }
}

fn parse_type_annotation_list(source: &mut Reader, n: u16) -> (res: Result<Vec<TypeAnnotation>, ClassFileParseError>)
    requires
        old(source).wf(),
    ensures
        final(source).wf(),
        final(source).data == old(source).data,
        old(source).pos <= final(source).pos,
        match res {
            Ok(v) => sp_type_annotation_list(old(source).data@, old(source).pos as int, n as nat) == Ok::<(Seq<TypeAnnotationV>, nat), ClassFileParseError>((
                v@.map_values(|y: TypeAnnotation| ta_view(y)),
                (final(source).pos - old(source).pos) as nat,
            )),
            Err(e) => sp_type_annotation_list(old(source).data@, old(source).pos as int, n as nat) == Err::<(Seq<TypeAnnotationV>, nat), ClassFileParseError>(e),
        },
{
    let ghost s = old(source).data@;
    let ghost pos0 = old(source).pos as int;
    let mut out: Vec<TypeAnnotation> = Vec::new();
    let mut i: u16 = 0;
    proof {
        lemma_chain_nil(sp_type_annotation_list(s, pos0, n as nat));
        assert(out@.map_values(|y: TypeAnnotation| ta_view(y)) =~= Seq::<TypeAnnotationV>::empty());
    }
    while i < n
        invariant
            source.wf(),
            source.data == old(source).data,
            s == old(source).data@,
            pos0 == old(source).pos as int,
            i <= n,
            pos0 <= source.pos as int,
            sp_type_annotation_list(s, pos0, n as nat) == sp_chain(
                out@.map_values(|y: TypeAnnotation| ta_view(y)),
                (source.pos - pos0) as nat,
                sp_type_annotation_list(s, source.pos as int, (n - i) as nat),
            ),
        decreases n - i,
    {
        let ghost posb = source.pos as int;
        let ghost kacc = (source.pos - pos0) as nat;
        let x = match TypeAnnotation::parse(source) {
            Ok(x) => x,
            Err(e) => {
                return Err(e);
            },
        };
        proof {
            let k = (source.pos - posb) as nat;
            lemma_chain_step::<TypeAnnotationV>(
                out@.map_values(|y: TypeAnnotation| ta_view(y)),
                kacc,
                ta_view(x),
                k,
                sp_type_annotation_list(s, source.pos as int, (n - i - 1) as nat),
            );
            assert(out@.push(x).map_values(|y: TypeAnnotation| ta_view(y)) =~= out@.map_values(|y: TypeAnnotation| ta_view(y)).push(ta_view(x)));
        }
        out.push(x);
        i = i + 1;
    }
    proof {
        lemma_chain_done::<TypeAnnotationV>(out@.map_values(|y: TypeAnnotation| ta_view(y)), (source.pos - pos0) as nat);
    }
    Ok(out)
}

fn parse_smf_list(source: &mut Reader, n: u16) -> (res: Result<Vec<StackMapFrame>, ClassFileParseError>)
    requires
        old(source).wf(),
    ensures
        final(source).wf(),
        final(source).data == old(source).data,
        old(source).pos <= final(source).pos,
        match res {
            Ok(v) => sp_smf_list(old(source).data@, old(source).pos as int, n as nat) == Ok::<(Seq<StackMapFrameV>, nat), ClassFileParseError>((
                v@.map_values(|y: StackMapFrame| smf_view(y)),
                (final(source).pos - old(source).pos) as nat,
            )),
            Err(e) => sp_smf_list(old(source).data@, old(source).pos as int, n as nat) == Err::<(Seq<StackMapFrameV>, nat), ClassFileParseError>(e),
        },
{
    let ghost s = old(source).data@;
    let ghost pos0 = old(source).pos as int;
    let mut out: Vec<StackMapFrame> = Vec::new();
    let mut i: u16 = 0;
    proof {
        lemma_chain_nil(sp_smf_list(s, pos0, n as nat));
        assert(out@.map_values(|y: StackMapFrame| smf_view(y)) =~= Seq::<StackMapFrameV>::empty());
    }
    while i < n
        invariant
            source.wf(),
            source.data == old(source).data,
            s == old(source).data@,
            pos0 == old(source).pos as int,
            i <= n,
            pos0 <= source.pos as int,
            sp_smf_list(s, pos0, n as nat) == sp_chain(
                out@.map_values(|y: StackMapFrame| smf_view(y)),
                (source.pos - pos0) as nat,
                sp_smf_list(s, source.pos as int, (n - i) as nat),
            ),
        decreases n - i,
    {
        let ghost posb = source.pos as int;
        let ghost kacc = (source.pos - pos0) as nat;
        let x = match StackMapFrame::parse(source) {
            Ok(x) => x,
            Err(e) => {
                return Err(e);
            },
        };
        proof {
            let k = (source.pos - posb) as nat;
            lemma_chain_step::<StackMapFrameV>(
                out@.map_values(|y: StackMapFrame| smf_view(y)),
                kacc,
                smf_view(x),
                k,
                sp_smf_list(s, source.pos as int, (n - i - 1) as nat),
            );
            assert(out@.push(x).map_values(|y: StackMapFrame| smf_view(y)) =~= out@.map_values(|y: StackMapFrame| smf_view(y)).push(smf_view(x)));
        }
        out.push(x);
        i = i + 1;
    }
    proof {
        lemma_chain_done::<StackMapFrameV>(out@.map_values(|y: StackMapFrame| smf_view(y)), (source.pos - pos0) as nat);
    }
    Ok(out)
}

proof fn lemma_chain_skip<T>(
    head: Seq<T>,
    kacc: nat,
    k: nat,
    rest: Result<(Seq<T>, nat), ClassFileParseError>,
)
    ensures
        sp_chain(
            head,
            kacc,
            match rest {
                Ok((xs, k2)) => Ok::<(Seq<T>, nat), ClassFileParseError>((
                    Seq::<T>::empty() + xs,
                    (k + k2) as nat,
                )),
                Err(e) => Err(e),
            },
        ) == sp_chain(head, (kacc + k) as nat, rest),
{
    match rest {
        Ok((xs, k2)) => {
            assert(head + (Seq::<T>::empty() + xs) =~= head + xs);
        },
        Err(e) => {},
    }
}

/// A reference to one constant. The format fixes this attribute's length at
/// two bytes; a different declared length is a parse error, never an abort.
fn parse_attr_constant_value(source: &mut Reader, ni: u16, len: u32) -> (res: Result<AttributeInfo, ClassFileParseError>)
    requires
        old(source).wf(),
    ensures
        final(source).wf(),
        final(source).data == old(source).data,
        old(source).pos <= final(source).pos,
        match res {
            Ok(v) => sp_attr_constant_value(old(source).data@, old(source).pos as int, ni, len) == Ok::<(AttrV, nat), ClassFileParseError>((
                attr_view(v),
                (final(source).pos - old(source).pos) as nat,
            )),
            Err(e) => sp_attr_constant_value(old(source).data@, old(source).pos as int, ni, len) == Err::<(AttrV, nat), ClassFileParseError>(e),
        },
{
    if len != 2 {
        return Err(ClassFileParseError::InvalidAttributeLength);
    }
    let constantvalue_index = source.read_u16()?;
    Ok(AttributeInfo::ConstantValue { attribute_name_index: ni, attribute_length: len, constantvalue_index })
}

/// The innermost enclosing method of a local or anonymous class.
fn parse_attr_enclosing_method(source: &mut Reader, ni: u16, len: u32) -> (res: Result<AttributeInfo, ClassFileParseError>)
    requires
        old(source).wf(),
    ensures
        final(source).wf(),
        final(source).data == old(source).data,
        old(source).pos <= final(source).pos,
        match res {
            Ok(v) => sp_attr_enclosing_method(old(source).data@, old(source).pos as int, ni, len) == Ok::<(AttrV, nat), ClassFileParseError>((
                attr_view(v),
                (final(source).pos - old(source).pos) as nat,
            )),
            Err(e) => sp_attr_enclosing_method(old(source).data@, old(source).pos as int, ni, len) == Err::<(AttrV, nat), ClassFileParseError>(e),
        },
{
    let class_index = source.read_u16()?;
    let method_index = source.read_u16()?;
    Ok(AttributeInfo::EnclosingMethod { attribute_name_index: ni, attribute_length: len, class_index, method_index })
}

/// A generics signature reference.
fn parse_attr_signature(source: &mut Reader, ni: u16, len: u32) -> (res: Result<AttributeInfo, ClassFileParseError>)
    requires
        old(source).wf(),
    ensures
        final(source).wf(),
        final(source).data == old(source).data,
        old(source).pos <= final(source).pos,
        match res {
            Ok(v) => sp_attr_signature(old(source).data@, old(source).pos as int, ni, len) == Ok::<(AttrV, nat), ClassFileParseError>((
                attr_view(v),
                (final(source).pos - old(source).pos) as nat,
            )),
            Err(e) => sp_attr_signature(old(source).data@, old(source).pos as int, ni, len) == Err::<(AttrV, nat), ClassFileParseError>(e),
        },
{
    let signature_index = source.read_u16()?;
    Ok(AttributeInfo::Signature { attribute_name_index: ni, attribute_length: len, signature_index })
}

/// The source-file name reference.
fn parse_attr_source_file(source: &mut Reader, ni: u16, len: u32) -> (res: Result<AttributeInfo, ClassFileParseError>)
    requires
        old(source).wf(),
    ensures
        final(source).wf(),
        final(source).data == old(source).data,
        old(source).pos <= final(source).pos,
        match res {
            Ok(v) => sp_attr_source_file(old(source).data@, old(source).pos as int, ni, len) == Ok::<(AttrV, nat), ClassFileParseError>((
                attr_view(v),
                (final(source).pos - old(source).pos) as nat,
            )),
            Err(e) => sp_attr_source_file(old(source).data@, old(source).pos as int, ni, len) == Err::<(AttrV, nat), ClassFileParseError>(e),
        },
{
    let sourcefile_index = source.read_u16()?;
    Ok(AttributeInfo::SourceFile { attribute_name_index: ni, attribute_length: len, sourcefile_index })
}

/// The main class of a module.
fn parse_attr_module_main_class(source: &mut Reader, ni: u16, len: u32) -> (res: Result<AttributeInfo, ClassFileParseError>)
    requires
        old(source).wf(),
    ensures
        final(source).wf(),
        final(source).data == old(source).data,
        old(source).pos <= final(source).pos,
        match res {
            Ok(v) => sp_attr_module_main_class(old(source).data@, old(source).pos as int, ni, len) == Ok::<(AttrV, nat), ClassFileParseError>((
                attr_view(v),
                (final(source).pos - old(source).pos) as nat,
            )),
            Err(e) => sp_attr_module_main_class(old(source).data@, old(source).pos as int, ni, len) == Err::<(AttrV, nat), ClassFileParseError>(e),
        },
{
    let main_class_index = source.read_u16()?;
    Ok(AttributeInfo::ModuleMainClass { attribute_name_index: ni, attribute_length: len, main_class_index })
}

/// The nest host of this class.
fn parse_attr_nest_host(source: &mut Reader, ni: u16, len: u32) -> (res: Result<AttributeInfo, ClassFileParseError>)
    requires
        old(source).wf(),
    ensures
        final(source).wf(),
        final(source).data == old(source).data,
        old(source).pos <= final(source).pos,
        match res {
            Ok(v) => sp_attr_nest_host(old(source).data@, old(source).pos as int, ni, len) == Ok::<(AttrV, nat), ClassFileParseError>((
                attr_view(v),
                (final(source).pos - old(source).pos) as nat,
            )),
            Err(e) => sp_attr_nest_host(old(source).data@, old(source).pos as int, ni, len) == Err::<(AttrV, nat), ClassFileParseError>(e),
        },
{
    let host_class_index = source.read_u16()?;
    Ok(AttributeInfo::NestHost { attribute_name_index: ni, attribute_length: len, host_class_index })
}

/// An opaque vendor debug blob: exactly the declared length, kept as bytes.
fn parse_attr_source_debug_extension(source: &mut Reader, ni: u16, len: u32) -> (res: Result<AttributeInfo, ClassFileParseError>)
    requires
        old(source).wf(),
    ensures
        final(source).wf(),
        final(source).data == old(source).data,
        old(source).pos <= final(source).pos,
        match res {
            Ok(v) => sp_attr_source_debug_extension(old(source).data@, old(source).pos as int, ni, len) == Ok::<(AttrV, nat), ClassFileParseError>((
                attr_view(v),
                (final(source).pos - old(source).pos) as nat,
            )),
            Err(e) => sp_attr_source_debug_extension(old(source).data@, old(source).pos as int, ni, len) == Err::<(AttrV, nat), ClassFileParseError>(e),
        },
{
    let debug_extension = source.read_bytes(len as usize)?;
    Ok(AttributeInfo::SourceDebugExtension { attribute_name_index: ni, attribute_length: len, debug_extension })
}

/// The stack-map table: a counted list of frames.
fn parse_attr_stack_map_table(source: &mut Reader, ni: u16, len: u32) -> (res: Result<AttributeInfo, ClassFileParseError>)
    requires
        old(source).wf(),
    ensures
        final(source).wf(),
        final(source).data == old(source).data,
        old(source).pos <= final(source).pos,
        match res {
            Ok(v) => sp_attr_stack_map_table(old(source).data@, old(source).pos as int, ni, len) == Ok::<(AttrV, nat), ClassFileParseError>((
                attr_view(v),
                (final(source).pos - old(source).pos) as nat,
            )),
            Err(e) => sp_attr_stack_map_table(old(source).data@, old(source).pos as int, ni, len) == Err::<(AttrV, nat), ClassFileParseError>(e),
        },
{
    let n = source.read_u16()?;
    let entries = parse_smf_list(source, n)?;
    Ok(AttributeInfo::StackMapTable { attribute_name_index: ni, attribute_length: len, entries })
}

/// The checked exceptions a method declares.
fn parse_attr_exceptions(source: &mut Reader, ni: u16, len: u32) -> (res: Result<AttributeInfo, ClassFileParseError>)
    requires
        old(source).wf(),
    ensures
        final(source).wf(),
        final(source).data == old(source).data,
        old(source).pos <= final(source).pos,
        match res {
            Ok(v) => sp_attr_exceptions(old(source).data@, old(source).pos as int, ni, len) == Ok::<(AttrV, nat), ClassFileParseError>((
                attr_view(v),
                (final(source).pos - old(source).pos) as nat,
            )),
            Err(e) => sp_attr_exceptions(old(source).data@, old(source).pos as int, ni, len) == Err::<(AttrV, nat), ClassFileParseError>(e),
        },
{
    let n = source.read_u16()?;
    let exception_index_table = parse_u16_list(source, n)?;
    Ok(AttributeInfo::Exceptions { attribute_name_index: ni, attribute_length: len, exception_index_table })
}

/// The inner-class table.
fn parse_attr_inner_classes(source: &mut Reader, ni: u16, len: u32) -> (res: Result<AttributeInfo, ClassFileParseError>)
    requires
        old(source).wf(),
    ensures
        final(source).wf(),
        final(source).data == old(source).data,
        old(source).pos <= final(source).pos,
        match res {
            Ok(v) => sp_attr_inner_classes(old(source).data@, old(source).pos as int, ni, len) == Ok::<(AttrV, nat), ClassFileParseError>((
                attr_view(v),
                (final(source).pos - old(source).pos) as nat,
            )),
            Err(e) => sp_attr_inner_classes(old(source).data@, old(source).pos as int, ni, len) == Err::<(AttrV, nat), ClassFileParseError>(e),
        },
{
    let n = source.read_u16()?;
    let classes = parse_inner_class_list(source, n)?;
    Ok(AttributeInfo::InnerClasses { attribute_name_index: ni, attribute_length: len, classes })
}

/// The line-number table of a code body.
fn parse_attr_line_number_table(source: &mut Reader, ni: u16, len: u32) -> (res: Result<AttributeInfo, ClassFileParseError>)
    requires
        old(source).wf(),
    ensures
        final(source).wf(),
        final(source).data == old(source).data,
        old(source).pos <= final(source).pos,
        match res {
            Ok(v) => sp_attr_line_number_table(old(source).data@, old(source).pos as int, ni, len) == Ok::<(AttrV, nat), ClassFileParseError>((
                attr_view(v),
                (final(source).pos - old(source).pos) as nat,
            )),
            Err(e) => sp_attr_line_number_table(old(source).data@, old(source).pos as int, ni, len) == Err::<(AttrV, nat), ClassFileParseError>(e),
        },
{
    let n = source.read_u16()?;
    let line_number_table = parse_lnt_list(source, n)?;
    Ok(AttributeInfo::LineNumberTable { attribute_name_index: ni, attribute_length: len, line_number_table })
}

/// The local-variable table of a code body.
fn parse_attr_local_variable_table(source: &mut Reader, ni: u16, len: u32) -> (res: Result<AttributeInfo, ClassFileParseError>)
    requires
        old(source).wf(),
    ensures
        final(source).wf(),
        final(source).data == old(source).data,
        old(source).pos <= final(source).pos,
        match res {
            Ok(v) => sp_attr_local_variable_table(old(source).data@, old(source).pos as int, ni, len) == Ok::<(AttrV, nat), ClassFileParseError>((
                attr_view(v),
                (final(source).pos - old(source).pos) as nat,
            )),
            Err(e) => sp_attr_local_variable_table(old(source).data@, old(source).pos as int, ni, len) == Err::<(AttrV, nat), ClassFileParseError>(e),
        },
{
    let n = source.read_u16()?;
    let local_variable_table = parse_lvt_list(source, n)?;
    Ok(AttributeInfo::LocalVariableTable { attribute_name_index: ni, attribute_length: len, local_variable_table })
}

/// The local-variable generics table of a code body.
fn parse_attr_local_variable_type_table(source: &mut Reader, ni: u16, len: u32) -> (res: Result<AttributeInfo, ClassFileParseError>)
    requires
        old(source).wf(),
    ensures
        final(source).wf(),
        final(source).data == old(source).data,
        old(source).pos <= final(source).pos,
        match res {
            Ok(v) => sp_attr_local_variable_type_table(old(source).data@, old(source).pos as int, ni, len) == Ok::<(AttrV, nat), ClassFileParseError>((
                attr_view(v),
                (final(source).pos - old(source).pos) as nat,
            )),
            Err(e) => sp_attr_local_variable_type_table(old(source).data@, old(source).pos as int, ni, len) == Err::<(AttrV, nat), ClassFileParseError>(e),
        },
{
    let n = source.read_u16()?;
    let local_variable_type_table = parse_lvtt_list(source, n)?;
    Ok(AttributeInfo::LocalVariableTypeTable { attribute_name_index: ni, attribute_length: len, local_variable_type_table })
}

/// The bootstrap-method table for dynamic call sites.
fn parse_attr_bootstrap_methods(source: &mut Reader, ni: u16, len: u32) -> (res: Result<AttributeInfo, ClassFileParseError>)
    requires
        old(source).wf(),
    ensures
        final(source).wf(),
        final(source).data == old(source).data,
        old(source).pos <= final(source).pos,
        match res {
            Ok(v) => sp_attr_bootstrap_methods(old(source).data@, old(source).pos as int, ni, len) == Ok::<(AttrV, nat), ClassFileParseError>((
                attr_view(v),
                (final(source).pos - old(source).pos) as nat,
            )),
            Err(e) => sp_attr_bootstrap_methods(old(source).data@, old(source).pos as int, ni, len) == Err::<(AttrV, nat), ClassFileParseError>(e),
        },
{
    let n = source.read_u16()?;
    let bootstrap_methods = parse_bootstrap_method_list(source, n)?;
    Ok(AttributeInfo::BootstrapMethods { attribute_name_index: ni, attribute_length: len, bootstrap_methods })
}

/// The declared method parameters; the count is one byte.
fn parse_attr_method_parameters(source: &mut Reader, ni: u16, len: u32) -> (res: Result<AttributeInfo, ClassFileParseError>)
    requires
        old(source).wf(),
    ensures
        final(source).wf(),
        final(source).data == old(source).data,
        old(source).pos <= final(source).pos,
        match res {
            Ok(v) => sp_attr_method_parameters(old(source).data@, old(source).pos as int, ni, len) == Ok::<(AttrV, nat), ClassFileParseError>((
                attr_view(v),
                (final(source).pos - old(source).pos) as nat,
            )),
            Err(e) => sp_attr_method_parameters(old(source).data@, old(source).pos as int, ni, len) == Err::<(AttrV, nat), ClassFileParseError>(e),
        },
{
    let n = source.read_u8()?;
    let parameters = parse_method_parameter_list(source, n as u16)?;
    Ok(AttributeInfo::MethodParameters { attribute_name_index: ni, attribute_length: len, parameters })
}

/// The packages of a module.
fn parse_attr_module_packages(source: &mut Reader, ni: u16, len: u32) -> (res: Result<AttributeInfo, ClassFileParseError>)
    requires
        old(source).wf(),
    ensures
        final(source).wf(),
        final(source).data == old(source).data,
        old(source).pos <= final(source).pos,
        match res {
            Ok(v) => sp_attr_module_packages(old(source).data@, old(source).pos as int, ni, len) == Ok::<(AttrV, nat), ClassFileParseError>((
                attr_view(v),
                (final(source).pos - old(source).pos) as nat,
            )),
            Err(e) => sp_attr_module_packages(old(source).data@, old(source).pos as int, ni, len) == Err::<(AttrV, nat), ClassFileParseError>(e),
        },
{
    let n = source.read_u16()?;
    let package_index = parse_u16_list(source, n)?;
    Ok(AttributeInfo::ModulePackages { attribute_name_index: ni, attribute_length: len, package_index })
}

/// The members of this class's nest.
fn parse_attr_nest_members(source: &mut Reader, ni: u16, len: u32) -> (res: Result<AttributeInfo, ClassFileParseError>)
    requires
        old(source).wf(),
    ensures
        final(source).wf(),
        final(source).data == old(source).data,
        old(source).pos <= final(source).pos,
        match res {
            Ok(v) => sp_attr_nest_members(old(source).data@, old(source).pos as int, ni, len) == Ok::<(AttrV, nat), ClassFileParseError>((
                attr_view(v),
                (final(source).pos - old(source).pos) as nat,
            )),
            Err(e) => sp_attr_nest_members(old(source).data@, old(source).pos as int, ni, len) == Err::<(AttrV, nat), ClassFileParseError>(e),
        },
{
    let n = source.read_u16()?;
    let classes = parse_u16_list(source, n)?;
    Ok(AttributeInfo::NestMembers { attribute_name_index: ni, attribute_length: len, classes })
}

/// The classes permitted to extend a sealed class.
fn parse_attr_permitted_subclasses(source: &mut Reader, ni: u16, len: u32) -> (res: Result<AttributeInfo, ClassFileParseError>)
    requires
        old(source).wf(),
    ensures
        final(source).wf(),
        final(source).data == old(source).data,
        old(source).pos <= final(source).pos,
        match res {
            Ok(v) => sp_attr_permitted_subclasses(old(source).data@, old(source).pos as int, ni, len) == Ok::<(AttrV, nat), ClassFileParseError>((
                attr_view(v),
                (final(source).pos - old(source).pos) as nat,
            )),
            Err(e) => sp_attr_permitted_subclasses(old(source).data@, old(source).pos as int, ni, len) == Err::<(AttrV, nat), ClassFileParseError>(e),
        },
{
    let n = source.read_u16()?;
    let classes = parse_u16_list(source, n)?;
    Ok(AttributeInfo::PermittedSubclasses { attribute_name_index: ni, attribute_length: len, classes })
}

/// The runtime-visible annotation table.
fn parse_attr_rva(source: &mut Reader, ni: u16, len: u32) -> (res: Result<AttributeInfo, ClassFileParseError>)
    requires
        old(source).wf(),
    ensures
        final(source).wf(),
        final(source).data == old(source).data,
        old(source).pos <= final(source).pos,
        match res {
            Ok(v) => sp_attr_rva(old(source).data@, old(source).pos as int, ni, len) == Ok::<(AttrV, nat), ClassFileParseError>((
                attr_view(v),
                (final(source).pos - old(source).pos) as nat,
            )),
            Err(e) => sp_attr_rva(old(source).data@, old(source).pos as int, ni, len) == Err::<(AttrV, nat), ClassFileParseError>(e),
        },
{
    let n = source.read_u16()?;
    let annotations = parse_annotation_list(source, n)?;
    proof {
        lemma_annos_view_as_map(annotations@, 0);
        assert(annotations@.subrange(0, annotations@.len() as int) =~= annotations@);
    }
    Ok(AttributeInfo::RuntimeVisibleAnnotations { attribute_name_index: ni, attribute_length: len, annotations })
}

/// The runtime-invisible annotation table.
fn parse_attr_ria(source: &mut Reader, ni: u16, len: u32) -> (res: Result<AttributeInfo, ClassFileParseError>)
    requires
        old(source).wf(),
    ensures
        final(source).wf(),
        final(source).data == old(source).data,
        old(source).pos <= final(source).pos,
        match res {
            Ok(v) => sp_attr_ria(old(source).data@, old(source).pos as int, ni, len) == Ok::<(AttrV, nat), ClassFileParseError>((
                attr_view(v),
                (final(source).pos - old(source).pos) as nat,
            )),
            Err(e) => sp_attr_ria(old(source).data@, old(source).pos as int, ni, len) == Err::<(AttrV, nat), ClassFileParseError>(e),
        },
{
    let n = source.read_u16()?;
    let annotations = parse_annotation_list(source, n)?;
    proof {
        lemma_annos_view_as_map(annotations@, 0);
        assert(annotations@.subrange(0, annotations@.len() as int) =~= annotations@);
    }
    Ok(AttributeInfo::RuntimeInvisibleAnnotations { attribute_name_index: ni, attribute_length: len, annotations })
}

/// The runtime-visible type-annotation table.
fn parse_attr_rvta(source: &mut Reader, ni: u16, len: u32) -> (res: Result<AttributeInfo, ClassFileParseError>)
    requires
        old(source).wf(),
    ensures
        final(source).wf(),
        final(source).data == old(source).data,
        old(source).pos <= final(source).pos,
        match res {
            Ok(v) => sp_attr_rvta(old(source).data@, old(source).pos as int, ni, len) == Ok::<(AttrV, nat), ClassFileParseError>((
                attr_view(v),
                (final(source).pos - old(source).pos) as nat,
            )),
            Err(e) => sp_attr_rvta(old(source).data@, old(source).pos as int, ni, len) == Err::<(AttrV, nat), ClassFileParseError>(e),
        },
{
    let n = source.read_u16()?;
    let annotations = parse_type_annotation_list(source, n)?;
    Ok(AttributeInfo::RuntimeVisibleTypeAnnotations { attribute_name_index: ni, attribute_length: len, annotations })
}

/// The runtime-invisible type-annotation table.
fn parse_attr_rita(source: &mut Reader, ni: u16, len: u32) -> (res: Result<AttributeInfo, ClassFileParseError>)
    requires
        old(source).wf(),
    ensures
        final(source).wf(),
        final(source).data == old(source).data,
        old(source).pos <= final(source).pos,
        match res {
            Ok(v) => sp_attr_rita(old(source).data@, old(source).pos as int, ni, len) == Ok::<(AttrV, nat), ClassFileParseError>((
                attr_view(v),
                (final(source).pos - old(source).pos) as nat,
            )),
            Err(e) => sp_attr_rita(old(source).data@, old(source).pos as int, ni, len) == Err::<(AttrV, nat), ClassFileParseError>(e),
        },
{
    let n = source.read_u16()?;
    let annotations = parse_type_annotation_list(source, n)?;
    Ok(AttributeInfo::RuntimeInvisibleTypeAnnotations { attribute_name_index: ni, attribute_length: len, annotations })
}

/// The runtime-visible per-parameter annotation table.
fn parse_attr_rvpa(source: &mut Reader, ni: u16, len: u32) -> (res: Result<AttributeInfo, ClassFileParseError>)
    requires
        old(source).wf(),
    ensures
        final(source).wf(),
        final(source).data == old(source).data,
        old(source).pos <= final(source).pos,
        match res {
            Ok(v) => sp_attr_rvpa(old(source).data@, old(source).pos as int, ni, len) == Ok::<(AttrV, nat), ClassFileParseError>((
                attr_view(v),
                (final(source).pos - old(source).pos) as nat,
            )),
            Err(e) => sp_attr_rvpa(old(source).data@, old(source).pos as int, ni, len) == Err::<(AttrV, nat), ClassFileParseError>(e),
        },
{
    let n = source.read_u8()?;
    let parameter_annotations = parse_param_annotation_list(source, n as u16)?;
    proof {
        assert forall|j: int| 0 <= j < parameter_annotations@.len() implies annos_view(
            parameter_annotations@[j]@,
            0,
        ) == parameter_annotations@[j]@.map_values(|z: Annotation| anno_view(z)) by {
            lemma_annos_view_as_map(parameter_annotations@[j]@, 0);
            assert(parameter_annotations@[j]@.subrange(
                0,
                parameter_annotations@[j]@.len() as int,
            ) =~= parameter_annotations@[j]@);
        }
        assert(parameter_annotations@.map_values(|y: Vec<Annotation>| annos_view(y@, 0))
            =~= parameter_annotations@.map_values(
            |y: Vec<Annotation>| y@.map_values(|z: Annotation| anno_view(z)),
        ));
    }
    Ok(AttributeInfo::RuntimeVisibleParameterAnnotations { attribute_name_index: ni, attribute_length: len, parameter_annotations })
}

/// The runtime-invisible per-parameter annotation table.
fn parse_attr_ripa(source: &mut Reader, ni: u16, len: u32) -> (res: Result<AttributeInfo, ClassFileParseError>)
    requires
        old(source).wf(),
    ensures
        final(source).wf(),
        final(source).data == old(source).data,
        old(source).pos <= final(source).pos,
        match res {
            Ok(v) => sp_attr_ripa(old(source).data@, old(source).pos as int, ni, len) == Ok::<(AttrV, nat), ClassFileParseError>((
                attr_view(v),
                (final(source).pos - old(source).pos) as nat,
            )),
            Err(e) => sp_attr_ripa(old(source).data@, old(source).pos as int, ni, len) == Err::<(AttrV, nat), ClassFileParseError>(e),
        },
{
    let n = source.read_u8()?;
    let parameter_annotations = parse_param_annotation_list(source, n as u16)?;
    proof {
        assert forall|j: int| 0 <= j < parameter_annotations@.len() implies annos_view(
            parameter_annotations@[j]@,
            0,
        ) == parameter_annotations@[j]@.map_values(|z: Annotation| anno_view(z)) by {
            lemma_annos_view_as_map(parameter_annotations@[j]@, 0);
            assert(parameter_annotations@[j]@.subrange(
                0,
                parameter_annotations@[j]@.len() as int,
            ) =~= parameter_annotations@[j]@);
        }
        assert(parameter_annotations@.map_values(|y: Vec<Annotation>| annos_view(y@, 0))
            =~= parameter_annotations@.map_values(
            |y: Vec<Annotation>| y@.map_values(|z: Annotation| anno_view(z)),
        ));
    }
    Ok(AttributeInfo::RuntimeInvisibleParameterAnnotations { attribute_name_index: ni, attribute_length: len, parameter_annotations })
}

/// The default value of an annotation interface member.
fn parse_attr_annotation_default(source: &mut Reader, ni: u16, len: u32) -> (res: Result<AttributeInfo, ClassFileParseError>)
    requires
        old(source).wf(),
    ensures
        final(source).wf(),
        final(source).data == old(source).data,
        old(source).pos <= final(source).pos,
        match res {
            Ok(v) => sp_attr_annotation_default(old(source).data@, old(source).pos as int, ni, len) == Ok::<(AttrV, nat), ClassFileParseError>((
                attr_view(v),
                (final(source).pos - old(source).pos) as nat,
            )),
            Err(e) => sp_attr_annotation_default(old(source).data@, old(source).pos as int, ni, len) == Err::<(AttrV, nat), ClassFileParseError>(e),
        },
{
    let default_value = ElementValue::parse(source)?;
    Ok(AttributeInfo::AnnotationDefault { attribute_name_index: ni, attribute_length: len, default_value })
}

/// The module definition: name, flags and version, then five counted tables.
fn parse_attr_module(source: &mut Reader, ni: u16, len: u32) -> (res: Result<AttributeInfo, ClassFileParseError>)
    requires
        old(source).wf(),
    ensures
        final(source).wf(),
        final(source).data == old(source).data,
        old(source).pos <= final(source).pos,
        match res {
            Ok(v) => sp_attr_module(old(source).data@, old(source).pos as int, ni, len) == Ok::<(AttrV, nat), ClassFileParseError>((
                attr_view(v),
                (final(source).pos - old(source).pos) as nat,
            )),
            Err(e) => sp_attr_module(old(source).data@, old(source).pos as int, ni, len) == Err::<(AttrV, nat), ClassFileParseError>(e),
        },
{
    let module_name_index = source.read_u16()?;
    let module_flags = flags::ModuleFlags::from_bits_truncate(source.read_u16()?);
    let module_version_index = source.read_u16()?;
    let requires_count = source.read_u16()?;
    let requires_entries = parse_module_requires_list(source, requires_count)?;
    let exports_count = source.read_u16()?;
    let exports = parse_module_exports_list(source, exports_count)?;
    let opens_count = source.read_u16()?;
    let opens = parse_module_opens_list(source, opens_count)?;
    let uses_count = source.read_u16()?;
    let uses_index = parse_u16_list(source, uses_count)?;
    let provides_count = source.read_u16()?;
    let provides = parse_module_provides_list(source, provides_count)?;
    Ok(AttributeInfo::Module {
        attribute_name_index: ni,
        attribute_length: len,
        module_name_index,
        module_flags,
        module_version_index,
        requires_entries,
        exports,
        opens,
        uses_index,
        provides,
    })
}

/// A code body: sizes, the instruction bytes, the exception table, then the nested attribute list.
fn parse_attr_code(source: &mut Reader, ni: u16, len: u32, cp: &ConstantPool) -> (res: Result<AttributeInfo, ClassFileParseError>)
    requires
        old(source).wf(),
    ensures
        final(source).wf(),
        final(source).data == old(source).data,
        old(source).pos <= final(source).pos,
        match res {
            Ok(v) => sp_attr_code(old(source).data@, old(source).pos as int, ni, len, pool_view(*cp)) == Ok::<(AttrV, nat), ClassFileParseError>((
                attr_view(v),
                (final(source).pos - old(source).pos) as nat,
            )),
            Err(e) => sp_attr_code(old(source).data@, old(source).pos as int, ni, len, pool_view(*cp)) == Err::<(AttrV, nat), ClassFileParseError>(e),
        },
    decreases old(source).data@.len() - old(source).pos, 0int, 1int,

{
    let max_stack = source.read_u16()?;
    let max_locals = source.read_u16()?;
    let code_length = source.read_u32()?;
    let code = source.read_bytes(code_length as usize)?;
    let exception_table_length = source.read_u16()?;
    let exception_table = parse_ete_list(source, exception_table_length)?;
    let attributes_count = source.read_u16()?;
    let attributes = parse_attr_list(source, attributes_count, cp)?;
    proof {
        lemma_attrs_view_as_map(attributes@, 0);
        assert(attributes@.subrange(0, attributes@.len() as int) =~= attributes@);
    }
    Ok(AttributeInfo::Code {
        attribute_name_index: ni,
        attribute_length: len,
        max_stack,
        max_locals,
        code_length,
        code,
        exception_table,
        attributes,
    })
}

/// The record components of a record class.
fn parse_attr_record(source: &mut Reader, ni: u16, len: u32, cp: &ConstantPool) -> (res: Result<AttributeInfo, ClassFileParseError>)
    requires
        old(source).wf(),
    ensures
        final(source).wf(),
        final(source).data == old(source).data,
        old(source).pos <= final(source).pos,
        match res {
            Ok(v) => sp_attr_record(old(source).data@, old(source).pos as int, ni, len, pool_view(*cp)) == Ok::<(AttrV, nat), ClassFileParseError>((
                attr_view(v),
                (final(source).pos - old(source).pos) as nat,
            )),
            Err(e) => sp_attr_record(old(source).data@, old(source).pos as int, ni, len, pool_view(*cp)) == Err::<(AttrV, nat), ClassFileParseError>(e),
        },
    decreases old(source).data@.len() - old(source).pos, 0int, 3int,

{
    let components_count = source.read_u16()?;
    let components = parse_rc_list(source, components_count, cp)?;
    proof {
        lemma_rcs_view_as_map(components@, 0);
        assert(components@.subrange(0, components@.len() as int) =~= components@);
    }
    Ok(AttributeInfo::Record { attribute_name_index: ni, attribute_length: len, components })
}

impl RecordComponentInfo {
    /// One record component: name and descriptor, then nested attributes.
    #[verifier::rlimit(60)]
    pub fn parse(cp: &ConstantPool, source: &mut Reader) -> (res: Result<RecordComponentInfo, ClassFileParseError>)
        requires
            old(source).wf(),
        ensures
            final(source).wf(),
            final(source).data == old(source).data,
            old(source).pos <= final(source).pos,
            match res {
                Ok(v) => sp_record_component(old(source).data@, old(source).pos as int, pool_view(*cp)) == Ok::<(RecordComponentInfoV, nat), ClassFileParseError>((
                    rc_view(v),
                    (final(source).pos - old(source).pos) as nat,
                )),
                Err(e) => sp_record_component(old(source).data@, old(source).pos as int, pool_view(*cp)) == Err::<(RecordComponentInfoV, nat), ClassFileParseError>(e),
            },
        decreases old(source).data@.len() - old(source).pos, 0int, 2int,
    {
        let name_index = source.read_u16()?;
        let descriptor_index = source.read_u16()?;
        let attributes_count = source.read_u16()?;
        let attributes = parse_attr_list(source, attributes_count, cp)?;
        proof {
            lemma_attrs_view_as_map(attributes@, 0);
            assert(attributes@.subrange(0, attributes@.len() as int) =~= attributes@);
        }
        Ok(RecordComponentInfo { name_index, descriptor_index, attributes })
    }
}

#[verifier::rlimit(100)]
#[verifier::spinoff_prover]
fn parse_rc_list(source: &mut Reader, n: u16, cp: &ConstantPool) -> (res: Result<Vec<RecordComponentInfo>, ClassFileParseError>)
    requires
        old(source).wf(),
    ensures
        final(source).wf(),
        final(source).data == old(source).data,
        old(source).pos <= final(source).pos,
        match res {
            Ok(v) => sp_rc_list(old(source).data@, old(source).pos as int, n as nat, pool_view(*cp)) == Ok::<(Seq<RecordComponentInfoV>, nat), ClassFileParseError>((
                v@.map_values(|y: RecordComponentInfo| rc_view(y)),
                (final(source).pos - old(source).pos) as nat,
            )),
            Err(e) => sp_rc_list(old(source).data@, old(source).pos as int, n as nat, pool_view(*cp)) == Err::<(Seq<RecordComponentInfoV>, nat), ClassFileParseError>(e),
        },
    decreases old(source).data@.len() - old(source).pos, n as int, 3int,
{
    let ghost s = old(source).data@;
    let ghost pos0 = old(source).pos as int;
    let ghost cpv = pool_view(*cp);
    let mut out: Vec<RecordComponentInfo> = Vec::new();
    let mut i: u16 = 0;
    proof {
        lemma_chain_nil(sp_rc_list(s, pos0, n as nat, cpv));
        assert(out@.map_values(|y: RecordComponentInfo| rc_view(y)) =~= Seq::<RecordComponentInfoV>::empty());
    }
    while i < n
        invariant
            source.wf(),
            source.data == old(source).data,
            s == old(source).data@,
            pos0 == old(source).pos as int,
            cpv == pool_view(*cp),
            i <= n,
            pos0 <= source.pos as int,
            sp_rc_list(s, pos0, n as nat, cpv) == sp_chain(
                out@.map_values(|y: RecordComponentInfo| rc_view(y)),
                (source.pos - pos0) as nat,
                sp_rc_list(s, source.pos as int, (n - i) as nat, cpv),
            ),
        decreases n - i,
    {
        let ghost posb = source.pos as int;
        let ghost kacc = (source.pos - pos0) as nat;
        let x = match RecordComponentInfo::parse(cp, source) {
            Ok(x) => x,
            Err(e) => {
                return Err(e);
            },
        };
        proof {
            let k = (source.pos - posb) as nat;
            lemma_chain_step::<RecordComponentInfoV>(
                out@.map_values(|y: RecordComponentInfo| rc_view(y)),
                kacc,
                rc_view(x),
                k,
                sp_rc_list(s, source.pos as int, (n - i - 1) as nat, cpv),
            );
            assert(out@.push(x).map_values(|y: RecordComponentInfo| rc_view(y)) =~= out@.map_values(
                |y: RecordComponentInfo| rc_view(y),
            ).push(rc_view(x)));
        }
        out.push(x);
        i = i + 1;
    }
    proof {
        lemma_chain_done::<RecordComponentInfoV>(
            out@.map_values(|y: RecordComponentInfo| rc_view(y)),
            (source.pos - pos0) as nat,
        );
    }
    Ok(out)
}

/// The payload of one known attribute, dispatched on its canonical name.
fn parse_known_attr(
    source: &mut Reader,
    name: AttrName,
    ni: u16,
    len: u32,
    cp: &ConstantPool,
) -> (res: Result<AttributeInfo, ClassFileParseError>)
    requires
        old(source).wf(),
    ensures
        final(source).wf(),
        final(source).data == old(source).data,
        old(source).pos <= final(source).pos,
        match res {
            Ok(v) => sp_known_attr(old(source).data@, old(source).pos as int, name, ni, len, pool_view(*cp)) == Ok::<(AttrV, nat), ClassFileParseError>((
                attr_view(v),
                (final(source).pos - old(source).pos) as nat,
            )),
            Err(e) => sp_known_attr(old(source).data@, old(source).pos as int, name, ni, len, pool_view(*cp)) == Err::<(AttrV, nat), ClassFileParseError>(e),
        },
    decreases old(source).data@.len() - old(source).pos, 0int, 4int,
{
    match name {
        AttrName::ConstantValue => parse_attr_constant_value(source, ni, len),
        AttrName::Code => parse_attr_code(source, ni, len, cp),
        AttrName::StackMapTable => parse_attr_stack_map_table(source, ni, len),
        AttrName::Exceptions => parse_attr_exceptions(source, ni, len),
        AttrName::InnerClasses => parse_attr_inner_classes(source, ni, len),
        AttrName::EnclosingMethod => parse_attr_enclosing_method(source, ni, len),
        AttrName::Synthetic => Ok(AttributeInfo::Synthetic {
            attribute_name_index: ni,
            attribute_length: len,
        }),
        AttrName::Signature => parse_attr_signature(source, ni, len),
        AttrName::SourceFile => parse_attr_source_file(source, ni, len),
        AttrName::SourceDebugExtension => parse_attr_source_debug_extension(source, ni, len),
        AttrName::LineNumberTable => parse_attr_line_number_table(source, ni, len),
        AttrName::LocalVariableTable => parse_attr_local_variable_table(source, ni, len),
        AttrName::LocalVariableTypeTable => parse_attr_local_variable_type_table(source, ni, len),
        AttrName::Deprecated => Ok(AttributeInfo::Deprecated {
            attribute_name_index: ni,
            attribute_length: len,
        }),
        AttrName::RuntimeVisibleAnnotations => parse_attr_rva(source, ni, len),
        AttrName::RuntimeInvisibleAnnotations => parse_attr_ria(source, ni, len),
        AttrName::RuntimeVisibleParameterAnnotations => parse_attr_rvpa(source, ni, len),
        AttrName::RuntimeInvisibleParameterAnnotations => parse_attr_ripa(source, ni, len),
        AttrName::RuntimeVisibleTypeAnnotations => parse_attr_rvta(source, ni, len),
        AttrName::RuntimeInvisibleTypeAnnotations => parse_attr_rita(source, ni, len),
        AttrName::AnnotationDefault => parse_attr_annotation_default(source, ni, len),
        AttrName::BootstrapMethods => parse_attr_bootstrap_methods(source, ni, len),
        AttrName::MethodParameters => parse_attr_method_parameters(source, ni, len),
        AttrName::Module => parse_attr_module(source, ni, len),
        AttrName::ModulePackages => parse_attr_module_packages(source, ni, len),
        AttrName::ModuleMainClass => parse_attr_module_main_class(source, ni, len),
        AttrName::NestHost => parse_attr_nest_host(source, ni, len),
        AttrName::NestMembers => parse_attr_nest_members(source, ni, len),
        AttrName::Record => parse_attr_record(source, ni, len, cp),
        AttrName::PermittedSubclasses => parse_attr_permitted_subclasses(source, ni, len),
        AttrName::Unknown => Err(ClassFileParseError::InvalidAttributeNameIndex),
    }
}

impl AttributeInfo {
    /// One attribute. The name index must resolve, through the pool's slot
    /// indexing, to a byte-string entry; a canonical name selects a shape,
    /// and any other name is skipped by consuming exactly the declared
    /// length, leaving nothing in the produced tree.
    pub fn parse(cp: &ConstantPool, source: &mut Reader) -> (res: Result<Option<AttributeInfo>, ClassFileParseError>)
        requires
            old(source).wf(),
        ensures
            final(source).wf(),
            final(source).data == old(source).data,
            old(source).pos <= final(source).pos,
            match res {
                Ok(Some(v)) => sp_attribute(old(source).data@, old(source).pos as int, pool_view(*cp)) == Ok::<(Option<AttrV>, nat), ClassFileParseError>((
                    Some(attr_view(v)),
                    (final(source).pos - old(source).pos) as nat,
                )),
                Ok(None) => sp_attribute(old(source).data@, old(source).pos as int, pool_view(*cp)) == Ok::<(Option<AttrV>, nat), ClassFileParseError>((
                    None,
                    (final(source).pos - old(source).pos) as nat,
                )),
                Err(e) => sp_attribute(old(source).data@, old(source).pos as int, pool_view(*cp)) == Err::<(Option<AttrV>, nat), ClassFileParseError>(e),
            },
        decreases old(source).data@.len() - old(source).pos, 0int, 5int,
    {
        let attribute_name_index = source.read_u16()?;
        let attribute_length = source.read_u32()?;
        let name = match cp.get(attribute_name_index) {
            Some(entry) => match entry {
                ConstantPoolInfo::Utf8Info { length: _, bytes } => classify_attr_name(bytes),
                _ => {
                    return Err(ClassFileParseError::InvalidAttributeNameIndex);
                },
            },
            None => {
                return Err(ClassFileParseError::InvalidAttributeNameIndex);
            },
        };
        match name {
            AttrName::Unknown => {
                source.skip(attribute_length as usize)?;
                Ok(None)
            },
            _ => {
                let a = parse_known_attr(source, name, attribute_name_index, attribute_length, cp)?;
                Ok(Some(a))
            },
        }
    }
}

/// A counted attribute list; skipped attributes leave no trace in the result.
fn parse_attr_list(source: &mut Reader, n: u16, cp: &ConstantPool) -> (res: Result<Vec<AttributeInfo>, ClassFileParseError>)
    requires
        old(source).wf(),
    ensures
        final(source).wf(),
        final(source).data == old(source).data,
        old(source).pos <= final(source).pos,
        match res {
            Ok(v) => sp_attr_list(old(source).data@, old(source).pos as int, n as nat, pool_view(*cp)) == Ok::<(Seq<AttrV>, nat), ClassFileParseError>((
                v@.map_values(|y: AttributeInfo| attr_view(y)),
                (final(source).pos - old(source).pos) as nat,
            )),
            Err(e) => sp_attr_list(old(source).data@, old(source).pos as int, n as nat, pool_view(*cp)) == Err::<(Seq<AttrV>, nat), ClassFileParseError>(e),
        },
    decreases old(source).data@.len() - old(source).pos, n as int, 6int,
{
    let ghost s = old(source).data@;
    let ghost pos0 = old(source).pos as int;
    let ghost cpv = pool_view(*cp);
    let mut out: Vec<AttributeInfo> = Vec::new();
    let mut i: u16 = 0;
    proof {
        lemma_chain_nil(sp_attr_list(s, pos0, n as nat, cpv));
        assert(out@.map_values(|y: AttributeInfo| attr_view(y)) =~= Seq::<AttrV>::empty());
    }
    while i < n
        invariant
            source.wf(),
            source.data == old(source).data,
            s == old(source).data@,
            pos0 == old(source).pos as int,
            cpv == pool_view(*cp),
            i <= n,
            pos0 <= source.pos as int,
            sp_attr_list(s, pos0, n as nat, cpv) == sp_chain(
                out@.map_values(|y: AttributeInfo| attr_view(y)),
                (source.pos - pos0) as nat,
                sp_attr_list(s, source.pos as int, (n - i) as nat, cpv),
            ),
        decreases n - i,
    {
        let ghost posb = source.pos as int;
        let ghost kacc = (source.pos - pos0) as nat;
        let xo = match AttributeInfo::parse(cp, source) {
            Ok(xo) => xo,
            Err(e) => {
                return Err(e);
            },
        };
        match xo {
            Some(x) => {
                proof {
                    let k = (source.pos - posb) as nat;
                    lemma_chain_step::<AttrV>(
                        out@.map_values(|y: AttributeInfo| attr_view(y)),
                        kacc,
                        attr_view(x),
                        k,
                        sp_attr_list(s, source.pos as int, (n - i - 1) as nat, cpv),
                    );
                    assert(out@.push(x).map_values(|y: AttributeInfo| attr_view(y)) =~= out@.map_values(
                        |y: AttributeInfo| attr_view(y),
                    ).push(attr_view(x)));
                }
                out.push(x);
            },
            None => {
                proof {
                    let k = (source.pos - posb) as nat;
                    lemma_chain_skip::<AttrV>(
                        out@.map_values(|y: AttributeInfo| attr_view(y)),
                        kacc,
                        k,
                        sp_attr_list(s, source.pos as int, (n - i - 1) as nat, cpv),
                    );
                }
            },
        }
        i = i + 1;
    }
    proof {
        lemma_chain_done::<AttrV>(
            out@.map_values(|y: AttributeInfo| attr_view(y)),
            (source.pos - pos0) as nat,
        );
    }
    Ok(out)
}

impl FieldInfo {
    /// One field: flags, name, descriptor, then its attributes.
    pub fn parse(cp: &ConstantPool, source: &mut Reader) -> (res: Result<FieldInfo, ClassFileParseError>)
        requires
            old(source).wf(),
        ensures
            final(source).wf(),
            final(source).data == old(source).data,
            old(source).pos <= final(source).pos,
            match res {
                Ok(v) => sp_field_info(old(source).data@, old(source).pos as int, pool_view(*cp)) == Ok::<(FieldInfoV, nat), ClassFileParseError>((
                    fi_view(v),
                    (final(source).pos - old(source).pos) as nat,
                )),
                Err(e) => sp_field_info(old(source).data@, old(source).pos as int, pool_view(*cp)) == Err::<(FieldInfoV, nat), ClassFileParseError>(e),
            },
    {
        let access_flags = flags::FieldAccessFlags::from_bits_truncate(source.read_u16()?);
        let name_index = source.read_u16()?;
        let descriptor_index = source.read_u16()?;
        let attributes_count = source.read_u16()?;
        let attributes = parse_attr_list(source, attributes_count, cp)?;
        proof {
            lemma_attrs_view_as_map(attributes@, 0);
            assert(attributes@.subrange(0, attributes@.len() as int) =~= attributes@);
        }
        Ok(FieldInfo { access_flags, name_index, descriptor_index, attributes })
    }
}

fn parse_fi_list(source: &mut Reader, n: u16, cp: &ConstantPool) -> (res: Result<Vec<FieldInfo>, ClassFileParseError>)
    requires
        old(source).wf(),
    ensures
        final(source).wf(),
        final(source).data == old(source).data,
        old(source).pos <= final(source).pos,
        match res {
            Ok(v) => sp_fi_list(old(source).data@, old(source).pos as int, n as nat, pool_view(*cp)) == Ok::<(Seq<FieldInfoV>, nat), ClassFileParseError>((
                v@.map_values(|y: FieldInfo| fi_view(y)),
                (final(source).pos - old(source).pos) as nat,
            )),
            Err(e) => sp_fi_list(old(source).data@, old(source).pos as int, n as nat, pool_view(*cp)) == Err::<(Seq<FieldInfoV>, nat), ClassFileParseError>(e),
        },
{
    let ghost s = old(source).data@;
    let ghost pos0 = old(source).pos as int;
    let mut out: Vec<FieldInfo> = Vec::new();
    let mut i: u16 = 0;
    proof {
        lemma_chain_nil(sp_fi_list(s, pos0, n as nat, pool_view(*cp)));
        assert(out@.map_values(|y: FieldInfo| fi_view(y)) =~= Seq::<FieldInfoV>::empty());
    }
    while i < n
        invariant
            source.wf(),
            source.data == old(source).data,
            s == old(source).data@,
            pos0 == old(source).pos as int,
            i <= n,
            pos0 <= source.pos as int,
            sp_fi_list(s, pos0, n as nat, pool_view(*cp)) == sp_chain(
                out@.map_values(|y: FieldInfo| fi_view(y)),
                (source.pos - pos0) as nat,
                sp_fi_list(s, source.pos as int, (n - i) as nat, pool_view(*cp)),
            ),
        decreases n - i,
    {
        let ghost posb = source.pos as int;
        let ghost kacc = (source.pos - pos0) as nat;
        let x = match FieldInfo::parse(cp, source) {
            Ok(x) => x,
            Err(e) => {
                return Err(e);
            },
        };
        proof {
            let k = (source.pos - posb) as nat;
            lemma_chain_step::<FieldInfoV>(
                out@.map_values(|y: FieldInfo| fi_view(y)),
                kacc,
                fi_view(x),
                k,
                sp_fi_list(s, source.pos as int, (n - i - 1) as nat, pool_view(*cp)),
            );
            assert(out@.push(x).map_values(|y: FieldInfo| fi_view(y)) =~= out@.map_values(|y: FieldInfo| fi_view(y)).push(fi_view(x)));
        }
        out.push(x);
        i = i + 1;
    }
    proof {
        lemma_chain_done::<FieldInfoV>(out@.map_values(|y: FieldInfo| fi_view(y)), (source.pos - pos0) as nat);
    }
    Ok(out)
}

impl MethodInfo {
    /// One method: flags, name, descriptor, then its attributes.
    pub fn parse(cp: &ConstantPool, source: &mut Reader) -> (res: Result<MethodInfo, ClassFileParseError>)
        requires
            old(source).wf(),
        ensures
            final(source).wf(),
            final(source).data == old(source).data,
            old(source).pos <= final(source).pos,
            match res {
                Ok(v) => sp_method_info(old(source).data@, old(source).pos as int, pool_view(*cp)) == Ok::<(MethodInfoV, nat), ClassFileParseError>((
                    mi_view(v),
                    (final(source).pos - old(source).pos) as nat,
                )),
                Err(e) => sp_method_info(old(source).data@, old(source).pos as int, pool_view(*cp)) == Err::<(MethodInfoV, nat), ClassFileParseError>(e),
            },
    {
        let access_flags = flags::MethodAccessFlags::from_bits_truncate(source.read_u16()?);
        let name_index = source.read_u16()?;
        let descriptor_index = source.read_u16()?;
        let attributes_count = source.read_u16()?;
        let attributes = parse_attr_list(source, attributes_count, cp)?;
        proof {
            lemma_attrs_view_as_map(attributes@, 0);
            assert(attributes@.subrange(0, attributes@.len() as int) =~= attributes@);
        }
        Ok(MethodInfo { access_flags, name_index, descriptor_index, attributes })
    }
}

fn parse_mi_list(source: &mut Reader, n: u16, cp: &ConstantPool) -> (res: Result<Vec<MethodInfo>, ClassFileParseError>)
    requires
        old(source).wf(),
    ensures
        final(source).wf(),
        final(source).data == old(source).data,
        old(source).pos <= final(source).pos,
        match res {
            Ok(v) => sp_mi_list(old(source).data@, old(source).pos as int, n as nat, pool_view(*cp)) == Ok::<(Seq<MethodInfoV>, nat), ClassFileParseError>((
                v@.map_values(|y: MethodInfo| mi_view(y)),
                (final(source).pos - old(source).pos) as nat,
            )),
            Err(e) => sp_mi_list(old(source).data@, old(source).pos as int, n as nat, pool_view(*cp)) == Err::<(Seq<MethodInfoV>, nat), ClassFileParseError>(e),
        },
{
    let ghost s = old(source).data@;
    let ghost pos0 = old(source).pos as int;
    let mut out: Vec<MethodInfo> = Vec::new();
    let mut i: u16 = 0;
    proof {
        lemma_chain_nil(sp_mi_list(s, pos0, n as nat, pool_view(*cp)));
        assert(out@.map_values(|y: MethodInfo| mi_view(y)) =~= Seq::<MethodInfoV>::empty());
    }
    while i < n
        invariant
            source.wf(),
            source.data == old(source).data,
            s == old(source).data@,
            pos0 == old(source).pos as int,
            i <= n,
            pos0 <= source.pos as int,
            sp_mi_list(s, pos0, n as nat, pool_view(*cp)) == sp_chain(
                out@.map_values(|y: MethodInfo| mi_view(y)),
                (source.pos - pos0) as nat,
                sp_mi_list(s, source.pos as int, (n - i) as nat, pool_view(*cp)),
            ),
        decreases n - i,
    {
        let ghost posb = source.pos as int;
        let ghost kacc = (source.pos - pos0) as nat;
        let x = match MethodInfo::parse(cp, source) {
            Ok(x) => x,
            Err(e) => {
                return Err(e);
            },
        };
        proof {
            let k = (source.pos - posb) as nat;
            lemma_chain_step::<MethodInfoV>(
                out@.map_values(|y: MethodInfo| mi_view(y)),
                kacc,
                mi_view(x),
                k,
                sp_mi_list(s, source.pos as int, (n - i - 1) as nat, pool_view(*cp)),
            );
            assert(out@.push(x).map_values(|y: MethodInfo| mi_view(y)) =~= out@.map_values(|y: MethodInfo| mi_view(y)).push(mi_view(x)));
        }
        out.push(x);
        i = i + 1;
    }
    proof {
        lemma_chain_done::<MethodInfoV>(out@.map_values(|y: MethodInfo| mi_view(y)), (source.pos - pos0) as nat);
    }
    Ok(out)
}

/// Everything after the constant pool: flags, self and super references,
/// interfaces, fields, methods and the class-level attributes, assembled
/// with the already-read preamble into the finished value.
#[verifier::rlimit(100)]
#[verifier::spinoff_prover]
fn parse_class_tail(
    source: &mut Reader,
    cp: ConstantPool,
    magic: u32,
    minor_version: u16,
    major_version: u16,
) -> (res: Result<ClassFile, ClassFileParseError>)
    requires
        old(source).wf(),
        6 <= old(source).pos,
        magic == 0xCAFEBABE,
        minor_version == sp_u16(old(source).data@, 4),
        major_version == sp_u16(old(source).data@, 6),
    ensures
        final(source).wf(),
        final(source).data == old(source).data,
        old(source).pos <= final(source).pos,
        match res {
            Ok(v) => sp_class_tail(old(source).data@, old(source).pos as int, pool_view(cp)) == Ok::<(ClassFileV, nat), ClassFileParseError>((
                cf_view(v),
                (final(source).pos - old(source).pos) as nat,
            )),
            Err(e) => sp_class_tail(old(source).data@, old(source).pos as int, pool_view(cp)) == Err::<(ClassFileV, nat), ClassFileParseError>(e),
        },
{
    let ghost s = old(source).data@;
    let ghost tp = old(source).pos as int;
    let ghost cpv = pool_view(cp);
    let access_flags = flags::ClassAccessFlags::from_bits_truncate(source.read_u16()?);
    let this_class = source.read_u16()?;
    let super_class = source.read_u16()?;
    let interfaces_count = source.read_u16()?;
    let interfaces = parse_u16_list(source, interfaces_count)?;
    let fields_count = source.read_u16()?;
    let fields = parse_fi_list(source, fields_count, &cp)?;
    let ghost p2 = source.pos as int;
    proof {
        assert(sp_class_tail(s, tp, cpv) == sp_class_tail_methods(
            s,
            tp,
            cpv,
            interfaces@,
            fields@.map_values(|y: FieldInfo| fi_view(y)),
            p2,
        ));
    }
    let methods_count = source.read_u16()?;
    let methods = parse_mi_list(source, methods_count, &cp)?;
    let attributes_count = source.read_u16()?;
    let attributes = parse_attr_list(source, attributes_count, &cp)?;
    proof {
        lemma_attrs_view_as_map(attributes@, 0);
        assert(attributes@.subrange(0, attributes@.len() as int) =~= attributes@);
    }
    let result = ClassFile {
        magic,
        minor_version,
        major_version,
        cp_info: cp,
        access_flags,
        this_class,
        super_class,
        interfaces,
        fields,
        methods,
        attributes,
    };
    proof {
        assert(cf_view(result) == ClassFileV {
            magic: 0xCAFEBABE,
            minor_version: sp_u16(s, 4),
            major_version: sp_u16(s, 6),
            cp_info: cpv,
            access_flags: flags::ClassAccessFlags::sp_from_bits(sp_u16(s, tp)),
            this_class: sp_u16(s, tp + 2),
            super_class: sp_u16(s, tp + 4),
            interfaces: interfaces@,
            fields: fields@.map_values(|y: FieldInfo| fi_view(y)),
            methods: methods@.map_values(|y: MethodInfo| mi_view(y)),
            attributes: attrs_view(attributes@, 0),
        });
    }
    Ok(result)
}

impl ClassFile {
    /// Decodes one whole class file from the start of the stream. The magic
    /// number is checked first; the constant pool is parsed next, because
    /// every later attribute resolves its name through it; then flags, the
    /// self and super references, interfaces, fields, methods and the
    /// class-level attributes follow in wire order.
    #[verifier::rlimit(100)]
    #[verifier::spinoff_prover]
    pub fn parse(source: &mut Reader) -> (res: Result<ClassFile, ClassFileParseError>)
        requires
            old(source).wf(),
            old(source).pos == 0,
        ensures
            final(source).wf(),
            final(source).data == old(source).data,
            match res {
                Ok(v) => sp_class_file(old(source).data@) == Ok::<(ClassFileV, nat), ClassFileParseError>((
                    cf_view(v),
                    final(source).pos as nat,
                )),
                Err(e) => sp_class_file(old(source).data@) == Err::<(ClassFileV, nat), ClassFileParseError>(e),
            },
    {
        let ghost s = old(source).data@;
        let magic = source.read_u32()?;
        if magic != 0xCAFEBABE {
            return Err(ClassFileParseError::InvalidMagicValue);
        }
        let minor_version = source.read_u16()?;
        let major_version = source.read_u16()?;
        let constant_pool_count = source.read_u16()?;
        let slots: u16 = if constant_pool_count == 0 {
            0
        } else {
            constant_pool_count - 1
        };
        let items = parse_cp_entries(source, slots)?;
        let cp = ConstantPool::from(items);
        let ghost cpv = pool_view(cp);
        let ghost tp = source.pos as int;
        proof {
            assert(sp_cp_entries(s, 10, slots as nat) == Ok::<(Seq<CpInfoV>, nat), ClassFileParseError>((
                cpv,
                (tp - 10) as nat,
            )));
            assert(sp_class_file(s) == match sp_class_tail(s, tp, cpv) {
                Ok((cf, k2)) => Ok::<(ClassFileV, nat), ClassFileParseError>((
                    cf,
                    (tp + k2) as nat,
                )),
                Err(e) => Err(e),
            });
        }
        let result = parse_class_tail(source, cp, magic, minor_version, major_version)?;
        Ok(result)
    }
}

} // verus!
