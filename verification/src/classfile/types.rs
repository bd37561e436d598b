use vstd::prelude::*;

use crate::classfile::flags;

verus! {

/// One-byte discriminant of a constant-pool entry. Unknown byte values are
/// rejected at the boundary.
#[derive(Debug, PartialEq, Eq, Clone, Copy)]
pub enum ConstantPoolInfoTag {
    Utf8,
    Integer,
    Float,
    Long,
    Double,
    Class,
    String,
    Fieldref,
    Methodref,
    InterfaceMethodref,
    NameAndType,
    MethodHandle,
    MethodType,
    Dynamic,
    InvokeDynamic,
    Module,
    Package,
}

/// The checked mapping from a raw tag byte to a constant-pool tag.
pub open spec fn sp_cp_tag(b: u8) -> Option<ConstantPoolInfoTag> {
    if b == 1 { Some(ConstantPoolInfoTag::Utf8) }
    else if b == 3 { Some(ConstantPoolInfoTag::Integer) }
    else if b == 4 { Some(ConstantPoolInfoTag::Float) }
    else if b == 5 { Some(ConstantPoolInfoTag::Long) }
    else if b == 6 { Some(ConstantPoolInfoTag::Double) }
    else if b == 7 { Some(ConstantPoolInfoTag::Class) }
    else if b == 8 { Some(ConstantPoolInfoTag::String) }
    else if b == 9 { Some(ConstantPoolInfoTag::Fieldref) }
    else if b == 10 { Some(ConstantPoolInfoTag::Methodref) }
    else if b == 11 { Some(ConstantPoolInfoTag::InterfaceMethodref) }
    else if b == 12 { Some(ConstantPoolInfoTag::NameAndType) }
    else if b == 15 { Some(ConstantPoolInfoTag::MethodHandle) }
    else if b == 16 { Some(ConstantPoolInfoTag::MethodType) }
    else if b == 17 { Some(ConstantPoolInfoTag::Dynamic) }
    else if b == 18 { Some(ConstantPoolInfoTag::InvokeDynamic) }
    else if b == 19 { Some(ConstantPoolInfoTag::Module) }
    else if b == 20 { Some(ConstantPoolInfoTag::Package) }
    else { None }
}

impl ConstantPoolInfoTag {
    pub fn from_u8(b: u8) -> (r: Option<ConstantPoolInfoTag>)
        ensures
            r == sp_cp_tag(b),
    {
        if b == 1 { Some(ConstantPoolInfoTag::Utf8) }
        else if b == 3 { Some(ConstantPoolInfoTag::Integer) }
        else if b == 4 { Some(ConstantPoolInfoTag::Float) }
        else if b == 5 { Some(ConstantPoolInfoTag::Long) }
        else if b == 6 { Some(ConstantPoolInfoTag::Double) }
        else if b == 7 { Some(ConstantPoolInfoTag::Class) }
        else if b == 8 { Some(ConstantPoolInfoTag::String) }
        else if b == 9 { Some(ConstantPoolInfoTag::Fieldref) }
        else if b == 10 { Some(ConstantPoolInfoTag::Methodref) }
        else if b == 11 { Some(ConstantPoolInfoTag::InterfaceMethodref) }
        else if b == 12 { Some(ConstantPoolInfoTag::NameAndType) }
        else if b == 15 { Some(ConstantPoolInfoTag::MethodHandle) }
        else if b == 16 { Some(ConstantPoolInfoTag::MethodType) }
        else if b == 17 { Some(ConstantPoolInfoTag::Dynamic) }
        else if b == 18 { Some(ConstantPoolInfoTag::InvokeDynamic) }
        else if b == 19 { Some(ConstantPoolInfoTag::Module) }
        else if b == 20 { Some(ConstantPoolInfoTag::Package) }
        else { None }
    }
}

/// The kind discriminant of a method-handle constant.
#[derive(Debug, PartialEq, Eq, Clone, Copy)]
pub enum ReferenceKind {
    GetField,
    GetStatic,
    PutField,
    PutStatic,
    InvokeVirtual,
    InvokeStatic,
    InvokeSpecial,
    NewInvokeSpecial,
    InvokeInterface,
}

/// The checked mapping from a raw kind byte to a reference kind.
pub open spec fn sp_ref_kind(b: u8) -> Option<ReferenceKind> {
    if b == 1 { Some(ReferenceKind::GetField) }
    else if b == 2 { Some(ReferenceKind::GetStatic) }
    else if b == 3 { Some(ReferenceKind::PutField) }
    else if b == 4 { Some(ReferenceKind::PutStatic) }
    else if b == 5 { Some(ReferenceKind::InvokeVirtual) }
    else if b == 6 { Some(ReferenceKind::InvokeStatic) }
    else if b == 7 { Some(ReferenceKind::InvokeSpecial) }
    else if b == 8 { Some(ReferenceKind::NewInvokeSpecial) }
    else if b == 9 { Some(ReferenceKind::InvokeInterface) }
    else { None }
}

impl ReferenceKind {
    pub fn from_u8(b: u8) -> (r: Option<ReferenceKind>)
        ensures
            r == sp_ref_kind(b),
    {
        if b == 1 { Some(ReferenceKind::GetField) }
        else if b == 2 { Some(ReferenceKind::GetStatic) }
        else if b == 3 { Some(ReferenceKind::PutField) }
        else if b == 4 { Some(ReferenceKind::PutStatic) }
        else if b == 5 { Some(ReferenceKind::InvokeVirtual) }
        else if b == 6 { Some(ReferenceKind::InvokeStatic) }
        else if b == 7 { Some(ReferenceKind::InvokeSpecial) }
        else if b == 8 { Some(ReferenceKind::NewInvokeSpecial) }
        else if b == 9 { Some(ReferenceKind::InvokeInterface) }
        else { None }
    }
}

/// The kind discriminant of one step in a type-annotation path.
#[derive(Debug, PartialEq, Eq, Clone, Copy)]
pub enum TypePathKind {
    DeepArray,
    DeepNested,
    WildcardTypeArgument,
    TypeArgument,
}

/// The checked mapping from a raw kind byte to a type-path kind.
pub open spec fn sp_type_path_kind(b: u8) -> Option<TypePathKind> {
    if b == 0 { Some(TypePathKind::DeepArray) }
    else if b == 1 { Some(TypePathKind::DeepNested) }
    else if b == 2 { Some(TypePathKind::WildcardTypeArgument) }
    else if b == 3 { Some(TypePathKind::TypeArgument) }
    else { None }
}

impl TypePathKind {
    pub fn from_u8(b: u8) -> (r: Option<TypePathKind>)
        ensures
            r == sp_type_path_kind(b),
    {
        if b == 0 { Some(TypePathKind::DeepArray) }
        else if b == 1 { Some(TypePathKind::DeepNested) }
        else if b == 2 { Some(TypePathKind::WildcardTypeArgument) }
        else if b == 3 { Some(TypePathKind::TypeArgument) }
        else { None }
    }
}

/// The type state of one verification variable; tags 7 and 8 carry an extra
/// operand.
#[derive(Debug, PartialEq, Eq, Clone, Copy)]
pub enum VerificationTypeInfo {
    TopVariable { tag: u8 },
    IntegerVariable { tag: u8 },
    FloatVariable { tag: u8 },
    NullVariable { tag: u8 },
    UninitializedThisVariable { tag: u8 },
    ObjectVariable { tag: u8, cpool_index: u16 },
    UninitializedVariable { tag: u8, offset: u16 },
    LongVariable { tag: u8 },
    DoubleVariable { tag: u8 },
}

#[derive(Debug, PartialEq, Eq, Clone, Copy)]
pub struct ExceptionTableEntry {
    pub start_pc: u16,
    pub end_pc: u16,
    pub handler_pc: u16,
    pub catch_type: u16,
}

#[derive(Debug, PartialEq, Eq, Clone, Copy)]
pub struct InnerClass {
    pub inner_class_info_index: u16,
    pub outer_class_info_index: u16,
    pub inner_name_index: u16,
    pub inner_class_access_flags: flags::InnerClassAccessFlags,
}

#[derive(Debug, PartialEq, Eq, Clone, Copy)]
pub struct LineNumberTableEntry {
    pub start_pc: u16,
    pub line_number: u16,
}

#[derive(Debug, PartialEq, Eq, Clone, Copy)]
pub struct LocalVariableTableEntry {
    pub start_pc: u16,
    pub length: u16,
    pub name_index: u16,
    pub descriptor_index: u16,
    pub index: u16,
}

#[derive(Debug, PartialEq, Eq, Clone, Copy)]
pub struct LocalVariableTypeTableEntry {
    pub start_pc: u16,
    pub length: u16,
    pub name_index: u16,
    pub signature_index: u16,
    pub index: u16,
}

#[derive(Debug, PartialEq, Eq, Clone, Copy)]
pub struct LocalVarTargetTableEntry {
    pub start_pc: u16,
    pub length: u16,
    pub index: u16,
}

/// One step of the path that locates an annotated type inside a compound type.
#[derive(Debug, PartialEq, Eq, Clone, Copy)]
pub struct Path {
    pub type_path_kind: TypePathKind,
    pub type_path_argument_index: u8,
}

#[derive(Debug, PartialEq, Eq, Clone, Copy)]
pub struct MethodParameter {
    pub name_index: u16,
    pub access_flags: flags::MethodParameterAccessFlags,
}

#[derive(Debug, PartialEq, Eq, Clone, Copy)]
pub struct ModuleRequires {
    pub requires_index: u16,
    pub requires_flags: flags::RequiresFlags,
    pub requires_version_index: u16,
}

#[derive(Debug, PartialEq, Eq)]
pub struct ModuleExports {
    pub exports_index: u16,
    pub exports_flags: flags::ExportsFlags,
    pub exports_to_index: Vec<u16>,
}

pub struct ModuleExportsV {
    pub exports_index: u16,
    pub exports_flags: flags::ExportsFlags,
    pub exports_to_index: Seq<u16>,
}

pub open spec fn mexp_view(x: ModuleExports) -> ModuleExportsV {
    ModuleExportsV {
        exports_index: x.exports_index,
        exports_flags: x.exports_flags,
        exports_to_index: x.exports_to_index@,
    }
}

#[derive(Debug, PartialEq, Eq)]
pub struct ModuleOpens {
    pub opens_index: u16,
    pub opens_flags: flags::OpensFlags,
    pub opens_to_index: Vec<u16>,
}

pub struct ModuleOpensV {
    pub opens_index: u16,
    pub opens_flags: flags::OpensFlags,
    pub opens_to_index: Seq<u16>,
}

pub open spec fn mop_view(x: ModuleOpens) -> ModuleOpensV {
    ModuleOpensV {
        opens_index: x.opens_index,
        opens_flags: x.opens_flags,
        opens_to_index: x.opens_to_index@,
    }
}

#[derive(Debug, PartialEq, Eq)]
pub struct ModuleProvides {
    pub provides_index: u16,
    pub provides_with_index: Vec<u16>,
}

pub struct ModuleProvidesV {
    pub provides_index: u16,
    pub provides_with_index: Seq<u16>,
}

pub open spec fn mprov_view(x: ModuleProvides) -> ModuleProvidesV {
    ModuleProvidesV {
        provides_index: x.provides_index,
        provides_with_index: x.provides_with_index@,
    }
}

#[derive(Debug, PartialEq, Eq)]
pub struct BootstrapMethod {
    pub bootstrap_method_ref: u16,
    pub bootstrap_arguments: Vec<u16>,
}

pub struct BootstrapMethodV {
    pub bootstrap_method_ref: u16,
    pub bootstrap_arguments: Seq<u16>,
}

pub open spec fn bm_view(x: BootstrapMethod) -> BootstrapMethodV {
    BootstrapMethodV {
        bootstrap_method_ref: x.bootstrap_method_ref,
        bootstrap_arguments: x.bootstrap_arguments@,
    }
}

/// The annotation grammar: a recursive tagged union, terminated because the
/// nested cases always sit behind at least one consumed byte.
#[derive(Debug, PartialEq, Eq)]
pub enum ElementValue {
    ConstValueIndex(u16),
    EnumConstValue { type_name_index: u16, const_name_index: u16 },
    ClassInfoIndex(u16),
    AnnotationValue(Annotation),
    ArrayValue { values: Vec<ElementValue> },
}

pub enum ElementValueV {
    ConstValueIndex(u16),
    EnumConstValue { type_name_index: u16, const_name_index: u16 },
    ClassInfoIndex(u16),
    AnnotationValue(AnnotationV),
    ArrayValue { values: Seq<ElementValueV> },
}

#[derive(Debug, PartialEq, Eq)]
pub struct ElementValuePair {
    pub element_name_index: u16,
    pub value: ElementValue,
}

pub struct ElementValuePairV {
    pub element_name_index: u16,
    pub value: ElementValueV,
}

#[derive(Debug, PartialEq, Eq)]
pub struct Annotation {
    pub type_index: u16,
    pub element_value_pairs: Vec<ElementValuePair>,
}

pub struct AnnotationV {
    pub type_index: u16,
    pub element_value_pairs: Seq<ElementValuePairV>,
}

pub open spec fn ev_view(x: ElementValue) -> ElementValueV
    decreases x, 0int,
{
    match x {
        ElementValue::ConstValueIndex(i) => ElementValueV::ConstValueIndex(i),
        ElementValue::EnumConstValue { type_name_index, const_name_index } => {
            ElementValueV::EnumConstValue { type_name_index, const_name_index }
        },
        ElementValue::ClassInfoIndex(i) => ElementValueV::ClassInfoIndex(i),
        ElementValue::AnnotationValue(a) => ElementValueV::AnnotationValue(anno_view(a)),
        ElementValue::ArrayValue { values } => {
            ElementValueV::ArrayValue { values: evs_view(values@, 0) }
        },
    }
}

pub open spec fn evs_view(s: Seq<ElementValue>, i: int) -> Seq<ElementValueV>
    decreases s, s.len() - i,
{
    if i < 0 || i >= s.len() {
        Seq::empty()
    } else {
        seq![ev_view(s[i])] + evs_view(s, i + 1)
    }
}

pub open spec fn pair_view(x: ElementValuePair) -> ElementValuePairV
    decreases x, 0int,
{
    ElementValuePairV { element_name_index: x.element_name_index, value: ev_view(x.value) }
}

pub open spec fn pairs_view(s: Seq<ElementValuePair>, i: int) -> Seq<ElementValuePairV>
    decreases s, s.len() - i,
{
    if i < 0 || i >= s.len() {
        Seq::empty()
    } else {
        seq![pair_view(s[i])] + pairs_view(s, i + 1)
    }
}

pub open spec fn anno_view(x: Annotation) -> AnnotationV
    decreases x, 0int,
{
    AnnotationV { type_index: x.type_index, element_value_pairs: pairs_view(x.element_value_pairs@, 0) }
}

pub open spec fn annos_view(s: Seq<Annotation>, i: int) -> Seq<AnnotationV>
    decreases s, s.len() - i,
{
    if i < 0 || i >= s.len() {
        Seq::empty()
    } else {
        seq![anno_view(s[i])] + annos_view(s, i + 1)
    }
}

/// The location inside a declaration or expression that a type annotation
/// applies to.
#[derive(Debug, PartialEq, Eq)]
pub enum TargetInfo {
    TypeParameter { type_parameter_index: u8 },
    Supertype { supertype_index: u16 },
    TypeParameterBound { type_parameter_index: u8, bound_index: u8 },
    Empty,
    FormalParameter { formal_parameter_index: u8 },
    Throws { throws_type_index: u16 },
    Localvar { table: Vec<LocalVarTargetTableEntry> },
    Catch { exception_table_index: u16 },
    Offset { offset: u16 },
    TypeArgument { offset: u16, type_argument_index: u8 },
}

pub enum TargetInfoV {
    TypeParameter { type_parameter_index: u8 },
    Supertype { supertype_index: u16 },
    TypeParameterBound { type_parameter_index: u8, bound_index: u8 },
    Empty,
    FormalParameter { formal_parameter_index: u8 },
    Throws { throws_type_index: u16 },
    Localvar { table: Seq<LocalVarTargetTableEntry> },
    Catch { exception_table_index: u16 },
    Offset { offset: u16 },
    TypeArgument { offset: u16, type_argument_index: u8 },
}

pub open spec fn ti_view(x: TargetInfo) -> TargetInfoV {
    match x {
        TargetInfo::TypeParameter { type_parameter_index } => TargetInfoV::TypeParameter { type_parameter_index },
        TargetInfo::Supertype { supertype_index } => TargetInfoV::Supertype { supertype_index },
        TargetInfo::TypeParameterBound { type_parameter_index, bound_index } => {
            TargetInfoV::TypeParameterBound { type_parameter_index, bound_index }
        },
        TargetInfo::Empty => TargetInfoV::Empty,
        TargetInfo::FormalParameter { formal_parameter_index } => TargetInfoV::FormalParameter { formal_parameter_index },
        TargetInfo::Throws { throws_type_index } => TargetInfoV::Throws { throws_type_index },
        TargetInfo::Localvar { table } => TargetInfoV::Localvar { table: table@ },
        TargetInfo::Catch { exception_table_index } => TargetInfoV::Catch { exception_table_index },
        TargetInfo::Offset { offset } => TargetInfoV::Offset { offset },
        TargetInfo::TypeArgument { offset, type_argument_index } => {
            TargetInfoV::TypeArgument { offset, type_argument_index }
        },
    }
}

#[derive(Debug, PartialEq, Eq)]
pub struct TypePath {
    pub path: Vec<Path>,
}

pub struct TypePathV {
    pub path: Seq<Path>,
}

pub open spec fn tp_view(x: TypePath) -> TypePathV {
    TypePathV { path: x.path@ }
}

#[derive(Debug, PartialEq, Eq)]
pub struct TypeAnnotation {
    pub target_path: TypePath,
    pub target_info: TargetInfo,
    pub type_index: u16,
    pub element_value_pairs: Vec<ElementValuePair>,
}

pub struct TypeAnnotationV {
    pub target_path: TypePathV,
    pub target_info: TargetInfoV,
    pub type_index: u16,
    pub element_value_pairs: Seq<ElementValuePairV>,
}

pub open spec fn ta_view(x: TypeAnnotation) -> TypeAnnotationV {
    TypeAnnotationV {
        target_path: tp_view(x.target_path),
        target_info: ti_view(x.target_info),
        type_index: x.type_index,
        element_value_pairs: pairs_view(x.element_value_pairs@, 0),
    }
}

/// One stack-map entry. The frame-type byte decides both the variant and,
/// for the append form, how many new locals follow.
#[derive(Debug, PartialEq, Eq)]
pub enum StackMapFrame {
    Same {
        frame_type: u8,
    },
    SameLocals1StackItem {
        frame_type: u8,
        stack: VerificationTypeInfo,
    },
    SameLocals1StackItemExtended {
        frame_type: u8,
        offset_delta: u16,
        stack: VerificationTypeInfo,
    },
    Chop {
        frame_type: u8,
        offset_delta: u16,
    },
    SameExtended {
        frame_type: u8,
        offset_delta: u16,
    },
    Append {
        frame_type: u8,
        offset_delta: u16,
        locals: Vec<VerificationTypeInfo>,
    },
    Full {
        frame_type: u8,
        offset_delta: u16,
        locals: Vec<VerificationTypeInfo>,
        stack: Vec<VerificationTypeInfo>,
    },
}

pub enum StackMapFrameV {
    Same {
        frame_type: u8,
    },
    SameLocals1StackItem {
        frame_type: u8,
        stack: VerificationTypeInfo,
    },
    SameLocals1StackItemExtended {
        frame_type: u8,
        offset_delta: u16,
        stack: VerificationTypeInfo,
    },
    Chop {
        frame_type: u8,
        offset_delta: u16,
    },
    SameExtended {
        frame_type: u8,
        offset_delta: u16,
    },
    Append {
        frame_type: u8,
        offset_delta: u16,
        locals: Seq<VerificationTypeInfo>,
    },
    Full {
        frame_type: u8,
        offset_delta: u16,
        locals: Seq<VerificationTypeInfo>,
        stack: Seq<VerificationTypeInfo>,
    },
}

pub open spec fn smf_view(x: StackMapFrame) -> StackMapFrameV
{
    match x {
        StackMapFrame::Same { frame_type } => StackMapFrameV::Same {
            frame_type: frame_type,
        },
        StackMapFrame::SameLocals1StackItem { frame_type, stack } => StackMapFrameV::SameLocals1StackItem {
            frame_type: frame_type,
            stack: stack,
        },
        StackMapFrame::SameLocals1StackItemExtended { frame_type, offset_delta, stack } => StackMapFrameV::SameLocals1StackItemExtended {
            frame_type: frame_type,
            offset_delta: offset_delta,
            stack: stack,
        },
        StackMapFrame::Chop { frame_type, offset_delta } => StackMapFrameV::Chop {
            frame_type: frame_type,
            offset_delta: offset_delta,
        },
        StackMapFrame::SameExtended { frame_type, offset_delta } => StackMapFrameV::SameExtended {
            frame_type: frame_type,
            offset_delta: offset_delta,
        },
        StackMapFrame::Append { frame_type, offset_delta, locals } => StackMapFrameV::Append {
            frame_type: frame_type,
            offset_delta: offset_delta,
            locals: locals@,
        },
        StackMapFrame::Full { frame_type, offset_delta, locals, stack } => StackMapFrameV::Full {
            frame_type: frame_type,
            offset_delta: offset_delta,
            locals: locals@,
            stack: stack@,
        },
    }
}

/// One constant-pool entry, one of seventeen tagged variants.
#[derive(Debug, PartialEq, Eq)]
pub enum ConstantPoolInfo {
    ClassInfo {
        name_index: u16,
    },
    FieldrefInfo {
        class_index: u16,
        name_and_type_index: u16,
    },
    MethodrefInfo {
        class_index: u16,
        name_and_type_index: u16,
    },
    InterfaceMethodrefInfo {
        class_index: u16,
        name_and_type_index: u16,
    },
    StringInfo {
        string_index: u16,
    },
    IntegerInfo {
        bytes: u32,
    },
    FloatInfo {
        bytes: u32,
    },
    LongInfo {
        high_bytes: u32,
        low_bytes: u32,
    },
    DoubleInfo {
        high_bytes: u32,
        low_bytes: u32,
    },
    NameAndTypeInfo {
        name_index: u16,
        descriptor_index: u16,
    },
    Utf8Info {
        length: u16,
        bytes: Vec<u8>,
    },
    MethodHandleInfo {
        reference_kind: ReferenceKind,
        reference_index: u16,
    },
    MethodTypeInfo {
        descriptor_index: u16,
    },
    DynamicInfo {
        bootstrap_method_attr_index: u16,
        name_and_type_index: u16,
    },
    InvokeDynamicInfo {
        bootstrap_method_attr_index: u16,
        name_and_type_index: u16,
    },
    ModuleInfo {
        name_index: u16,
    },
    PackageInfo {
        name_index: u16,
    },
}

pub enum CpInfoV {
    ClassInfo {
        name_index: u16,
    },
    FieldrefInfo {
        class_index: u16,
        name_and_type_index: u16,
    },
    MethodrefInfo {
        class_index: u16,
        name_and_type_index: u16,
    },
    InterfaceMethodrefInfo {
        class_index: u16,
        name_and_type_index: u16,
    },
    StringInfo {
        string_index: u16,
    },
    IntegerInfo {
        bytes: u32,
    },
    FloatInfo {
        bytes: u32,
    },
    LongInfo {
        high_bytes: u32,
        low_bytes: u32,
    },
    DoubleInfo {
        high_bytes: u32,
        low_bytes: u32,
    },
    NameAndTypeInfo {
        name_index: u16,
        descriptor_index: u16,
    },
    Utf8Info {
        length: u16,
        bytes: Seq<u8>,
    },
    MethodHandleInfo {
        reference_kind: ReferenceKind,
        reference_index: u16,
    },
    MethodTypeInfo {
        descriptor_index: u16,
    },
    DynamicInfo {
        bootstrap_method_attr_index: u16,
        name_and_type_index: u16,
    },
    InvokeDynamicInfo {
        bootstrap_method_attr_index: u16,
        name_and_type_index: u16,
    },
    ModuleInfo {
        name_index: u16,
    },
    PackageInfo {
        name_index: u16,
    },
}

pub open spec fn cp_info_view(x: ConstantPoolInfo) -> CpInfoV
{
    match x {
        ConstantPoolInfo::ClassInfo { name_index } => CpInfoV::ClassInfo {
            name_index: name_index,
        },
        ConstantPoolInfo::FieldrefInfo { class_index, name_and_type_index } => CpInfoV::FieldrefInfo {
            class_index: class_index,
            name_and_type_index: name_and_type_index,
        },
        ConstantPoolInfo::MethodrefInfo { class_index, name_and_type_index } => CpInfoV::MethodrefInfo {
            class_index: class_index,
            name_and_type_index: name_and_type_index,
        },
        ConstantPoolInfo::InterfaceMethodrefInfo { class_index, name_and_type_index } => CpInfoV::InterfaceMethodrefInfo {
            class_index: class_index,
            name_and_type_index: name_and_type_index,
        },
        ConstantPoolInfo::StringInfo { string_index } => CpInfoV::StringInfo {
            string_index: string_index,
        },
        ConstantPoolInfo::IntegerInfo { bytes } => CpInfoV::IntegerInfo {
            bytes: bytes,
        },
        ConstantPoolInfo::FloatInfo { bytes } => CpInfoV::FloatInfo {
            bytes: bytes,
        },
        ConstantPoolInfo::LongInfo { high_bytes, low_bytes } => CpInfoV::LongInfo {
            high_bytes: high_bytes,
            low_bytes: low_bytes,
        },
        ConstantPoolInfo::DoubleInfo { high_bytes, low_bytes } => CpInfoV::DoubleInfo {
            high_bytes: high_bytes,
            low_bytes: low_bytes,
        },
        ConstantPoolInfo::NameAndTypeInfo { name_index, descriptor_index } => CpInfoV::NameAndTypeInfo {
            name_index: name_index,
            descriptor_index: descriptor_index,
        },
        ConstantPoolInfo::Utf8Info { length, bytes } => CpInfoV::Utf8Info {
            length: length,
            bytes: bytes@,
        },
        ConstantPoolInfo::MethodHandleInfo { reference_kind, reference_index } => CpInfoV::MethodHandleInfo {
            reference_kind: reference_kind,
            reference_index: reference_index,
        },
        ConstantPoolInfo::MethodTypeInfo { descriptor_index } => CpInfoV::MethodTypeInfo {
            descriptor_index: descriptor_index,
        },
        ConstantPoolInfo::DynamicInfo { bootstrap_method_attr_index, name_and_type_index } => CpInfoV::DynamicInfo {
            bootstrap_method_attr_index: bootstrap_method_attr_index,
            name_and_type_index: name_and_type_index,
        },
        ConstantPoolInfo::InvokeDynamicInfo { bootstrap_method_attr_index, name_and_type_index } => CpInfoV::InvokeDynamicInfo {
            bootstrap_method_attr_index: bootstrap_method_attr_index,
            name_and_type_index: name_and_type_index,
        },
        ConstantPoolInfo::ModuleInfo { name_index } => CpInfoV::ModuleInfo {
            name_index: name_index,
        },
        ConstantPoolInfo::PackageInfo { name_index } => CpInfoV::PackageInfo {
            name_index: name_index,
        },
    }
}

/// A named, length-prefixed substructure of a class, field, method or code
/// body. Unrecognised names never appear here: the decoder skips them.
#[derive(Debug, PartialEq, Eq)]
pub enum AttributeInfo {
    ConstantValue {
        attribute_name_index: u16,
        attribute_length: u32,
        constantvalue_index: u16,
    },
    Code {
        attribute_name_index: u16,
        attribute_length: u32,
        max_stack: u16,
        max_locals: u16,
        code_length: u32,
        code: Vec<u8>,
        exception_table: Vec<ExceptionTableEntry>,
        attributes: Vec<AttributeInfo>,
    },
    StackMapTable {
        attribute_name_index: u16,
        attribute_length: u32,
        entries: Vec<StackMapFrame>,
    },
    Exceptions {
        attribute_name_index: u16,
        attribute_length: u32,
        exception_index_table: Vec<u16>,
    },
    InnerClasses {
        attribute_name_index: u16,
        attribute_length: u32,
        classes: Vec<InnerClass>,
    },
    EnclosingMethod {
        attribute_name_index: u16,
        attribute_length: u32,
        class_index: u16,
        method_index: u16,
    },
    Synthetic {
        attribute_name_index: u16,
        attribute_length: u32,
    },
    Signature {
        attribute_name_index: u16,
        attribute_length: u32,
        signature_index: u16,
    },
    SourceFile {
        attribute_name_index: u16,
        attribute_length: u32,
        sourcefile_index: u16,
    },
    SourceDebugExtension {
        attribute_name_index: u16,
        attribute_length: u32,
        debug_extension: Vec<u8>,
    },
    LineNumberTable {
        attribute_name_index: u16,
        attribute_length: u32,
        line_number_table: Vec<LineNumberTableEntry>,
    },
    LocalVariableTable {
        attribute_name_index: u16,
        attribute_length: u32,
        local_variable_table: Vec<LocalVariableTableEntry>,
    },
    LocalVariableTypeTable {
        attribute_name_index: u16,
        attribute_length: u32,
        local_variable_type_table: Vec<LocalVariableTypeTableEntry>,
    },
    Deprecated {
        attribute_name_index: u16,
        attribute_length: u32,
    },
    RuntimeVisibleAnnotations {
        attribute_name_index: u16,
        attribute_length: u32,
        annotations: Vec<Annotation>,
    },
    RuntimeInvisibleAnnotations {
        attribute_name_index: u16,
        attribute_length: u32,
        annotations: Vec<Annotation>,
    },
    RuntimeVisibleParameterAnnotations {
        attribute_name_index: u16,
        attribute_length: u32,
        parameter_annotations: Vec<Vec<Annotation>>,
    },
    RuntimeInvisibleParameterAnnotations {
        attribute_name_index: u16,
        attribute_length: u32,
        parameter_annotations: Vec<Vec<Annotation>>,
    },
    RuntimeVisibleTypeAnnotations {
        attribute_name_index: u16,
        attribute_length: u32,
        annotations: Vec<TypeAnnotation>,
    },
    RuntimeInvisibleTypeAnnotations {
        attribute_name_index: u16,
        attribute_length: u32,
        annotations: Vec<TypeAnnotation>,
    },
    AnnotationDefault {
        attribute_name_index: u16,
        attribute_length: u32,
        default_value: ElementValue,
    },
    BootstrapMethods {
        attribute_name_index: u16,
        attribute_length: u32,
        bootstrap_methods: Vec<BootstrapMethod>,
    },
    MethodParameters {
        attribute_name_index: u16,
        attribute_length: u32,
        parameters: Vec<MethodParameter>,
    },
    Module {
        attribute_name_index: u16,
        attribute_length: u32,
        module_name_index: u16,
        module_flags: flags::ModuleFlags,
        module_version_index: u16,
        requires_entries: Vec<ModuleRequires>,
        exports: Vec<ModuleExports>,
        opens: Vec<ModuleOpens>,
        uses_index: Vec<u16>,
        provides: Vec<ModuleProvides>,
    },
    ModulePackages {
        attribute_name_index: u16,
        attribute_length: u32,
        package_index: Vec<u16>,
    },
    ModuleMainClass {
        attribute_name_index: u16,
        attribute_length: u32,
        main_class_index: u16,
    },
    NestHost {
        attribute_name_index: u16,
        attribute_length: u32,
        host_class_index: u16,
    },
    NestMembers {
        attribute_name_index: u16,
        attribute_length: u32,
        classes: Vec<u16>,
    },
    Record {
        attribute_name_index: u16,
        attribute_length: u32,
        components: Vec<RecordComponentInfo>,
    },
    PermittedSubclasses {
        attribute_name_index: u16,
        attribute_length: u32,
        classes: Vec<u16>,
    },
}

pub enum AttrV {
    ConstantValue {
        attribute_name_index: u16,
        attribute_length: u32,
        constantvalue_index: u16,
    },
    Code {
        attribute_name_index: u16,
        attribute_length: u32,
        max_stack: u16,
        max_locals: u16,
        code_length: u32,
        code: Seq<u8>,
        exception_table: Seq<ExceptionTableEntry>,
        attributes: Seq<AttrV>,
    },
    StackMapTable {
        attribute_name_index: u16,
        attribute_length: u32,
        entries: Seq<StackMapFrameV>,
    },
    Exceptions {
        attribute_name_index: u16,
        attribute_length: u32,
        exception_index_table: Seq<u16>,
    },
    InnerClasses {
        attribute_name_index: u16,
        attribute_length: u32,
        classes: Seq<InnerClass>,
    },
    EnclosingMethod {
        attribute_name_index: u16,
        attribute_length: u32,
        class_index: u16,
        method_index: u16,
    },
    Synthetic {
        attribute_name_index: u16,
        attribute_length: u32,
    },
    Signature {
        attribute_name_index: u16,
        attribute_length: u32,
        signature_index: u16,
    },
    SourceFile {
        attribute_name_index: u16,
        attribute_length: u32,
        sourcefile_index: u16,
    },
    SourceDebugExtension {
        attribute_name_index: u16,
        attribute_length: u32,
        debug_extension: Seq<u8>,
    },
    LineNumberTable {
        attribute_name_index: u16,
        attribute_length: u32,
        line_number_table: Seq<LineNumberTableEntry>,
    },
    LocalVariableTable {
        attribute_name_index: u16,
        attribute_length: u32,
        local_variable_table: Seq<LocalVariableTableEntry>,
    },
    LocalVariableTypeTable {
        attribute_name_index: u16,
        attribute_length: u32,
        local_variable_type_table: Seq<LocalVariableTypeTableEntry>,
    },
    Deprecated {
        attribute_name_index: u16,
        attribute_length: u32,
    },
    RuntimeVisibleAnnotations {
        attribute_name_index: u16,
        attribute_length: u32,
        annotations: Seq<AnnotationV>,
    },
    RuntimeInvisibleAnnotations {
        attribute_name_index: u16,
        attribute_length: u32,
        annotations: Seq<AnnotationV>,
    },
    RuntimeVisibleParameterAnnotations {
        attribute_name_index: u16,
        attribute_length: u32,
        parameter_annotations: Seq<Seq<AnnotationV>>,
    },
    RuntimeInvisibleParameterAnnotations {
        attribute_name_index: u16,
        attribute_length: u32,
        parameter_annotations: Seq<Seq<AnnotationV>>,
    },
    RuntimeVisibleTypeAnnotations {
        attribute_name_index: u16,
        attribute_length: u32,
        annotations: Seq<TypeAnnotationV>,
    },
    RuntimeInvisibleTypeAnnotations {
        attribute_name_index: u16,
        attribute_length: u32,
        annotations: Seq<TypeAnnotationV>,
    },
    AnnotationDefault {
        attribute_name_index: u16,
        attribute_length: u32,
        default_value: ElementValueV,
    },
    BootstrapMethods {
        attribute_name_index: u16,
        attribute_length: u32,
        bootstrap_methods: Seq<BootstrapMethodV>,
    },
    MethodParameters {
        attribute_name_index: u16,
        attribute_length: u32,
        parameters: Seq<MethodParameter>,
    },
    Module {
        attribute_name_index: u16,
        attribute_length: u32,
        module_name_index: u16,
        module_flags: flags::ModuleFlags,
        module_version_index: u16,
        requires_entries: Seq<ModuleRequires>,
        exports: Seq<ModuleExportsV>,
        opens: Seq<ModuleOpensV>,
        uses_index: Seq<u16>,
        provides: Seq<ModuleProvidesV>,
    },
    ModulePackages {
        attribute_name_index: u16,
        attribute_length: u32,
        package_index: Seq<u16>,
    },
    ModuleMainClass {
        attribute_name_index: u16,
        attribute_length: u32,
        main_class_index: u16,
    },
    NestHost {
        attribute_name_index: u16,
        attribute_length: u32,
        host_class_index: u16,
    },
    NestMembers {
        attribute_name_index: u16,
        attribute_length: u32,
        classes: Seq<u16>,
    },
    Record {
        attribute_name_index: u16,
        attribute_length: u32,
        components: Seq<RecordComponentInfoV>,
    },
    PermittedSubclasses {
        attribute_name_index: u16,
        attribute_length: u32,
        classes: Seq<u16>,
    },
}

pub open spec fn attr_view(x: AttributeInfo) -> AttrV
    decreases x, 0int,
{
    match x {
        AttributeInfo::ConstantValue { attribute_name_index, attribute_length, constantvalue_index } => AttrV::ConstantValue {
            attribute_name_index: attribute_name_index,
            attribute_length: attribute_length,
            constantvalue_index: constantvalue_index,
        },
        AttributeInfo::Code { attribute_name_index, attribute_length, max_stack, max_locals, code_length, code, exception_table, attributes } => AttrV::Code {
            attribute_name_index: attribute_name_index,
            attribute_length: attribute_length,
            max_stack: max_stack,
            max_locals: max_locals,
            code_length: code_length,
            code: code@,
            exception_table: exception_table@,
            attributes: attrs_view(attributes@, 0),
        },
        AttributeInfo::StackMapTable { attribute_name_index, attribute_length, entries } => AttrV::StackMapTable {
            attribute_name_index: attribute_name_index,
            attribute_length: attribute_length,
            entries: entries@.map_values(|y: StackMapFrame| smf_view(y)),
        },
        AttributeInfo::Exceptions { attribute_name_index, attribute_length, exception_index_table } => AttrV::Exceptions {
            attribute_name_index: attribute_name_index,
            attribute_length: attribute_length,
            exception_index_table: exception_index_table@,
        },
        AttributeInfo::InnerClasses { attribute_name_index, attribute_length, classes } => AttrV::InnerClasses {
            attribute_name_index: attribute_name_index,
            attribute_length: attribute_length,
            classes: classes@,
        },
        AttributeInfo::EnclosingMethod { attribute_name_index, attribute_length, class_index, method_index } => AttrV::EnclosingMethod {
            attribute_name_index: attribute_name_index,
            attribute_length: attribute_length,
            class_index: class_index,
            method_index: method_index,
        },
        AttributeInfo::Synthetic { attribute_name_index, attribute_length } => AttrV::Synthetic {
            attribute_name_index: attribute_name_index,
            attribute_length: attribute_length,
        },
        AttributeInfo::Signature { attribute_name_index, attribute_length, signature_index } => AttrV::Signature {
            attribute_name_index: attribute_name_index,
            attribute_length: attribute_length,
            signature_index: signature_index,
        },
        AttributeInfo::SourceFile { attribute_name_index, attribute_length, sourcefile_index } => AttrV::SourceFile {
            attribute_name_index: attribute_name_index,
            attribute_length: attribute_length,
            sourcefile_index: sourcefile_index,
        },
        AttributeInfo::SourceDebugExtension { attribute_name_index, attribute_length, debug_extension } => AttrV::SourceDebugExtension {
            attribute_name_index: attribute_name_index,
            attribute_length: attribute_length,
            debug_extension: debug_extension@,
        },
        AttributeInfo::LineNumberTable { attribute_name_index, attribute_length, line_number_table } => AttrV::LineNumberTable {
            attribute_name_index: attribute_name_index,
            attribute_length: attribute_length,
            line_number_table: line_number_table@,
        },
        AttributeInfo::LocalVariableTable { attribute_name_index, attribute_length, local_variable_table } => AttrV::LocalVariableTable {
            attribute_name_index: attribute_name_index,
            attribute_length: attribute_length,
            local_variable_table: local_variable_table@,
        },
        AttributeInfo::LocalVariableTypeTable { attribute_name_index, attribute_length, local_variable_type_table } => AttrV::LocalVariableTypeTable {
            attribute_name_index: attribute_name_index,
            attribute_length: attribute_length,
            local_variable_type_table: local_variable_type_table@,
        },
        AttributeInfo::Deprecated { attribute_name_index, attribute_length } => AttrV::Deprecated {
            attribute_name_index: attribute_name_index,
            attribute_length: attribute_length,
        },
        AttributeInfo::RuntimeVisibleAnnotations { attribute_name_index, attribute_length, annotations } => AttrV::RuntimeVisibleAnnotations {
            attribute_name_index: attribute_name_index,
            attribute_length: attribute_length,
            annotations: annos_view(annotations@, 0),
        },
        AttributeInfo::RuntimeInvisibleAnnotations { attribute_name_index, attribute_length, annotations } => AttrV::RuntimeInvisibleAnnotations {
            attribute_name_index: attribute_name_index,
            attribute_length: attribute_length,
            annotations: annos_view(annotations@, 0),
        },
        AttributeInfo::RuntimeVisibleParameterAnnotations { attribute_name_index, attribute_length, parameter_annotations } => AttrV::RuntimeVisibleParameterAnnotations {
            attribute_name_index: attribute_name_index,
            attribute_length: attribute_length,
            parameter_annotations: parameter_annotations@.map_values(|y: Vec<Annotation>| annos_view(y@, 0)),
        },
        AttributeInfo::RuntimeInvisibleParameterAnnotations { attribute_name_index, attribute_length, parameter_annotations } => AttrV::RuntimeInvisibleParameterAnnotations {
            attribute_name_index: attribute_name_index,
            attribute_length: attribute_length,
            parameter_annotations: parameter_annotations@.map_values(|y: Vec<Annotation>| annos_view(y@, 0)),
        },
        AttributeInfo::RuntimeVisibleTypeAnnotations { attribute_name_index, attribute_length, annotations } => AttrV::RuntimeVisibleTypeAnnotations {
            attribute_name_index: attribute_name_index,
            attribute_length: attribute_length,
            annotations: annotations@.map_values(|y: TypeAnnotation| ta_view(y)),
        },
        AttributeInfo::RuntimeInvisibleTypeAnnotations { attribute_name_index, attribute_length, annotations } => AttrV::RuntimeInvisibleTypeAnnotations {
            attribute_name_index: attribute_name_index,
            attribute_length: attribute_length,
            annotations: annotations@.map_values(|y: TypeAnnotation| ta_view(y)),
        },
        AttributeInfo::AnnotationDefault { attribute_name_index, attribute_length, default_value } => AttrV::AnnotationDefault {
            attribute_name_index: attribute_name_index,
            attribute_length: attribute_length,
            default_value: ev_view(default_value),
        },
        AttributeInfo::BootstrapMethods { attribute_name_index, attribute_length, bootstrap_methods } => AttrV::BootstrapMethods {
            attribute_name_index: attribute_name_index,
            attribute_length: attribute_length,
            bootstrap_methods: bootstrap_methods@.map_values(|y: BootstrapMethod| bm_view(y)),
        },
        AttributeInfo::MethodParameters { attribute_name_index, attribute_length, parameters } => AttrV::MethodParameters {
            attribute_name_index: attribute_name_index,
            attribute_length: attribute_length,
            parameters: parameters@,
        },
        AttributeInfo::Module { attribute_name_index, attribute_length, module_name_index, module_flags, module_version_index, requires_entries, exports, opens, uses_index, provides } => AttrV::Module {
            attribute_name_index: attribute_name_index,
            attribute_length: attribute_length,
            module_name_index: module_name_index,
            module_flags: module_flags,
            module_version_index: module_version_index,
            requires_entries: requires_entries@,
            exports: exports@.map_values(|y: ModuleExports| mexp_view(y)),
            opens: opens@.map_values(|y: ModuleOpens| mop_view(y)),
            uses_index: uses_index@,
            provides: provides@.map_values(|y: ModuleProvides| mprov_view(y)),
        },
        AttributeInfo::ModulePackages { attribute_name_index, attribute_length, package_index } => AttrV::ModulePackages {
            attribute_name_index: attribute_name_index,
            attribute_length: attribute_length,
            package_index: package_index@,
        },
        AttributeInfo::ModuleMainClass { attribute_name_index, attribute_length, main_class_index } => AttrV::ModuleMainClass {
            attribute_name_index: attribute_name_index,
            attribute_length: attribute_length,
            main_class_index: main_class_index,
        },
        AttributeInfo::NestHost { attribute_name_index, attribute_length, host_class_index } => AttrV::NestHost {
            attribute_name_index: attribute_name_index,
            attribute_length: attribute_length,
            host_class_index: host_class_index,
        },
        AttributeInfo::NestMembers { attribute_name_index, attribute_length, classes } => AttrV::NestMembers {
            attribute_name_index: attribute_name_index,
            attribute_length: attribute_length,
            classes: classes@,
        },
        AttributeInfo::Record { attribute_name_index, attribute_length, components } => AttrV::Record {
            attribute_name_index: attribute_name_index,
            attribute_length: attribute_length,
            components: rcs_view(components@, 0),
        },
        AttributeInfo::PermittedSubclasses { attribute_name_index, attribute_length, classes } => AttrV::PermittedSubclasses {
            attribute_name_index: attribute_name_index,
            attribute_length: attribute_length,
            classes: classes@,
        },
    }
}

pub open spec fn attrs_view(s: Seq<AttributeInfo>, i: int) -> Seq<AttrV>
    decreases s, s.len() - i,
{
    if i < 0 || i >= s.len() {
        Seq::empty()
    } else {
        seq![attr_view(s[i])] + attrs_view(s, i + 1)
    }
}

#[derive(Debug, PartialEq, Eq)]
pub struct RecordComponentInfo {
    pub name_index: u16,
    pub descriptor_index: u16,
    pub attributes: Vec<AttributeInfo>,
}

pub struct RecordComponentInfoV {
    pub name_index: u16,
    pub descriptor_index: u16,
    pub attributes: Seq<AttrV>,
}

pub open spec fn rc_view(x: RecordComponentInfo) -> RecordComponentInfoV
    decreases x, 0int,
{
    RecordComponentInfoV {
        name_index: x.name_index,
        descriptor_index: x.descriptor_index,
        attributes: attrs_view(x.attributes@, 0),
    }
}

pub open spec fn rcs_view(s: Seq<RecordComponentInfo>, i: int) -> Seq<RecordComponentInfoV>
    decreases s, s.len() - i,
{
    if i < 0 || i >= s.len() {
        Seq::empty()
    } else {
        seq![rc_view(s[i])] + rcs_view(s, i + 1)
    }
}

#[derive(Debug, PartialEq, Eq)]
pub struct FieldInfo {
    pub access_flags: flags::FieldAccessFlags,
    pub name_index: u16,
    pub descriptor_index: u16,
    pub attributes: Vec<AttributeInfo>,
}

pub struct FieldInfoV {
    pub access_flags: flags::FieldAccessFlags,
    pub name_index: u16,
    pub descriptor_index: u16,
    pub attributes: Seq<AttrV>,
}

pub open spec fn fi_view(x: FieldInfo) -> FieldInfoV {
    FieldInfoV {
        access_flags: x.access_flags,
        name_index: x.name_index,
        descriptor_index: x.descriptor_index,
        attributes: attrs_view(x.attributes@, 0),
    }
}

#[derive(Debug, PartialEq, Eq)]
pub struct MethodInfo {
    pub access_flags: flags::MethodAccessFlags,
    pub name_index: u16,
    pub descriptor_index: u16,
    pub attributes: Vec<AttributeInfo>,
}

pub struct MethodInfoV {
    pub access_flags: flags::MethodAccessFlags,
    pub name_index: u16,
    pub descriptor_index: u16,
    pub attributes: Seq<AttrV>,
}

pub open spec fn mi_view(x: MethodInfo) -> MethodInfoV {
    MethodInfoV {
        access_flags: x.access_flags,
        name_index: x.name_index,
        descriptor_index: x.descriptor_index,
        attributes: attrs_view(x.attributes@, 0),
    }
}

/// The per-class table of literals and symbolic references. Entries are
/// stored in parse order; looking one up goes by its one-based slot index,
/// where an eight-byte literal occupies two slots (see `pool`).
#[derive(Debug, PartialEq, Eq)]
pub struct ConstantPool {
    pub items: Vec<ConstantPoolInfo>,
}

pub open spec fn pool_view(x: ConstantPool) -> Seq<CpInfoV> {
    x.items@.map_values(|y: ConstantPoolInfo| cp_info_view(y))
}

impl ConstantPool {
    pub fn from(items: Vec<ConstantPoolInfo>) -> (r: Self)
        ensures
            r.items == items,
    {
        ConstantPool { items }
    }
}

/// A decoded class file: the whole container, exactly as read.
#[derive(Debug, PartialEq, Eq)]
pub struct ClassFile {
    /// Always 0xCAFEBABE.
    pub magic: u32,
    pub minor_version: u16,
    pub major_version: u16,
    pub cp_info: ConstantPool,
    pub access_flags: flags::ClassAccessFlags,
    pub this_class: u16,
    pub super_class: u16,
    pub interfaces: Vec<u16>,
    pub fields: Vec<FieldInfo>,
    pub methods: Vec<MethodInfo>,
    pub attributes: Vec<AttributeInfo>,
}

pub struct ClassFileV {
    pub magic: u32,
    pub minor_version: u16,
    pub major_version: u16,
    pub cp_info: Seq<CpInfoV>,
    pub access_flags: flags::ClassAccessFlags,
    pub this_class: u16,
    pub super_class: u16,
    pub interfaces: Seq<u16>,
    pub fields: Seq<FieldInfoV>,
    pub methods: Seq<MethodInfoV>,
    pub attributes: Seq<AttrV>,
}

pub open spec fn cf_view(x: ClassFile) -> ClassFileV {
    ClassFileV {
        magic: x.magic,
        minor_version: x.minor_version,
        major_version: x.major_version,
        cp_info: pool_view(x.cp_info),
        access_flags: x.access_flags,
        this_class: x.this_class,
        super_class: x.super_class,
        interfaces: x.interfaces@,
        fields: x.fields@.map_values(|y: FieldInfo| fi_view(y)),
        methods: x.methods@.map_values(|y: MethodInfo| mi_view(y)),
        attributes: attrs_view(x.attributes@, 0),
    }
}


// The list views above walk by index; parsed vectors come out of loops that
// think in `map_values`. These lemmas say the two agree.

pub proof fn lemma_evs_view_as_map(s: Seq<ElementValue>, i: int)
    requires
        0 <= i <= s.len(),
    ensures
        evs_view(s, i) =~= s.subrange(i, s.len() as int).map_values(|y: ElementValue| ev_view(y)),
    decreases s.len() - i,
{
    if i < s.len() {
        lemma_evs_view_as_map(s, i + 1);
    }
}

pub proof fn lemma_pairs_view_as_map(s: Seq<ElementValuePair>, i: int)
    requires
        0 <= i <= s.len(),
    ensures
        pairs_view(s, i) =~= s.subrange(i, s.len() as int).map_values(
            |y: ElementValuePair| pair_view(y),
        ),
    decreases s.len() - i,
{
    if i < s.len() {
        lemma_pairs_view_as_map(s, i + 1);
    }
}

pub proof fn lemma_annos_view_as_map(s: Seq<Annotation>, i: int)
    requires
        0 <= i <= s.len(),
    ensures
        annos_view(s, i) =~= s.subrange(i, s.len() as int).map_values(|y: Annotation| anno_view(y)),
    decreases s.len() - i,
{
    if i < s.len() {
        lemma_annos_view_as_map(s, i + 1);
    }
}

pub proof fn lemma_attrs_view_as_map(s: Seq<AttributeInfo>, i: int)
    requires
        0 <= i <= s.len(),
    ensures
        attrs_view(s, i) =~= s.subrange(i, s.len() as int).map_values(
            |y: AttributeInfo| attr_view(y),
        ),
    decreases s.len() - i,
{
    if i < s.len() {
        lemma_attrs_view_as_map(s, i + 1);
    }
}

pub proof fn lemma_rcs_view_as_map(s: Seq<RecordComponentInfo>, i: int)
    requires
        0 <= i <= s.len(),
    ensures
        rcs_view(s, i) =~= s.subrange(i, s.len() as int).map_values(
            |y: RecordComponentInfo| rc_view(y),
        ),
    decreases s.len() - i,
{
    if i < s.len() {
        lemma_rcs_view_as_map(s, i + 1);
    }
}

} // verus!

