use vstd::prelude::*;

verus! {

/// The fixed table of canonical attribute names. A name outside the table is
/// `Unknown`: such an attribute is skipped, never an error.
#[derive(Debug, PartialEq, Eq, Clone, Copy)]
pub enum AttrName {
    ConstantValue,
    Code,
    StackMapTable,
    Exceptions,
    InnerClasses,
    EnclosingMethod,
    Synthetic,
    Signature,
    SourceFile,
    SourceDebugExtension,
    LineNumberTable,
    LocalVariableTable,
    LocalVariableTypeTable,
    Deprecated,
    RuntimeVisibleAnnotations,
    RuntimeInvisibleAnnotations,
    RuntimeVisibleParameterAnnotations,
    RuntimeInvisibleParameterAnnotations,
    RuntimeVisibleTypeAnnotations,
    RuntimeInvisibleTypeAnnotations,
    AnnotationDefault,
    BootstrapMethods,
    MethodParameters,
    Module,
    ModulePackages,
    ModuleMainClass,
    NestHost,
    NestMembers,
    Record,
    PermittedSubclasses,
    Unknown,
}

pub open spec fn sn_constant_value() -> Seq<u8> {
    seq![67u8, 111u8, 110u8, 115u8, 116u8, 97u8, 110u8, 116u8, 86u8, 97u8, 108u8, 117u8, 101u8]
}

pub open spec fn sn_code() -> Seq<u8> {
    seq![67u8, 111u8, 100u8, 101u8]
}

pub open spec fn sn_stack_map_table() -> Seq<u8> {
    seq![83u8, 116u8, 97u8, 99u8, 107u8, 77u8, 97u8, 112u8, 84u8, 97u8, 98u8, 108u8, 101u8]
}

pub open spec fn sn_exceptions() -> Seq<u8> {
    seq![69u8, 120u8, 99u8, 101u8, 112u8, 116u8, 105u8, 111u8, 110u8, 115u8]
}

pub open spec fn sn_inner_classes() -> Seq<u8> {
    seq![73u8, 110u8, 110u8, 101u8, 114u8, 67u8, 108u8, 97u8, 115u8, 115u8, 101u8, 115u8]
}

pub open spec fn sn_enclosing_method() -> Seq<u8> {
    seq![69u8, 110u8, 99u8, 108u8, 111u8, 115u8, 105u8, 110u8, 103u8, 77u8, 101u8, 116u8, 104u8, 111u8, 100u8]
}

pub open spec fn sn_synthetic() -> Seq<u8> {
    seq![83u8, 121u8, 110u8, 116u8, 104u8, 101u8, 116u8, 105u8, 99u8]
}

pub open spec fn sn_signature() -> Seq<u8> {
    seq![83u8, 105u8, 103u8, 110u8, 97u8, 116u8, 117u8, 114u8, 101u8]
}

pub open spec fn sn_source_file() -> Seq<u8> {
    seq![83u8, 111u8, 117u8, 114u8, 99u8, 101u8, 70u8, 105u8, 108u8, 101u8]
}

pub open spec fn sn_source_debug_extension() -> Seq<u8> {
    seq![83u8, 111u8, 117u8, 114u8, 99u8, 101u8, 68u8, 101u8, 98u8, 117u8, 103u8, 69u8, 120u8, 116u8, 101u8, 110u8, 115u8, 105u8, 111u8, 110u8]
}

pub open spec fn sn_line_number_table() -> Seq<u8> {
    seq![76u8, 105u8, 110u8, 101u8, 78u8, 117u8, 109u8, 98u8, 101u8, 114u8, 84u8, 97u8, 98u8, 108u8, 101u8]
}

pub open spec fn sn_local_variable_table() -> Seq<u8> {
    seq![76u8, 111u8, 99u8, 97u8, 108u8, 86u8, 97u8, 114u8, 105u8, 97u8, 98u8, 108u8, 101u8, 84u8, 97u8, 98u8, 108u8, 101u8]
}

pub open spec fn sn_local_variable_type_table() -> Seq<u8> {
    seq![76u8, 111u8, 99u8, 97u8, 108u8, 86u8, 97u8, 114u8, 105u8, 97u8, 98u8, 108u8, 101u8, 84u8, 121u8, 112u8, 101u8, 84u8, 97u8, 98u8, 108u8, 101u8]
}

pub open spec fn sn_deprecated() -> Seq<u8> {
    seq![68u8, 101u8, 112u8, 114u8, 101u8, 99u8, 97u8, 116u8, 101u8, 100u8]
}

pub open spec fn sn_runtime_visible_annotations() -> Seq<u8> {
    seq![82u8, 117u8, 110u8, 116u8, 105u8, 109u8, 101u8, 86u8, 105u8, 115u8, 105u8, 98u8, 108u8, 101u8, 65u8, 110u8, 110u8, 111u8, 116u8, 97u8, 116u8, 105u8, 111u8, 110u8, 115u8]
}

pub open spec fn sn_runtime_invisible_annotations() -> Seq<u8> {
    seq![82u8, 117u8, 110u8, 116u8, 105u8, 109u8, 101u8, 73u8, 110u8, 118u8, 105u8, 115u8, 105u8, 98u8, 108u8, 101u8, 65u8, 110u8, 110u8, 111u8, 116u8, 97u8, 116u8, 105u8, 111u8, 110u8, 115u8]
}

pub open spec fn sn_runtime_visible_parameter_annotations() -> Seq<u8> {
    seq![82u8, 117u8, 110u8, 116u8, 105u8, 109u8, 101u8, 86u8, 105u8, 115u8, 105u8, 98u8, 108u8, 101u8, 80u8, 97u8, 114u8, 97u8, 109u8, 101u8, 116u8, 101u8, 114u8, 65u8, 110u8, 110u8, 111u8, 116u8, 97u8, 116u8, 105u8, 111u8, 110u8, 115u8]
}

pub open spec fn sn_runtime_invisible_parameter_annotations() -> Seq<u8> {
    seq![82u8, 117u8, 110u8, 116u8, 105u8, 109u8, 101u8, 73u8, 110u8, 118u8, 105u8, 115u8, 105u8, 98u8, 108u8, 101u8, 80u8, 97u8, 114u8, 97u8, 109u8, 101u8, 116u8, 101u8, 114u8, 65u8, 110u8, 110u8, 111u8, 116u8, 97u8, 116u8, 105u8, 111u8, 110u8, 115u8]
}

pub open spec fn sn_runtime_visible_type_annotations() -> Seq<u8> {
    seq![82u8, 117u8, 110u8, 116u8, 105u8, 109u8, 101u8, 86u8, 105u8, 115u8, 105u8, 98u8, 108u8, 101u8, 84u8, 121u8, 112u8, 101u8, 65u8, 110u8, 110u8, 111u8, 116u8, 97u8, 116u8, 105u8, 111u8, 110u8, 115u8]
}

pub open spec fn sn_runtime_invisible_type_annotations() -> Seq<u8> {
    seq![82u8, 117u8, 110u8, 116u8, 105u8, 109u8, 101u8, 73u8, 110u8, 118u8, 105u8, 115u8, 105u8, 98u8, 108u8, 101u8, 84u8, 121u8, 112u8, 101u8, 65u8, 110u8, 110u8, 111u8, 116u8, 97u8, 116u8, 105u8, 111u8, 110u8, 115u8]
}

pub open spec fn sn_annotation_default() -> Seq<u8> {
    seq![65u8, 110u8, 110u8, 111u8, 116u8, 97u8, 116u8, 105u8, 111u8, 110u8, 68u8, 101u8, 102u8, 97u8, 117u8, 108u8, 116u8]
}

pub open spec fn sn_bootstrap_methods() -> Seq<u8> {
    seq![66u8, 111u8, 111u8, 116u8, 115u8, 116u8, 114u8, 97u8, 112u8, 77u8, 101u8, 116u8, 104u8, 111u8, 100u8, 115u8]
}

pub open spec fn sn_method_parameters() -> Seq<u8> {
    seq![77u8, 101u8, 116u8, 104u8, 111u8, 100u8, 80u8, 97u8, 114u8, 97u8, 109u8, 101u8, 116u8, 101u8, 114u8, 115u8]
}

pub open spec fn sn_module() -> Seq<u8> {
    seq![77u8, 111u8, 100u8, 117u8, 108u8, 101u8]
}

pub open spec fn sn_module_packages() -> Seq<u8> {
    seq![77u8, 111u8, 100u8, 117u8, 108u8, 101u8, 80u8, 97u8, 99u8, 107u8, 97u8, 103u8, 101u8, 115u8]
}

pub open spec fn sn_module_main_class() -> Seq<u8> {
    seq![77u8, 111u8, 100u8, 117u8, 108u8, 101u8, 77u8, 97u8, 105u8, 110u8, 67u8, 108u8, 97u8, 115u8, 115u8]
}

pub open spec fn sn_nest_host() -> Seq<u8> {
    seq![78u8, 101u8, 115u8, 116u8, 72u8, 111u8, 115u8, 116u8]
}

pub open spec fn sn_nest_members() -> Seq<u8> {
    seq![78u8, 101u8, 115u8, 116u8, 77u8, 101u8, 109u8, 98u8, 101u8, 114u8, 115u8]
}

pub open spec fn sn_record() -> Seq<u8> {
    seq![82u8, 101u8, 99u8, 111u8, 114u8, 100u8]
}

pub open spec fn sn_permitted_subclasses() -> Seq<u8> {
    seq![80u8, 101u8, 114u8, 109u8, 105u8, 116u8, 116u8, 101u8, 100u8, 83u8, 117u8, 98u8, 99u8, 108u8, 97u8, 115u8, 115u8, 101u8, 115u8]
}

/// Which canonical attribute name a byte string spells, if any.
pub open spec fn sp_attr_name(b: Seq<u8>) -> AttrName {
    if b == sn_constant_value() {
        AttrName::ConstantValue
    } else if b == sn_code() {
        AttrName::Code
    } else if b == sn_stack_map_table() {
        AttrName::StackMapTable
    } else if b == sn_exceptions() {
        AttrName::Exceptions
    } else if b == sn_inner_classes() {
        AttrName::InnerClasses
    } else if b == sn_enclosing_method() {
        AttrName::EnclosingMethod
    } else if b == sn_synthetic() {
        AttrName::Synthetic
    } else if b == sn_signature() {
        AttrName::Signature
    } else if b == sn_source_file() {
        AttrName::SourceFile
    } else if b == sn_source_debug_extension() {
        AttrName::SourceDebugExtension
    } else if b == sn_line_number_table() {
        AttrName::LineNumberTable
    } else if b == sn_local_variable_table() {
        AttrName::LocalVariableTable
    } else if b == sn_local_variable_type_table() {
        AttrName::LocalVariableTypeTable
    } else if b == sn_deprecated() {
        AttrName::Deprecated
    } else if b == sn_runtime_visible_annotations() {
        AttrName::RuntimeVisibleAnnotations
    } else if b == sn_runtime_invisible_annotations() {
        AttrName::RuntimeInvisibleAnnotations
    } else if b == sn_runtime_visible_parameter_annotations() {
        AttrName::RuntimeVisibleParameterAnnotations
    } else if b == sn_runtime_invisible_parameter_annotations() {
        AttrName::RuntimeInvisibleParameterAnnotations
    } else if b == sn_runtime_visible_type_annotations() {
        AttrName::RuntimeVisibleTypeAnnotations
    } else if b == sn_runtime_invisible_type_annotations() {
        AttrName::RuntimeInvisibleTypeAnnotations
    } else if b == sn_annotation_default() {
        AttrName::AnnotationDefault
    } else if b == sn_bootstrap_methods() {
        AttrName::BootstrapMethods
    } else if b == sn_method_parameters() {
        AttrName::MethodParameters
    } else if b == sn_module() {
        AttrName::Module
    } else if b == sn_module_packages() {
        AttrName::ModulePackages
    } else if b == sn_module_main_class() {
        AttrName::ModuleMainClass
    } else if b == sn_nest_host() {
        AttrName::NestHost
    } else if b == sn_nest_members() {
        AttrName::NestMembers
    } else if b == sn_record() {
        AttrName::Record
    } else if b == sn_permitted_subclasses() {
        AttrName::PermittedSubclasses
    } else {
        AttrName::Unknown
    }
}

fn bytes_eq(a: &Vec<u8>, w: &[u8]) -> (r: bool)
    ensures
        r == (a@ == w@),
{
    if a.len() != w.len() {
        proof {
            assert(a@ != w@);
        }
        return false;
    }
    let mut i: usize = 0;
    while i < w.len()
        invariant
            a@.len() == w@.len(),
            i <= w@.len(),
            forall|j: int| 0 <= j < i ==> a@[j] == w@[j],
        decreases w@.len() - i,
    {
        if a[i] != w[i] {
            return false;
        }
        i = i + 1;
    }
    proof {
        assert(a@ =~= w@);
    }
    true
}

/// Matches a decoded attribute name against the canonical table.
pub fn classify_attr_name(v: &Vec<u8>) -> (k: AttrName)
    ensures
        k == sp_attr_name(v@),
{
    let w: &[u8] = &[67u8, 111u8, 110u8, 115u8, 116u8, 97u8, 110u8, 116u8, 86u8, 97u8, 108u8, 117u8, 101u8];
    proof {
        assert(w@ =~= sn_constant_value());
    }
    if bytes_eq(v, w) {
        return AttrName::ConstantValue;
    }
    let w: &[u8] = &[67u8, 111u8, 100u8, 101u8];
    proof {
        assert(w@ =~= sn_code());
    }
    if bytes_eq(v, w) {
        return AttrName::Code;
    }
    let w: &[u8] = &[83u8, 116u8, 97u8, 99u8, 107u8, 77u8, 97u8, 112u8, 84u8, 97u8, 98u8, 108u8, 101u8];
    proof {
        assert(w@ =~= sn_stack_map_table());
    }
    if bytes_eq(v, w) {
        return AttrName::StackMapTable;
    }
    let w: &[u8] = &[69u8, 120u8, 99u8, 101u8, 112u8, 116u8, 105u8, 111u8, 110u8, 115u8];
    proof {
        assert(w@ =~= sn_exceptions());
    }
    if bytes_eq(v, w) {
        return AttrName::Exceptions;
    }
    let w: &[u8] = &[73u8, 110u8, 110u8, 101u8, 114u8, 67u8, 108u8, 97u8, 115u8, 115u8, 101u8, 115u8];
    proof {
        assert(w@ =~= sn_inner_classes());
    }
    if bytes_eq(v, w) {
        return AttrName::InnerClasses;
    }
    let w: &[u8] = &[69u8, 110u8, 99u8, 108u8, 111u8, 115u8, 105u8, 110u8, 103u8, 77u8, 101u8, 116u8, 104u8, 111u8, 100u8];
    proof {
        assert(w@ =~= sn_enclosing_method());
    }
    if bytes_eq(v, w) {
        return AttrName::EnclosingMethod;
    }
    let w: &[u8] = &[83u8, 121u8, 110u8, 116u8, 104u8, 101u8, 116u8, 105u8, 99u8];
    proof {
        assert(w@ =~= sn_synthetic());
    }
    if bytes_eq(v, w) {
        return AttrName::Synthetic;
    }
    let w: &[u8] = &[83u8, 105u8, 103u8, 110u8, 97u8, 116u8, 117u8, 114u8, 101u8];
    proof {
        assert(w@ =~= sn_signature());
    }
    if bytes_eq(v, w) {
        return AttrName::Signature;
    }
    let w: &[u8] = &[83u8, 111u8, 117u8, 114u8, 99u8, 101u8, 70u8, 105u8, 108u8, 101u8];
    proof {
        assert(w@ =~= sn_source_file());
    }
    if bytes_eq(v, w) {
        return AttrName::SourceFile;
    }
    let w: &[u8] = &[83u8, 111u8, 117u8, 114u8, 99u8, 101u8, 68u8, 101u8, 98u8, 117u8, 103u8, 69u8, 120u8, 116u8, 101u8, 110u8, 115u8, 105u8, 111u8, 110u8];
    proof {
        assert(w@ =~= sn_source_debug_extension());
    }
    if bytes_eq(v, w) {
        return AttrName::SourceDebugExtension;
    }
    let w: &[u8] = &[76u8, 105u8, 110u8, 101u8, 78u8, 117u8, 109u8, 98u8, 101u8, 114u8, 84u8, 97u8, 98u8, 108u8, 101u8];
    proof {
        assert(w@ =~= sn_line_number_table());
    }
    if bytes_eq(v, w) {
        return AttrName::LineNumberTable;
    }
    let w: &[u8] = &[76u8, 111u8, 99u8, 97u8, 108u8, 86u8, 97u8, 114u8, 105u8, 97u8, 98u8, 108u8, 101u8, 84u8, 97u8, 98u8, 108u8, 101u8];
    proof {
        assert(w@ =~= sn_local_variable_table());
    }
    if bytes_eq(v, w) {
        return AttrName::LocalVariableTable;
    }
    let w: &[u8] = &[76u8, 111u8, 99u8, 97u8, 108u8, 86u8, 97u8, 114u8, 105u8, 97u8, 98u8, 108u8, 101u8, 84u8, 121u8, 112u8, 101u8, 84u8, 97u8, 98u8, 108u8, 101u8];
    proof {
        assert(w@ =~= sn_local_variable_type_table());
    }
    if bytes_eq(v, w) {
        return AttrName::LocalVariableTypeTable;
    }
    let w: &[u8] = &[68u8, 101u8, 112u8, 114u8, 101u8, 99u8, 97u8, 116u8, 101u8, 100u8];
    proof {
        assert(w@ =~= sn_deprecated());
    }
    if bytes_eq(v, w) {
        return AttrName::Deprecated;
    }
    let w: &[u8] = &[82u8, 117u8, 110u8, 116u8, 105u8, 109u8, 101u8, 86u8, 105u8, 115u8, 105u8, 98u8, 108u8, 101u8, 65u8, 110u8, 110u8, 111u8, 116u8, 97u8, 116u8, 105u8, 111u8, 110u8, 115u8];
    proof {
        assert(w@ =~= sn_runtime_visible_annotations());
    }
    if bytes_eq(v, w) {
        return AttrName::RuntimeVisibleAnnotations;
    }
    let w: &[u8] = &[82u8, 117u8, 110u8, 116u8, 105u8, 109u8, 101u8, 73u8, 110u8, 118u8, 105u8, 115u8, 105u8, 98u8, 108u8, 101u8, 65u8, 110u8, 110u8, 111u8, 116u8, 97u8, 116u8, 105u8, 111u8, 110u8, 115u8];
    proof {
        assert(w@ =~= sn_runtime_invisible_annotations());
    }
    if bytes_eq(v, w) {
        return AttrName::RuntimeInvisibleAnnotations;
    }
    let w: &[u8] = &[82u8, 117u8, 110u8, 116u8, 105u8, 109u8, 101u8, 86u8, 105u8, 115u8, 105u8, 98u8, 108u8, 101u8, 80u8, 97u8, 114u8, 97u8, 109u8, 101u8, 116u8, 101u8, 114u8, 65u8, 110u8, 110u8, 111u8, 116u8, 97u8, 116u8, 105u8, 111u8, 110u8, 115u8];
    proof {
        assert(w@ =~= sn_runtime_visible_parameter_annotations());
    }
    if bytes_eq(v, w) {
        return AttrName::RuntimeVisibleParameterAnnotations;
    }
    let w: &[u8] = &[82u8, 117u8, 110u8, 116u8, 105u8, 109u8, 101u8, 73u8, 110u8, 118u8, 105u8, 115u8, 105u8, 98u8, 108u8, 101u8, 80u8, 97u8, 114u8, 97u8, 109u8, 101u8, 116u8, 101u8, 114u8, 65u8, 110u8, 110u8, 111u8, 116u8, 97u8, 116u8, 105u8, 111u8, 110u8, 115u8];
    proof {
        assert(w@ =~= sn_runtime_invisible_parameter_annotations());
    }
    if bytes_eq(v, w) {
        return AttrName::RuntimeInvisibleParameterAnnotations;
    }
    let w: &[u8] = &[82u8, 117u8, 110u8, 116u8, 105u8, 109u8, 101u8, 86u8, 105u8, 115u8, 105u8, 98u8, 108u8, 101u8, 84u8, 121u8, 112u8, 101u8, 65u8, 110u8, 110u8, 111u8, 116u8, 97u8, 116u8, 105u8, 111u8, 110u8, 115u8];
    proof {
        assert(w@ =~= sn_runtime_visible_type_annotations());
    }
    if bytes_eq(v, w) {
        return AttrName::RuntimeVisibleTypeAnnotations;
    }
    let w: &[u8] = &[82u8, 117u8, 110u8, 116u8, 105u8, 109u8, 101u8, 73u8, 110u8, 118u8, 105u8, 115u8, 105u8, 98u8, 108u8, 101u8, 84u8, 121u8, 112u8, 101u8, 65u8, 110u8, 110u8, 111u8, 116u8, 97u8, 116u8, 105u8, 111u8, 110u8, 115u8];
    proof {
        assert(w@ =~= sn_runtime_invisible_type_annotations());
    }
    if bytes_eq(v, w) {
        return AttrName::RuntimeInvisibleTypeAnnotations;
    }
    let w: &[u8] = &[65u8, 110u8, 110u8, 111u8, 116u8, 97u8, 116u8, 105u8, 111u8, 110u8, 68u8, 101u8, 102u8, 97u8, 117u8, 108u8, 116u8];
    proof {
        assert(w@ =~= sn_annotation_default());
    }
    if bytes_eq(v, w) {
        return AttrName::AnnotationDefault;
    }
    let w: &[u8] = &[66u8, 111u8, 111u8, 116u8, 115u8, 116u8, 114u8, 97u8, 112u8, 77u8, 101u8, 116u8, 104u8, 111u8, 100u8, 115u8];
    proof {
        assert(w@ =~= sn_bootstrap_methods());
    }
    if bytes_eq(v, w) {
        return AttrName::BootstrapMethods;
    }
    let w: &[u8] = &[77u8, 101u8, 116u8, 104u8, 111u8, 100u8, 80u8, 97u8, 114u8, 97u8, 109u8, 101u8, 116u8, 101u8, 114u8, 115u8];
    proof {
        assert(w@ =~= sn_method_parameters());
    }
    if bytes_eq(v, w) {
        return AttrName::MethodParameters;
    }
    let w: &[u8] = &[77u8, 111u8, 100u8, 117u8, 108u8, 101u8];
    proof {
        assert(w@ =~= sn_module());
    }
    if bytes_eq(v, w) {
        return AttrName::Module;
    }
    let w: &[u8] = &[77u8, 111u8, 100u8, 117u8, 108u8, 101u8, 80u8, 97u8, 99u8, 107u8, 97u8, 103u8, 101u8, 115u8];
    proof {
        assert(w@ =~= sn_module_packages());
    }
    if bytes_eq(v, w) {
        return AttrName::ModulePackages;
    }
    let w: &[u8] = &[77u8, 111u8, 100u8, 117u8, 108u8, 101u8, 77u8, 97u8, 105u8, 110u8, 67u8, 108u8, 97u8, 115u8, 115u8];
    proof {
        assert(w@ =~= sn_module_main_class());
    }
    if bytes_eq(v, w) {
        return AttrName::ModuleMainClass;
    }
    let w: &[u8] = &[78u8, 101u8, 115u8, 116u8, 72u8, 111u8, 115u8, 116u8];
    proof {
        assert(w@ =~= sn_nest_host());
    }
    if bytes_eq(v, w) {
        return AttrName::NestHost;
    }
    let w: &[u8] = &[78u8, 101u8, 115u8, 116u8, 77u8, 101u8, 109u8, 98u8, 101u8, 114u8, 115u8];
    proof {
        assert(w@ =~= sn_nest_members());
    }
    if bytes_eq(v, w) {
        return AttrName::NestMembers;
    }
    let w: &[u8] = &[82u8, 101u8, 99u8, 111u8, 114u8, 100u8];
    proof {
        assert(w@ =~= sn_record());
    }
    if bytes_eq(v, w) {
        return AttrName::Record;
    }
    let w: &[u8] = &[80u8, 101u8, 114u8, 109u8, 105u8, 116u8, 116u8, 101u8, 100u8, 83u8, 117u8, 98u8, 99u8, 108u8, 97u8, 115u8, 115u8, 101u8, 115u8];
    proof {
        assert(w@ =~= sn_permitted_subclasses());
    }
    if bytes_eq(v, w) {
        return AttrName::PermittedSubclasses;
    }
    AttrName::Unknown
}

} // verus!