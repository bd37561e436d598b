use libjvm::classfile::err::ClassFileParseError;
use libjvm::classfile::flags::{ClassAccessFlags, MethodAccessFlags};
use libjvm::classfile::reader::Reader;
use libjvm::classfile::types::{
    AttributeInfo, ClassFile, ConstantPool, ConstantPoolInfo, LineNumberTableEntry,
};

fn push_u16(v: &mut Vec<u8>, x: u16) {
    v.extend_from_slice(&x.to_be_bytes());
}

fn push_u32(v: &mut Vec<u8>, x: u32) {
    v.extend_from_slice(&x.to_be_bytes());
}

fn push_utf8(v: &mut Vec<u8>, s: &str) {
    v.push(1);
    push_u16(v, s.len() as u16);
    v.extend_from_slice(s.as_bytes());
}

/// The byte stream of a minimal class `Foo`: no fields, one constructor, one
/// trivial method `bar`, one `SourceFile` attribute.
fn foo_class_bytes() -> Vec<u8> {
    let mut v: Vec<u8> = Vec::new();
    push_u32(&mut v, 0xCAFEBABE);
    push_u16(&mut v, 0); // minor
    push_u16(&mut v, 61); // major
    push_u16(&mut v, 14); // constant pool count (13 entries + 1)
    // 1: Methodref 2.3
    v.push(10);
    push_u16(&mut v, 2);
    push_u16(&mut v, 3);
    // 2: Class 4
    v.push(7);
    push_u16(&mut v, 4);
    // 3: NameAndType 5:6
    v.push(12);
    push_u16(&mut v, 5);
    push_u16(&mut v, 6);
    // 4..6
    push_utf8(&mut v, "java/lang/Object");
    push_utf8(&mut v, "<init>");
    push_utf8(&mut v, "()V");
    // 7: Class 8
    v.push(7);
    push_u16(&mut v, 8);
    // 8..13
    push_utf8(&mut v, "Foo");
    push_utf8(&mut v, "Code");
    push_utf8(&mut v, "LineNumberTable");
    push_utf8(&mut v, "bar");
    push_utf8(&mut v, "SourceFile");
    push_utf8(&mut v, "Foo.java");
    push_u16(&mut v, 0x0021); // access flags: public | super
    push_u16(&mut v, 7); // this
    push_u16(&mut v, 2); // super
    push_u16(&mut v, 0); // interfaces
    push_u16(&mut v, 0); // fields
    push_u16(&mut v, 2); // methods
    // <init>
    push_u16(&mut v, 0x0001);
    push_u16(&mut v, 5);
    push_u16(&mut v, 6);
    push_u16(&mut v, 1);
    push_u16(&mut v, 9); // "Code"
    push_u32(&mut v, 29);
    push_u16(&mut v, 1); // max_stack
    push_u16(&mut v, 1); // max_locals
    push_u32(&mut v, 5);
    v.extend_from_slice(&[0x2A, 0xB7, 0x00, 0x01, 0xB1]);
    push_u16(&mut v, 0); // exception table
    push_u16(&mut v, 1); // nested attributes
    push_u16(&mut v, 10); // "LineNumberTable"
    push_u32(&mut v, 6);
    push_u16(&mut v, 1);
    push_u16(&mut v, 0);
    push_u16(&mut v, 1);
    // bar
    push_u16(&mut v, 0x0001);
    push_u16(&mut v, 11);
    push_u16(&mut v, 6);
    push_u16(&mut v, 1);
    push_u16(&mut v, 9);
    push_u32(&mut v, 25);
    push_u16(&mut v, 0);
    push_u16(&mut v, 1);
    push_u32(&mut v, 1);
    v.push(0xB1);
    push_u16(&mut v, 0);
    push_u16(&mut v, 1);
    push_u16(&mut v, 10);
    push_u32(&mut v, 6);
    push_u16(&mut v, 1);
    push_u16(&mut v, 0);
    push_u16(&mut v, 3);
    // class attributes
    push_u16(&mut v, 1);
    push_u16(&mut v, 12); // "SourceFile"
    push_u32(&mut v, 2);
    push_u16(&mut v, 13);
    v
}

#[test]
fn test_simple_class_file() {
    let mut rd = Reader::new(foo_class_bytes());
    let result = ClassFile::parse(&mut rd).unwrap();
    assert_eq!(
        ClassFile {
            magic: 0xCAFEBABE,
            minor_version: 0,
            major_version: 61,
            cp_info: ConstantPool {
                items: vec![
                    ConstantPoolInfo::MethodrefInfo { class_index: 2, name_and_type_index: 3 },
                    ConstantPoolInfo::ClassInfo { name_index: 4 },
                    ConstantPoolInfo::NameAndTypeInfo { name_index: 5, descriptor_index: 6 },
                    ConstantPoolInfo::Utf8Info {
                        length: 16,
                        bytes: "java/lang/Object".as_bytes().into()
                    },
                    ConstantPoolInfo::Utf8Info { length: 6, bytes: "<init>".as_bytes().into() },
                    ConstantPoolInfo::Utf8Info { length: 3, bytes: "()V".as_bytes().into() },
                    ConstantPoolInfo::ClassInfo { name_index: 8 },
                    ConstantPoolInfo::Utf8Info { length: 3, bytes: "Foo".as_bytes().into() },
                    ConstantPoolInfo::Utf8Info { length: 4, bytes: "Code".as_bytes().into() },
                    ConstantPoolInfo::Utf8Info {
                        length: 15,
                        bytes: "LineNumberTable".as_bytes().into()
                    },
                    ConstantPoolInfo::Utf8Info { length: 3, bytes: "bar".as_bytes().into() },
                    ConstantPoolInfo::Utf8Info {
                        length: 10,
                        bytes: "SourceFile".as_bytes().into()
                    },
                    ConstantPoolInfo::Utf8Info { length: 8, bytes: "Foo.java".as_bytes().into() },
                ]
            },
            access_flags: ClassAccessFlags::from_bits_truncate(0x0021),
            this_class: 7,
            super_class: 2,
            interfaces: vec![],
            fields: vec![],
            methods: vec![
                libjvm::classfile::types::MethodInfo {
                    access_flags: MethodAccessFlags::from_bits_truncate(0x0001),
                    name_index: 5,
                    descriptor_index: 6,
                    attributes: vec![AttributeInfo::Code {
                        attribute_name_index: 9,
                        attribute_length: 29,
                        max_stack: 1,
                        max_locals: 1,
                        code_length: 5,
                        code: vec![0x2A, 0xB7, 0x00, 0x01, 0xB1],
                        exception_table: vec![],
                        attributes: vec![AttributeInfo::LineNumberTable {
                            attribute_name_index: 10,
                            attribute_length: 6,
                            line_number_table: vec![LineNumberTableEntry {
                                start_pc: 0,
                                line_number: 1
                            }]
                        }],
                    }]
                },
                libjvm::classfile::types::MethodInfo {
                    access_flags: MethodAccessFlags::from_bits_truncate(0x0001),
                    name_index: 11,
                    descriptor_index: 6,
                    attributes: vec![AttributeInfo::Code {
                        attribute_name_index: 9,
                        attribute_length: 25,
                        max_stack: 0,
                        max_locals: 1,
                        code_length: 1,
                        code: vec![0xB1],
                        exception_table: vec![],
                        attributes: vec![AttributeInfo::LineNumberTable {
                            attribute_name_index: 10,
                            attribute_length: 6,
                            line_number_table: vec![LineNumberTableEntry {
                                start_pc: 0,
                                line_number: 3
                            }]
                        }],
                    }]
                }
            ],
            attributes: vec![AttributeInfo::SourceFile {
                attribute_name_index: 12,
                attribute_length: 2,
                sourcefile_index: 13
            }]
        },
        result
    );
}

#[test]
fn test_magic_value_rejected() {
    for prefix in [
        vec![0x00u8, 0x00, 0x00, 0x00],
        vec![0xCAu8, 0xFE, 0xBA, 0xBF],
        vec![0xDEu8, 0xAD, 0xBE, 0xEF],
        vec![0xCBu8, 0xFE, 0xBA, 0xBE],
    ] {
        let mut bytes = prefix.clone();
        bytes.extend_from_slice(&foo_class_bytes()[4..]);
        let mut rd = Reader::new(bytes);
        assert_eq!(
            Err(ClassFileParseError::InvalidMagicValue),
            ClassFile::parse(&mut rd)
        );
    }
}

#[test]
fn test_truncation_yields_eof() {
    let full = foo_class_bytes();
    for cut in 0..full.len() {
        let mut rd = Reader::new(full[..cut].to_vec());
        assert_eq!(
            Err(ClassFileParseError::UnexpectedEOF),
            ClassFile::parse(&mut rd),
            "cut at {cut}"
        );
    }
    let mut rd = Reader::new(full);
    assert!(ClassFile::parse(&mut rd).is_ok());
}

#[test]
fn test_long_entry_leaves_next_slot_vacant() {
    let mut v: Vec<u8> = Vec::new();
    push_u32(&mut v, 0xCAFEBABE);
    push_u16(&mut v, 0);
    push_u16(&mut v, 61);
    push_u16(&mut v, 4); // slots 1..=3: a two-slot long, then one utf8
    v.push(5); // Long
    push_u32(&mut v, 0x12345678);
    push_u32(&mut v, 0x9ABCDEF0);
    push_utf8(&mut v, "A");
    push_u16(&mut v, 0x0021);
    push_u16(&mut v, 0);
    push_u16(&mut v, 0);
    push_u16(&mut v, 0);
    push_u16(&mut v, 0);
    push_u16(&mut v, 0);
    push_u16(&mut v, 0);
    let mut rd = Reader::new(v);
    let cf = ClassFile::parse(&mut rd).unwrap();
    assert_eq!(2, cf.cp_info.len());
    assert_eq!(
        Some(&ConstantPoolInfo::LongInfo { high_bytes: 0x12345678, low_bytes: 0x9ABCDEF0 }),
        cf.cp_info.get(1)
    );
    assert_eq!(None, cf.cp_info.get(2)); // the vacant second slot
    assert_eq!(
        Some(&ConstantPoolInfo::Utf8Info { length: 1, bytes: vec![0x41] }),
        cf.cp_info.get(3)
    );
    assert_eq!(None, cf.cp_info.get(0));
    assert_eq!(None, cf.cp_info.get(4));
}

#[test]
fn test_unknown_attribute_is_skipped() {
    for junk_len in [0usize, 5, 100] {
        let mut v: Vec<u8> = Vec::new();
        push_u32(&mut v, 0xCAFEBABE);
        push_u16(&mut v, 0);
        push_u16(&mut v, 61);
        push_u16(&mut v, 3); // two entries
        push_utf8(&mut v, "Frobnicate");
        push_utf8(&mut v, "Synthetic");
        push_u16(&mut v, 0x0021);
        push_u16(&mut v, 0);
        push_u16(&mut v, 0);
        push_u16(&mut v, 0);
        push_u16(&mut v, 0);
        push_u16(&mut v, 0);
        push_u16(&mut v, 2); // two attributes: an unknown one, then a known one
        push_u16(&mut v, 1); // name: "Frobnicate"
        push_u32(&mut v, junk_len as u32);
        v.extend(std::iter::repeat(0xAB).take(junk_len));
        push_u16(&mut v, 2); // name: "Synthetic"
        push_u32(&mut v, 0);
        let mut rd = Reader::new(v);
        let cf = ClassFile::parse(&mut rd).unwrap();
        // The unknown attribute left no trace, and the cursor stayed aligned
        // so that the known attribute after it decoded.
        assert_eq!(
            vec![AttributeInfo::Synthetic { attribute_name_index: 2, attribute_length: 0 }],
            cf.attributes
        );
    }
}

#[test]
fn test_constant_value_length_policed() {
    // A ConstantValue attribute carries exactly a two-byte index; any other
    // declared length is a parse error, never an abort.
    for (len, want_err) in [(2u32, false), (0u32, true), (5u32, true)] {
        let mut v: Vec<u8> = Vec::new();
        push_u32(&mut v, 0xCAFEBABE);
        push_u16(&mut v, 0);
        push_u16(&mut v, 61);
        push_u16(&mut v, 2);
        push_utf8(&mut v, "ConstantValue");
        push_u16(&mut v, 0x0021);
        push_u16(&mut v, 0);
        push_u16(&mut v, 0);
        push_u16(&mut v, 0);
        push_u16(&mut v, 0);
        push_u16(&mut v, 0);
        push_u16(&mut v, 1);
        push_u16(&mut v, 1); // name: "ConstantValue"
        push_u32(&mut v, len);
        push_u16(&mut v, 7); // the index payload
        let mut rd = Reader::new(v);
        let r = ClassFile::parse(&mut rd);
        if want_err {
            assert_eq!(Err(ClassFileParseError::InvalidAttributeLength), r);
        } else {
            let cf = r.unwrap();
            assert_eq!(
                vec![AttributeInfo::ConstantValue {
                    attribute_name_index: 1,
                    attribute_length: 2,
                    constantvalue_index: 7
                }],
                cf.attributes
            );
        }
    }
}

#[test]
fn test_invalid_pool_tag_rejected() {
    let mut v: Vec<u8> = Vec::new();
    push_u32(&mut v, 0xCAFEBABE);
    push_u16(&mut v, 0);
    push_u16(&mut v, 61);
    push_u16(&mut v, 2);
    v.push(99); // not a constant-pool tag
    let mut rd = Reader::new(v);
    assert_eq!(
        Err(ClassFileParseError::InvalidConstantPoolInfoTag),
        ClassFile::parse(&mut rd)
    );
}

#[test]
fn test_invalid_reference_kind_rejected() {
    let mut v: Vec<u8> = Vec::new();
    push_u32(&mut v, 0xCAFEBABE);
    push_u16(&mut v, 0);
    push_u16(&mut v, 61);
    push_u16(&mut v, 2);
    v.push(15); // MethodHandle
    v.push(10); // not a reference kind
    push_u16(&mut v, 1);
    let mut rd = Reader::new(v);
    assert_eq!(
        Err(ClassFileParseError::InvalidReferenceKind),
        ClassFile::parse(&mut rd)
    );
}

#[test]
fn test_dangling_attribute_name_rejected() {
    let mut v: Vec<u8> = Vec::new();
    push_u32(&mut v, 0xCAFEBABE);
    push_u16(&mut v, 0);
    push_u16(&mut v, 61);
    push_u16(&mut v, 2);
    push_utf8(&mut v, "X");
    push_u16(&mut v, 0x0021);
    push_u16(&mut v, 0);
    push_u16(&mut v, 0);
    push_u16(&mut v, 0);
    push_u16(&mut v, 0);
    push_u16(&mut v, 0);
    push_u16(&mut v, 1);
    push_u16(&mut v, 9); // no slot 9 in the pool
    push_u32(&mut v, 0);
    let mut rd = Reader::new(v);
    assert_eq!(
        Err(ClassFileParseError::InvalidAttributeNameIndex),
        ClassFile::parse(&mut rd)
    );
}

#[test]
fn test_unassigned_stack_map_frame_type_rejected() {
    let mut v: Vec<u8> = Vec::new();
    push_u32(&mut v, 0xCAFEBABE);
    push_u16(&mut v, 0);
    push_u16(&mut v, 61);
    push_u16(&mut v, 2);
    push_utf8(&mut v, "StackMapTable");
    push_u16(&mut v, 0x0021);
    push_u16(&mut v, 0);
    push_u16(&mut v, 0);
    push_u16(&mut v, 0);
    push_u16(&mut v, 0);
    push_u16(&mut v, 0);
    push_u16(&mut v, 1);
    push_u16(&mut v, 1); // name: "StackMapTable"
    push_u32(&mut v, 3);
    push_u16(&mut v, 1); // one frame
    v.push(200); // unassigned frame type byte (128..=246)
    let mut rd = Reader::new(v);
    assert_eq!(
        Err(ClassFileParseError::InvalidVerificationTypeTag),
        ClassFile::parse(&mut rd)
    );
}
