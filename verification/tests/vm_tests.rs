use std::sync::Arc;

use libjvm::classfile::types::{ConstantPool, ConstantPoolInfo};
use libjvm::vm::convert::{i2b_val, i2c_val, i2d_bits, i2f_bits, i2l_val, i2s_val};
use libjvm::vm::ops::Op;
use libjvm::vm::stack::Frame;
use libjvm::vm::thread::Thread;
use libjvm::vm::types::NativeValue;

fn setup_thread_with(op_stack_size: usize, cp: ConstantPool) -> Thread {
    let mut t = Thread::new();
    let frame = Frame::allocate(0, op_stack_size, Arc::new(cp));
    t.stack.push_frame(frame);
    t
}

fn setup_thread(op_stack_size: usize) -> Thread {
    setup_thread_with(op_stack_size, ConstantPool::from(vec![]))
}

fn push(t: &mut Thread, v: NativeValue) {
    t.stack.frames.last_mut().unwrap().operand_stack.push(v);
}

fn pop(t: &mut Thread) -> NativeValue {
    t.stack.frames.last_mut().unwrap().operand_stack.pop()
}

#[test]
fn test_setup_thread() {
    let t = setup_thread(0);
    assert_eq!(0, t.pc);
    assert_eq!(0, t.stack.current_frame().locals.len());
    assert_eq!(0, t.stack.current_frame().constant_pool.len());
    assert_eq!(0, t.stack.current_frame().operand_stack.len());
}

#[test]
fn test_setup_thread_cp() {
    let t = setup_thread_with(
        0,
        ConstantPool::from(vec![ConstantPoolInfo::Utf8Info {
            length: 5,
            bytes: "hello".as_bytes().into(),
        }]),
    );
    assert_eq!(0, t.pc);
    assert_eq!(0, t.stack.current_frame().locals.len());
    assert_eq!(1, t.stack.current_frame().constant_pool.len());
    assert_eq!(
        &ConstantPoolInfo::Utf8Info { length: 5, bytes: "hello".as_bytes().into() },
        t.stack.current_frame().constant_pool.item(0)
    );
    assert_eq!(0, t.stack.current_frame().operand_stack.len());
}

#[test]
fn test_a_const_null() {
    let mut t = setup_thread(1);

    t.evaluate(Op::AConstNull);

    assert_eq!(NativeValue::Reference(0), pop(&mut t));
}

#[test]
fn test_check_cast_null_is_noop() {
    let mut t = setup_thread(1);

    push(&mut t, NativeValue::Reference(0));
    t.evaluate(Op::CheckCast(3));

    assert_eq!(1, t.stack.current_frame().operand_stack.len());
    assert_eq!(NativeValue::Reference(0), pop(&mut t));
}

#[test]
fn test_dup() {
    let mut t = setup_thread(2);

    push(&mut t, NativeValue::Integer(17));
    t.evaluate(Op::Dup);

    assert_eq!(NativeValue::Integer(17), pop(&mut t));
    assert_eq!(NativeValue::Integer(17), pop(&mut t));
}

#[test]
fn test_dup_keeps_each_variant() {
    for v in [
        NativeValue::Boolean(true),
        NativeValue::Byte(-3),
        NativeValue::Char(17),
        NativeValue::Short(-5),
        NativeValue::Integer(42),
        NativeValue::Float((1.5f32).to_bits()),
        NativeValue::Long(-7),
        NativeValue::Double((2.5f64).to_bits()),
        NativeValue::Reference(12),
        NativeValue::ReturnAddress(3),
    ] {
        let mut t = setup_thread(2);
        push(&mut t, v);
        t.evaluate(Op::Dup);
        assert_eq!(v, pop(&mut t));
        assert_eq!(v, pop(&mut t));
    }
}

#[test]
fn test_i2b() {
    let mut t = setup_thread(1);

    push(&mut t, NativeValue::Integer(17));
    t.evaluate(Op::I2B);

    assert_eq!(NativeValue::Byte(17), pop(&mut t));
}

#[test]
fn test_i2b_truncate() {
    let mut t = setup_thread(1);

    push(&mut t, NativeValue::Integer(250));
    t.evaluate(Op::I2B);

    assert_eq!(NativeValue::Byte(-6), pop(&mut t));
}

#[test]
fn test_i2c() {
    let mut t = setup_thread(1);

    push(&mut t, NativeValue::Integer(17));
    t.evaluate(Op::I2C);

    assert_eq!(NativeValue::Char(17), pop(&mut t));
}

#[test]
fn test_i2c_truncate() {
    let mut t = setup_thread(1);

    push(&mut t, NativeValue::Integer(70000));
    t.evaluate(Op::I2C);

    assert_eq!(NativeValue::Char(4464), pop(&mut t));
}

#[test]
fn test_i2d() {
    let mut t = setup_thread(1);

    push(&mut t, NativeValue::Integer(17));
    t.evaluate(Op::I2D);

    assert_eq!(NativeValue::Double((17.0f64).to_bits()), pop(&mut t));
}

#[test]
fn test_i2d_negative() {
    let mut t = setup_thread(1);

    push(&mut t, NativeValue::Integer(-17));
    t.evaluate(Op::I2D);

    assert_eq!(NativeValue::Double((-17.0f64).to_bits()), pop(&mut t));
}

#[test]
fn test_i2f() {
    let mut t = setup_thread(1);

    push(&mut t, NativeValue::Integer(17));
    t.evaluate(Op::I2F);

    assert_eq!(NativeValue::Float((17.0f32).to_bits()), pop(&mut t));
}

#[test]
fn test_i2f_negative() {
    let mut t = setup_thread(1);

    push(&mut t, NativeValue::Integer(-17));
    t.evaluate(Op::I2F);

    assert_eq!(NativeValue::Float((-17.0f32).to_bits()), pop(&mut t));
}

#[test]
fn test_i2l() {
    let mut t = setup_thread(1);

    push(&mut t, NativeValue::Integer(17));
    t.evaluate(Op::I2L);

    assert_eq!(NativeValue::Long(17), pop(&mut t));
}

#[test]
fn test_i2s() {
    let mut t = setup_thread(1);

    push(&mut t, NativeValue::Integer(17));
    t.evaluate(Op::I2S);

    assert_eq!(NativeValue::Short(17), pop(&mut t));
}

#[test]
fn test_i2s_truncate() {
    let mut t = setup_thread(1);

    push(&mut t, NativeValue::Integer(40000));
    t.evaluate(Op::I2S);

    assert_eq!(NativeValue::Short(-25536), pop(&mut t));
}

#[test]
fn test_iadd() {
    let mut t = setup_thread(2);

    push(&mut t, NativeValue::Integer(9));
    push(&mut t, NativeValue::Integer(18));
    t.evaluate(Op::IAdd);

    assert_eq!(1, t.stack.current_frame().operand_stack.len());
    assert_eq!(NativeValue::Integer(27), pop(&mut t));
}

#[test]
fn test_iadd_overflow() {
    let mut t = setup_thread(2);

    push(&mut t, NativeValue::Integer(2147483647));
    push(&mut t, NativeValue::Integer(1));
    t.evaluate(Op::IAdd);

    assert_eq!(1, t.stack.current_frame().operand_stack.len());
    assert_eq!(NativeValue::Integer(-2147483648), pop(&mut t));
}

#[test]
fn test_imul() {
    let mut t = setup_thread(2);

    push(&mut t, NativeValue::Integer(9));
    push(&mut t, NativeValue::Integer(18));
    t.evaluate(Op::IMul);

    assert_eq!(1, t.stack.current_frame().operand_stack.len());
    assert_eq!(NativeValue::Integer(162), pop(&mut t));
}

#[test]
fn test_imul_overflow() {
    let mut t = setup_thread(2);

    push(&mut t, NativeValue::Integer(1763));
    push(&mut t, NativeValue::Integer(2487369));
    t.evaluate(Op::IMul);

    assert_eq!(1, t.stack.current_frame().operand_stack.len());
    assert_eq!(NativeValue::Integer(90264251), pop(&mut t));
}

#[test]
fn test_conversion_values_match_native_floats() {
    assert_eq!(-6i8, i2b_val(250));
    assert_eq!(4464u16, i2c_val(70000));
    assert_eq!(-25536i16, i2s_val(40000));
    assert_eq!(17i64, i2l_val(17));
    for v in [
        0i32,
        1,
        -1,
        17,
        -17,
        250,
        70000,
        40000,
        16777215,
        16777216,
        16777217,
        16777219,
        33554433,
        -33554435,
        2147483647,
        -2147483648,
        1000000007,
    ] {
        assert_eq!((v as f64).to_bits(), i2d_bits(v), "i2d of {v}");
        assert_eq!((v as f32).to_bits(), i2f_bits(v), "i2f of {v}");
    }
}

#[test]
fn test_unimplemented_opcode_is_noop() {
    let mut t = setup_thread(2);

    push(&mut t, NativeValue::Integer(5));
    t.evaluate(Op::Nop);
    t.evaluate(Op::Pop);
    t.evaluate(Op::INeg);
    t.evaluate(Op::PutField(1));
    t.evaluate(Op::PutStatic(2));

    assert_eq!(1, t.stack.current_frame().operand_stack.len());
    assert_eq!(NativeValue::Integer(5), pop(&mut t));
}
