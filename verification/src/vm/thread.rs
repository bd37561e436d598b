use vstd::prelude::*;

use crate::vm::convert::{i2b_val, i2c_val, i2d_bits, i2f_bits, i2l_val, i2s_val, sp_i2b, sp_i2c,
    sp_i2d_bits, sp_i2f_bits, sp_i2l, sp_i2s};
use crate::vm::ops::Op;
use crate::vm::stack::{Frame, Stack};
use crate::vm::types::NativeValue;

verus! {

/// Whether the operand stack is in the shape the opcode demands: the popped
/// operands exist and carry the expected variants. For an opcode without a
/// handler yet, nothing is demanded, since nothing happens.
pub open spec fn sp_op_enabled(op: Op, st: Seq<NativeValue>) -> bool {
    match op {
        Op::AConstNull => true,
        Op::CheckCast(_) => st.len() >= 1 && st.last() == NativeValue::Reference(0),
        Op::Dup => st.len() >= 1,
        Op::I2B => st.len() >= 1 && st.last() matches NativeValue::Integer(_),
        Op::I2C => st.len() >= 1 && st.last() matches NativeValue::Integer(_),
        Op::I2D => st.len() >= 1 && st.last() matches NativeValue::Integer(_),
        Op::I2F => st.len() >= 1 && st.last() matches NativeValue::Integer(_),
        Op::I2L => st.len() >= 1 && st.last() matches NativeValue::Integer(_),
        Op::I2S => st.len() >= 1 && st.last() matches NativeValue::Integer(_),
        Op::IAdd => st.len() >= 2 && (st[st.len() - 1] matches NativeValue::Integer(_)) && (st[
            st.len() - 2
        ] matches NativeValue::Integer(_)),
        Op::IMul => st.len() >= 2 && (st[st.len() - 1] matches NativeValue::Integer(_)) && (st[
            st.len() - 2
        ] matches NativeValue::Integer(_)),
        _ => true,
    }
}

/// What one instruction does to the operand stack. Arithmetic wraps in
/// two's complement; conversions truncate or re-encode exactly; `dup`
/// repeats the top value with its exact variant; a null `checkcast` leaves
/// the stack alone; an opcode without a handler yet changes nothing.
pub open spec fn sp_eval_op(op: Op, st: Seq<NativeValue>) -> Seq<NativeValue> {
    match op {
        Op::AConstNull => st.push(NativeValue::Reference(0)),
        Op::CheckCast(_) => st,
        Op::Dup => st.push(st.last()),
        Op::I2B => match st.last() {
            NativeValue::Integer(v) => st.drop_last().push(NativeValue::Byte(sp_i2b(v))),
            _ => st,
        },
        Op::I2C => match st.last() {
            NativeValue::Integer(v) => st.drop_last().push(NativeValue::Char(sp_i2c(v))),
            _ => st,
        },
        Op::I2D => match st.last() {
            NativeValue::Integer(v) => st.drop_last().push(NativeValue::Double(sp_i2d_bits(v))),
            _ => st,
        },
        Op::I2F => match st.last() {
            NativeValue::Integer(v) => st.drop_last().push(NativeValue::Float(sp_i2f_bits(v))),
            _ => st,
        },
        Op::I2L => match st.last() {
            NativeValue::Integer(v) => st.drop_last().push(NativeValue::Long(sp_i2l(v))),
            _ => st,
        },
        Op::I2S => match st.last() {
            NativeValue::Integer(v) => st.drop_last().push(NativeValue::Short(sp_i2s(v))),
            _ => st,
        },
        Op::IAdd => match (st[st.len() - 2], st[st.len() - 1]) {
            (NativeValue::Integer(a), NativeValue::Integer(b)) => st.drop_last().drop_last().push(
                NativeValue::Integer(a.wrapping_add(b)),
            ),
            _ => st,
        },
        Op::IMul => match (st[st.len() - 2], st[st.len() - 1]) {
            (NativeValue::Integer(a), NativeValue::Integer(b)) => st.drop_last().drop_last().push(
                NativeValue::Integer(a.wrapping_mul(b)),
            ),
            _ => st,
        },
        _ => st,
    }
}

/// One virtual-machine thread: its program counter and its private call
/// stack. The interpreter mutates only the top frame's operand stack; every
/// frame below, and the frame's own locals and pool handle, stay untouched.
pub struct Thread {
    /// The pc register of this thread, wide enough for a native pointer.
    pub pc: usize,
    /// The private call stack of this thread; no other thread may touch it.
    pub stack: Stack,
}

impl Thread {
    pub fn new() -> (r: Self)
        ensures
            r.pc == 0,
            r.stack.frames@.len() == 0,
    {
        Thread { pc: 0, stack: Stack::allocate(10) }
    }

    /// Begins running the named method of the named class. Method lookup
    /// belongs to the linking layer, which does not exist yet, so nothing
    /// happens and the thread is left unchanged.
    pub fn run_method(&mut self, class_name: &'static str, method_name: &'static str)
        ensures
            *final(self) == *old(self),
    {
    }

    /// Executes one instruction against the current frame's operand stack.
    /// Every implemented opcode transforms the stack exactly as
    /// `sp_eval_op` says; an opcode whose handler does not exist yet leaves
    /// the whole thread unchanged.
    pub fn evaluate(&mut self, op: Op)
        requires
            old(self).stack.frames@.len() > 0,
            sp_op_enabled(op, old(self).stack.frames@.last().operand_stack.inner@),
        ensures
            final(self).pc == old(self).pc,
            final(self).stack.frames@.len() == old(self).stack.frames@.len(),
            forall|i: int|
                0 <= i < old(self).stack.frames@.len() - 1 ==> final(self).stack.frames@[i]
                    == old(self).stack.frames@[i],
            final(self).stack.frames@.last().locals == old(self).stack.frames@.last().locals,
            final(self).stack.frames@.last().constant_pool == old(self).stack.frames@.last().constant_pool,
            final(self).stack.frames@.last().operand_stack.inner@ == sp_eval_op(
                op,
                old(self).stack.frames@.last().operand_stack.inner@,
            ),
    {
        let mut frame = self.stack.pop_frame();
        match op {
            Op::AConstNull => {
                frame.operand_stack.push(NativeValue::Reference(0));
            },
            Op::CheckCast(_index) => {
                // The top of the stack is a null reference; casting null is
                // a no-op. Non-null casts wait on the class-hierarchy layer.
            },
            Op::Dup => {
                let d = *frame.operand_stack.last();
                frame.operand_stack.push(d);
            },
            Op::I2B => {
                let v = frame.operand_stack.pop_integer();
                frame.operand_stack.push(NativeValue::Byte(i2b_val(v)));
            },
            Op::I2C => {
                let v = frame.operand_stack.pop_integer();
                frame.operand_stack.push(NativeValue::Char(i2c_val(v)));
            },
            Op::I2D => {
                let v = frame.operand_stack.pop_integer();
                frame.operand_stack.push(NativeValue::Double(i2d_bits(v)));
            },
            Op::I2F => {
                let v = frame.operand_stack.pop_integer();
                frame.operand_stack.push(NativeValue::Float(i2f_bits(v)));
            },
            Op::I2L => {
                let v = frame.operand_stack.pop_integer();
                frame.operand_stack.push(NativeValue::Long(i2l_val(v)));
            },
            Op::I2S => {
                let v = frame.operand_stack.pop_integer();
                frame.operand_stack.push(NativeValue::Short(i2s_val(v)));
            },
            Op::IAdd => {
                let op2 = frame.operand_stack.pop_integer();
                let op1 = frame.operand_stack.pop_integer();
                frame.operand_stack.push(NativeValue::Integer(op1.wrapping_add(op2)));
            },
            Op::IMul => {
                let op2 = frame.operand_stack.pop_integer();
                let op1 = frame.operand_stack.pop_integer();
                frame.operand_stack.push(NativeValue::Integer(op1.wrapping_mul(op2)));
            },
            _ => {},
        }
        self.stack.push_frame(frame);
        proof {
            assert(final(self).stack.frames@ =~= old(self).stack.frames@.drop_last().push(
                final(self).stack.frames@.last(),
            ));
        }
    }
}

} // verus!
