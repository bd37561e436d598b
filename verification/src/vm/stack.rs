use vstd::prelude::*;

use std::sync::Arc;

use crate::classfile::types::ConstantPool;
use crate::vm::types::NativeValue;

verus! {

/// The strictly typed, last-in-first-out scratch stack one frame evaluates
/// its instructions against. The typed pop helpers demand the expected
/// variant on top: handing them anything else is an internal-consistency
/// fault of the caller, not a recoverable condition.
pub struct OperandStack {
    pub inner: Vec<NativeValue>,
}

impl OperandStack {
    /// An empty stack; the capacity is a sizing hint, not a bound.
    pub fn new(capacity: usize) -> (r: Self)
        ensures
            r.inner@ =~= Seq::<NativeValue>::empty(),
    {
        OperandStack { inner: Vec::with_capacity(capacity) }
    }

    pub fn is_empty(&self) -> (r: bool)
        ensures
            r == (self.inner@.len() == 0),
    {
        self.inner.len() == 0
    }

    pub fn len(&self) -> (r: usize)
        ensures
            r == self.inner@.len(),
    {
        self.inner.len()
    }

    pub fn push(&mut self, value: NativeValue)
        ensures
            final(self).inner@ == old(self).inner@.push(value),
    {
        self.inner.push(value);
    }

    pub fn last(&self) -> (r: &NativeValue)
        requires
            self.inner@.len() > 0,
        ensures
            *r == self.inner@.last(),
    {
        &self.inner[self.inner.len() - 1]
    }

    pub fn pop(&mut self) -> (r: NativeValue)
        requires
            old(self).inner@.len() > 0,
        ensures
            r == old(self).inner@.last(),
            final(self).inner@ == old(self).inner@.drop_last(),
    {
        let r = self.inner.pop().unwrap();
        r
    }

    pub fn pop_boolean(&mut self) -> (r: bool)
        requires
            old(self).inner@.len() > 0,
            old(self).inner@.last() matches NativeValue::Boolean(_),
        ensures
            old(self).inner@.last() == NativeValue::Boolean(r),
            final(self).inner@ == old(self).inner@.drop_last(),
    {
        match self.pop() {
            NativeValue::Boolean(v) => v,
            _ => unreached(),
        }
    }

    pub fn pop_byte(&mut self) -> (r: i8)
        requires
            old(self).inner@.len() > 0,
            old(self).inner@.last() matches NativeValue::Byte(_),
        ensures
            old(self).inner@.last() == NativeValue::Byte(r),
            final(self).inner@ == old(self).inner@.drop_last(),
    {
        match self.pop() {
            NativeValue::Byte(v) => v,
            _ => unreached(),
        }
    }

    pub fn pop_char(&mut self) -> (r: u16)
        requires
            old(self).inner@.len() > 0,
            old(self).inner@.last() matches NativeValue::Char(_),
        ensures
            old(self).inner@.last() == NativeValue::Char(r),
            final(self).inner@ == old(self).inner@.drop_last(),
    {
        match self.pop() {
            NativeValue::Char(v) => v,
            _ => unreached(),
        }
    }

    pub fn pop_short(&mut self) -> (r: i16)
        requires
            old(self).inner@.len() > 0,
            old(self).inner@.last() matches NativeValue::Short(_),
        ensures
            old(self).inner@.last() == NativeValue::Short(r),
            final(self).inner@ == old(self).inner@.drop_last(),
    {
        match self.pop() {
            NativeValue::Short(v) => v,
            _ => unreached(),
        }
    }

    pub fn pop_integer(&mut self) -> (r: i32)
        requires
            old(self).inner@.len() > 0,
            old(self).inner@.last() matches NativeValue::Integer(_),
        ensures
            old(self).inner@.last() == NativeValue::Integer(r),
            final(self).inner@ == old(self).inner@.drop_last(),
    {
        match self.pop() {
            NativeValue::Integer(v) => v,
            _ => unreached(),
        }
    }

    pub fn pop_long(&mut self) -> (r: i64)
        requires
            old(self).inner@.len() > 0,
            old(self).inner@.last() matches NativeValue::Long(_),
        ensures
            old(self).inner@.last() == NativeValue::Long(r),
            final(self).inner@ == old(self).inner@.drop_last(),
    {
        match self.pop() {
            NativeValue::Long(v) => v,
            _ => unreached(),
        }
    }

    pub fn pop_reference(&mut self) -> (r: usize)
        requires
            old(self).inner@.len() > 0,
            old(self).inner@.last() matches NativeValue::Reference(_),
        ensures
            old(self).inner@.last() == NativeValue::Reference(r),
            final(self).inner@ == old(self).inner@.drop_last(),
    {
        match self.pop() {
            NativeValue::Reference(v) => v,
            _ => unreached(),
        }
    }

    pub fn pop_return_address(&mut self) -> (r: usize)
        requires
            old(self).inner@.len() > 0,
            old(self).inner@.last() matches NativeValue::ReturnAddress(_),
        ensures
            old(self).inner@.last() == NativeValue::ReturnAddress(r),
            final(self).inner@ == old(self).inner@.drop_last(),
    {
        match self.pop() {
            NativeValue::ReturnAddress(v) => v,
            _ => unreached(),
        }
    }
}

/// One method invocation's execution context: its local-variable slots, its
/// private operand stack, and a shared read-only handle to the defining
/// class's constant pool.
pub struct Frame {
    pub locals: Vec<NativeValue>,
    pub operand_stack: OperandStack,
    pub constant_pool: Arc<ConstantPool>,
}

impl Frame {
    /// A fresh frame sized from the method's declared limits; the sizes are
    /// capacity hints, and both areas start empty.
    pub fn allocate(
        num_locals: usize,
        operand_stack_size: usize,
        constant_pool: Arc<ConstantPool>,
    ) -> (r: Frame)
        ensures
            r.locals@ =~= Seq::<NativeValue>::empty(),
            r.operand_stack.inner@ =~= Seq::<NativeValue>::empty(),
            r.constant_pool == constant_pool,
    {
        Frame {
            locals: Vec::with_capacity(num_locals),
            operand_stack: OperandStack::new(operand_stack_size),
            constant_pool,
        }
    }
}

/// One thread's private call stack: a last-in-first-out sequence of frames
/// whose top is always the current frame.
pub struct Stack {
    pub frames: Vec<Frame>,
}

impl Stack {
    /// An empty call stack; the capacity is a sizing hint, not a bound.
    pub fn allocate(stack_capacity: usize) -> (r: Self)
        ensures
            r.frames@.len() == 0,
    {
        Stack { frames: Vec::with_capacity(stack_capacity) }
    }

    pub fn push_frame(&mut self, frame: Frame)
        ensures
            final(self).frames@ == old(self).frames@.push(frame),
    {
        self.frames.push(frame);
    }

    pub fn pop_frame(&mut self) -> (r: Frame)
        requires
            old(self).frames@.len() > 0,
        ensures
            r == old(self).frames@.last(),
            final(self).frames@ == old(self).frames@.drop_last(),
    {
        self.frames.pop().unwrap()
    }

    /// A read-only view of the current frame, the top of the stack.
    pub fn current_frame(&self) -> (r: &Frame)
        requires
            self.frames@.len() > 0,
        ensures
            *r == self.frames@.last(),
    {
        &self.frames[self.frames.len() - 1]
    }
}

} // verus!
