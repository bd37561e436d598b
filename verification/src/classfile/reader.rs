use vstd::prelude::*;

use crate::classfile::err::ClassFileParseError;

verus! {

/// A sequential cursor over a fully buffered byte stream. Every multi-byte
/// integer is read big-endian, as the class-file format prescribes.
pub struct Reader {
    pub data: Vec<u8>,
    pub pos: usize,
}

/// True when `n` more bytes can be taken at `pos`.
pub open spec fn can_read(s: Seq<u8>, pos: int, n: int) -> bool {
    0 <= pos && 0 <= n && pos + n <= s.len()
}

/// The byte at `pos`.
pub open spec fn sp_u8(s: Seq<u8>, pos: int) -> u8 {
    s[pos]
}

/// The big-endian 16-bit integer at `pos`.
pub open spec fn sp_u16(s: Seq<u8>, pos: int) -> u16 {
    ((s[pos] as int) * 256 + (s[pos + 1] as int)) as u16
}

/// The big-endian 32-bit integer at `pos`.
pub open spec fn sp_u32(s: Seq<u8>, pos: int) -> u32 {
    ((s[pos] as int) * 0x1000000 + (s[pos + 1] as int) * 0x10000
        + (s[pos + 2] as int) * 0x100 + (s[pos + 3] as int)) as u32
}

impl Reader {
    /// The cursor never passes the end of the data.
    pub open spec fn wf(&self) -> bool {
        self.pos <= self.data.len()
    }

    pub fn new(data: Vec<u8>) -> (r: Reader)
        ensures
            r.data == data,
            r.pos == 0,
            r.wf(),
    {
        Reader { data, pos: 0 }
    }

    pub fn read_u8(&mut self) -> (res: Result<u8, ClassFileParseError>)
        requires
            old(self).wf(),
        ensures
            final(self).wf(),
            final(self).data == old(self).data,
            match res {
                Ok(b) => {
                    &&& can_read(old(self).data@, old(self).pos as int, 1)
                    &&& b == sp_u8(old(self).data@, old(self).pos as int)
                    &&& final(self).pos == old(self).pos + 1
                },
                Err(e) => {
                    &&& !can_read(old(self).data@, old(self).pos as int, 1)
                    &&& e == ClassFileParseError::UnexpectedEOF
                    &&& final(self).pos == old(self).pos
                },
            },
    {
        if self.pos < self.data.len() {
            let b = self.data[self.pos];
            self.pos = self.pos + 1;
            Ok(b)
        } else {
            Err(ClassFileParseError::UnexpectedEOF)
        }
    }

    pub fn read_u16(&mut self) -> (res: Result<u16, ClassFileParseError>)
        requires
            old(self).wf(),
        ensures
            final(self).wf(),
            final(self).data == old(self).data,
            match res {
                Ok(b) => {
                    &&& can_read(old(self).data@, old(self).pos as int, 2)
                    &&& b == sp_u16(old(self).data@, old(self).pos as int)
                    &&& final(self).pos == old(self).pos + 2
                },
                Err(e) => {
                    &&& !can_read(old(self).data@, old(self).pos as int, 2)
                    &&& e == ClassFileParseError::UnexpectedEOF
                    &&& final(self).pos == old(self).pos
                },
            },
    {
        if self.data.len() - self.pos >= 2 {
            let b0 = self.data[self.pos];
            let b1 = self.data[self.pos + 1];
            self.pos = self.pos + 2;
            Ok((b0 as u16) * 256 + (b1 as u16))
        } else {
            Err(ClassFileParseError::UnexpectedEOF)
        }
    }

    pub fn read_u32(&mut self) -> (res: Result<u32, ClassFileParseError>)
        requires
            old(self).wf(),
        ensures
            final(self).wf(),
            final(self).data == old(self).data,
            match res {
                Ok(b) => {
                    &&& can_read(old(self).data@, old(self).pos as int, 4)
                    &&& b == sp_u32(old(self).data@, old(self).pos as int)
                    &&& final(self).pos == old(self).pos + 4
                },
                Err(e) => {
                    &&& !can_read(old(self).data@, old(self).pos as int, 4)
                    &&& e == ClassFileParseError::UnexpectedEOF
                    &&& final(self).pos == old(self).pos
                },
            },
    {
        if self.data.len() - self.pos >= 4 {
            let b0 = self.data[self.pos];
            let b1 = self.data[self.pos + 1];
            let b2 = self.data[self.pos + 2];
            let b3 = self.data[self.pos + 3];
            self.pos = self.pos + 4;
            Ok((b0 as u32) * 0x1000000 + (b1 as u32) * 0x10000 + (b2 as u32) * 0x100 + (b3 as u32))
        } else {
            Err(ClassFileParseError::UnexpectedEOF)
        }
    }

    /// Takes exactly `n` bytes, or fails without moving the cursor.
    pub fn read_bytes(&mut self, n: usize) -> (res: Result<Vec<u8>, ClassFileParseError>)
        requires
            old(self).wf(),
        ensures
            final(self).wf(),
            final(self).data == old(self).data,
            match res {
                Ok(v) => {
                    &&& can_read(old(self).data@, old(self).pos as int, n as int)
                    &&& v@ == old(self).data@.subrange(
                        old(self).pos as int,
                        old(self).pos + n,
                    )
                    &&& final(self).pos == old(self).pos + n
                },
                Err(e) => {
                    &&& !can_read(old(self).data@, old(self).pos as int, n as int)
                    &&& e == ClassFileParseError::UnexpectedEOF
                    &&& final(self).pos == old(self).pos
                },
            },
    {
        if n <= self.data.len() - self.pos {
            let mut v: Vec<u8> = Vec::new();
            let mut i: usize = 0;
            while i < n
                invariant
                    self.wf(),
                    self.data == old(self).data,
                    self.pos == old(self).pos,
                    i <= n,
                    n <= self.data.len() - self.pos,
                    v@ == self.data@.subrange(self.pos as int, self.pos + i),
                decreases n - i,
            {
                v.push(self.data[self.pos + i]);
                i = i + 1;
                proof {
                    assert(v@ =~= self.data@.subrange(self.pos as int, self.pos + i));
                }
            }
            self.pos = self.pos + n;
            Ok(v)
        } else {
            Err(ClassFileParseError::UnexpectedEOF)
        }
    }

    /// Moves the cursor `n` bytes forward, or fails without moving it.
    pub fn skip(&mut self, n: usize) -> (res: Result<(), ClassFileParseError>)
        requires
            old(self).wf(),
        ensures
            final(self).wf(),
            final(self).data == old(self).data,
            match res {
                Ok(()) => {
                    &&& can_read(old(self).data@, old(self).pos as int, n as int)
                    &&& final(self).pos == old(self).pos + n
                },
                Err(e) => {
                    &&& !can_read(old(self).data@, old(self).pos as int, n as int)
                    &&& e == ClassFileParseError::UnexpectedEOF
                    &&& final(self).pos == old(self).pos
                },
            },
    {
        if n <= self.data.len() - self.pos {
            self.pos = self.pos + n;
            Ok(())
        } else {
            Err(ClassFileParseError::UnexpectedEOF)
        }
    }
}

} // verus!
