use vstd::prelude::*;

verus! {

/// How a file-system operation can fail. The variants mirror the error
/// kinds the operations report; anything an underlying layer reports
/// without a closer match becomes `Other`.
#[derive(Debug, PartialEq, Eq, Clone, Copy)]
pub enum FsError {
    NotFound,
    AlreadyExists,
    InvalidInput,
    NotSupported,
    Other,
}

/// Where a seek counts from.
#[derive(Debug, PartialEq, Eq, Clone, Copy)]
pub enum SeekFrom {
    Start(u64),
    End(i64),
    Current(i64),
}

/// An open file: a fully buffered byte content and a read cursor. Reading
/// walks the cursor; writing appends to the content; a seek may place the
/// cursor past the end, where every read yields nothing. Writing back to
/// the owning file system is an explicit step, `FileSystem::flush_file`.
pub struct File {
    pub data: Vec<u8>,
    pub pos: usize,
}

impl File {
    pub fn new(data: Vec<u8>) -> (r: File)
        ensures
            r.data == data,
            r.pos == 0,
    {
        File { data, pos: 0 }
    }

    /// How many bytes a read of `n` will actually deliver at the cursor.
    pub open spec fn sp_readable(&self, n: nat) -> nat {
        if self.pos >= self.data@.len() {
            0
        } else if n <= self.data@.len() - self.pos {
            n
        } else {
            (self.data@.len() - self.pos) as nat
        }
    }

    /// The bytes a read of `n` at the cursor delivers.
    pub open spec fn sp_read_result(&self, n: nat) -> Seq<u8> {
        if self.pos >= self.data@.len() {
            Seq::empty()
        } else {
            self.data@.subrange(self.pos as int, self.pos + self.sp_readable(n))
        }
    }

    /// Reads up to `n` bytes at the cursor: exactly the bytes between the
    /// cursor and the end, cut off at `n`, and moves the cursor past them.
    pub fn read(&mut self, n: usize) -> (r: Vec<u8>)
        ensures
            r@ == old(self).sp_read_result(n as nat),
            final(self).pos == old(self).pos + old(self).sp_readable(n as nat),
            final(self).data == old(self).data,
    {
        let take: usize = if self.pos >= self.data.len() {
            0
        } else if n <= self.data.len() - self.pos {
            n
        } else {
            self.data.len() - self.pos
        };
        let mut out: Vec<u8> = Vec::new();
        if take == 0 {
            self.pos = self.pos + 0;
            return out;
        }
        let mut i: usize = 0;
        while i < take
            invariant
                i <= take,
                0 < take,
                self.pos + take <= self.data@.len(),
                self.data@.len() <= usize::MAX,
                take == old(self).sp_readable(n as nat),
                self.data == old(self).data,
                self.pos == old(self).pos,
                out@ == self.data@.subrange(self.pos as int, self.pos + i),
            decreases take - i,
        {
            out.push(self.data[self.pos + i]);
            i = i + 1;
            proof {
                assert(out@ =~= self.data@.subrange(self.pos as int, self.pos + i));
            }
        }
        self.pos = self.pos + take;
        out
    }

    /// Reads everything from the cursor to the end.
    pub fn read_to_end(&mut self) -> (r: Vec<u8>)
        ensures
            r@ == old(self).sp_read_result(old(self).data@.len() as nat),
            final(self).pos == old(self).pos + old(self).sp_readable(old(self).data@.len() as nat),
            final(self).data == old(self).data,
    {
        let n = self.data.len();
        self.read(n)
    }

    /// Appends the whole buffer to the content, leaving the cursor alone.
    pub fn write(&mut self, buf: &Vec<u8>) -> (n: usize)
        requires
            old(self).data@.len() + buf@.len() <= usize::MAX,
        ensures
            final(self).data@ == old(self).data@ + buf@,
            final(self).pos == old(self).pos,
            n == buf@.len(),
    {
        let mut i: usize = 0;
        while i < buf.len()
            invariant
                i <= buf@.len(),
                old(self).data@.len() + buf@.len() <= usize::MAX,
                self.pos == old(self).pos,
                self.data@ == old(self).data@ + buf@.subrange(0, i as int),
            decreases buf@.len() - i,
        {
            self.data.push(buf[i]);
            i = i + 1;
            proof {
                assert(old(self).data@ + buf@.subrange(0, i - 1) + seq![buf@[i - 1]] =~= old(self).data@ + buf@.subrange(0, i as int));
            }
        }
        proof {
            assert(buf@.subrange(0, buf@.len() as int) =~= buf@);
        }
        buf.len()
    }

    /// Moves the cursor. A negative resulting position is rejected, as is
    /// one the machine cannot represent; a position past the end is allowed
    /// and reads as empty.
    pub fn seek(&mut self, pos: SeekFrom) -> (r: Result<u64, FsError>)
        requires
            old(self).pos <= i64::MAX,
            old(self).data@.len() <= i64::MAX,
        ensures
            final(self).data == old(self).data,
            match pos {
                SeekFrom::Start(p) => {
                    if p <= usize::MAX {
                        r == Ok::<u64, FsError>(p) && final(self).pos == p
                    } else {
                        r == Err::<u64, FsError>(FsError::InvalidInput) && final(self).pos == old(self).pos
                    }
                },
                SeekFrom::End(o) => {
                    if old(self).data@.len() + o < 0 || old(self).data@.len() + o > i64::MAX
                        || old(self).data@.len() + o > usize::MAX {
                        r == Err::<u64, FsError>(FsError::InvalidInput) && final(self).pos == old(self).pos
                    } else {
                        r == Ok::<u64, FsError>((old(self).data@.len() + o) as u64) && final(self).pos == old(self).data@.len() + o
                    }
                },
                SeekFrom::Current(o) => {
                    if old(self).pos + o < 0 || old(self).pos + o > i64::MAX || old(self).pos + o
                        > usize::MAX {
                        r == Err::<u64, FsError>(FsError::InvalidInput) && final(self).pos == old(self).pos
                    } else {
                        r == Ok::<u64, FsError>((old(self).pos + o) as u64) && final(self).pos
                            == old(self).pos + o
                    }
                },
            },
    {
        match pos {
            SeekFrom::Start(p) => {
                if p <= usize::MAX as u64 {
                    self.pos = p as usize;
                    Ok(p)
                } else {
                    Err(FsError::InvalidInput)
                }
            },
            SeekFrom::End(o) => {
                let base = self.data.len() as i64;
                match base.checked_add(o) {
                    Some(target) => {
                        if target < 0 {
                            Err(FsError::InvalidInput)
                        } else if (target as u64) <= usize::MAX as u64 {
                            self.pos = target as usize;
                            Ok(target as u64)
                        } else {
                            Err(FsError::InvalidInput)
                        }
                    },
                    None => Err(FsError::InvalidInput),
                }
            },
            SeekFrom::Current(o) => {
                let base = self.pos as i64;
                match base.checked_add(o) {
                    Some(target) => {
                        if target < 0 {
                            Err(FsError::InvalidInput)
                        } else if (target as u64) <= usize::MAX as u64 {
                            self.pos = target as usize;
                            Ok(target as u64)
                        } else {
                            Err(FsError::InvalidInput)
                        }
                    },
                    None => Err(FsError::InvalidInput),
                }
            },
        }
    }
}

} // verus!
