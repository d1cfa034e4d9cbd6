use crate::error::MapError;
use crate::options::OpenOptions;
use vstd::prelude::*;

verus! {

/// A seek target: an absolute offset, or a signed offset from the cursor or
/// from the end of the region.
#[derive(Debug, Clone, Copy, PartialEq, Eq, Structural)]
pub enum SeekFrom {
    /// An offset from the start of the region.
    Start(u64),
    /// An offset from the current cursor.
    Current(i64),
    /// An offset from the end of the region.
    End(i64),
}

/// The mathematical state of a mapped file: what every contract of
/// [`MappedFile`] is stated over.
pub struct FileState {
    /// The bytes of the mapped region.
    pub bytes: Seq<u8>,
    /// The current read/write position.
    pub cursor: nat,
    /// The mode chosen when the file was opened.
    pub mode: OpenOptions,
    /// The descriptor of the backing file.
    pub fd: i32,
}

impl FileState {
    /// The fixed length of the region.
    pub open spec fn size(self) -> nat {
        self.bytes.len()
    }

    /// The region is not empty and the cursor lies in `[0, size]`.
    pub open spec fn valid(self) -> bool {
        0 < self.size() && self.cursor <= self.size()
    }

    /// The number of bytes between the cursor and the end of the region.
    pub open spec fn remaining(self) -> nat {
        (self.size() - self.cursor) as nat
    }

    /// The number of bytes a read into a buffer of length `want` copies.
    pub open spec fn read_count(self, want: nat) -> nat {
        if want <= self.remaining() {
            want
        } else {
            self.remaining()
        }
    }

    /// The bytes a read into a buffer of length `want` copies.
    pub open spec fn read_data(self, want: nat) -> Seq<u8> {
        self.bytes.subrange(self.cursor as int, (self.cursor + self.read_count(want)) as int)
    }

    /// The state with the cursor moved to `cursor`.
    pub open spec fn at(self, cursor: nat) -> FileState {
        FileState { cursor, ..self }
    }

    /// The state after a read into a buffer of length `want`.
    pub open spec fn after_read(self, want: nat) -> FileState {
        self.at(self.cursor + self.read_count(want))
    }

    /// Why a write of `len` bytes is refused, if it is: the mode is looked at
    /// first, the room that is left second.
    pub open spec fn write_refusal(self, len: nat) -> Option<MapError> {
        if self.mode != OpenOptions::ReadWrite {
            Some(MapError::WriteNotEnabled)
        } else if self.cursor + len > self.size() {
            Some(MapError::NoSpaceLeft)
        } else {
            None
        }
    }

    /// The state after `data` has been written at the cursor.
    pub open spec fn after_write(self, data: Seq<u8>) -> FileState
        recommends
            self.cursor + data.len() <= self.size(),
    {
        FileState {
            bytes: self.bytes.subrange(0, self.cursor as int) + data + self.bytes.subrange(
                (self.cursor + data.len()) as int,
                self.size() as int,
            ),
            cursor: self.cursor + data.len(),
            ..self
        }
    }

    /// The absolute offset that a seek target denotes.
    pub open spec fn seek_offset(self, pos: SeekFrom) -> int {
        match pos {
            SeekFrom::Start(n) => n as int,
            SeekFrom::Current(d) => self.cursor + d,
            SeekFrom::End(d) => self.size() + d,
        }
    }

    /// A seek is accepted when its offset lies in `[0, size)`.
    pub open spec fn seek_allowed(self, pos: SeekFrom) -> bool {
        0 <= self.seek_offset(pos) < self.size()
    }

    /// The state after `pos` has been sought, where the seek is accepted.
    pub open spec fn after_seek(self, pos: SeekFrom) -> FileState
        recommends
            self.seek_allowed(pos),
    {
        self.at(self.seek_offset(pos) as nat)
    }

    /// The state a second, independent mapping would be in that covers this
    /// region from byte `offset` on and has not been read yet.
    pub open spec fn window(self, offset: nat) -> FileState
        recommends
            offset <= self.size(),
    {
        FileState { bytes: self.bytes.skip(offset as int), cursor: 0, ..self }
    }
}

/// A memory mapped file: a descriptor, the mapped region and a cursor into it.
///
/// The region is borrowed for the whole life of the value and has a fixed,
/// non-zero length; the cursor never leaves `[0, size]`.
#[derive(Debug)]
pub struct MappedFile<'f> {
    fd: i32,
    mem: &'f mut [u8],
    cursor: usize,
    mode: OpenOptions,
}

impl<'f> View for MappedFile<'f> {
    type V = FileState;

    closed spec fn view(&self) -> FileState {
        FileState { bytes: self.mem@, cursor: self.cursor as nat, mode: self.mode, fd: self.fd }
    }
}

impl<'f> MappedFile<'f> {
    #[verifier::type_invariant]
    pub closed spec fn well_formed(&self) -> bool {
        self@.valid()
    }

    /// The length to map a file of `file_len` bytes with: the whole file. A
    /// mapping has a length above zero, so an empty file is refused.
    pub fn mapping_length(file_len: usize) -> (r: Result<usize, MapError>)
        ensures
            r == if file_len == 0 {
                Err::<usize, MapError>(MapError::EmptyFile)
            } else {
                Ok::<usize, MapError>(file_len)
            },
    {
        if file_len == 0 {
            Err(MapError::EmptyFile)
        } else {
            Ok(file_len)
        }
    }

    /// Takes over an open descriptor and the region mapped from it. An empty
    /// region is refused; otherwise the cursor starts at 0 and the size is
    /// the length of the region.
    pub fn new(fd: i32, mem: &'f mut [u8], mode: OpenOptions) -> (r: Result<Self, MapError>)
        ensures
            old(mem)@.len() == 0 <==> r is Err,
            r matches Err(e) ==> e == MapError::EmptyFile,
            r matches Ok(file) ==> file@ == (FileState { bytes: old(mem)@, cursor: 0, mode, fd })
                && file@.valid(),
            r is Err ==> final(mem)@ == old(mem)@,
    {
        if mem.len() == 0 {
            Err(MapError::EmptyFile)
        } else {
            Ok(MappedFile { fd, mem, cursor: 0, mode })
        }
    }

    /// Copies bytes from the cursor on into `buf`, as many as `buf` takes and
    /// the region still has, and moves the cursor past them. The rest of
    /// `buf` keeps what it held. At the end of the region the count is zero;
    /// a read never fails.
    pub fn read(&mut self, buf: &mut [u8]) -> (r: Result<usize, MapError>)
        ensures
            r == Ok::<usize, MapError>(old(self)@.read_count(old(buf)@.len()) as usize),
            final(self)@ == old(self)@.after_read(old(buf)@.len()),
            final(self)@.valid(),
            final(buf)@ == old(self)@.read_data(old(buf)@.len()) + old(buf)@.skip(
                old(self)@.read_count(old(buf)@.len()) as int,
            ),
            r matches Ok(n) && final(self)@.cursor == old(self)@.cursor + n && n <= old(self)@.size()
                - old(self)@.cursor && n <= old(buf)@.len(),
            old(self)@.cursor == old(self)@.size() ==> r == Ok::<usize, MapError>(0),
    {
        proof {
            use_type_invariant(&*self);
        }
        let start: usize = self.cursor;
        let left: usize = self.mem.len() - start;
        let count: usize = if buf.len() <= left {
            buf.len()
        } else {
            left
        };
        let mut i: usize = 0;
        while i < count
            invariant
                i <= count,
                start + count <= self.mem@.len() <= usize::MAX,
                count <= buf@.len(),
                buf@.len() == old(buf)@.len(),
                self.mem@ == old(self).mem@,
                self.cursor == start,
                self.mode == old(self).mode,
                self.fd == old(self).fd,
                buf@ == self.mem@.subrange(start as int, start + i) + old(buf)@.skip(i as int),
            decreases count - i,
        {
            buf[i] = self.mem[start + i];
            i += 1;
        }
        self.cursor = start + count;
        Ok(count)
    }

    /// Appends every byte from the cursor to the end of the region to `buf`
    /// and leaves the cursor at the end. Returns how many bytes that were.
    pub fn read_to_end(&mut self, buf: &mut Vec<u8>) -> (r: Result<usize, MapError>)
        ensures
            r == Ok::<usize, MapError>(old(self)@.remaining() as usize),
            final(self)@ == old(self)@.at(old(self)@.size()),
            final(self)@.valid(),
            final(buf)@ == old(buf)@ + old(self)@.bytes.skip(old(self)@.cursor as int),
    {
        proof {
            use_type_invariant(&*self);
        }
        let start: usize = self.cursor;
        let end: usize = self.mem.len();
        let mut i: usize = start;
        while i < end
            invariant
                start <= i <= end,
                end == self.mem@.len(),
                self.mem@ == old(self).mem@,
                self.cursor == start,
                self.mode == old(self).mode,
                self.fd == old(self).fd,
                buf@ == old(buf)@ + self.mem@.subrange(start as int, i as int),
            decreases end - i,
        {
            buf.push(self.mem[i]);
            i += 1;
        }
        self.cursor = end;
        Ok(end - start)
    }

    /// Copies all of `buf` into the region at the cursor and moves the
    /// cursor past it, or changes nothing: a file opened read-only refuses
    /// every write, and the region never grows, so a buffer that does not
    /// fit between the cursor and the end is refused whole.
    pub fn write(&mut self, buf: &[u8]) -> (r: Result<usize, MapError>)
        ensures
            final(self)@.valid(),
            final(self)@.size() == old(self)@.size(),
            match old(self)@.write_refusal(buf@.len()) {
                Some(e) => r == Err::<usize, MapError>(e) && final(self)@ == old(self)@,
                None => r == Ok::<usize, MapError>(buf@.len() as usize) && final(self)@ == old(
                    self,
                )@.after_write(buf@),
            },
    {
        proof {
            use_type_invariant(&*self);
        }
        if self.mode != OpenOptions::ReadWrite {
            return Err(MapError::WriteNotEnabled);
        }
        let start: usize = self.cursor;
        let count: usize = buf.len();
        if count > self.mem.len() - start {
            return Err(MapError::NoSpaceLeft);
        }
        let mut i: usize = 0;
        while i < count
            invariant
                i <= count,
                count == buf@.len(),
                start + count <= self.mem@.len() <= usize::MAX,
                self.mem@.len() == old(self).mem@.len(),
                self.cursor == start,
                self.mode == old(self).mode,
                self.fd == old(self).fd,
                self.mem@ == old(self).mem@.subrange(0, start as int) + buf@.subrange(0, i as int)
                    + old(self).mem@.subrange(start + i, old(self).mem@.len() as int),
            decreases count - i,
        {
            self.mem[start + i] = buf[i];
            i += 1;
        }
        self.cursor = start + count;
        assert(buf@.subrange(0, count as int) == buf@);
        Ok(count)
    }

    /// Moves the cursor to the offset that `pos` denotes and returns it, if
    /// that offset lies in `[0, size)`. Any other offset, the end of the
    /// region included, is refused and the cursor stays.
    pub fn seek(&mut self, pos: SeekFrom) -> (r: Result<u64, MapError>)
        ensures
            final(self)@.valid(),
            old(self)@.seek_allowed(pos) ==> r == Ok::<u64, MapError>(
                old(self)@.seek_offset(pos) as u64,
            ) && final(self)@ == old(self)@.after_seek(pos),
            !old(self)@.seek_allowed(pos) ==> r == Err::<u64, MapError>(MapError::SeekBeyondLimits)
                && final(self)@ == old(self)@,
    {
        proof {
            use_type_invariant(&*self);
        }
        let size: i128 = self.mem.len() as i128;
        let target: i128 = match pos {
            SeekFrom::Start(n) => n as i128,
            SeekFrom::Current(d) => self.cursor as i128 + d as i128,
            SeekFrom::End(d) => size + d as i128,
        };
        if 0 <= target && target < size {
            self.cursor = target as usize;
            Ok(target as u64)
        } else {
            Err(MapError::SeekBeyondLimits)
        }
    }

    /// Returns the next byte and steps over it; `None` at the end of the
    /// region, where nothing changes.
    pub fn next(&mut self) -> (r: Option<u8>)
        ensures
            final(self)@.valid(),
            old(self)@.cursor < old(self)@.size() ==> r == Some(
                old(self)@.bytes[old(self)@.cursor as int],
            ) && final(self)@ == old(self)@.at(old(self)@.cursor + 1),
            old(self)@.cursor >= old(self)@.size() ==> r.is_none() && final(self)@ == old(self)@,
    {
        proof {
            use_type_invariant(&*self);
        }
        if self.cursor < self.mem.len() {
            let b: u8 = self.mem[self.cursor];
            self.cursor = self.cursor + 1;
            Some(b)
        } else {
            None
        }
    }
}

impl<'f> MappedFile<'f> {
    /// The fixed length of the mapped region.
    pub fn size(&self) -> (r: usize)
        ensures
            r == self@.size(),
            r > 0,
    {
        proof {
            use_type_invariant(self);
        }
        self.mem.len()
    }

    /// The current read/write position.
    pub fn position(&self) -> (r: usize)
        ensures
            r == self@.cursor,
            r <= self@.size(),
    {
        proof {
            use_type_invariant(self);
        }
        self.cursor
    }

    /// The mode the file was opened with.
    pub fn mode(&self) -> (r: OpenOptions)
        ensures
            r == self@.mode,
    {
        self.mode
    }

    /// The descriptor of the backing file.
    pub fn fd(&self) -> (r: i32)
        ensures
            r == self@.fd,
    {
        self.fd
    }
}

} // verus!
