use crate::error::{ErrorKind, MapError};
use crate::file::{FileState, SeekFrom};
use crate::options::OpenOptions;
use vstd::prelude::*;

verus! {

/// A read moves the cursor by exactly the number of bytes it returns, never
/// returns more than lie between the cursor and the end of the region, and
/// returns none at the end. The cursor stays in `[0, size]` and the region
/// is as it was.
pub proof fn lemma_read_advances_cursor(s: FileState, want: nat)
    requires
        s.valid(),
    ensures
        s.after_read(want).cursor == s.cursor + s.read_count(want),
        s.read_count(want) <= s.size() - s.cursor,
        s.read_count(want) <= want,
        s.read_data(want).len() == s.read_count(want),
        s.cursor == s.size() ==> s.read_count(want) == 0,
        s.after_read(want).valid(),
        s.after_read(want).bytes == s.bytes,
{
}

/// A write in read-write mode is all or nothing: where the buffer fits
/// between the cursor and the end of the region it is written whole and the
/// cursor moves by its length, and where it does not, the write is refused
/// for want of space.
pub proof fn lemma_write_is_all_or_nothing(s: FileState, data: Seq<u8>)
    requires
        s.valid(),
        s.mode == OpenOptions::ReadWrite,
    ensures
        s.cursor + data.len() > s.size() <==> s.write_refusal(data.len()) == Some(
            MapError::NoSpaceLeft,
        ),
        s.cursor + data.len() <= s.size() <==> s.write_refusal(data.len()) is None,
        MapError::NoSpaceLeft.class() == ErrorKind::OutOfSpace,
        s.cursor + data.len() <= s.size() ==> {
            let t = s.after_write(data);
            &&& t.cursor == s.cursor + data.len()
            &&& t.size() == s.size()
            &&& t.valid()
            &&& t.mode == s.mode
            &&& t.bytes.subrange(s.cursor as int, t.cursor as int) == data
            &&& forall|i: int| 0 <= i < s.cursor ==> t.bytes[i] == s.bytes[i]
            &&& forall|i: int| t.cursor <= i < s.size() ==> t.bytes[i] == s.bytes[i]
        },
{
    if s.cursor + data.len() <= s.size() {
        let t = s.after_write(data);
        assert(t.bytes.subrange(s.cursor as int, t.cursor as int) =~= data);
    }
}

/// In read-only mode every write is refused as unsupported, whatever the
/// buffer and wherever the cursor stands.
pub proof fn lemma_read_only_refuses_every_write(s: FileState, len: nat)
    requires
        s.mode == OpenOptions::ReadOnly,
    ensures
        s.write_refusal(len) == Some(MapError::WriteNotEnabled),
        MapError::WriteNotEnabled.class() == ErrorKind::Unsupported,
{
}

/// A seek is accepted exactly for the offsets in `[0, size)`, and an
/// accepted seek puts the cursor at the offset and nowhere else; the region
/// is as it was. In particular the end of the region is no seek target.
pub proof fn lemma_seek_lands_on_the_offset(s: FileState, pos: SeekFrom)
    requires
        s.valid(),
    ensures
        s.seek_allowed(pos) ==> {
            &&& s.after_seek(pos).cursor == s.seek_offset(pos)
            &&& s.after_seek(pos).bytes == s.bytes
            &&& s.after_seek(pos).valid()
        },
        !s.seek_allowed(SeekFrom::Start(s.size() as u64)) || s.size() > u64::MAX,
        !s.seek_allowed(SeekFrom::End(0)),
        MapError::SeekBeyondLimits.class() == ErrorKind::Unsupported,
{
}

/// Seeking to a position inside the region and reading there gives the same
/// bytes, and as many, as reading from a second mapping that begins at that
/// position.
pub proof fn lemma_seek_then_read(s: FileState, pos: SeekFrom, want: nat)
    requires
        s.valid(),
        s.seek_allowed(pos),
    ensures
        s.after_seek(pos).read_count(want) == s.window(s.seek_offset(pos) as nat).read_count(want),
        s.after_seek(pos).read_data(want) == s.window(s.seek_offset(pos) as nat).read_data(want),
{
    let p = s.seek_offset(pos) as nat;
    let here = s.after_seek(pos);
    let there = s.window(p);
    assert(there.size() == s.size() - p);
    assert(here.read_count(want) == there.read_count(want));
    assert(here.read_data(want) =~= there.read_data(want));
}

/// What has been written is read back: after a write that was accepted,
/// seeking to where it began and reading as many bytes as were written gives
/// the buffer.
pub proof fn lemma_write_then_read_back(s: FileState, data: Seq<u8>)
    requires
        s.valid(),
        s.write_refusal(data.len()) is None,
        data.len() > 0,
        s.cursor <= u64::MAX,
    ensures
        s.after_write(data).seek_allowed(SeekFrom::Start(s.cursor as u64)),
        s.after_write(data).after_seek(SeekFrom::Start(s.cursor as u64)).read_data(data.len())
            == data,
{
    let back = s.after_write(data).after_seek(SeekFrom::Start(s.cursor as u64));
    assert(back.read_count(data.len()) == data.len());
    assert(back.read_data(data.len()) =~= data);
}

/// Reading byte by byte from the cursor on is reading what one read of the
/// rest of the region returns: the byte at the cursor comes first, and the
/// bytes after it are what a read one position further returns.
pub proof fn lemma_iteration_follows_the_region(s: FileState)
    requires
        s.valid(),
        s.cursor < s.size(),
    ensures
        s.read_data(s.remaining()) == seq![s.bytes[s.cursor as int]] + s.at(
            s.cursor + 1,
        ).read_data(s.at(s.cursor + 1).remaining()),
        s.at(s.cursor + 1).remaining() == s.remaining() - 1,
        s.at(s.cursor + 1).valid(),
{
    let t = s.at(s.cursor + 1);
    assert(s.read_data(s.remaining()) =~= seq![s.bytes[s.cursor as int]] + t.read_data(
        t.remaining(),
    ));
}

} // verus!
