//! Temporary files, held in memory by `rsqlite_vfs::MemChunksFile`.

use crate::error::{error_from_raw, unit_outcome, ErrorView, VfsError, VfsErrorCode};
use rsqlite_vfs::MemChunksFile;
use vstd::prelude::*;

verus! {

/// `rsqlite_vfs::MemChunksFile`: a file in memory, kept in chunks.
#[verifier::external_type_specification]
#[verifier::external_body]
pub struct ExMemChunksFile(MemChunksFile);

/// The bytes that a memory file holds.
pub uninterp spec fn memory_contents(file: MemChunksFile) -> Seq<u8>;

/// How many of `want` bytes at offset `at` a file of `size` bytes has.
pub open spec fn readable(size: nat, at: nat, want: nat) -> nat {
    if at >= size {
        0
    } else if size - at < want {
        (size - at) as nat
    } else {
        want
    }
}

/// `buf` with its first bytes replaced by `data`.
pub open spec fn filled(buf: Seq<u8>, data: Seq<u8>) -> Seq<u8>
    recommends
        data.len() <= buf.len(),
{
    data + buf.skip(data.len() as int)
}

/// A file of the bytes `contents` after `data` is written at offset `at`. A
/// write past the end leaves zeros between, and an empty one changes nothing.
pub open spec fn written(contents: Seq<u8>, at: nat, data: Seq<u8>) -> Seq<u8> {
    if data.len() == 0 {
        contents
    } else {
        Seq::new(
            if contents.len() < at + data.len() {
                at + data.len()
            } else {
                contents.len()
            },
            |i: int|
                if at <= i < at + data.len() {
                    data[i - at]
                } else if i < contents.len() {
                    contents[i]
                } else {
                    0u8
                },
        )
    }
}

/// Why a memory file refuses a nonempty write of `length` bytes at `at`: the
/// end of the write is out of the address space, or memory ran out.
pub open spec fn write_refusal(at: nat, length: nat) -> ErrorView {
    if at > usize::MAX {
        ErrorView { code: VfsErrorCode::Full, message: "file offset exceeds address space"@ }
    } else if at + length > usize::MAX {
        ErrorView { code: VfsErrorCode::Full, message: "file size exceeds address space"@ }
    } else {
        ErrorView {
            code: VfsErrorCode::NoMemory,
            message: "unable to allocate memory for file data"@,
        }
    }
}

/// Whether a write of `data` at `at` to a memory file of the bytes `before` can
/// end with `outcome` and leave the bytes `after`. A write that ends within the
/// bytes succeeds, and a refused one changes nothing.
pub open spec fn write_outcome(
    before: Seq<u8>,
    at: nat,
    data: Seq<u8>,
    outcome: Result<(), ErrorView>,
    after: Seq<u8>,
) -> bool {
    &&& at + data.len() <= before.len() ==> outcome is Ok
    &&& match outcome {
        Ok(_) => {
            &&& data.len() == 0 || at + data.len() <= usize::MAX
            &&& after == written(before, at, data)
        },
        Err(e) => {
            &&& data.len() > 0
            &&& e == write_refusal(at, data.len())
            &&& after == before
        },
    }
}

/// What truncating a memory file of `size` bytes to `length` answers.
pub open spec fn truncation(size: nat, length: nat) -> Result<(), ErrorView> {
    if length > size {
        Err(
            ErrorView {
                code: VfsErrorCode::IoTruncate,
                message: "cannot extend an in-memory file by truncating"@,
            },
        )
    } else {
        Ok(())
    }
}

/// `MemChunksFile::default` makes an empty file.
#[verifier::external_body]
pub(crate) fn memory_new() -> (file: MemChunksFile)
    ensures
        memory_contents(file) == Seq::<u8>::empty(),
{
    MemChunksFile::default()
}

/// `VfsFile::read` of `MemChunksFile` fills the front of the buffer with the
/// bytes from the offset on, as many as there are, and says how many those are.
/// It leaves the rest of the buffer and the file alone, and never fails.
#[verifier::external_body]
pub(crate) fn memory_read(file: &mut MemChunksFile, buf: &mut [u8], at: u64) -> (r: Result<
    usize,
    VfsError,
>)
    ensures
        memory_contents(*final(file)) == memory_contents(*old(file)),
        r is Ok,
        r->Ok_0 == readable(memory_contents(*old(file)).len(), at as nat, old(buf)@.len()),
        final(buf)@ == (if r->Ok_0 == 0 {
            old(buf)@
        } else {
            filled(old(buf)@, memory_contents(*old(file)).subrange(at as int, at + r->Ok_0))
        }),
{
    rsqlite_vfs::VfsFile::read(file, buf, at).map_err(|e| error_from_raw(e.raw_code(), e.message()))
}

/// `VfsFile::write` of `MemChunksFile` puts the bytes at the offset, with zeros
/// in a gap before them. It fails where the end of the write is out of the
/// address space or memory cannot be had, and then leaves the file as it was.
/// A write that ends within the bytes of the file needs no memory, and succeeds.
/// Whether memory can be had for any other is not stated.
#[verifier::external_body]
pub(crate) fn memory_write(file: &mut MemChunksFile, data: &[u8], at: u64) -> (r: Result<
    (),
    VfsError,
>)
    ensures
        write_outcome(
            memory_contents(*old(file)),
            at as nat,
            data@,
            unit_outcome(r),
            memory_contents(*final(file)),
        ),
{
    rsqlite_vfs::VfsFile::write(file, data, at).map_err(
        |e| error_from_raw(e.raw_code(), e.message()),
    )
}

/// Whether a memory file of the bytes `contents` answered `outcome` when it was
/// asked to write `data` at offset `at`.
pub closed spec fn write_answer(
    contents: Seq<u8>,
    data: &[u8],
    at: u64,
    outcome: Result<(), VfsError>,
) -> bool {
    exists|file: &mut MemChunksFile| #[trigger]
        call_ensures(memory_write, (file, data, at), outcome) && memory_contents(*file) == contents
}

/// Writes `data` at offset `at` of a memory file. The answer is the file's own.
pub(crate) fn memory_submit(file: &mut MemChunksFile, data: &[u8], at: u64) -> (r: Result<
    (),
    VfsError,
>)
    ensures
        write_answer(memory_contents(*old(file)), data, at, r),
        write_outcome(
            memory_contents(*old(file)),
            at as nat,
            data@,
            unit_outcome(r),
            memory_contents(*final(file)),
        ),
{
    memory_write(file, data, at)
}

/// `VfsFile::truncate` of `MemChunksFile` cuts the file to its first `size`
/// bytes, and refuses a size beyond the end.
#[verifier::external_body]
pub(crate) fn memory_truncate(file: &mut MemChunksFile, size: u64) -> (r: Result<(), VfsError>)
    ensures
        unit_outcome(r) == truncation(memory_contents(*old(file)).len(), size as nat),
        memory_contents(*final(file)) == (if r is Ok {
            memory_contents(*old(file)).take(size as int)
        } else {
            memory_contents(*old(file))
        }),
{
    rsqlite_vfs::VfsFile::truncate(file, size).map_err(
        |e| error_from_raw(e.raw_code(), e.message()),
    )
}

/// `VfsFile::size` of `MemChunksFile` is the number of its bytes, and never
/// fails.
#[verifier::external_body]
pub(crate) fn memory_size(file: &MemChunksFile) -> (r: Result<u64, VfsError>)
    ensures
        r is Ok,
        r->Ok_0 == memory_contents(*file).len(),
{
    rsqlite_vfs::VfsFile::size(file).map_err(|e| error_from_raw(e.raw_code(), e.message()))
}

/// A read gives no more than was asked for, nothing from beyond the end, and
/// less than was asked for only where the end is reached.
pub proof fn law_readable(size: nat, at: nat, want: nat)
    ensures
        readable(size, at, want) <= want,
        readable(size, at, want) > 0 ==> at + readable(size, at, want) <= size,
        readable(size, at, want) < want ==> at + readable(size, at, want) >= size,
{
}

/// Filling the front of a buffer puts each byte in its place and leaves the
/// rest of the buffer alone.
pub proof fn law_filled(buf: Seq<u8>, data: Seq<u8>, i: int)
    requires
        data.len() <= buf.len(),
        0 <= i < buf.len(),
    ensures
        filled(buf, data).len() == buf.len(),
        i < data.len() ==> filled(buf, data)[i] == data[i],
        i >= data.len() ==> filled(buf, data)[i] == buf[i],
{
}

/// A write extends a file just as far as the write reaches, and never shortens
/// it; each byte of it stands in its place. An empty write changes nothing.
pub proof fn law_written(contents: Seq<u8>, at: nat, data: Seq<u8>, i: int)
    ensures
        data.len() == 0 ==> written(contents, at, data) == contents,
        data.len() > 0 && at + data.len() > contents.len() ==> written(contents, at, data).len()
            == at + data.len(),
        at + data.len() <= contents.len() ==> written(contents, at, data).len() == contents.len(),
        0 <= i < data.len() ==> written(contents, at, data)[at + i] == data[i],
{
}

/// A memory file refuses a write as too large exactly where it ends out of the
/// address space, and any other for want of memory; it is never lengthened by a
/// truncation.
pub proof fn law_memory_refusals(at: nat, length: nat, size: nat)
    ensures
        write_refusal(at, length).code == VfsErrorCode::Full <==> at + length > usize::MAX,
        write_refusal(at, length).code == VfsErrorCode::Full || write_refusal(at, length).code
            == VfsErrorCode::NoMemory,
        truncation(size, length) is Ok <==> length <= size,
        truncation(size, length) matches Err(e) ==> e.code == VfsErrorCode::IoTruncate && e.message
            == "cannot extend an in-memory file by truncating"@,
{
}

} // verus!
