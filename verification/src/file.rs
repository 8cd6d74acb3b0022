//! One open file: its reads and writes, its locks, and its way to publication.
//!
//! A temporary file has no name and lives in memory. Any other file stands in
//! OPFS, and its bytes are reached through JavaScript: its operations answer
//! with the call to make there, and take what came back.

use crate::error::{error, unit_outcome, value_outcome, ErrorView, VfsError, VfsErrorCode};
use crate::memory::{
    filled, memory_contents, memory_new, memory_read, memory_size, memory_submit, memory_truncate,
    readable, truncation, write_answer, write_refusal, written,
};
use crate::options::{stronger, weaker, FileKind, LockLevel, OpenAccess, OpenOptions};
use crate::script::{offset, safe_offset, MAX_SAFE_INTEGER};
use rsqlite_vfs::MemChunksFile;
use vstd::prelude::*;

verus! {

/// An open file.
pub struct File {
    name: Option<String>,
    memory: Option<MemChunksFile>,
    read_only: bool,
    lock: LockLevel,
    failed: bool,
    is_database: bool,
}

/// What is known of an open file.
pub struct FileView {
    /// The name it was opened by, unless it is temporary.
    pub name: Option<Seq<char>>,
    /// The bytes of a temporary file.
    pub memory: Option<Seq<u8>>,
    pub read_only: bool,
    pub lock: LockLevel,
    /// Whether a write or a publication failed, so that what stands in OPFS is
    /// uncertain.
    pub failed: bool,
    /// Whether it was opened as a main database.
    pub is_database: bool,
}

impl FileView {
    /// A file is held in memory exactly if it has no name.
    pub open spec fn valid(self) -> bool {
        self.name is None <==> self.memory is Some
    }
}

/// A text that may be absent.
pub open spec fn optional_text(text: Option<String>) -> Option<Seq<char>> {
    match text {
        Some(text) => Some(text@),
        None => None,
    }
}

impl View for File {
    type V = FileView;

    closed spec fn view(&self) -> FileView {
        FileView {
            name: optional_text(self.name),
            memory: match self.memory {
                Some(memory) => Some(memory_contents(memory)),
                None => None,
            },
            read_only: self.read_only,
            lock: self.lock,
            failed: self.failed,
            is_database: self.is_database,
        }
    }
}

/// A file that has just been opened.
pub open spec fn fresh_file(name: Option<Seq<char>>, options: OpenOptions) -> FileView {
    FileView {
        name,
        memory: if name is None {
            Some(Seq::empty())
        } else {
            None
        },
        read_only: options.access == OpenAccess::ReadOnly,
        lock: LockLevel::Unlocked,
        failed: false,
        is_database: options.main_db(),
    }
}

/// What a read needs.
#[derive(Debug)]
pub enum ReadStep {
    /// Nothing more: so many bytes were read.
    Done(usize),
    /// The bytes at `at`, `length` of them at most.
    Fetch { at: u64, length: usize },
}

/// What a write needs.
#[derive(Debug)]
pub enum WriteStep {
    /// Nothing more.
    Done,
    /// The bytes are to be written at `at`.
    Submit { at: u64 },
}

/// What a truncation needs.
#[derive(Debug)]
pub enum TruncateStep {
    /// Nothing more.
    Done,
    /// The file is to be cut to `size` bytes.
    Submit { size: u64 },
}

/// What a synchronisation needs.
#[derive(Debug)]
pub enum SyncStep {
    /// Nothing more.
    Done,
    /// What was written is to be published.
    Submit,
}

/// What a publication at the end of a file's life needs.
#[derive(Debug)]
pub enum PublishStep {
    /// Nothing more.
    Done,
    /// The handle is to be closed, which publishes what was written.
    Close,
    /// The handle is to be closed, and however that ends, the publication fails
    /// with this error.
    Abandon(VfsError),
}

/// What a query for the size needs.
#[derive(Debug)]
pub enum SizeStep {
    /// Nothing more: this is the size.
    Done(u64),
    /// The size is to be asked for.
    Query,
}

/// What a read of `length` bytes at `at` answers.
pub open spec fn read_step(file: FileView, length: nat, at: nat) -> Result<ReadStep, ErrorView> {
    match file.memory {
        Some(contents) => Ok(ReadStep::Done(readable(contents.len(), at, length) as usize)),
        None => match safe_offset(at, length, VfsErrorCode::IoRead) {
            Err(e) => Err(e),
            Ok(at) => if length == 0 {
                Ok(ReadStep::Done(0))
            } else {
                Ok(ReadStep::Fetch { at, length: length as usize })
            },
        },
    }
}

/// Whether a file takes writes, or why not.
pub open spec fn writable(file: FileView) -> Result<(), ErrorView> {
    if file.read_only {
        Err(ErrorView { code: VfsErrorCode::ReadOnly, message: "file is read-only"@ })
    } else if file.failed {
        Err(
            ErrorView {
                code: VfsErrorCode::IoWrite,
                message: "file has an uncertain write; close and reopen"@,
            },
        )
    } else {
        Ok(())
    }
}

/// What a write of `length` bytes at `at` to a file in OPFS answers.
pub open spec fn stored_write_step(length: nat, at: nat) -> Result<WriteStep, ErrorView> {
    match safe_offset(at, length, VfsErrorCode::IoWrite) {
        Err(e) => Err(e),
        Ok(at) => if length == 0 {
            Ok(WriteStep::Done)
        } else {
            Ok(WriteStep::Submit { at })
        },
    }
}

/// What cutting a file to `size` bytes answers.
pub open spec fn truncate_step(file: FileView, size: nat) -> Result<TruncateStep, ErrorView> {
    match writable(file) {
        Err(e) => Err(e),
        Ok(_) => match file.memory {
            Some(contents) => match truncation(contents.len(), size) {
                Err(e) => Err(e),
                Ok(_) => Ok(TruncateStep::Done),
            },
            None => match safe_offset(size, 0, VfsErrorCode::IoTruncate) {
                Err(e) => Err(e),
                Ok(size) => Ok(TruncateStep::Submit { size }),
            },
        },
    }
}

/// What a synchronisation answers.
pub open spec fn sync_step(file: FileView) -> Result<SyncStep, ErrorView> {
    if file.memory is Some || file.read_only {
        Ok(SyncStep::Done)
    } else if file.failed {
        Err(ErrorView { code: VfsErrorCode::IoSync, message: "previous write failed"@ })
    } else {
        Ok(SyncStep::Submit)
    }
}

/// What publishing a file for the last time answers: whether its handle is to
/// be closed, or the error that it fails with.
pub open spec fn publication(file: FileView, code: VfsErrorCode) -> Result<bool, ErrorView> {
    if file.memory is Some {
        Ok(false)
    } else if file.failed {
        Err(ErrorView { code, message: "previous write or publication failed"@ })
    } else {
        Ok(true)
    }
}

/// How publishing a file for the last time ends, where closing its handle, if
/// that was due, had the outcome `reply`.
pub open spec fn publication_outcome(
    file: FileView,
    reply: Result<(), ErrorView>,
    code: VfsErrorCode,
) -> Result<(), ErrorView> {
    match publication(file, code) {
        Ok(false) => Ok(()),
        Ok(true) => reply,
        Err(e) => Err(e),
    }
}

/// What a read with room for `room` bytes makes of `count` bytes fetched.
pub open spec fn delivery(room: nat, count: nat) -> Result<usize, ErrorView> {
    if count > room {
        Err(ErrorView { code: VfsErrorCode::IoRead, message: "invalid OPFS read length"@ })
    } else {
        Ok(count as usize)
    }
}

/// A file after an operation in OPFS that succeeded or not.
pub open spec fn finished(file: FileView, success: bool) -> FileView {
    FileView { failed: file.failed || !success, ..file }
}

/// The size that JavaScript answered with, where it is one: an integer from 0
/// to [`MAX_SAFE_INTEGER`].
pub open spec fn stored_size(number: Option<i128>) -> Result<u64, ErrorView> {
    match number {
        Some(number) if 0 <= number <= MAX_SAFE_INTEGER => Ok(number as u64),
        _ => Err(ErrorView { code: VfsErrorCode::IoStat, message: "invalid OPFS file size"@ }),
    }
}

impl File {
    /// A file just opened by `name`, or a temporary one.
    pub fn new(name: Option<String>, options: OpenOptions) -> (file: File)
        ensures
            file@ == fresh_file(optional_text(name), options),
            file@.valid(),
    {
        let memory = match &name {
            Some(_) => None,
            None => Some(memory_new()),
        };
        let read_only = match options.access {
            OpenAccess::ReadOnly => true,
            OpenAccess::ReadWrite => false,
        };
        File {
            name,
            memory,
            read_only,
            lock: LockLevel::Unlocked,
            failed: false,
            is_database: options.main_db(),
        }
    }

    /// The name the file was opened by, unless it is temporary.
    pub fn name(&self) -> (name: Option<&str>)
        ensures
            match name {
                Some(name) => self@.name == Some(name@),
                None => self@.name is None,
            },
    {
        match &self.name {
            Some(name) => Some(name.as_str()),
            None => None,
        }
    }

    /// Whether the file was opened as a main database.
    pub fn is_database(&self) -> (r: bool)
        ensures
            r == self@.is_database,
    {
        self.is_database
    }

    /// Whether a write or a publication of the file has failed.
    pub fn failed(&self) -> (r: bool)
        ensures
            r == self@.failed,
    {
        self.failed
    }

    /// Whether the file takes writes.
    pub fn writable(&self) -> (r: Result<(), VfsError>)
        ensures
            unit_outcome(r) == writable(self@),
    {
        if self.read_only {
            Err(error(VfsErrorCode::ReadOnly, "file is read-only"))
        } else if self.failed {
            Err(error(VfsErrorCode::IoWrite, "file has an uncertain write; close and reopen"))
        } else {
            Ok(())
        }
    }

    /// Reads bytes at `at` into the front of `buf`, or says what to fetch for
    /// [`File::finish_read`].
    pub fn read(&mut self, buf: &mut [u8], at: u64) -> (r: Result<ReadStep, VfsError>)
        ensures
            value_outcome(r) == read_step(old(self)@, old(buf)@.len(), at as nat),
            final(self)@ == old(self)@,
            final(buf)@ == (match (old(self)@.memory, r) {
                (Some(contents), Ok(ReadStep::Done(count))) if count > 0 => filled(
                    old(buf)@,
                    contents.subrange(at as int, at + count),
                ),
                _ => old(buf)@,
            }),
    {
        match &mut self.memory {
            Some(memory) => match memory_read(memory, buf, at) {
                Ok(count) => Ok(ReadStep::Done(count)),
                Err(e) => Err(e),
            },
            None => {
                let length: usize = buf.len();
                match offset(at, length, VfsErrorCode::IoRead) {
                    Err(e) => Err(e),
                    Ok(at) => {
                        if length == 0 {
                            Ok(ReadStep::Done(0))
                        } else {
                            Ok(ReadStep::Fetch { at, length })
                        }
                    },
                }
            },
        }
    }

    /// Takes the bytes that were fetched for a read, and says how many they are.
    pub fn finish_read(reply: Result<Vec<u8>, VfsError>, buf: &mut [u8]) -> (r: Result<
        usize,
        VfsError,
    >)
        ensures
            match reply {
                Err(e) => r == Err::<usize, VfsError>(e) && final(buf)@ == old(buf)@,
                Ok(bytes) => {
                    &&& value_outcome(r) == delivery(old(buf)@.len(), bytes@.len())
                    &&& final(buf)@ == (if r is Ok {
                        filled(old(buf)@, bytes@)
                    } else {
                        old(buf)@
                    })
                },
            },
    {
        let bytes = match reply {
            Err(e) => {
                return Err(e);
            },
            Ok(bytes) => bytes,
        };
        let count: usize = bytes.len();
        if count > buf.len() {
            return Err(error(VfsErrorCode::IoRead, "invalid OPFS read length"));
        }
        let mut i: usize = 0;
        while i < count
            invariant
                i <= count == bytes@.len() <= old(buf)@.len(),
                buf@.len() == old(buf)@.len(),
                forall|j: int| 0 <= j < i ==> buf@[j] == bytes@[j],
                forall|j: int| i <= j < buf@.len() ==> buf@[j] == old(buf)@[j],
            decreases count - i,
        {
            buf[i] = bytes[i];
            i = i + 1;
        }
        assert(buf@ == filled(old(buf)@, bytes@));
        Ok(count)
    }

    /// Writes bytes at `at`, or says where to write them; the outcome of that
    /// goes to [`File::finish`].
    ///
    /// A temporary file takes any write that ends within its bytes, and one that
    /// extends it if memory can be had. Whether it can is not stated, but the
    /// answer is that of the file in memory.
    pub fn write(&mut self, data: &[u8], at: u64) -> (r: Result<WriteStep, VfsError>)
        ensures
            match (writable(old(self)@), old(self)@.memory) {
                (Err(refusal), _) => {
                    &&& value_outcome(r) == Err::<WriteStep, ErrorView>(refusal)
                    &&& final(self)@ == old(self)@
                },
                (Ok(_), None) => {
                    &&& value_outcome(r) == stored_write_step(data@.len(), at as nat)
                    &&& final(self)@ == old(self)@
                },
                (Ok(_), Some(contents)) => {
                    &&& exists|outcome: Result<(), VfsError>| #[trigger]
                        write_answer(contents, data, at, outcome) && (match r {
                            Ok(_) => outcome is Ok,
                            Err(e) => outcome == Err::<(), VfsError>(e),
                        })
                    &&& at + data@.len() <= contents.len() ==> r is Ok
                    &&& match r {
                        Ok(step) => {
                            &&& step is Done
                            &&& data@.len() == 0 || at + data@.len() <= usize::MAX
                            &&& final(self)@ == (FileView {
                                memory: Some(written(contents, at as nat, data@)),
                                ..old(self)@
                            })
                        },
                        Err(e) => {
                            &&& data@.len() > 0
                            &&& e@ == write_refusal(at as nat, data@.len())
                            &&& final(self)@ == old(self)@
                        },
                    }
                },
            },
    {
        match self.writable() {
            Err(e) => {
                return Err(e);
            },
            Ok(_) => {},
        }
        match &mut self.memory {
            Some(memory) => match memory_submit(memory, data, at) {
                Ok(_) => Ok(WriteStep::Done),
                Err(e) => Err(e),
            },
            None => match offset(at, data.len(), VfsErrorCode::IoWrite) {
                Err(e) => Err(e),
                Ok(at) => {
                    if data.len() == 0 {
                        Ok(WriteStep::Done)
                    } else {
                        Ok(WriteStep::Submit { at })
                    }
                },
            },
        }
    }

    /// Cuts the file to `size` bytes, or says what to cut it to; the outcome of
    /// that goes to [`File::finish`].
    pub fn truncate(&mut self, size: u64) -> (r: Result<TruncateStep, VfsError>)
        ensures
            value_outcome(r) == truncate_step(old(self)@, size as nat),
            final(self)@ == (match (old(self)@.memory, r) {
                (Some(contents), Ok(_)) => FileView {
                    memory: Some(contents.take(size as int)),
                    ..old(self)@
                },
                _ => old(self)@,
            }),
    {
        match self.writable() {
            Err(e) => {
                return Err(e);
            },
            Ok(_) => {},
        }
        match &mut self.memory {
            Some(memory) => match memory_truncate(memory, size) {
                Ok(_) => Ok(TruncateStep::Done),
                Err(e) => Err(e),
            },
            None => match offset(size, 0, VfsErrorCode::IoTruncate) {
                Err(e) => Err(e),
                Ok(size) => Ok(TruncateStep::Submit { size }),
            },
        }
    }

    /// Publishes what was written, or says that it is to be done; the outcome
    /// of that goes to [`File::finish`].
    pub fn sync(&self) -> (r: Result<SyncStep, VfsError>)
        ensures
            value_outcome(r) == sync_step(self@),
    {
        if self.memory.is_some() || self.read_only {
            return Ok(SyncStep::Done);
        }
        if self.failed {
            return Err(error(VfsErrorCode::IoSync, "previous write failed"));
        }
        Ok(SyncStep::Submit)
    }

    /// Says what publishing the file for the last time needs. What came of
    /// closing the handle goes to [`File::published`].
    ///
    /// The handle of a failed file is closed too, so that nothing of it is left
    /// behind for a later open of the same name.
    pub fn publish(&self, code: VfsErrorCode) -> (step: PublishStep)
        ensures
            publication(self@, code) == (match step {
                PublishStep::Done => Ok::<bool, ErrorView>(false),
                PublishStep::Close => Ok(true),
                PublishStep::Abandon(e) => Err(e@),
            }),
    {
        if self.memory.is_some() {
            return PublishStep::Done;
        }
        if self.failed {
            return PublishStep::Abandon(error(code, "previous write or publication failed"));
        }
        PublishStep::Close
    }

    /// Ends the publication of the file, where closing its handle, if that was
    /// due, had the outcome `reply`. That of a failed file fails whatever came
    /// of it.
    pub fn published(&mut self, reply: Result<(), VfsError>, code: VfsErrorCode) -> (r: Result<
        (),
        VfsError,
    >)
        ensures
            unit_outcome(r) == publication_outcome(old(self)@, unit_outcome(reply), code),
            publication(old(self)@, code) == Ok::<bool, ErrorView>(true) ==> r == reply,
            final(self)@ == (match publication(old(self)@, code) {
                Ok(true) => finished(old(self)@, reply is Ok),
                _ => old(self)@,
            }),
    {
        match self.publish(code) {
            PublishStep::Done => Ok(()),
            PublishStep::Close => self.finish(reply),
            PublishStep::Abandon(e) => Err(e),
        }
    }

    /// Takes the outcome of a write, a truncation or a publication in OPFS and
    /// passes it on. After a failure the file takes no more writes.
    pub fn finish(&mut self, outcome: Result<(), VfsError>) -> (r: Result<(), VfsError>)
        ensures
            r == outcome,
            final(self)@ == finished(old(self)@, outcome is Ok),
    {
        if outcome.is_err() {
            self.failed = true;
        }
        outcome
    }

    /// The size of the file, or that it is to be asked for; the answer goes to
    /// [`File::finish_size`].
    pub fn size(&self) -> (r: Result<SizeStep, VfsError>)
        ensures
            match self@.memory {
                Some(contents) => r matches Ok(SizeStep::Done(size)) && size == contents.len(),
                None => r == Ok::<SizeStep, VfsError>(SizeStep::Query),
            },
    {
        match &self.memory {
            Some(memory) => match memory_size(memory) {
                Ok(size) => Ok(SizeStep::Done(size)),
                Err(e) => Err(e),
            },
            None => Ok(SizeStep::Query),
        }
    }

    /// Takes the answer to a query for the size: the integer that JavaScript
    /// gave, if it gave one.
    pub fn finish_size(reply: Result<Option<i128>, VfsError>) -> (r: Result<u64, VfsError>)
        ensures
            match reply {
                Err(e) => r == Err::<u64, VfsError>(e),
                Ok(number) => value_outcome(r) == stored_size(number),
            },
    {
        match reply {
            Err(e) => Err(e),
            Ok(number) => match number {
                Some(number) if 0 <= number && number <= MAX_SAFE_INTEGER as i128 => Ok(
                    number as u64,
                ),
                _ => Err(error(VfsErrorCode::IoStat, "invalid OPFS file size")),
            },
        }
    }

    /// Raises the lock on the file to `level`, if it is below.
    pub fn lock(&mut self, level: LockLevel) -> (r: Result<(), VfsError>)
        ensures
            r == Ok::<(), VfsError>(()),
            final(self)@ == (FileView { lock: stronger(old(self)@.lock, level), ..old(self)@ }),
    {
        if self.lock.rank() < level.rank() {
            self.lock = level;
        }
        Ok(())
    }

    /// Lowers the lock on the file to `level`, if it is above.
    pub fn unlock(&mut self, level: LockLevel) -> (r: Result<(), VfsError>)
        ensures
            r == Ok::<(), VfsError>(()),
            final(self)@ == (FileView { lock: weaker(old(self)@.lock, level), ..old(self)@ }),
    {
        if self.lock.rank() >= level.rank() {
            self.lock = level;
        }
        Ok(())
    }

    /// Whether a reserved lock or a stronger one is held on the file.
    pub fn check_reserved_lock(&self) -> (r: Result<bool, VfsError>)
        ensures
            r == Ok::<bool, VfsError>(self@.lock.rank() >= LockLevel::Reserved.rank()),
    {
        Ok(self.lock.rank() >= LockLevel::Reserved.rank())
    }
}

/// A file without a name is in memory and any other is not, from its opening
/// on: no outcome and no change of its bytes alters that.
pub proof fn law_validity(
    name: Option<Seq<char>>,
    options: OpenOptions,
    file: FileView,
    success: bool,
    bytes: Seq<u8>,
)
    requires
        file.valid(),
    ensures
        fresh_file(name, options).valid(),
        finished(file, success).valid(),
        file.memory is Some ==> (FileView { memory: Some(bytes), ..file }).valid(),
{
}

/// A failure in OPFS is final: from then on the file takes no write and no
/// truncation, publishing it fails, and so does synchronising it unless there
/// is nothing to synchronise because it was opened read-only, whatever else
/// happens to it.
pub proof fn law_failure_is_final(
    file: FileView,
    later: bool,
    size: nat,
    reply: Result<(), ErrorView>,
    code: VfsErrorCode,
)
    requires
        file.memory is None,
    ensures
        ({
            let poisoned = finished(file, false);
            &&& writable(poisoned) is Err
            &&& truncate_step(poisoned, size) is Err
            &&& !file.read_only ==> sync_step(poisoned) is Err
            &&& publication_outcome(poisoned, reply, code) is Err
            &&& finished(poisoned, later) == poisoned
        }),
{
}

/// A file opened read-only takes no write and no truncation, and there is
/// nothing of it to synchronise.
pub proof fn law_read_only(file: FileView, size: nat)
    requires
        file.read_only,
    ensures
        writable(file) matches Err(e) && e.code == VfsErrorCode::ReadOnly,
        truncate_step(file, size) matches Err(e) && e.code == VfsErrorCode::ReadOnly,
        sync_step(file) == Ok::<SyncStep, ErrorView>(SyncStep::Done),
{
}

/// JavaScript is never handed a number that it cannot hold exactly: every
/// access that is handed to it ends within its range.
pub proof fn law_within_javascript(file: FileView, length: nat, at: nat)
    ensures
        read_step(file, length, at) matches Ok(ReadStep::Fetch { at: start, length: wanted })
            ==> length <= usize::MAX ==> start == at && wanted == length && start + wanted
            <= MAX_SAFE_INTEGER,
        stored_write_step(length, at) matches Ok(WriteStep::Submit { at: start }) ==> start == at
            && start + length <= MAX_SAFE_INTEGER,
        truncate_step(file, at) matches Ok(TruncateStep::Submit { size }) ==> size == at && size
            <= MAX_SAFE_INTEGER,
{
}

/// A temporary file gives back what was written to it: reading as many bytes as
/// were written, from where they were written, fills the buffer with them.
pub proof fn law_read_your_writes(
    file: FileView,
    contents: Seq<u8>,
    at: nat,
    data: Seq<u8>,
    buf: Seq<u8>,
)
    requires
        file.memory == Some(contents),
        0 < data.len() <= usize::MAX,
        buf.len() == data.len(),
    ensures
        ({
            let after = FileView { memory: Some(written(contents, at, data)), ..file };
            &&& read_step(after, buf.len(), at) == Ok::<ReadStep, ErrorView>(
                ReadStep::Done(data.len() as usize),
            )
            &&& filled(buf, after.memory->0.subrange(at as int, (at + data.len()) as int)) == data
        }),
{
    let after = written(contents, at, data);
    assert(after.subrange(at as int, (at + data.len()) as int) =~= data);
    assert(filled(buf, data) =~= data);
}

/// A file in OPFS gives back what was written to it, if JavaScript does what it
/// is asked to: where it holds the bytes `contents`, takes a submitted write,
/// and answers a fetch with the bytes from there on, as many as are asked for
/// and there are. The write is submitted and the read fetched for the same
/// place, before a synchronisation and after it, and the read fills the buffer
/// with what was written.
pub proof fn law_read_your_stored_writes(
    file: FileView,
    contents: Seq<u8>,
    at: nat,
    data: Seq<u8>,
    buf: Seq<u8>,
)
    requires
        file.memory is None,
        writable(file) is Ok,
        stored_write_step(data.len(), at) is Ok,
        0 < data.len() <= usize::MAX,
        buf.len() == data.len(),
    ensures
        ({
            let after = finished(file, true);
            let synced = finished(after, true);
            let stored = written(contents, at, data);
            let count = readable(stored.len(), at, buf.len());
            let bytes = stored.subrange(at as int, (at + count) as int);
            let fetch = Ok::<ReadStep, ErrorView>(
                ReadStep::Fetch { at: at as u64, length: buf.len() as usize },
            );
            &&& stored_write_step(data.len(), at) == Ok::<WriteStep, ErrorView>(
                WriteStep::Submit { at: at as u64 },
            )
            &&& at <= u64::MAX
            &&& read_step(after, buf.len(), at) == fetch
            &&& sync_step(after) == Ok::<SyncStep, ErrorView>(SyncStep::Submit)
            &&& read_step(synced, buf.len(), at) == fetch
            &&& delivery(buf.len(), bytes.len()) == Ok::<usize, ErrorView>(data.len() as usize)
            &&& filled(buf, bytes) == data
        }),
{
    let stored = written(contents, at, data);
    assert(stored.subrange(at as int, (at + data.len()) as int) =~= data);
    assert(filled(buf, data) =~= data);
}

/// A write to a temporary file changes no byte outside of it, and leaves zeros
/// where the file had none.
pub proof fn law_write_keeps_the_rest(contents: Seq<u8>, at: nat, data: Seq<u8>, i: int)
    requires
        0 <= i < written(contents, at, data).len(),
        i < at || i >= at + data.len(),
    ensures
        written(contents, at, data)[i] == (if i < contents.len() {
            contents[i]
        } else {
            0u8
        }),
{
}

/// A write over an earlier one of the same extent replaces it.
pub proof fn law_overwrite(contents: Seq<u8>, at: nat, first: Seq<u8>, second: Seq<u8>)
    requires
        first.len() == second.len(),
    ensures
        written(written(contents, at, first), at, second) == written(contents, at, second),
{
    assert(written(written(contents, at, first), at, second) =~= written(contents, at, second));
}

/// Bytes cut off a temporary file never come back: where a later write extends
/// the file past them, zeros stand in their place.
pub proof fn law_truncated_bytes_never_reappear(
    contents: Seq<u8>,
    size: nat,
    at: nat,
    data: Seq<u8>,
    i: int,
)
    requires
        truncation(contents.len(), size) is Ok,
        data.len() > 0,
        size <= i < at,
    ensures
        written(contents.take(size as int), at, data)[i] == 0,
{
}

/// Taking a lock never weakens the one held and gives at least the one asked
/// for; releasing to a level never strengthens it and leaves at most that level.
pub proof fn law_locks(held: LockLevel, level: LockLevel)
    ensures
        stronger(held, level).rank() >= held.rank(),
        stronger(held, level).rank() >= level.rank(),
        stronger(held, level) == held || stronger(held, level) == level,
        weaker(held, level).rank() <= held.rank(),
        weaker(held, level).rank() <= level.rank(),
        weaker(held, level) == held || weaker(held, level) == level,
        weaker(stronger(held, level), held) == held,
{
}

/// A file is opened as it was asked for: by its name, in memory exactly if it
/// has none, read-only exactly if that was asked for, as a main database
/// exactly if its kind says so; it is empty if in memory, not locked and not
/// failed.
pub proof fn law_opened_as_asked(name: Option<Seq<char>>, options: OpenOptions)
    ensures
        fresh_file(name, options).name == name,
        fresh_file(name, options).memory is Some <==> name is None,
        fresh_file(name, options).memory matches Some(contents) ==> contents.len() == 0,
        fresh_file(name, options).read_only <==> options.access == OpenAccess::ReadOnly,
        fresh_file(name, options).is_database <==> options.kind == Some(FileKind::MainDb),
        fresh_file(name, options).lock == LockLevel::Unlocked,
        !fresh_file(name, options).failed,
{
}

/// A file takes writes exactly if it was not opened read-only and has not
/// failed, whatever else it is: one just opened for writing takes them.
pub proof fn law_takes_writes(file: FileView, name: Option<Seq<char>>, options: OpenOptions)
    ensures
        writable(file) is Ok <==> !file.read_only && !file.failed,
        file.read_only ==> writable(file) == Err::<(), ErrorView>(
            ErrorView { code: VfsErrorCode::ReadOnly, message: "file is read-only"@ },
        ),
        !file.read_only && file.failed ==> writable(file) == Err::<(), ErrorView>(
            ErrorView {
                code: VfsErrorCode::IoWrite,
                message: "file has an uncertain write; close and reopen"@,
            },
        ),
        writable(fresh_file(name, options)) is Ok <==> options.access == OpenAccess::ReadWrite,
{
}

/// Every write of some bytes to a file in OPFS that ends within JavaScript's
/// range is handed to it, at the offset it was asked for; one that does not is
/// refused, and for an empty one there is nothing to do.
pub proof fn law_writes_are_submitted(length: nat, at: nat)
    ensures
        at + length <= 9007199254740991 && length > 0 ==> stored_write_step(length, at) == Ok::<
            WriteStep,
            ErrorView,
        >(WriteStep::Submit { at: at as u64 }),
        at + length <= 9007199254740991 && length == 0 ==> stored_write_step(length, at) == Ok::<
            WriteStep,
            ErrorView,
        >(WriteStep::Done),
        at + length > 9007199254740991 ==> stored_write_step(length, at) == Err::<
            WriteStep,
            ErrorView,
        >(
            ErrorView {
                code: VfsErrorCode::IoWrite,
                message: "offset exceeds JavaScript's safe integer range"@,
            },
        ),
{
}

/// Every read of some bytes of a file in OPFS that ends within JavaScript's
/// range is fetched from it, all of it and from the offset it was asked for,
/// even of a file that failed; one that does not is refused. Of a file in memory
/// as many bytes are read as there are, up to those asked for.
pub proof fn law_reads_are_fetched(file: FileView, length: nat, at: nat)
    requires
        length <= usize::MAX,
    ensures
        file.memory is None && at + length <= 9007199254740991 && length > 0 ==> read_step(
            file,
            length,
            at,
        ) == Ok::<ReadStep, ErrorView>(
            ReadStep::Fetch { at: at as u64, length: length as usize },
        ),
        file.memory is None && at + length <= 9007199254740991 && length == 0 ==> read_step(
            file,
            length,
            at,
        ) == Ok::<ReadStep, ErrorView>(ReadStep::Done(0)),
        file.memory is None && at + length > 9007199254740991 ==> read_step(file, length, at)
            == Err::<ReadStep, ErrorView>(
            ErrorView {
                code: VfsErrorCode::IoRead,
                message: "offset exceeds JavaScript's safe integer range"@,
            },
        ),
        file.memory is Some ==> ({
            &&& read_step(file, length, at) is Ok
            &&& read_step(file, length, at)->Ok_0 is Done
            &&& ({
                let count = read_step(file, length, at)->Ok_0->Done_0;
                &&& count <= length
                &&& count > 0 ==> at + count <= file.memory->0.len()
                &&& count < length ==> at + count >= file.memory->0.len()
            })
        }),
{
}

/// Every truncation of a file in OPFS that takes writes is handed to
/// JavaScript, to the size it was asked for, unless that is out of JavaScript's
/// range. A file in memory is cut wherever that does not lengthen it, and a file
/// that takes no writes is not cut.
pub proof fn law_truncations_are_submitted(file: FileView, size: nat)
    ensures
        truncate_step(file, size) matches Ok(step) ==> (step is Done <==> file.memory is Some),
        writable(file) matches Err(e) ==> truncate_step(file, size) == Err::<
            TruncateStep,
            ErrorView,
        >(e),
        writable(file) is Ok && file.memory is None && size <= 9007199254740991 ==> truncate_step(
            file,
            size,
        ) == Ok::<TruncateStep, ErrorView>(TruncateStep::Submit { size: size as u64 }),
        writable(file) is Ok && file.memory is None && size > 9007199254740991 ==> truncate_step(
            file,
            size,
        ) == Err::<TruncateStep, ErrorView>(
            ErrorView {
                code: VfsErrorCode::IoTruncate,
                message: "offset exceeds JavaScript's safe integer range"@,
            },
        ),
        writable(file) is Ok && file.memory is Some ==> (truncate_step(file, size) is Ok <==> size
            <= file.memory->0.len()),
        writable(file) is Ok && file.memory is Some && truncate_step(file, size) is Err
            ==> truncate_step(file, size)->Err_0.code == VfsErrorCode::IoTruncate,
{
}

/// A synchronisation of a file in OPFS that takes writes is always handed to
/// JavaScript, and one of a failed file fails; for a file in memory, and for one
/// opened read-only, there is nothing to do.
pub proof fn law_synchronisations_are_submitted(file: FileView)
    ensures
        file.memory is None && writable(file) is Ok ==> sync_step(file) == Ok::<
            SyncStep,
            ErrorView,
        >(SyncStep::Submit),
        file.memory is None && !file.read_only && file.failed ==> sync_step(file) == Err::<
            SyncStep,
            ErrorView,
        >(ErrorView { code: VfsErrorCode::IoSync, message: "previous write failed"@ }),
        file.memory is Some || file.read_only ==> sync_step(file) == Ok::<SyncStep, ErrorView>(
            SyncStep::Done,
        ),
{
}

/// Closing a file in OPFS that has not failed publishes it, even if it was
/// opened read-only, and ends as closing its handle does; that of a failed one
/// fails whatever came of its handle, and a file in memory needs nothing.
pub proof fn law_closing_publishes(
    file: FileView,
    reply: Result<(), ErrorView>,
    code: VfsErrorCode,
)
    ensures
        file.memory is Some ==> publication(file, code) == Ok::<bool, ErrorView>(false)
            && publication_outcome(file, reply, code) is Ok,
        file.memory is None && !file.failed ==> publication(file, code) == Ok::<bool, ErrorView>(
            true,
        ) && publication_outcome(file, reply, code) == reply,
        file.memory is None && file.failed ==> publication_outcome(file, reply, code) == Err::<
            (),
            ErrorView,
        >(ErrorView { code, message: "previous write or publication failed"@ }),
        publication(file, code) matches Err(e) ==> publication_outcome(file, reply, code) == Err::<
            (),
            ErrorView,
        >(e),
        file.memory is None && file.failed ==> publication(file, code) is Err,
{
}

/// A failure in OPFS marks the file, a success leaves it as it is, and neither
/// changes anything else of it.
pub proof fn law_outcomes_mark_the_file(file: FileView)
    ensures
        finished(file, true) == file,
        finished(file, false).failed,
        finished(file, false).name == file.name,
        finished(file, false).memory == file.memory,
        finished(file, false).read_only == file.read_only,
        finished(file, false).lock == file.lock,
        finished(file, false).is_database == file.is_database,
{
}

/// Bytes that were fetched are all delivered, unless there are more than were
/// asked for, which is refused.
pub proof fn law_fetched_bytes_are_delivered(room: nat, count: nat)
    requires
        room <= usize::MAX,
    ensures
        count <= room ==> delivery(room, count) is Ok && delivery(room, count)->Ok_0 == count,
        count > room ==> delivery(room, count) == Err::<usize, ErrorView>(
            ErrorView { code: VfsErrorCode::IoRead, message: "invalid OPFS read length"@ },
        ),
{
}

/// A size is taken exactly if it is a safe integer that is not negative, and
/// then as it is.
pub proof fn law_sizes(number: Option<i128>)
    ensures
        stored_size(number) is Ok <==> number is Some && 0 <= number->0 <= 9007199254740991,
        stored_size(number) matches Ok(size) ==> number == Some(size as i128),
        stored_size(number) matches Err(e) ==> e.code == VfsErrorCode::IoStat && e.message
            == "invalid OPFS file size"@,
{
}

} // verus!
