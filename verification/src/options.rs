//! What SQLite asks for when it opens a file, and the locks it takes on one.

use vstd::prelude::*;

verus! {

/// The kind of file that SQLite opens.
#[derive(Clone, Copy, Debug, PartialEq, Eq, Structural)]
pub enum FileKind {
    MainDb,
    TempDb,
    TransientDb,
    MainJournal,
    TempJournal,
    SubJournal,
    SuperJournal,
    Wal,
}

/// Whether a file may be written.
#[derive(Clone, Copy, Debug, PartialEq, Eq, Structural)]
pub enum OpenAccess {
    ReadOnly,
    ReadWrite,
}

/// The options of an open request.
#[derive(Clone, Copy, Debug, PartialEq, Eq, Structural)]
pub struct OpenOptions {
    /// The kind of file, where SQLite names one.
    pub kind: Option<FileKind>,
    pub access: OpenAccess,
    /// Create the file if there is none.
    pub create: bool,
    /// Fail if there is a file already.
    pub exclusive: bool,
    /// Delete the file when it is closed.
    pub delete_on_close: bool,
}

impl OpenOptions {
    /// Whether a main database is to be opened.
    pub open spec fn spec_main_db(self) -> bool {
        self.kind == Some(FileKind::MainDb)
    }

    /// Whether a main database is to be opened.
    #[verifier::when_used_as_spec(spec_main_db)]
    pub fn main_db(self) -> (r: bool)
        ensures
            r == self.spec_main_db(),
    {
        match self.kind {
            Some(FileKind::MainDb) => true,
            _ => false,
        }
    }
}

/// SQLite's locks on a database file, from the least restrictive one up.
#[derive(Clone, Copy, Debug, PartialEq, Eq, Structural)]
pub enum LockLevel {
    Unlocked,
    Shared,
    Reserved,
    Pending,
    Exclusive,
}

impl LockLevel {
    /// The level's place in the order of levels.
    pub open spec fn spec_rank(self) -> u8 {
        match self {
            LockLevel::Unlocked => 0,
            LockLevel::Shared => 1,
            LockLevel::Reserved => 2,
            LockLevel::Pending => 3,
            LockLevel::Exclusive => 4,
        }
    }

    /// The level's place in the order of levels.
    #[verifier::when_used_as_spec(spec_rank)]
    pub fn rank(self) -> (r: u8)
        ensures
            r == self.spec_rank(),
    {
        match self {
            LockLevel::Unlocked => 0,
            LockLevel::Shared => 1,
            LockLevel::Reserved => 2,
            LockLevel::Pending => 3,
            LockLevel::Exclusive => 4,
        }
    }
}

/// The more restrictive of two locks.
pub open spec fn stronger(a: LockLevel, b: LockLevel) -> LockLevel {
    if a.rank() < b.rank() {
        b
    } else {
        a
    }
}

/// The less restrictive of two locks.
pub open spec fn weaker(a: LockLevel, b: LockLevel) -> LockLevel {
    if a.rank() < b.rank() {
        a
    } else {
        b
    }
}

/// The levels of locks follow each other in SQLite's order.
pub proof fn law_lock_order()
    ensures
        LockLevel::Unlocked.rank() < LockLevel::Shared.rank(),
        LockLevel::Shared.rank() < LockLevel::Reserved.rank(),
        LockLevel::Reserved.rank() < LockLevel::Pending.rank(),
        LockLevel::Pending.rank() < LockLevel::Exclusive.rank(),
{
}

/// A main database is asked for by its kind alone.
pub proof fn law_main_db(options: OpenOptions)
    ensures
        options.main_db() <==> options.kind == Some(FileKind::MainDb),
{
}

} // verus!
