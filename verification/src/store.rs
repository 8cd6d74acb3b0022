//! The table of open files, and what opening, closing and deleting one needs.

use crate::error::{error, text_outcome, unit_outcome, ErrorView, VfsError, VfsErrorCode};
use crate::file::{
    fresh_file, optional_text, publication_outcome, read_step, stored_size, stored_write_step,
    sync_step, truncate_step, File, FileView,
};
use crate::naming::{directory_path, filename, law_names_injective, physical_name};
use crate::options::{FileKind, OpenOptions};
use crate::script::{code_of, default_code, Operation};
use crate::text::{characters, collect};
use vstd::hash_map::StringHashMap;
use vstd::hash_set::StringHashSet;
use vstd::multiset::Multiset;
use vstd::prelude::*;

verus! {

/// The files that are open: how many, how many by each name, and which names
/// are those of main databases.
pub struct State {
    open: StringHashMap<usize>,
    databases: StringHashSet,
    file_count: usize,
}

/// What is known of the open files.
pub struct StateView {
    /// How many files are open by each name that one is open by.
    pub open: Map<Seq<char>, nat>,
    /// The names by which a main database is open.
    pub databases: Set<Seq<char>>,
    /// How many files are open, temporary ones included.
    pub file_count: nat,
}

impl View for State {
    type V = StateView;

    closed spec fn view(&self) -> StateView {
        StateView {
            open: self.open@.map_values(|count: usize| count as nat),
            databases: self.databases@,
            file_count: self.file_count as nat,
        }
    }
}

impl StateView {
    /// How many files are open by a name.
    pub open spec fn count(self, name: Seq<char>) -> nat {
        if self.open.contains_key(name) {
            self.open[name]
        } else {
            0
        }
    }

    /// Whether one more file by that name, or a temporary one, can be counted.
    pub open spec fn has_room(self, name: Option<Seq<char>>) -> bool {
        &&& self.file_count < usize::MAX
        &&& name matches Some(name) ==> self.count(name) < usize::MAX
    }

    /// Whether the file is among those counted.
    pub open spec fn holds(self, file: FileView) -> bool {
        &&& self.file_count > 0
        &&& file.name matches Some(name) ==> self.count(name) > 0
    }
}

/// The table without any file.
pub open spec fn no_files() -> StateView {
    StateView { open: Map::empty(), databases: Set::empty(), file_count: 0 }
}

/// The table with one more file.
pub open spec fn registered(state: StateView, file: FileView) -> StateView {
    match file.name {
        None => StateView { file_count: state.file_count + 1, ..state },
        Some(name) => StateView {
            open: state.open.insert(name, state.count(name) + 1),
            databases: if file.is_database {
                state.databases.insert(name)
            } else {
                state.databases
            },
            file_count: state.file_count + 1,
        },
    }
}

/// The table with one file less.
pub open spec fn released(state: StateView, file: FileView) -> StateView {
    match file.name {
        None => StateView { file_count: (state.file_count - 1) as nat, ..state },
        Some(name) => StateView {
            open: if state.count(name) == 1 {
                state.open.remove(name)
            } else {
                state.open.insert(name, (state.count(name) - 1) as nat)
            },
            databases: if file.is_database {
                state.databases.remove(name)
            } else {
                state.databases
            },
            file_count: (state.file_count - 1) as nat,
        },
    }
}

/// The name without a suffix, if it ends in that.
pub open spec fn without_suffix(name: Seq<char>, suffix: Seq<char>) -> Option<Seq<char>> {
    if suffix.len() <= name.len() && name.skip(name.len() - suffix.len()) == suffix {
        Some(name.take(name.len() - suffix.len()))
    } else {
        None
    }
}

/// The database that a file belongs to, as far as that is certain: a main
/// database belongs to itself, and a rollback journal or a write-ahead log to
/// the main database whose name it extends, while that is open. For any other
/// file it is the empty text.
pub open spec fn group_of(state: StateView, name: Seq<char>, kind: Option<FileKind>) -> Seq<char> {
    let base = match kind {
        Some(FileKind::MainJournal) => without_suffix(name, "-journal"@),
        Some(FileKind::Wal) => without_suffix(name, "-wal"@),
        _ => None,
    };
    if kind == Some(FileKind::MainDb) {
        name
    } else if base is Some && state.databases.contains(base->0) {
        base->0
    } else {
        Seq::empty()
    }
}

/// What the file is to the order in which files are published.
pub open spec fn role_of(kind: Option<FileKind>) -> Seq<char> {
    match kind {
        Some(FileKind::MainDb) => "database"@,
        Some(FileKind::MainJournal) => "journal"@,
        Some(FileKind::SuperJournal) => "super-journal"@,
        Some(FileKind::Wal) => "wal"@,
        _ => "other"@,
    }
}

/// How to open a file in OPFS.
#[derive(Debug)]
pub struct OpenCall {
    /// Its name there.
    pub physical: String,
    /// Create it if there is none.
    pub create: bool,
    /// Fail if there is one already.
    pub exclusive: bool,
    /// What it is to the order in which files are published.
    pub role: &'static str,
    /// The database it belongs to, or nothing.
    pub group: String,
}

/// What an [`OpenCall`] says.
pub struct OpenCallView {
    pub physical: Seq<char>,
    pub create: bool,
    pub exclusive: bool,
    pub role: Seq<char>,
    pub group: Seq<char>,
}

impl View for OpenCall {
    type V = OpenCallView;

    open spec fn view(&self) -> OpenCallView {
        OpenCallView {
            physical: self.physical@,
            create: self.create,
            exclusive: self.exclusive,
            role: self.role@,
            group: self.group@,
        }
    }
}

/// What an open request answers: how to open the file in OPFS, nothing for a
/// temporary one, or a refusal.
pub open spec fn admission(
    state: StateView,
    name: Option<Seq<char>>,
    options: OpenOptions,
) -> Result<Option<OpenCallView>, ErrorView> {
    match name {
        None => Ok(None),
        Some(name) => match physical_name(name) {
            Err(e) => Err(e),
            Ok(physical) => if options.main_db() && state.open.contains_key(name) {
                Err(ErrorView { code: VfsErrorCode::Busy, message: "database is already open"@ })
            } else {
                Ok(
                    Some(
                        OpenCallView {
                            physical,
                            create: options.create,
                            exclusive: options.exclusive,
                            role: role_of(options.kind),
                            group: group_of(state, name, options.kind),
                        },
                    ),
                )
            },
        },
    }
}

/// The name in OPFS of the file to delete, or the refusal to delete it.
pub open spec fn deletion(state: StateView, name: Seq<char>) -> Result<Seq<char>, ErrorView> {
    if state.open.contains_key(name) {
        Err(ErrorView { code: VfsErrorCode::IoDelete, message: "file is open"@ })
    } else {
        physical_name(name)
    }
}

/// What closing a file answers, where closing its handle, if that was due, had
/// the outcome `reply`, and `after` is the table without the file: the name in
/// OPFS of what to delete, if anything, or a failure.
pub open spec fn closing(
    after: StateView,
    name: Option<Seq<char>>,
    file: FileView,
    reply: Result<(), ErrorView>,
    options: OpenOptions,
) -> Result<Option<Seq<char>>, ErrorView> {
    match publication_outcome(file, reply, default_code(Operation::Close)) {
        Err(e) => Err(e),
        Ok(_) => if name is Some && options.delete_on_close {
            match deletion(after, name->0) {
                Ok(physical) => Ok(Some(physical)),
                Err(e) => Err(e),
            }
        } else {
            Ok(None)
        },
    }
}

/// A text slice that may be absent.
pub open spec fn optional_slice(text: Option<&str>) -> Option<Seq<char>> {
    match text {
        Some(text) => Some(text@),
        None => None,
    }
}

fn strip_suffix(name: &str, suffix: &str) -> (base: Option<String>)
    ensures
        optional_text(base) == without_suffix(name@, suffix@),
{
    let whole = characters(name);
    let end = characters(suffix);
    if end.len() > whole.len() {
        return None;
    }
    let cut: usize = whole.len() - end.len();
    let mut i: usize = 0;
    while i < end.len()
        invariant
            i <= end.len() <= whole.len(),
            cut == whole.len() - end.len(),
            whole@ == name@,
            end@ == suffix@,
            forall|j: int| 0 <= j < i ==> whole@[cut + j] == end@[j],
        decreases end.len() - i,
    {
        if whole[cut + i] != end[i] {
            assert(name@.skip(cut as int)[i as int] != suffix@[i as int]);
            return None;
        }
        i = i + 1;
    }
    assert(name@.skip(cut as int) == suffix@);
    Some(collect(&whole, 0, cut))
}

fn role(kind: Option<FileKind>) -> (role: &'static str)
    ensures
        role@ == role_of(kind),
{
    match kind {
        Some(FileKind::MainDb) => "database",
        Some(FileKind::MainJournal) => "journal",
        Some(FileKind::SuperJournal) => "super-journal",
        Some(FileKind::Wal) => "wal",
        _ => "other",
    }
}

impl State {
    /// The table without any file.
    pub fn new() -> (state: State)
        ensures
            state@ == no_files(),
    {
        let state = State {
            open: StringHashMap::new(),
            databases: StringHashSet::new(),
            file_count: 0,
        };
        assert(state@.open =~= Map::empty());
        state
    }

    /// How many files are open, temporary ones included.
    pub fn file_count(&self) -> (count: usize)
        ensures
            count == self@.file_count,
    {
        self.file_count
    }

    /// How many files are open by a name.
    pub fn count(&self, name: &str) -> (count: usize)
        ensures
            count == self@.count(name@),
    {
        match self.open.get(name) {
            Some(count) => *count,
            None => 0,
        }
    }

    /// Whether a main database is open by a name.
    pub fn is_database(&self, name: &str) -> (r: bool)
        ensures
            r == self@.databases.contains(name@),
    {
        self.databases.contains(name)
    }

    fn group(&self, name: &str, kind: Option<FileKind>) -> (group: String)
        ensures
            group@ == group_of(self@, name@, kind),
    {
        let base = match kind {
            Some(FileKind::MainDb) => {
                return name.to_owned();
            },
            Some(FileKind::MainJournal) => strip_suffix(name, "-journal"),
            Some(FileKind::Wal) => strip_suffix(name, "-wal"),
            _ => None,
        };
        match base {
            Some(base) => {
                if self.databases.contains(base.as_str()) {
                    base
                } else {
                    String::new()
                }
            },
            None => String::new(),
        }
    }

    /// Says how to open a file: nothing is to be done for a temporary one. Once
    /// that has succeeded, [`State::opened`] gives the file.
    ///
    /// A main database is refused while any file is open by its name.
    pub fn open_file(&self, name: Option<&str>, options: OpenOptions) -> (r: Result<
        Option<OpenCall>,
        VfsError,
    >)
        ensures
            admission(self@, optional_slice(name), options) == (match r {
                Ok(None) => Ok::<Option<OpenCallView>, ErrorView>(None),
                Ok(Some(call)) => Ok(Some(call@)),
                Err(e) => Err(e@),
            }),
    {
        let name = match name {
            None => {
                return Ok(None);
            },
            Some(name) => name,
        };
        let physical = match filename(name) {
            Err(e) => {
                return Err(e);
            },
            Ok(physical) => physical,
        };
        if options.main_db() && self.open.contains_key(name) {
            return Err(error(VfsErrorCode::Busy, "database is already open"));
        }
        let group = self.group(name, options.kind);
        Ok(
            Some(
                OpenCall {
                    physical,
                    create: options.create,
                    exclusive: options.exclusive,
                    role: role(options.kind),
                    group,
                },
            ),
        )
    }

    /// Whether one more file by that name, or a temporary one, can be counted.
    pub fn has_room(&self, name: Option<&str>) -> (r: bool)
        ensures
            r == self@.has_room(optional_slice(name)),
    {
        self.file_count < usize::MAX && match name {
            Some(name) => self.count(name) < usize::MAX,
            None => true,
        }
    }

    /// Counts a file that has been opened, and gives it.
    pub fn opened(&mut self, name: Option<&str>, options: OpenOptions) -> (file: File)
        requires
            old(self)@.has_room(optional_slice(name)),
        ensures
            file@ == fresh_file(optional_slice(name), options),
            final(self)@ == registered(old(self)@, file@),
    {
        let owned = match name {
            Some(name) => {
                let count: usize = self.count(name);
                self.open.insert(name.to_owned(), count + 1);
                if options.main_db() {
                    let _ = self.databases.insert(name.to_owned());
                }
                Some(name.to_owned())
            },
            None => None,
        };
        self.file_count = self.file_count + 1;
        let file = File::new(owned, options);
        assert(self@.open =~= registered(old(self)@, file@).open);
        file
    }

    /// Whether the file is among those counted.
    pub fn holds(&self, file: &File) -> (r: bool)
        ensures
            r == self@.holds(file@),
    {
        self.file_count > 0 && match file.name() {
            Some(name) => self.count(name) > 0,
            None => true,
        }
    }

    /// Counts a file no longer.
    pub fn release(&mut self, file: &File)
        requires
            old(self)@.holds(file@),
        ensures
            final(self)@ == released(old(self)@, file@),
    {
        self.file_count = self.file_count - 1;
        match file.name() {
            Some(name) => {
                let count: usize = self.count(name);
                if count == 1 {
                    self.open.remove(name);
                } else {
                    self.open.insert(name.to_owned(), count - 1);
                }
                if file.is_database() {
                    let _ = self.databases.remove(name);
                }
            },
            None => {},
        }
        assert(self@.open =~= released(old(self)@, file@).open);
    }

    /// Closes a file, where closing its handle, if [`File::publish`] asked for
    /// that, had the outcome `reply`. The file is gone however its publication
    /// ended; only after a success is it deleted, where it was opened to be
    /// deleted on close. Gives the name in OPFS of what to delete.
    pub fn close_file(
        &mut self,
        name: Option<&str>,
        file: File,
        reply: Result<(), VfsError>,
        options: OpenOptions,
    ) -> (r: Result<Option<String>, VfsError>)
        requires
            old(self)@.holds(file@),
        ensures
            final(self)@ == released(old(self)@, file@),
            closing(
                final(self)@,
                optional_slice(name),
                file@,
                unit_outcome(reply),
                options,
            ) == (match r {
                Ok(physical) => Ok::<Option<Seq<char>>, ErrorView>(optional_text(physical)),
                Err(e) => Err(e@),
            }),
    {
        let mut file = file;
        let outcome = file.published(reply, code_of(Operation::Close));
        self.release(&file);
        match outcome {
            Err(e) => {
                return Err(e);
            },
            Ok(_) => {},
        }
        if options.delete_on_close {
            if let Some(name) = name {
                return match self.delete_file(name) {
                    Ok(physical) => Ok(Some(physical)),
                    Err(e) => Err(e),
                };
            }
        }
        Ok(None)
    }

    /// The name in OPFS of the file to look for. Whether it is there goes to
    /// [`State::finish_access`].
    pub fn access(&self, name: &str) -> (r: Result<String, VfsError>)
        ensures
            text_outcome(r) == physical_name(name@),
    {
        filename(name)
    }

    /// Takes the answer of whether a file is there. An answer that is no truth
    /// value says that it is not; a failure is not taken for absence.
    pub fn finish_access(reply: Result<Option<bool>, VfsError>) -> (r: Result<bool, VfsError>)
        ensures
            match reply {
                Ok(answer) => r == Ok::<bool, VfsError>(answer == Some(true)),
                Err(e) => r == Err::<bool, VfsError>(e),
            },
    {
        match reply {
            Ok(Some(there)) => Ok(there),
            Ok(None) => Ok(false),
            Err(e) => Err(e),
        }
    }

    /// The name in OPFS of the file to delete. A file that is open is not
    /// deleted.
    pub fn delete_file(&self, name: &str) -> (r: Result<String, VfsError>)
        ensures
            text_outcome(r) == deletion(self@, name@),
    {
        if self.open.contains_key(name) {
            return Err(error(VfsErrorCode::IoDelete, "file is open"));
        }
        filename(name)
    }
}

/// What tells open files apart in the table: the name, and whether it is the
/// main database.
pub open spec fn entry(file: FileView) -> (Option<Seq<char>>, bool) {
    (file.name, file.is_database)
}

/// How many of the files are open by a name.
pub open spec fn named(files: Multiset<(Option<Seq<char>>, bool)>, name: Seq<char>) -> nat {
    files.count((Some(name), true)) + files.count((Some(name), false))
}

/// Whether the table is that of the given open files: every one of them is
/// counted and nothing else is, and there is at most one main database by each
/// name.
pub open spec fn accounts_for(
    state: StateView,
    files: Multiset<(Option<Seq<char>>, bool)>,
) -> bool {
    &&& state.file_count == files.len()
    &&& forall|name: Seq<char>| #[trigger]
        state.open.contains_key(name) <==> named(files, name) > 0
    &&& forall|name: Seq<char>| #[trigger] state.count(name) == named(files, name)
    &&& forall|name: Seq<char>| #[trigger]
        state.databases.contains(name) <==> files.count((Some(name), true)) > 0
    &&& forall|name: Seq<char>| #[trigger] files.count((Some(name), true)) <= 1
}

/// The first table accounts for no file.
pub proof fn law_no_files()
    ensures
        accounts_for(no_files(), Multiset::empty()),
{
}

/// An open that is admitted keeps the table true: it then accounts for the file
/// opened as well.
pub proof fn law_open_keeps_account(
    state: StateView,
    files: Multiset<(Option<Seq<char>>, bool)>,
    name: Option<Seq<char>>,
    options: OpenOptions,
)
    requires
        accounts_for(state, files),
        admission(state, name, options) is Ok,
    ensures
        accounts_for(
            registered(state, fresh_file(name, options)),
            files.insert(entry(fresh_file(name, options))),
        ),
{
    let file = fresh_file(name, options);
    let after = registered(state, file);
    let more = files.insert(entry(file));
    assert(more.len() == files.len() + 1);
    assert forall|n: Seq<char>| #[trigger] after.count(n) == named(more, n) by {
        assert(state.count(n) == named(files, n));
    }
    assert forall|n: Seq<char>| #[trigger]
        after.open.contains_key(n) <==> named(more, n) > 0 by {
        assert(state.open.contains_key(n) <==> named(files, n) > 0);
    }
    assert forall|n: Seq<char>| #[trigger]
        after.databases.contains(n) <==> more.count((Some(n), true)) > 0 by {
        assert(state.databases.contains(n) <==> files.count((Some(n), true)) > 0);
    }
    assert forall|n: Seq<char>| #[trigger] more.count((Some(n), true)) <= 1 by {
        assert(files.count((Some(n), true)) <= 1);
        assert(state.open.contains_key(n) <==> named(files, n) > 0);
    }
}

/// Closing a file that is open can be counted, and keeps the table true: it
/// then accounts for the remaining files.
pub proof fn law_close_keeps_account(
    state: StateView,
    files: Multiset<(Option<Seq<char>>, bool)>,
    file: FileView,
)
    requires
        accounts_for(state, files),
        files.count(entry(file)) > 0,
    ensures
        state.holds(file),
        accounts_for(released(state, file), files.remove(entry(file))),
{
    let after = released(state, file);
    let fewer = files.remove(entry(file));
    assert(fewer.len() == files.len() - 1);
    if let Some(n) = file.name {
        assert(state.count(n) == named(files, n));
        assert(state.open.contains_key(n) <==> named(files, n) > 0);
    }
    assert forall|n: Seq<char>| #[trigger] after.count(n) == named(fewer, n) by {
        assert(state.count(n) == named(files, n));
    }
    assert forall|n: Seq<char>| #[trigger]
        after.open.contains_key(n) <==> named(fewer, n) > 0 by {
        assert(state.open.contains_key(n) <==> named(files, n) > 0);
        assert(state.count(n) == named(files, n));
    }
    assert forall|n: Seq<char>| #[trigger]
        after.databases.contains(n) <==> fewer.count((Some(n), true)) > 0 by {
        assert(state.databases.contains(n) <==> files.count((Some(n), true)) > 0);
        assert(files.count((Some(n), true)) <= 1);
    }
    assert forall|n: Seq<char>| #[trigger] fewer.count((Some(n), true)) <= 1 by {
        assert(files.count((Some(n), true)) <= 1);
    }
}

/// Closing a file undoes opening it.
pub proof fn law_close_undoes_open(
    state: StateView,
    files: Multiset<(Option<Seq<char>>, bool)>,
    name: Option<Seq<char>>,
    options: OpenOptions,
)
    requires
        accounts_for(state, files),
        admission(state, name, options) is Ok,
    ensures
        released(registered(state, fresh_file(name, options)), fresh_file(name, options)) == state,
{
    let file = fresh_file(name, options);
    let back = released(registered(state, file), file);
    if let Some(n) = name {
        assert(state.count(n) == named(files, n));
        assert(state.open.contains_key(n) <==> named(files, n) > 0);
        assert(state.databases.contains(n) <==> files.count((Some(n), true)) > 0);
    }
    assert(back.open =~= state.open);
    assert(back.databases =~= state.databases);
}

/// A database has one connection: while a file is open by its name, opening it
/// as a main database is refused.
pub proof fn law_one_connection(
    state: StateView,
    files: Multiset<(Option<Seq<char>>, bool)>,
    name: Seq<char>,
    options: OpenOptions,
)
    requires
        accounts_for(state, files),
        named(files, name) > 0,
        options.main_db(),
    ensures
        admission(state, Some(name), options) is Err,
        physical_name(name) is Ok ==> (admission(state, Some(name), options) matches Err(e)
            && e.code == VfsErrorCode::Busy),
{
    assert(state.open.contains_key(name) <==> named(files, name) > 0);
}

/// A file that is not a main database is said to belong to one only if that is
/// open as such and the file's name is the database's with the suffix of its
/// kind.
pub proof fn law_group_is_certain(state: StateView, name: Seq<char>, kind: Option<FileKind>)
    requires
        kind != Some(FileKind::MainDb),
        group_of(state, name, kind).len() > 0,
    ensures
        state.databases.contains(group_of(state, name, kind)),
        kind == Some(FileKind::MainJournal) && name == group_of(state, name, kind) + "-journal"@
            || kind == Some(FileKind::Wal) && name == group_of(state, name, kind) + "-wal"@,
{
    if kind == Some(FileKind::MainJournal) {
        assert(name =~= group_of(state, name, kind) + "-journal"@);
    } else {
        assert(name =~= group_of(state, name, kind) + "-wal"@);
    }
}

/// A file can be deleted exactly while none is open by its name.
pub proof fn law_delete_when_closed(
    state: StateView,
    files: Multiset<(Option<Seq<char>>, bool)>,
    name: Seq<char>,
)
    requires
        accounts_for(state, files),
        physical_name(name) is Ok,
    ensures
        deletion(state, name) is Ok <==> named(files, name) == 0,
{
    assert(state.open.contains_key(name) <==> named(files, name) > 0);
}

/// Closing a failed file of OPFS is never reported as a success, whatever came
/// of closing its handle.
pub proof fn law_failed_file_never_closes_well(
    after: StateView,
    name: Option<Seq<char>>,
    file: FileView,
    reply: Result<(), ErrorView>,
    options: OpenOptions,
)
    requires
        file.memory is None,
        file.failed,
    ensures
        closing(after, name, file, reply, options) matches Err(e) && e.code
            == VfsErrorCode::IoClose,
{
}

/// Once every file is closed the table is the first one again.
pub proof fn law_all_closed(state: StateView)
    requires
        accounts_for(state, Multiset::empty()),
    ensures
        state == no_files(),
{
    let none: Multiset<(Option<Seq<char>>, bool)> = Multiset::empty();
    assert forall|n: Seq<char>| !(#[trigger] state.open.contains_key(n)) by {
        assert(state.open.contains_key(n) <==> named(none, n) > 0);
    }
    assert forall|n: Seq<char>| !(#[trigger] state.databases.contains(n)) by {
        assert(state.databases.contains(n) <==> none.count((Some(n), true)) > 0);
    }
    assert(state.open =~= Map::empty());
    assert(state.databases =~= Set::empty());
}

proof fn lemma_two_counts<T>(files: Multiset<T>, a: T, b: T)
    requires
        a != b,
    ensures
        files.count(a) + files.count(b) <= files.len(),
    decreases files.len(),
{
    if files.count(a) > 0 {
        lemma_two_counts(files.remove(a), a, b);
    } else if files.count(b) > 0 {
        lemma_two_counts(files.remove(b), a, b);
    }
}

/// While the number of files that are open can be counted up, so can that of
/// any one name.
pub proof fn law_room_for_all(
    state: StateView,
    files: Multiset<(Option<Seq<char>>, bool)>,
    name: Option<Seq<char>>,
)
    requires
        accounts_for(state, files),
        state.file_count < usize::MAX,
    ensures
        state.has_room(name),
{
    if let Some(n) = name {
        lemma_two_counts(files, (Some(n), true), (Some(n), false));
        assert(state.count(n) == named(files, n));
    }
}

/// A file is opened in OPFS as it was asked for: what is opened is the file of
/// that name, created if none is there exactly if that was asked for, and
/// refused if one is there exactly if that was asked for. For a temporary file
/// nothing is opened there, and for any other something is.
pub proof fn law_opens_as_asked(state: StateView, name: Seq<char>, options: OpenOptions)
    ensures
        admission(state, None, options) == Ok::<Option<OpenCallView>, ErrorView>(None),
        admission(state, Some(name), options) matches Ok(opening) ==> opening is Some,
        admission(state, Some(name), options) matches Ok(Some(call)) ==> {
            &&& call.create == options.create
            &&& call.exclusive == options.exclusive
            &&& physical_name(name) == Ok::<Seq<char>, ErrorView>(call.physical)
        },
{
}

/// An open is refused exactly where the name is, or where a main database is
/// asked for and a file is open by its name.
pub proof fn law_open_refusals(state: StateView, name: Seq<char>, options: OpenOptions)
    ensures
        admission(state, Some(name), options) is Err <==> physical_name(name) is Err || options.kind
            == Some(FileKind::MainDb) && state.open.contains_key(name),
        physical_name(name) matches Err(e) ==> admission(state, Some(name), options) == Err::<
            Option<OpenCallView>,
            ErrorView,
        >(e),
        physical_name(name) is Ok && admission(state, Some(name), options) is Err ==> admission(
            state,
            Some(name),
            options,
        ) == Err::<Option<OpenCallView>, ErrorView>(
            ErrorView { code: VfsErrorCode::Busy, message: "database is already open"@ },
        ),
{
}

/// Taking a suffix off undoes putting it on, and nothing else is taken off.
pub proof fn law_suffixes(base: Seq<char>, suffix: Seq<char>, name: Seq<char>)
    ensures
        without_suffix(base + suffix, suffix) == Some(base),
        without_suffix(name, suffix) matches Some(rest) ==> name == rest + suffix,
{
    assert((base + suffix).skip(base.len() as int) =~= suffix);
    assert((base + suffix).take(base.len() as int) =~= base);
    if let Some(rest) = without_suffix(name, suffix) {
        assert(name =~= rest + suffix);
    }
}

/// A main database is opened as its own group, a rollback journal and a
/// write-ahead log in that of the open main database whose name they extend, and
/// any other file in none.
pub proof fn law_groups(state: StateView, base: Seq<char>, name: Seq<char>, options: OpenOptions)
    requires
        admission(state, Some(name), options) is Ok,
    ensures
        ({
            let group = admission(state, Some(name), options)->Ok_0->0.group;
            let journal = options.kind == Some(FileKind::MainJournal);
            let wal = options.kind == Some(FileKind::Wal);
            &&& options.kind == Some(FileKind::MainDb) ==> group == name
            &&& journal && name == base + "-journal"@ ==> group == (if state.databases.contains(
                base,
            ) {
                base
            } else {
                Seq::empty()
            })
            &&& wal && name == base + "-wal"@ ==> group == (if state.databases.contains(base) {
                base
            } else {
                Seq::empty()
            })
            &&& group.len() > 0 && journal ==> name == group + "-journal"@
            &&& group.len() > 0 && wal ==> name == group + "-wal"@
            &&& group.len() > 0 ==> options.kind == Some(FileKind::MainDb) || journal || wal
        }),
{
    law_suffixes(base, "-journal"@, name);
    law_suffixes(base, "-wal"@, name);
}

/// JavaScript is told what a file is by its kind alone: main databases, rollback
/// journals, super-journals and write-ahead logs are told from each other and
/// from any other file.
pub proof fn law_roles(state: StateView, name: Seq<char>, options: OpenOptions)
    requires
        admission(state, Some(name), options) is Ok,
    ensures
        ({
            let role = admission(state, Some(name), options)->Ok_0->0.role;
            &&& role == "database"@ <==> options.kind == Some(FileKind::MainDb)
            &&& role == "journal"@ <==> options.kind == Some(FileKind::MainJournal)
            &&& role == "super-journal"@ <==> options.kind == Some(FileKind::SuperJournal)
            &&& role == "wal"@ <==> options.kind == Some(FileKind::Wal)
            &&& role == "database"@ || role == "journal"@ || role == "super-journal"@ || role
                == "wal"@ || role == "other"@
        }),
{
    reveal_strlit("database");
    reveal_strlit("journal");
    reveal_strlit("super-journal");
    reveal_strlit("wal");
    reveal_strlit("other");
    assert("database"@.len() == 8);
    assert("journal"@.len() == 7);
    assert("super-journal"@.len() == 13);
    assert("wal"@.len() == 3);
    assert("other"@.len() == 5);
}

/// What is deleted is the file that was named, exactly if its name is accepted
/// and no file is open by it.
pub proof fn law_deletes_what_is_named(state: StateView, name: Seq<char>)
    ensures
        deletion(state, name) is Ok <==> physical_name(name) is Ok && !state.open.contains_key(
            name,
        ),
        deletion(state, name) is Ok ==> deletion(state, name) == physical_name(name),
        state.open.contains_key(name) ==> deletion(state, name) == Err::<Seq<char>, ErrorView>(
            ErrorView { code: VfsErrorCode::IoDelete, message: "file is open"@ },
        ),
        !state.open.contains_key(name) && physical_name(name) is Err ==> deletion(state, name)
            == physical_name(name),
{
}

/// Opening a name and deleting it speak of the same file in OPFS, whatever else
/// happened in between, and deleting any other name speaks of another file.
pub proof fn law_same_file(
    state: StateView,
    later: StateView,
    name: Seq<char>,
    other: Seq<char>,
    options: OpenOptions,
)
    requires
        admission(state, Some(name), options) is Ok,
        deletion(later, other) is Ok,
    ensures
        deletion(later, other)->Ok_0 == admission(state, Some(name), options)->Ok_0->0.physical
            <==> name == other,
{
    if deletion(later, other)->Ok_0 == admission(state, Some(name), options)->Ok_0->0.physical {
        law_names_injective(name, other);
    }
}

/// A close fails exactly with the failure of its publication, or of the deletion
/// that was asked for. One that succeeds asks for a deletion exactly where the
/// file has a name and was opened to be deleted on close, and then for that of
/// the file named.
pub proof fn law_closes_as_asked(
    after: StateView,
    name: Option<Seq<char>>,
    file: FileView,
    reply: Result<(), ErrorView>,
    options: OpenOptions,
)
    ensures
        ({
            let published = publication_outcome(file, reply, VfsErrorCode::IoClose);
            let closed = closing(after, name, file, reply, options);
            let doomed = options.delete_on_close && name is Some;
            &&& published matches Err(e) ==> closed == Err::<Option<Seq<char>>, ErrorView>(e)
            &&& published is Ok && !doomed ==> closed == Ok::<Option<Seq<char>>, ErrorView>(None)
            &&& published is Ok && doomed ==> (closed is Ok <==> physical_name(name->0) is Ok
                && !after.open.contains_key(name->0))
            &&& closed matches Ok(Some(physical)) ==> doomed && physical_name(name->0) == Ok::<
                Seq<char>,
                ErrorView,
            >(physical)
            &&& closed is Ok && doomed ==> closed->Ok_0 is Some
            &&& published is Ok && closed is Err && after.open.contains_key(name->0)
                ==> closed->Err_0.code == VfsErrorCode::IoDelete
        }),
{
}

/// A file that is opened and closed without a failure asks for nothing but what
/// it was opened for: unless it was to be deleted on close, nothing is deleted.
pub proof fn law_close_keeps_the_file(
    state: StateView,
    name: Option<Seq<char>>,
    options: OpenOptions,
)
    requires
        !options.delete_on_close,
    ensures
        closing(
            released(registered(state, fresh_file(name, options)), fresh_file(name, options)),
            name,
            fresh_file(name, options),
            Ok(()),
            options,
        ) == Ok::<Option<Seq<char>>, ErrorView>(None),
{
}

/// What the library refuses of itself carries the code with which JavaScript
/// would fail at the same.
pub proof fn law_refusals_have_the_code_of_the_operation(
    state: StateView,
    file: FileView,
    name: Seq<char>,
    length: nat,
    at: nat,
    number: Option<i128>,
)
    requires
        !file.read_only,
    ensures
        read_step(file, length, at) matches Err(e) ==> e.code == default_code(Operation::Read),
        stored_write_step(length, at) matches Err(e) ==> e.code == default_code(Operation::Write),
        !file.failed ==> (truncate_step(file, at) matches Err(e) ==> e.code == default_code(
            Operation::Truncate,
        )),
        sync_step(file) matches Err(e) ==> e.code == default_code(Operation::Sync),
        stored_size(number) matches Err(e) ==> e.code == default_code(Operation::Size),
        physical_name(name) matches Err(e) ==> e.code == default_code(Operation::Open),
        directory_path(name) matches Err(e) ==> e.code == default_code(Operation::Acquire),
        physical_name(name) is Ok ==> (deletion(state, name) matches Err(e) ==> e.code
            == default_code(Operation::Remove)),
        default_code(Operation::Close) == VfsErrorCode::IoClose,
        default_code(Operation::Release) == default_code(Operation::Close),
        default_code(Operation::Exists) == VfsErrorCode::IoAccess,
{
}

/// A call to open a file says what its fields hold, and a name says itself
/// where there is one.
pub proof fn law_calls_say_what_they_hold(call: OpenCall, owned: Option<String>, name: Option<&str>)
    ensures
        call@.physical == call.physical@,
        call@.create == call.create,
        call@.exclusive == call.exclusive,
        call@.role == call.role@,
        call@.group == call.group@,
        optional_text(owned) is Some <==> owned is Some,
        owned matches Some(text) ==> optional_text(owned) == Some(text@),
        optional_slice(name) is Some <==> name is Some,
        name matches Some(text) ==> optional_slice(name) == Some(text@),
{
}

} // verus!
