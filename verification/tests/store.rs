use sqlite_wasm_vfs::error::{error, VfsErrorCode};
use sqlite_wasm_vfs::file::{File, PublishStep};
use sqlite_wasm_vfs::options::{FileKind, OpenAccess, OpenOptions};
use sqlite_wasm_vfs::store::State;

fn options(kind: Option<FileKind>) -> OpenOptions {
    OpenOptions {
        kind,
        access: OpenAccess::ReadWrite,
        create: true,
        exclusive: false,
        delete_on_close: false,
    }
}

fn main_db() -> OpenOptions {
    options(Some(FileKind::MainDb))
}

fn open(state: &mut State, name: &str, options: OpenOptions) -> File {
    assert!(state.open_file(Some(name), options).unwrap().is_some());
    assert!(state.has_room(Some(name)));
    state.opened(Some(name), options)
}

fn call(state: &State, name: &str, kind: Option<FileKind>) -> (&'static str, String) {
    let call = state.open_file(Some(name), options(kind)).unwrap().unwrap();
    (call.role, call.group)
}

#[test]
fn open_requests_name_the_file_in_opfs() {
    let state = State::new();
    let mut wanted = main_db();
    wanted.exclusive = true;
    let call = state.open_file(Some("a.db"), wanted).unwrap().unwrap();
    assert_eq!(call.physical, "f-612e6462");
    assert!(call.create && call.exclusive);
    assert_eq!(call.role, "database");
    assert_eq!(call.group, "a.db");
    wanted.create = false;
    wanted.exclusive = false;
    let call = state.open_file(Some("a.db"), wanted).unwrap().unwrap();
    assert!(!call.create && !call.exclusive);
}

#[test]
fn open_requests_for_names_that_are_not_flat_are_refused() {
    let state = State::new();
    let refusal = state.open_file(Some("../invalid"), main_db()).unwrap_err();
    assert_eq!(refusal.code, VfsErrorCode::CantOpen);
    assert_eq!(state.access("../invalid").unwrap_err().code, VfsErrorCode::CantOpen);
    assert_eq!(state.delete_file("../invalid").unwrap_err().code, VfsErrorCode::CantOpen);
}

#[test]
fn roles_follow_the_kind() {
    let state = State::new();
    let roles = [
        (Some(FileKind::MainDb), "database"),
        (Some(FileKind::MainJournal), "journal"),
        (Some(FileKind::SuperJournal), "super-journal"),
        (Some(FileKind::Wal), "wal"),
        (Some(FileKind::TempDb), "other"),
        (Some(FileKind::TransientDb), "other"),
        (Some(FileKind::TempJournal), "other"),
        (Some(FileKind::SubJournal), "other"),
        (None, "other"),
    ];
    for (kind, role) in roles {
        assert_eq!(call(&state, "x", kind).0, role);
    }
}

#[test]
fn sidecars_belong_to_open_databases() {
    let mut state = State::new();
    let journal = Some(FileKind::MainJournal);
    let wal = Some(FileKind::Wal);
    assert_eq!(call(&state, "scope-a.db-journal", journal).1, "");
    let a = open(&mut state, "scope-a.db", main_db());
    let b = open(&mut state, "scope-b.db", main_db());
    assert_eq!(call(&state, "scope-a.db-journal", journal).1, "scope-a.db");
    assert_eq!(call(&state, "scope-b.db-wal", wal).1, "scope-b.db");
    assert_eq!(call(&state, "scope-a.db-wal", journal).1, "");
    assert_eq!(call(&state, "scope-a.db-journal", wal).1, "");
    assert_eq!(call(&state, "scope-c.db-journal", journal).1, "");
    assert_eq!(call(&state, "-journal", journal).1, "");
    assert_eq!(call(&state, "wal", wal).1, "");
    assert_eq!(call(&state, "scope-a.db-mj", Some(FileKind::SuperJournal)).1, "");
    assert_eq!(call(&state, "scope-a.db-journal", None).1, "");
    state.release(&a);
    assert_eq!(call(&state, "scope-a.db-journal", journal).1, "");
    state.release(&b);
    let plain = open(&mut state, "scope-a.db", options(None));
    assert_eq!(call(&state, "scope-a.db-journal", journal).1, "");
    state.release(&plain);
}

#[test]
fn one_connection_per_database() {
    let mut state = State::new();
    let file = open(&mut state, "main.db", main_db());
    let refusal = state.open_file(Some("main.db"), main_db()).unwrap_err();
    assert_eq!(refusal.code, VfsErrorCode::Busy);
    assert_eq!(refusal.message, "database is already open");
    assert!(state.open_file(Some("Main.db"), main_db()).is_ok());
    state.release(&file);
    let other = open(&mut state, "main.db", options(Some(FileKind::Wal)));
    assert_eq!(
        state.open_file(Some("main.db"), main_db()).unwrap_err().code,
        VfsErrorCode::Busy
    );
    state.release(&other);
    assert!(state.open_file(Some("main.db"), main_db()).is_ok());
}

#[test]
fn closing_undoes_opening() {
    let mut state = State::new();
    assert_eq!(state.file_count(), 0);
    let a = open(&mut state, "j", options(None));
    let b = open(&mut state, "j", options(None));
    assert_eq!((state.file_count(), state.count("j")), (2, 2));
    let db = open(&mut state, "d", main_db());
    assert!(db.is_database() && state.is_database("d"));
    assert!(!a.is_database() && !state.is_database("j"));
    state.release(&db);
    assert!(!state.is_database("d"));
    assert_eq!((state.file_count(), state.count("d")), (2, 0));
    state.release(&a);
    assert_eq!((state.file_count(), state.count("j")), (1, 1));
    assert_eq!(state.delete_file("j").unwrap_err().code, VfsErrorCode::IoDelete);
    assert!(state.holds(&b));
    state.release(&b);
    assert_eq!((state.file_count(), state.count("j")), (0, 0));
    assert!(!state.holds(&b));
    assert_eq!(state.delete_file("j").unwrap(), "f-6a");
}

#[test]
fn temporary_files_are_counted() {
    let mut state = State::new();
    assert!(state.open_file(None, options(Some(FileKind::TempDb))).unwrap().is_none());
    assert!(state.has_room(None));
    let file = state.opened(None, options(Some(FileKind::TempDb)));
    assert_eq!(file.name(), None);
    assert_eq!(state.file_count(), 1);
    assert!(matches!(file.publish(VfsErrorCode::IoClose), PublishStep::Done));
    let mut wanted = options(Some(FileKind::TempDb));
    wanted.delete_on_close = true;
    assert!(state.close_file(None, file, Ok(()), wanted).unwrap().is_none());
    assert_eq!(state.file_count(), 0);
}

#[test]
fn open_files_are_not_deleted() {
    let mut state = State::new();
    assert_eq!(state.delete_file("a").unwrap(), "f-61");
    let file = open(&mut state, "a", options(None));
    let refusal = state.delete_file("a").unwrap_err();
    assert_eq!(refusal.code, VfsErrorCode::IoDelete);
    assert_eq!(refusal.message, "file is open");
    state.release(&file);
    assert_eq!(state.delete_file("a").unwrap(), "f-61");
}

#[test]
fn files_are_deleted_on_close() {
    let mut state = State::new();
    let mut wanted = options(Some(FileKind::MainJournal));
    wanted.delete_on_close = true;
    let file = open(&mut state, "temporary", wanted);
    let deleted = state.close_file(Some("temporary"), file, Ok(()), wanted).unwrap();
    assert_eq!(deleted.as_deref(), Some("f-74656d706f72617279"));
    assert_eq!(state.file_count(), 0);

    let first = open(&mut state, "temporary", wanted);
    let second = open(&mut state, "temporary", wanted);
    let refusal = state.close_file(Some("temporary"), first, Ok(()), wanted).unwrap_err();
    assert_eq!(refusal.code, VfsErrorCode::IoDelete);
    assert_eq!(state.count("temporary"), 1);
    assert!(state.close_file(Some("temporary"), second, Ok(()), wanted).is_ok());
}

#[test]
fn a_failed_close_deletes_nothing_and_lets_go() {
    let mut state = State::new();
    let mut wanted = main_db();
    wanted.delete_on_close = true;
    let file = open(&mut state, "a", wanted);
    let outcome = Err(error(VfsErrorCode::IoClose, "lost"));
    let failure = state.close_file(Some("a"), file, outcome, wanted).unwrap_err();
    assert_eq!((failure.code, failure.message.as_str()), (VfsErrorCode::IoClose, "lost"));
    assert_eq!((state.file_count(), state.count("a")), (0, 0));
    assert!(state.open_file(Some("a"), wanted).is_ok());

    let file = open(&mut state, "a", main_db());
    assert!(state.close_file(Some("a"), file, Ok(()), main_db()).unwrap().is_none());
}

#[test]
fn failures_are_not_taken_for_absence() {
    assert_eq!(State::new().access("a").unwrap(), "f-61");
    assert!(State::finish_access(Ok(Some(true))).unwrap());
    assert!(!State::finish_access(Ok(Some(false))).unwrap());
    assert!(!State::finish_access(Ok(None)).unwrap());
    let failure = State::finish_access(Err(error(VfsErrorCode::IoAccess, "lost")));
    assert_eq!(failure.unwrap_err().code, VfsErrorCode::IoAccess);
}

#[test]
fn a_failed_file_never_closes_well() {
    let mut state = State::new();
    let mut wanted = options(Some(FileKind::MainJournal));
    wanted.delete_on_close = true;
    let mut file = open(&mut state, "a", wanted);
    assert!(file.finish(Err(error(VfsErrorCode::Full, "lost"))).is_err());
    let failure = state.close_file(Some("a"), file, Ok(()), wanted).unwrap_err();
    assert_eq!(failure.code, VfsErrorCode::IoClose);
    assert_eq!(failure.message, "previous write or publication failed");
    assert_eq!((state.file_count(), state.count("a")), (0, 0));
}
