use async_lock::Mutex;
use rsqlite_vfs::{RegisterVfsError, VfsErrorCode as HostCode};
use sqlite_wasm_vfs::error::{error, VfsErrorCode};
use sqlite_wasm_vfs::guard::{with_sqlite, CleanupQueue, Entry, SqliteGuard};
use sqlite_wasm_vfs::install::{
    install, InstallAction, InstallError, InstallEvent, Installation, OpfsJspi, RegistrationError,
    UninstallStep,
};
use sqlite_wasm_vfs::options::{FileKind, OpenAccess, OpenOptions};
use sqlite_wasm_vfs::store::State;

fn mutex() -> &'static Mutex<()> {
    Box::leak(Box::new(Mutex::new(())))
}

fn refused() -> RegisterVfsError {
    RegisterVfsError::RegisterVfs(HostCode::Busy)
}

fn step(stage: Installation, event: InstallEvent) -> (Installation, InstallAction) {
    assert!(stage.awaits(&event));
    stage.step(event)
}

fn main_db() -> OpenOptions {
    OpenOptions {
        kind: Some(FileKind::MainDb),
        access: OpenAccess::ReadWrite,
        create: true,
        exclusive: false,
        delete_on_close: false,
    }
}

#[test]
fn installs() {
    let (stage, action) = install("opfs-jspi", "//my-app//jspi", true);
    assert!(matches!(action, InstallAction::LookUp(name) if name == "opfs-jspi"));
    assert!(!stage.awaits(&InstallEvent::Released));
    assert!(!stage.awaits(&InstallEvent::Acquired(Ok(()))));
    let (stage, action) = step(stage, InstallEvent::LookedUp(Ok(false)));
    assert!(matches!(action, InstallAction::Acquire(path) if path == "my-app/jspi"));
    let (stage, action) = step(stage, InstallEvent::Acquired(Ok(())));
    assert!(matches!(
        action,
        InstallAction::Register { name, default_vfs: true } if name == "opfs-jspi"
    ));
    let (stage, action) = step(stage, InstallEvent::Registered(Ok(())));
    assert!(matches!(action, InstallAction::Finish));
    assert!(matches!(stage, Installation::Installed));
    assert!(!stage.awaits(&InstallEvent::Registered(Ok(()))));
}

#[test]
fn names_sqlite_cannot_take_are_refused_at_once() {
    let (stage, action) = install("", "", false);
    assert!(matches!(stage, Installation::Failed));
    assert!(matches!(
        action,
        InstallAction::Fail(InstallError::Registration(RegistrationError::EmptyName))
    ));
    let (_, action) = install("a\0b", "dir", false);
    assert!(matches!(
        action,
        InstallAction::Fail(InstallError::Registration(RegistrationError::ToCStr))
    ));
}

#[test]
fn taken_names_are_refused_before_the_directory_is_looked_at() {
    let (stage, _) = install("jspi", "..", false);
    let (stage, action) = step(stage, InstallEvent::LookedUp(Ok(true)));
    assert!(matches!(
        action,
        InstallAction::Fail(InstallError::Registration(
            RegistrationError::NameConflict(name)
        )) if name == "jspi"
    ));
    assert!(matches!(stage, Installation::Failed));
    let (stage, _) = install("jspi", "..", false);
    let (_, action) = step(stage, InstallEvent::LookedUp(Err(RegisterVfsError::ToCStr)));
    assert!(matches!(
        action,
        InstallAction::Fail(InstallError::Registration(RegistrationError::Sqlite(
            RegisterVfsError::ToCStr
        )))
    ));
}

#[test]
fn directories_that_are_not_normal_are_not_leased() {
    let (stage, _) = install("jspi", "a/../b", false);
    let (_, action) = step(stage, InstallEvent::LookedUp(Ok(false)));
    match action {
        InstallAction::Fail(InstallError::Storage(e)) => {
            assert_eq!(e.code, VfsErrorCode::CantOpen);
            assert_eq!(e.message, "invalid OPFS directory");
        }
        _ => panic!("installed"),
    }
}

#[test]
fn a_directory_in_use_is_reported() {
    let (stage, _) = install("jspi", "a", false);
    let (stage, _) = step(stage, InstallEvent::LookedUp(Ok(false)));
    let busy = error(VfsErrorCode::Busy, "leased");
    let (stage, action) = step(stage, InstallEvent::Acquired(Err(busy)));
    assert!(matches!(
        action,
        InstallAction::Fail(InstallError::Storage(e)) if e.code == VfsErrorCode::Busy
    ));
    assert!(matches!(stage, Installation::Failed));
}

#[test]
fn a_refused_registration_gives_the_lease_back_first() {
    let (stage, _) = install("jspi", "a", false);
    let (stage, _) = step(stage, InstallEvent::LookedUp(Ok(false)));
    let (stage, action) = step(stage, InstallEvent::Acquired(Ok(())));
    assert!(matches!(action, InstallAction::Register { default_vfs: false, .. }));
    let (stage, action) = step(stage, InstallEvent::Registered(Err(refused())));
    assert!(matches!(action, InstallAction::Release));
    let (stage, action) = step(stage, InstallEvent::Released);
    assert!(matches!(stage, Installation::Failed));
    assert!(matches!(
        action,
        InstallAction::Fail(InstallError::Registration(RegistrationError::Sqlite(
            RegisterVfsError::RegisterVfs(HostCode::Busy)
        )))
    ));
}

#[test]
fn files_are_managed_while_installed() {
    let mut state = State::new();
    let vfs = OpfsJspi::new();
    assert!(vfs.registered());
    assert_eq!(vfs.remove(&state, "a").unwrap(), "f-61");
    assert_eq!(vfs.contains(&state, "a").unwrap(), "f-61");
    let _file = state.opened(Some("a"), main_db());
    assert_eq!(vfs.remove(&state, "a").unwrap_err().code, VfsErrorCode::IoDelete);
    assert_eq!(vfs.contains(&state, "a").unwrap(), "f-61");
    assert_eq!(vfs.contains(&state, "a/b").unwrap_err().code, VfsErrorCode::CantOpen);
}

#[test]
fn open_files_keep_it_installed() {
    let mut state = State::new();
    let file = state.opened(None, main_db());
    let mut vfs = OpfsJspi::new();
    match vfs.uninstall(&state) {
        Err(InstallError::Storage(e)) => {
            assert_eq!(e.code, VfsErrorCode::Busy);
            assert_eq!(e.message, "VFS has open files");
        }
        _ => panic!("uninstalled"),
    }
    assert!(vfs.registered());
    state.release(&file);
    assert!(matches!(vfs.uninstall(&state), Ok(UninstallStep::Unregister)));
}

#[test]
fn once_out_it_stays_out() {
    let mut state = State::new();
    let mut vfs = OpfsJspi::new();
    assert!(matches!(vfs.uninstall(&state), Ok(UninstallStep::Unregister)));
    assert!(vfs.unregistered(Ok(())).is_ok());
    assert!(vfs.released(Ok(())).is_ok());
    assert!(!vfs.registered());
    for refusal in [vfs.remove(&state, "a"), vfs.contains(&state, "a")] {
        let refusal = refusal.unwrap_err();
        assert_eq!(refusal.code, VfsErrorCode::Misuse);
        assert_eq!(refusal.message, "VFS is uninstalled");
    }
    assert!(matches!(vfs.uninstall(&state), Ok(UninstallStep::Done)));
    let _file = state.opened(None, main_db());
    assert!(vfs.uninstall(&state).is_err());
}

#[test]
fn a_refused_unregistration_leaves_it_installed() {
    let state = State::new();
    let mut vfs = OpfsJspi::new();
    assert!(vfs.uninstall(&state).is_ok());
    assert!(matches!(
        vfs.unregistered(Err(refused())),
        Err(InstallError::Registration(RegistrationError::Sqlite(_)))
    ));
    assert!(vfs.registered());
    assert!(vfs.remove(&state, "a").is_ok());
    assert!(matches!(vfs.uninstall(&state), Ok(UninstallStep::Unregister)));
}

#[test]
fn a_lease_that_is_not_given_back_is_reported() {
    let state = State::new();
    let mut vfs = OpfsJspi::new();
    assert!(vfs.uninstall(&state).is_ok());
    assert!(vfs.unregistered(Ok(())).is_ok());
    assert!(matches!(
        vfs.released(Err(error(VfsErrorCode::IoClose, "lost"))),
        Err(InstallError::Storage(e)) if e.code == VfsErrorCode::IoClose
    ));
    assert!(!vfs.registered());
}

#[test]
fn one_operation_enters_at_a_time() {
    let mutex = mutex();
    let mut queue: CleanupQueue<&str> = CleanupQueue::new();
    let guard = match SqliteGuard::lock(mutex, &mut queue) {
        Entry::Entered(guard) => guard,
        _ => panic!("not entered"),
    };
    queue.defer("late");
    assert!(matches!(SqliteGuard::lock(mutex, &mut queue), Entry::Contended));
    drop(guard);
    let guard = match SqliteGuard::lock(mutex, &mut queue) {
        Entry::Cleanup { guard, cleanup } => {
            assert_eq!(cleanup, "late");
            guard
        }
        _ => panic!("cleanup skipped"),
    };
    assert!(matches!(SqliteGuard::lock(mutex, &mut queue), Entry::Contended));
    assert!(matches!(guard.drain(&mut queue), Entry::Entered(_)));
    assert!(matches!(SqliteGuard::lock(mutex, &mut queue), Entry::Entered(_)));
}

#[test]
fn whoever_waited_for_the_mutex_enters_with_its_guard() {
    let mutex = mutex();
    let mut queue: CleanupQueue<u8> = CleanupQueue::new();
    assert!(matches!(SqliteGuard::proceed(None, &mut queue), Entry::Contended));
    let entry = SqliteGuard::proceed(mutex.try_lock(), &mut queue);
    assert!(matches!(entry, Entry::Entered(_)));
    assert!(mutex.try_lock().is_none());
    drop(entry);
    assert!(mutex.try_lock().is_some());
}

#[test]
fn nested_cleanup_runs_before_the_operation() {
    let mut queue: CleanupQueue<&str> = CleanupQueue::new();
    queue.defer("outer");
    queue.defer("second");
    let mut order = Vec::new();
    let mut entry = SqliteGuard::lock(mutex(), &mut queue);
    while let Entry::Cleanup { guard, cleanup } = entry {
        order.push(cleanup);
        if cleanup == "outer" {
            queue.defer("inner");
        }
        entry = guard.drain(&mut queue);
    }
    assert!(matches!(entry, Entry::Entered(_)));
    assert_eq!(order, ["outer", "second", "inner"]);
}

#[test]
fn with_sqlite_holds_the_guard() {
    let mutex = mutex();
    let mut queue: CleanupQueue<u8> = CleanupQueue::new();
    let guard = match SqliteGuard::lock(mutex, &mut queue) {
        Entry::Entered(guard) => guard,
        _ => panic!("not entered"),
    };
    let r = with_sqlite(guard, |_| (mutex.try_lock().is_none(), 7));
    assert_eq!(r.unwrap(), (true, 7));
    assert!(mutex.try_lock().is_some());
}

#[test]
fn a_taken_name_is_refused_for_every_directory() {
    for directory in ["a", "//b/c", "..", ""] {
        for default_vfs in [false, true] {
            let (stage, _) = install("jspi", directory, default_vfs);
            let (stage, action) = step(stage, InstallEvent::LookedUp(Ok(true)));
            assert!(matches!(stage, Installation::Failed));
            assert!(matches!(
                action,
                InstallAction::Fail(InstallError::Registration(
                    RegistrationError::NameConflict(name)
                )) if name == "jspi"
            ));
        }
    }
}
