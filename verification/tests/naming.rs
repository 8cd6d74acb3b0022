use rsqlite_vfs as host;
use sqlite_wasm_vfs::error::{error, error_from_raw, LastError, VfsErrorCode};
use sqlite_wasm_vfs::naming::{directory, filename, full_pathname};
use sqlite_wasm_vfs::script::{
    code_of, offset, settle, Operation, Rejection, MAX_SAFE_INTEGER,
};

fn rejection(name: Option<&str>, message: Option<&str>) -> Result<u8, Rejection> {
    Err(Rejection {
        name: name.map(String::from),
        message: message.map(String::from),
        printed: String::from("JsValue(7)"),
    })
}

#[test]
fn names_are_hex_encoded() {
    assert_eq!(filename("a").unwrap(), "f-61");
    assert_eq!(filename("main.db").unwrap(), "f-6d61696e2e6462");
    assert_eq!(filename("é").unwrap(), "f-c3a9");
    assert_eq!(filename("\u{7f}\u{1}").unwrap(), "f-7f01");
    assert_eq!(filename("...").unwrap(), "f-2e2e2e");
    assert_eq!(filename(" ").unwrap(), "f-20");
}

#[test]
fn every_hex_digit_is_used() {
    assert_eq!(
        filename("\u{1}#Eg|\u{5}*K\u{1e}=o").unwrap(),
        "f-012345677c052a4b1e3d6f"
    );
    assert_eq!(filename("ÿ").unwrap(), "f-c3bf");
    assert_eq!(filename("\u{88}\u{99}\u{ad}").unwrap(), "f-c288c299c2ad");
}

#[test]
fn names_that_are_not_flat_are_refused() {
    for name in [
        "", ".", "..", "../invalid", "a/b", "/", "a\\b", "a\0b", "\0", "/a", "a/",
    ] {
        let refusal = filename(name).unwrap_err();
        assert_eq!(refusal.code, VfsErrorCode::CantOpen);
        assert_eq!(
            refusal.message,
            "expected a flat filename of 1..120 UTF-8 bytes"
        );
        assert_eq!(full_pathname(name).unwrap_err().code, VfsErrorCode::CantOpen);
    }
}

#[test]
fn names_are_measured_in_bytes() {
    assert_eq!(filename(&"x".repeat(120)).unwrap().len(), 242);
    assert!(filename(&"x".repeat(121)).is_err());
    assert!(filename(&"é".repeat(60)).is_ok());
    assert!(filename(&"é".repeat(61)).is_err());
}

#[test]
fn names_are_case_sensitive_and_distinct() {
    let names = ["a", "A", "b", "aa", "f-61", "é", "e\u{301}"];
    for (i, a) in names.iter().enumerate() {
        for b in &names[i + 1..] {
            assert_ne!(filename(a).unwrap(), filename(b).unwrap());
        }
    }
}

#[test]
fn database_names_leave_room_for_sidecars() {
    let longest = "x".repeat(100);
    assert_eq!(full_pathname(&longest).unwrap(), longest);
    assert!(filename(&format!("{longest}-journal")).is_ok());
    assert!(filename(&format!("{longest}-wal")).is_ok());
    let refusal = full_pathname(&"x".repeat(101)).unwrap_err();
    assert_eq!(refusal.code, VfsErrorCode::CantOpen);
    assert_eq!(refusal.message, "database name exceeds 100 UTF-8 bytes");
    assert_eq!(full_pathname("main.db").unwrap(), "main.db");
}

#[test]
fn directories_are_normalized() {
    assert_eq!(directory("my-app").unwrap(), "my-app");
    assert_eq!(directory("/my-app").unwrap(), "my-app");
    assert_eq!(directory("//a///b/c//").unwrap(), "a/b/c");
    assert_eq!(directory("a/.b/...").unwrap(), "a/.b/...");
    assert_eq!(directory(&directory("//a///b").unwrap()).unwrap(), "a/b");
}

#[test]
fn directories_that_are_not_normal_are_refused() {
    for path in [
        "", "/", "///", ".", "..", "a/..", "./a", "a//../b", "a\\b", "a/b\0",
    ] {
        let refusal = directory(path).unwrap_err();
        assert_eq!(refusal.code, VfsErrorCode::CantOpen);
        assert_eq!(refusal.message, "invalid OPFS directory");
    }
}

#[test]
fn offsets_stay_within_safe_integers() {
    assert_eq!(MAX_SAFE_INTEGER, (1u64 << 53) - 1);
    assert_eq!(offset(0, 0, VfsErrorCode::IoRead).unwrap(), 0);
    assert_eq!(
        offset(MAX_SAFE_INTEGER, 0, VfsErrorCode::IoRead).unwrap(),
        MAX_SAFE_INTEGER
    );
    assert_eq!(
        offset(MAX_SAFE_INTEGER - 5, 5, VfsErrorCode::IoRead).unwrap(),
        MAX_SAFE_INTEGER - 5
    );
    for (at, length) in [(MAX_SAFE_INTEGER, 1), (1 << 53, 0), (u64::MAX, 1), (u64::MAX, 0)] {
        let refusal = offset(at, length, VfsErrorCode::IoWrite).unwrap_err();
        assert_eq!(refusal.code, VfsErrorCode::IoWrite);
        assert_eq!(
            refusal.message,
            "offset exceeds JavaScript's safe integer range"
        );
    }
}

#[test]
fn settled_values_pass() {
    assert_eq!(settle(Ok(7u8), VfsErrorCode::IoRead).unwrap(), 7);
}

#[test]
fn rejections_get_result_codes() {
    let cases = [
        ("QuotaExceededError", VfsErrorCode::IoSync, VfsErrorCode::Full),
        ("QuotaExceededError", VfsErrorCode::CantOpen, VfsErrorCode::Full),
        ("NoModificationAllowedError", VfsErrorCode::CantOpen, VfsErrorCode::Busy),
        ("NoModificationAllowedError", VfsErrorCode::IoWrite, VfsErrorCode::IoWrite),
        ("NotFoundError", VfsErrorCode::IoDelete, VfsErrorCode::IoDeleteNoEntry),
        ("NotFoundError", VfsErrorCode::CantOpen, VfsErrorCode::CantOpen),
        ("TypeError", VfsErrorCode::IoAccess, VfsErrorCode::IoAccess),
    ];
    for (name, code, expected) in cases {
        let failure = settle(rejection(Some(name), Some("no")), code).unwrap_err();
        assert_eq!(failure.code, expected);
        assert_eq!(failure.message, format!("OPFS {name}: no"));
    }
}

#[test]
fn rejections_without_a_name_or_message_are_described() {
    let failure = settle(rejection(None, None), VfsErrorCode::IoStat).unwrap_err();
    assert_eq!(failure.code, VfsErrorCode::IoStat);
    assert_eq!(failure.message, "OPFS error: JsValue(7)");
    let failure = settle(rejection(None, Some("gone")), VfsErrorCode::IoStat).unwrap_err();
    assert_eq!(failure.message, "OPFS error: gone");
    let failure = settle(rejection(Some("NotFoundError"), None), VfsErrorCode::IoDelete);
    let failure = failure.unwrap_err();
    assert_eq!(failure.code, VfsErrorCode::IoDeleteNoEntry);
    assert_eq!(failure.message, "OPFS NotFoundError: JsValue(7)");
}

#[test]
fn result_codes_are_those_of_sqlite() {
    let codes = [
        (VfsErrorCode::Busy, host::VfsErrorCode::Busy),
        (VfsErrorCode::NoMemory, host::VfsErrorCode::NoMemory),
        (VfsErrorCode::ReadOnly, host::VfsErrorCode::ReadOnly),
        (VfsErrorCode::Full, host::VfsErrorCode::Full),
        (VfsErrorCode::CantOpen, host::VfsErrorCode::CantOpen),
        (VfsErrorCode::Misuse, host::VfsErrorCode::Misuse),
        (VfsErrorCode::IoRead, host::VfsErrorCode::IoRead),
        (VfsErrorCode::IoWrite, host::VfsErrorCode::IoWrite),
        (VfsErrorCode::IoSync, host::VfsErrorCode::IoSync),
        (VfsErrorCode::IoTruncate, host::VfsErrorCode::IoTruncate),
        (VfsErrorCode::IoStat, host::VfsErrorCode::IoStat),
        (VfsErrorCode::IoDelete, host::VfsErrorCode::IoDelete),
        (VfsErrorCode::IoAccess, host::VfsErrorCode::IoAccess),
        (VfsErrorCode::IoClose, host::VfsErrorCode::IoClose),
        (VfsErrorCode::IoDeleteNoEntry, host::VfsErrorCode::IoDeleteNoEntry),
    ];
    for (code, theirs) in codes {
        assert_eq!(code.as_raw(), theirs.as_raw());
        assert_eq!(VfsErrorCode::from_raw(code.as_raw()), code);
    }
    assert_eq!(VfsErrorCode::from_raw(1), VfsErrorCode::Other(1));
    assert_eq!(VfsErrorCode::Other(1).as_raw(), 1);
}

#[test]
fn errors_carry_code_and_diagnostic() {
    let failure = error(VfsErrorCode::Misuse, "no");
    assert_eq!((failure.code, failure.message.as_str()), (VfsErrorCode::Misuse, "no"));
    let failure = error_from_raw(13, "full up");
    assert_eq!((failure.code, failure.message.as_str()), (VfsErrorCode::Full, "full up"));
}

#[test]
fn the_last_error_stays_recorded() {
    let mut last: LastError<u8> = LastError::new();
    assert_eq!(last.last_error(), None);
    last.record_error(3);
    last.record_error(4);
    assert_eq!(last.last_error(), Some(&4));
    assert_eq!(last.last_error(), Some(&4));
}

#[test]
fn operations_fail_with_their_own_codes() {
    let codes = [
        (Operation::Acquire, VfsErrorCode::CantOpen),
        (Operation::Release, VfsErrorCode::IoClose),
        (Operation::Open, VfsErrorCode::CantOpen),
        (Operation::Exists, VfsErrorCode::IoAccess),
        (Operation::Remove, VfsErrorCode::IoDelete),
        (Operation::Read, VfsErrorCode::IoRead),
        (Operation::Write, VfsErrorCode::IoWrite),
        (Operation::Truncate, VfsErrorCode::IoTruncate),
        (Operation::Size, VfsErrorCode::IoStat),
        (Operation::Sync, VfsErrorCode::IoSync),
        (Operation::Close, VfsErrorCode::IoClose),
    ];
    for (operation, code) in codes {
        assert_eq!(code_of(operation), code);
        let failure = settle(rejection(Some("TypeError"), None), code_of(operation));
        assert_eq!(failure.unwrap_err().code, code);
    }
}
