use sqlite_wasm_vfs::error::{error, VfsError, VfsErrorCode};
use sqlite_wasm_vfs::file::{
    File, PublishStep, ReadStep, SizeStep, SyncStep, TruncateStep, WriteStep,
};
use sqlite_wasm_vfs::options::{FileKind, LockLevel, OpenAccess, OpenOptions};
use sqlite_wasm_vfs::script::MAX_SAFE_INTEGER;

fn options(access: OpenAccess) -> OpenOptions {
    OpenOptions {
        kind: Some(FileKind::MainJournal),
        access,
        create: true,
        exclusive: false,
        delete_on_close: false,
    }
}

fn temporary() -> File {
    File::new(None, options(OpenAccess::ReadWrite))
}

fn stored() -> File {
    File::new(Some(String::from("bytes")), options(OpenAccess::ReadWrite))
}

fn write(file: &mut File, data: &[u8], at: u64) {
    assert!(matches!(file.write(data, at), Ok(WriteStep::Done)));
}

fn truncate(file: &mut File, size: u64) {
    assert!(matches!(file.truncate(size), Ok(TruncateStep::Done)));
}

fn read(file: &mut File, buf: &mut [u8], at: u64) -> usize {
    match file.read(buf, at) {
        Ok(ReadStep::Done(count)) => count,
        other => panic!("{other:?}"),
    }
}

fn size(file: &File) -> u64 {
    match file.size() {
        Ok(SizeStep::Done(size)) => size,
        other => panic!("{other:?}"),
    }
}

fn refused<T: std::fmt::Debug>(r: Result<T, VfsError>) -> (VfsErrorCode, String) {
    let e = r.unwrap_err();
    (e.code, e.message)
}

#[test]
fn temporary_bytes_overlap_and_never_reappear() {
    let mut file = temporary();
    truncate(&mut file, 0);
    write(&mut file, b"abc", 4);
    let mut bytes = [255u8; 10];
    assert_eq!(read(&mut file, &mut bytes, 0), 7);
    assert_eq!(bytes, [0, 0, 0, 0, b'a', b'b', b'c', 255, 255, 255]);
    truncate(&mut file, 5);
    write(&mut file, b"XYZ", 2);
    let mut overlapped = [0u8; 5];
    assert_eq!(read(&mut file, &mut overlapped, 0), 5);
    assert_eq!(&overlapped, b"\0\0XYZ");
    truncate(&mut file, 2);
    write(&mut file, b"q", 5);
    let mut extended = [255u8; 6];
    assert_eq!(read(&mut file, &mut extended, 0), 6);
    assert_eq!(extended, [0, 0, 0, 0, 0, b'q']);
    assert_eq!(size(&file), 6);
}

#[test]
fn temporary_files_give_back_what_was_written() {
    let mut file = temporary();
    assert_eq!(size(&file), 0);
    for byte in 0..100u8 {
        write(&mut file, &[byte], 0);
    }
    let mut overwritten = [0u8; 1];
    assert_eq!(read(&mut file, &mut overwritten, 0), 1);
    assert_eq!(overwritten, [99]);
    write(&mut file, &[7; 1000], 300);
    let mut back = [0u8; 1000];
    assert_eq!(read(&mut file, &mut back, 300), 1000);
    assert_eq!(back, [7; 1000]);
    assert_eq!(size(&file), 1300);
}

#[test]
fn temporary_reads_are_short_at_the_end() {
    let mut file = temporary();
    write(&mut file, b"abc", 0);
    let mut buf = [9u8; 4];
    assert_eq!(read(&mut file, &mut buf, 1), 2);
    assert_eq!(buf, [b'b', b'c', 9, 9]);
    assert_eq!(read(&mut file, &mut buf, 3), 0);
    assert_eq!(read(&mut file, &mut buf, u64::MAX), 0);
    assert_eq!(buf, [b'b', b'c', 9, 9]);
    assert_eq!(read(&mut file, &mut [], 0), 0);
}

#[test]
fn temporary_empty_writes_change_nothing() {
    let mut file = temporary();
    write(&mut file, b"", 50);
    write(&mut file, b"", u64::MAX);
    assert_eq!(size(&file), 0);
}

#[test]
fn temporary_limits_are_refused() {
    let mut file = temporary();
    write(&mut file, b"ab", 0);
    assert_eq!(
        refused(file.write(b"x", usize::MAX as u64)),
        (VfsErrorCode::Full, String::from("file size exceeds address space"))
    );
    assert_eq!(
        refused(file.truncate(3)),
        (
            VfsErrorCode::IoTruncate,
            String::from("cannot extend an in-memory file by truncating")
        )
    );
    assert_eq!(size(&file), 2);
    assert!(!file.failed());
    truncate(&mut file, 2);
    assert_eq!(size(&file), 2);
}

#[test]
fn temporary_memory_may_run_out() {
    let mut file = temporary();
    write(&mut file, b"a", 0);
    assert_eq!(
        refused(file.write(b"x", usize::MAX as u64 - 1)),
        (
            VfsErrorCode::NoMemory,
            String::from("unable to allocate memory for file data")
        )
    );
    assert_eq!(size(&file), 1);
}

#[test]
fn temporary_files_need_no_publication() {
    let mut file = temporary();
    assert_eq!(file.name(), None);
    assert!(matches!(file.sync(), Ok(SyncStep::Done)));
    assert!(matches!(file.publish(VfsErrorCode::IoClose), PublishStep::Done));
    assert!(file.finish(Err(error(VfsErrorCode::IoWrite, "no"))).is_err());
    assert!(matches!(file.publish(VfsErrorCode::IoClose), PublishStep::Done));
    assert!(matches!(file.sync(), Ok(SyncStep::Done)));
}

#[test]
fn stored_files_ask_for_their_bytes() {
    let mut file = stored();
    assert_eq!(file.name(), Some("bytes"));
    assert!(matches!(
        file.read(&mut [0; 8], 3),
        Ok(ReadStep::Fetch { at: 3, length: 8 })
    ));
    assert!(matches!(file.read(&mut [], 3), Ok(ReadStep::Done(0))));
    assert!(matches!(file.write(b"ab", 3), Ok(WriteStep::Submit { at: 3 })));
    assert!(matches!(file.write(b"", 3), Ok(WriteStep::Done)));
    assert!(matches!(file.truncate(32), Ok(TruncateStep::Submit { size: 32 })));
    assert!(matches!(file.sync(), Ok(SyncStep::Submit)));
    assert!(matches!(file.size(), Ok(SizeStep::Query)));
    assert!(matches!(file.publish(VfsErrorCode::IoClose), PublishStep::Close));
}

#[test]
fn stored_offsets_out_of_range_are_refused() {
    let mut file = stored();
    let message = String::from("offset exceeds JavaScript's safe integer range");
    assert_eq!(
        refused(file.write(b"x", 1 << 53)),
        (VfsErrorCode::IoWrite, message.clone())
    );
    assert_eq!(
        refused(file.write(b"", 1 << 53)),
        (VfsErrorCode::IoWrite, message.clone())
    );
    assert_eq!(
        refused(file.read(&mut [0], MAX_SAFE_INTEGER)),
        (VfsErrorCode::IoRead, message.clone())
    );
    assert_eq!(
        refused(file.truncate(1 << 53)),
        (VfsErrorCode::IoTruncate, message)
    );
    assert!(!file.failed());
}

#[test]
fn fetched_bytes_fill_the_front() {
    let mut buf = [9u8; 4];
    assert_eq!(File::finish_read(Ok(vec![1, 2]), &mut buf).unwrap(), 2);
    assert_eq!(buf, [1, 2, 9, 9]);
    assert_eq!(File::finish_read(Ok(vec![]), &mut buf).unwrap(), 0);
    assert_eq!(File::finish_read(Ok(vec![5; 4]), &mut buf).unwrap(), 4);
    assert_eq!(buf, [5; 4]);
    assert_eq!(
        refused(File::finish_read(Ok(vec![0; 5]), &mut buf)),
        (VfsErrorCode::IoRead, String::from("invalid OPFS read length"))
    );
    let lost = Err(error(VfsErrorCode::Full, "lost"));
    assert_eq!(
        refused(File::finish_read(lost, &mut buf)),
        (VfsErrorCode::Full, String::from("lost"))
    );
    assert_eq!(buf, [5; 4]);
}

#[test]
fn sizes_must_be_safe_integers() {
    let largest = MAX_SAFE_INTEGER as i128;
    assert_eq!(File::finish_size(Ok(Some(0))).unwrap(), 0);
    assert_eq!(File::finish_size(Ok(Some(6))).unwrap(), 6);
    assert_eq!(File::finish_size(Ok(Some(largest))).unwrap(), MAX_SAFE_INTEGER);
    for number in [None, Some(-1), Some(largest + 1), Some(i128::MAX)] {
        assert_eq!(
            refused(File::finish_size(Ok(number))),
            (VfsErrorCode::IoStat, String::from("invalid OPFS file size"))
        );
    }
    let lost = Err(error(VfsErrorCode::IoStat, "lost"));
    assert_eq!(
        refused(File::finish_size(lost)),
        (VfsErrorCode::IoStat, String::from("lost"))
    );
}

#[test]
fn a_failed_publication_poisons_the_file() {
    let mut file = stored();
    assert!(matches!(file.write(b"x", 0), Ok(WriteStep::Submit { at: 0 })));
    assert!(file.finish(Ok(())).is_ok());
    assert!(!file.failed());
    assert!(matches!(file.sync(), Ok(SyncStep::Submit)));
    let full = Err(error(VfsErrorCode::Full, "OPFS QuotaExceededError: no"));
    assert_eq!(
        refused(file.finish(full)),
        (VfsErrorCode::Full, String::from("OPFS QuotaExceededError: no"))
    );
    assert!(file.failed());
    assert_eq!(
        refused(file.sync()),
        (VfsErrorCode::IoSync, String::from("previous write failed"))
    );
    let uncertain = (
        VfsErrorCode::IoWrite,
        String::from("file has an uncertain write; close and reopen"),
    );
    assert_eq!(refused(file.write(b"x", 0)), uncertain);
    assert_eq!(refused(file.truncate(0)), uncertain);
    assert_eq!(refused(file.writable()), uncertain);
    assert!(file.finish(Ok(())).is_ok());
    assert!(file.failed());
    match file.publish(VfsErrorCode::IoClose) {
        PublishStep::Abandon(e) => {
            assert_eq!(e.code, VfsErrorCode::IoClose);
            assert_eq!(e.message, "previous write or publication failed");
        }
        other => panic!("{other:?}"),
    }
}

#[test]
fn read_only_files_take_no_writes() {
    let name = Some(String::from("bytes"));
    for name in [name, None] {
        let mut file = File::new(name, options(OpenAccess::ReadOnly));
        let refusal = (VfsErrorCode::ReadOnly, String::from("file is read-only"));
        assert_eq!(refused(file.write(b"x", 0)), refusal);
        assert_eq!(refused(file.truncate(0)), refusal);
        assert!(matches!(file.sync(), Ok(SyncStep::Done)));
    }
    let mut file = File::new(Some(String::from("bytes")), options(OpenAccess::ReadOnly));
    assert!(matches!(file.publish(VfsErrorCode::IoClose), PublishStep::Close));
    assert!(file.finish(Err(error(VfsErrorCode::IoClose, "no"))).is_err());
    assert!(matches!(file.sync(), Ok(SyncStep::Done)));
    assert_eq!(refused(file.write(b"x", 0)).0, VfsErrorCode::ReadOnly);
}

#[test]
fn locks_rise_and_fall() {
    let mut file = stored();
    assert!(!file.check_reserved_lock().unwrap());
    file.lock(LockLevel::Shared).unwrap();
    assert!(!file.check_reserved_lock().unwrap());
    file.lock(LockLevel::Exclusive).unwrap();
    file.lock(LockLevel::Reserved).unwrap();
    assert!(file.check_reserved_lock().unwrap());
    file.unlock(LockLevel::Pending).unwrap();
    assert!(file.check_reserved_lock().unwrap());
    file.unlock(LockLevel::Reserved).unwrap();
    assert!(file.check_reserved_lock().unwrap());
    file.unlock(LockLevel::Shared).unwrap();
    assert!(!file.check_reserved_lock().unwrap());
    file.unlock(LockLevel::Exclusive).unwrap();
    assert!(!file.check_reserved_lock().unwrap());
    file.unlock(LockLevel::Unlocked).unwrap();
    file.lock(LockLevel::Reserved).unwrap();
    assert!(file.check_reserved_lock().unwrap());
}

#[test]
fn temporary_writes_within_the_bytes_succeed() {
    let mut file = temporary();
    write(&mut file, &[1; 1000], 0);
    write(&mut file, &[2; 600], 400);
    write(&mut file, &[3; 1], 999);
    let mut back = [0u8; 1000];
    assert_eq!(read(&mut file, &mut back, 0), 1000);
    assert_eq!((back[399], back[400], back[998], back[999]), (1, 2, 2, 3));
    truncate(&mut file, 700);
    write(&mut file, &[4; 300], 400);
    assert_eq!(size(&file), 700);
}

#[test]
fn stored_bytes_are_fetched_where_they_were_submitted() {
    let mut file = stored();
    let mut stored_bytes = vec![0u8; 16];
    match file.write(b"abc", 5) {
        Ok(WriteStep::Submit { at }) => {
            stored_bytes[at as usize..at as usize + 3].copy_from_slice(b"abc");
        }
        other => panic!("{other:?}"),
    }
    file.finish(Ok(())).unwrap();
    for _ in 0..2 {
        let mut buf = [0u8; 3];
        let (at, length) = match file.read(&mut buf, 5) {
            Ok(ReadStep::Fetch { at, length }) => (at as usize, length),
            other => panic!("{other:?}"),
        };
        let reply = stored_bytes[at..at + length].to_vec();
        assert_eq!(File::finish_read(Ok(reply), &mut buf).unwrap(), 3);
        assert_eq!(&buf, b"abc");
        assert!(matches!(file.sync(), Ok(SyncStep::Submit)));
        file.finish(Ok(())).unwrap();
    }
}

#[test]
fn publication_ends_with_the_close_of_the_handle() {
    let code = VfsErrorCode::IoClose;
    let mut file = stored();
    assert!(file.published(Ok(()), code).is_ok());
    assert!(!file.failed());
    let lost = error(VfsErrorCode::Full, "lost");
    assert_eq!(
        refused(file.published(Err(lost), code)),
        (VfsErrorCode::Full, String::from("lost"))
    );
    assert!(file.failed());
    let failed = (code, String::from("previous write or publication failed"));
    assert_eq!(refused(file.published(Ok(()), code)), failed);
    let lost = error(VfsErrorCode::Full, "lost");
    assert_eq!(refused(file.published(Err(lost), code)), failed);

    let mut file = temporary();
    assert!(file.published(Ok(()), code).is_ok());
    assert!(file.published(Err(error(code, "lost")), code).is_ok());
    assert!(!file.failed());
}
