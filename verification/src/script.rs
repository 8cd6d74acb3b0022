//! The boundary to JavaScript: numbers it can hold, and promises it rejects.

use crate::error::{error, value_outcome, ErrorView, VfsError, VfsErrorCode};
use vstd::prelude::*;

verus! {

/// The largest integer up to which every integer is a JavaScript number of its
/// own.
pub const MAX_SAFE_INTEGER: u64 = 9007199254740991;

/// The offset of an access of `length` bytes at `at`, or its refusal: the end
/// of the access must be a number that JavaScript holds exactly.
pub open spec fn safe_offset(at: nat, length: nat, code: VfsErrorCode) -> Result<u64, ErrorView> {
    if at + length > MAX_SAFE_INTEGER {
        Err(ErrorView { code, message: "offset exceeds JavaScript's safe integer range"@ })
    } else {
        Ok(at as u64)
    }
}

/// The offset to hand to JavaScript for an access of `length` bytes at
/// `at`. An access that ends out of JavaScript's range fails with `code`.
pub fn offset(at: u64, length: usize, code: VfsErrorCode) -> (r: Result<u64, VfsError>)
    ensures
        value_outcome(r) == safe_offset(at as nat, length as nat, code),
{
    match at.checked_add(length as u64) {
        Some(end) if end <= MAX_SAFE_INTEGER => Ok(at),
        _ => Err(error(code, "offset exceeds JavaScript's safe integer range")),
    }
}

/// What JavaScript is asked to do.
#[derive(Clone, Copy, Debug, PartialEq, Eq, Structural)]
pub enum Operation {
    /// Lease the directory.
    Acquire,
    /// Give the lease back.
    Release,
    /// Open a file.
    Open,
    /// Look for a file.
    Exists,
    /// Delete a file.
    Remove,
    /// Fetch bytes of a file.
    Read,
    /// Write bytes to a file.
    Write,
    /// Cut a file.
    Truncate,
    /// Ask for the size of a file.
    Size,
    /// Publish what was written to a file.
    Sync,
    /// Publish what was written to a file and close it.
    Close,
}

/// The result code with which an operation fails, unless the failure has a
/// name that asks for another.
pub open spec fn default_code(operation: Operation) -> VfsErrorCode {
    match operation {
        Operation::Acquire => VfsErrorCode::CantOpen,
        Operation::Release => VfsErrorCode::IoClose,
        Operation::Open => VfsErrorCode::CantOpen,
        Operation::Exists => VfsErrorCode::IoAccess,
        Operation::Remove => VfsErrorCode::IoDelete,
        Operation::Read => VfsErrorCode::IoRead,
        Operation::Write => VfsErrorCode::IoWrite,
        Operation::Truncate => VfsErrorCode::IoTruncate,
        Operation::Size => VfsErrorCode::IoStat,
        Operation::Sync => VfsErrorCode::IoSync,
        Operation::Close => VfsErrorCode::IoClose,
    }
}

/// The result code to hand to [`settle`] for an operation.
pub fn code_of(operation: Operation) -> (code: VfsErrorCode)
    ensures
        code == default_code(operation),
{
    match operation {
        Operation::Acquire => VfsErrorCode::CantOpen,
        Operation::Release => VfsErrorCode::IoClose,
        Operation::Open => VfsErrorCode::CantOpen,
        Operation::Exists => VfsErrorCode::IoAccess,
        Operation::Remove => VfsErrorCode::IoDelete,
        Operation::Read => VfsErrorCode::IoRead,
        Operation::Write => VfsErrorCode::IoWrite,
        Operation::Truncate => VfsErrorCode::IoTruncate,
        Operation::Size => VfsErrorCode::IoStat,
        Operation::Sync => VfsErrorCode::IoSync,
        Operation::Close => VfsErrorCode::IoClose,
    }
}

/// What a rejected promise or a thrown value says of itself: its `name` and
/// `message`, where it has them as strings, and how it prints.
#[derive(Debug)]
pub struct Rejection {
    pub name: Option<String>,
    pub message: Option<String>,
    pub printed: String,
}

/// What a [`Rejection`] says.
pub struct RejectionView {
    pub name: Option<Seq<char>>,
    pub message: Option<Seq<char>>,
    pub printed: Seq<char>,
}

impl View for Rejection {
    type V = RejectionView;

    open spec fn view(&self) -> RejectionView {
        RejectionView {
            name: match self.name {
                Some(name) => Some(name@),
                None => None,
            },
            message: match self.message {
                Some(message) => Some(message@),
                None => None,
            },
            printed: self.printed@,
        }
    }
}

/// The result code for an operation that fails with `code` by default, where
/// JavaScript named the error `name`.
pub open spec fn rejection_code(name: Option<Seq<char>>, code: VfsErrorCode) -> VfsErrorCode {
    if name == Some("QuotaExceededError"@) {
        VfsErrorCode::Full
    } else if name == Some("NoModificationAllowedError"@) && code == VfsErrorCode::CantOpen {
        VfsErrorCode::Busy
    } else if name == Some("NotFoundError"@) && code == VfsErrorCode::IoDelete {
        VfsErrorCode::IoDeleteNoEntry
    } else {
        code
    }
}

/// The error for a rejection of an operation that fails with `code` by default.
pub open spec fn rejection_error(rejection: RejectionView, code: VfsErrorCode) -> ErrorView {
    ErrorView {
        code: rejection_code(rejection.name, code),
        message: "OPFS "@ + (match rejection.name {
            Some(name) => name,
            None => "error"@,
        }) + ": "@ + (match rejection.message {
            Some(message) => message,
            None => rejection.printed,
        }),
    }
}

/// Turns the outcome of a JavaScript operation into one of the file system:
/// what it yields, or an error with a result code.
pub fn settle<T>(outcome: Result<T, Rejection>, code: VfsErrorCode) -> (r: Result<T, VfsError>)
    ensures
        match outcome {
            Ok(value) => r == Ok::<T, VfsError>(value),
            Err(rejection) => r matches Err(e) && e@ == rejection_error(rejection@, code),
        },
{
    match outcome {
        Ok(value) => Ok(value),
        Err(rejection) => {
            let code = match &rejection.name {
                Some(name) => {
                    if name.eq(&"QuotaExceededError".to_owned()) {
                        VfsErrorCode::Full
                    } else if name.eq(&"NoModificationAllowedError".to_owned()) && code
                        == VfsErrorCode::CantOpen {
                        VfsErrorCode::Busy
                    } else if name.eq(&"NotFoundError".to_owned()) && code
                        == VfsErrorCode::IoDelete {
                        VfsErrorCode::IoDeleteNoEntry
                    } else {
                        code
                    }
                },
                None => code,
            };
            let mut text = "OPFS ".to_owned();
            match &rejection.name {
                Some(name) => {
                    text.append(name.as_str());
                },
                None => {
                    text.append("error");
                },
            }
            text.append(": ");
            match &rejection.message {
                Some(message) => {
                    text.append(message.as_str());
                },
                None => {
                    text.append(rejection.printed.as_str());
                },
            }
            Err(VfsError { code, message: text })
        },
    }
}

/// An access is refused exactly where its end is beyond the largest safe
/// integer, with the code of the operation; any other keeps its offset.
pub proof fn law_offsets(at: nat, length: nat, code: VfsErrorCode)
    ensures
        safe_offset(at, length, code) is Ok <==> at + length <= 9007199254740991,
        safe_offset(at, length, code) matches Ok(start) ==> start == at,
        safe_offset(at, length, code) matches Err(e) ==> e.code == code && e.message
            == "offset exceeds JavaScript's safe integer range"@,
{
}

/// A rejection keeps the code of the operation, but for three: want of space is
/// always a full disk, a file that may not be modified cannot be opened because
/// it is busy, and what is not found was not there to be deleted.
pub proof fn law_rejection_codes(name: Option<Seq<char>>, code: VfsErrorCode)
    ensures
        name == Some("QuotaExceededError"@) ==> rejection_code(name, code) == VfsErrorCode::Full,
        rejection_code(Some("NoModificationAllowedError"@), VfsErrorCode::CantOpen)
            == VfsErrorCode::Busy,
        rejection_code(Some("NotFoundError"@), VfsErrorCode::IoDelete)
            == VfsErrorCode::IoDeleteNoEntry,
        rejection_code(name, code) != code ==> {
            ||| name == Some("QuotaExceededError"@)
            ||| name == Some("NoModificationAllowedError"@) && code == VfsErrorCode::CantOpen
            ||| name == Some("NotFoundError"@) && code == VfsErrorCode::IoDelete
        },
{
    reveal_strlit("QuotaExceededError");
    reveal_strlit("NoModificationAllowedError");
    reveal_strlit("NotFoundError");
    assert("QuotaExceededError"@.len() == 18);
    assert("NoModificationAllowedError"@.len() == 26);
    assert("NotFoundError"@.len() == 13);
}

/// The diagnostic of a rejection names the error and quotes its message, or how
/// it prints where it has none.
pub proof fn law_rejection_messages(rejection: RejectionView, code: VfsErrorCode)
    ensures
        ({
            let told = rejection_error(rejection, code).message;
            let name = if rejection.name is Some {
                rejection.name->0
            } else {
                "error"@
            };
            let text = if rejection.message is Some {
                rejection.message->0
            } else {
                rejection.printed
            };
            let count = name.len() as int;
            &&& told.len() == 5 + count + 2 + text.len()
            &&& told.take(5) == "OPFS "@
            &&& told.subrange(5, 5 + count) == name
            &&& told.subrange(5 + count, 7 + count) == ": "@
            &&& told.skip(7 + count) == text
        }),
        rejection_error(rejection, code).code == rejection_code(rejection.name, code),
{
    reveal_strlit("OPFS ");
    reveal_strlit(": ");
    let told = rejection_error(rejection, code).message;
    let name = if rejection.name is Some {
        rejection.name->0
    } else {
        "error"@
    };
    let text = if rejection.message is Some {
        rejection.message->0
    } else {
        rejection.printed
    };
    let count = name.len() as int;
    assert("OPFS "@.len() == 5);
    assert(": "@.len() == 2);
    assert(told.take(5) =~= "OPFS "@);
    assert(told.subrange(5, 5 + count) =~= name);
    assert(told.subrange(5 + count, 7 + count) =~= ": "@);
    assert(told.skip(7 + count) =~= text);
}

/// A rejection says the name, the message and the print that it holds.
pub proof fn law_rejections_say_what_they_hold(rejection: Rejection)
    ensures
        rejection@.name is Some <==> rejection.name is Some,
        rejection@.message is Some <==> rejection.message is Some,
        rejection.name matches Some(name) ==> rejection@.name == Some(name@),
        rejection.message matches Some(message) ==> rejection@.message == Some(message@),
        rejection@.printed == rejection.printed@,
{
}

} // verus!
