//! Errors of the file system and their SQLite result codes.

use vstd::prelude::*;

verus! {

/// The SQLite result codes that this file system answers with.
#[derive(Clone, Copy, Debug, PartialEq, Eq, Structural)]
pub enum VfsErrorCode {
    Busy,
    NoMemory,
    ReadOnly,
    Full,
    CantOpen,
    Misuse,
    IoRead,
    IoWrite,
    IoSync,
    IoTruncate,
    IoStat,
    IoDelete,
    IoAccess,
    IoClose,
    IoDeleteNoEntry,
    /// Any other result code, by its number.
    Other(i32),
}

/// The number SQLite gives to a result code.
pub open spec fn raw_code(code: VfsErrorCode) -> i32 {
    match code {
        VfsErrorCode::Busy => 5,
        VfsErrorCode::NoMemory => 7,
        VfsErrorCode::ReadOnly => 8,
        VfsErrorCode::Full => 13,
        VfsErrorCode::CantOpen => 14,
        VfsErrorCode::Misuse => 21,
        VfsErrorCode::IoRead => 266,
        VfsErrorCode::IoWrite => 778,
        VfsErrorCode::IoSync => 1034,
        VfsErrorCode::IoTruncate => 1546,
        VfsErrorCode::IoStat => 1802,
        VfsErrorCode::IoDelete => 2570,
        VfsErrorCode::IoAccess => 3338,
        VfsErrorCode::IoClose => 4106,
        VfsErrorCode::IoDeleteNoEntry => 5898,
        VfsErrorCode::Other(raw) => raw,
    }
}

impl VfsErrorCode {
    /// The code's number in SQLite's interface.
    pub fn as_raw(self) -> (raw: i32)
        ensures
            raw == raw_code(self),
    {
        match self {
            VfsErrorCode::Busy => 5,
            VfsErrorCode::NoMemory => 7,
            VfsErrorCode::ReadOnly => 8,
            VfsErrorCode::Full => 13,
            VfsErrorCode::CantOpen => 14,
            VfsErrorCode::Misuse => 21,
            VfsErrorCode::IoRead => 266,
            VfsErrorCode::IoWrite => 778,
            VfsErrorCode::IoSync => 1034,
            VfsErrorCode::IoTruncate => 1546,
            VfsErrorCode::IoStat => 1802,
            VfsErrorCode::IoDelete => 2570,
            VfsErrorCode::IoAccess => 3338,
            VfsErrorCode::IoClose => 4106,
            VfsErrorCode::IoDeleteNoEntry => 5898,
            VfsErrorCode::Other(raw) => raw,
        }
    }

    /// The code with the given number: a named one wherever there is one.
    pub fn from_raw(raw: i32) -> (code: VfsErrorCode)
        ensures
            raw_code(code) == raw,
            forall|named: VfsErrorCode| #[trigger]
                raw_code(named) == raw && !(named is Other) ==> code == named,
    {
        match raw {
            5 => VfsErrorCode::Busy,
            7 => VfsErrorCode::NoMemory,
            8 => VfsErrorCode::ReadOnly,
            13 => VfsErrorCode::Full,
            14 => VfsErrorCode::CantOpen,
            21 => VfsErrorCode::Misuse,
            266 => VfsErrorCode::IoRead,
            778 => VfsErrorCode::IoWrite,
            1034 => VfsErrorCode::IoSync,
            1546 => VfsErrorCode::IoTruncate,
            1802 => VfsErrorCode::IoStat,
            2570 => VfsErrorCode::IoDelete,
            3338 => VfsErrorCode::IoAccess,
            4106 => VfsErrorCode::IoClose,
            5898 => VfsErrorCode::IoDeleteNoEntry,
            _ => VfsErrorCode::Other(raw),
        }
    }
}

/// A failed operation: SQLite's result code and a diagnostic.
#[derive(Debug)]
pub struct VfsError {
    pub code: VfsErrorCode,
    pub message: String,
}

/// What a [`VfsError`] says.
pub struct ErrorView {
    pub code: VfsErrorCode,
    pub message: Seq<char>,
}

impl View for VfsError {
    type V = ErrorView;

    open spec fn view(&self) -> ErrorView {
        ErrorView { code: self.code, message: self.message@ }
    }
}

/// What an outcome without a value says.
pub open spec fn unit_outcome(r: Result<(), VfsError>) -> Result<(), ErrorView> {
    match r {
        Ok(u) => Ok(u),
        Err(e) => Err(e@),
    }
}

/// What an outcome that yields a text says.
pub open spec fn text_outcome(r: Result<String, VfsError>) -> Result<Seq<char>, ErrorView> {
    match r {
        Ok(s) => Ok(s@),
        Err(e) => Err(e@),
    }
}

/// What an outcome that yields a plain value says.
pub open spec fn value_outcome<T>(r: Result<T, VfsError>) -> Result<T, ErrorView> {
    match r {
        Ok(v) => Ok(v),
        Err(e) => Err(e@),
    }
}

/// Makes an error from a result code and a fixed diagnostic.
pub fn error(code: VfsErrorCode, message: &str) -> (e: VfsError)
    ensures
        e@ == (ErrorView { code, message: message@ }),
{
    VfsError { code, message: message.to_owned() }
}

/// Makes an error from the number of a result code and its diagnostic.
pub fn error_from_raw(raw: i32, message: &str) -> (e: VfsError)
    ensures
        raw_code(e.code) == raw,
        forall|named: VfsErrorCode| #[trigger]
            raw_code(named) == raw && !(named is Other) ==> e.code == named,
        e.message@ == message@,
{
    VfsError { code: VfsErrorCode::from_raw(raw), message: message.to_owned() }
}

/// The failure that SQLite is told of when it asks for the last one.
pub struct LastError<E> {
    error: Option<E>,
}

impl<E> View for LastError<E> {
    type V = Option<E>;

    closed spec fn view(&self) -> Option<E> {
        self.error
    }
}

impl<E> LastError<E> {
    /// Before any failure.
    pub fn new() -> (last: LastError<E>)
        ensures
            last@ is None,
    {
        LastError { error: None }
    }

    /// Records a failure in place of any earlier one.
    pub fn record_error(&mut self, error: E)
        ensures
            final(self)@ == Some(error),
    {
        self.error = Some(error);
    }

    /// The failure recorded last, which stays recorded.
    pub fn last_error(&self) -> (r: Option<&E>)
        ensures
            match r {
                Some(error) => self@ == Some(*error),
                None => self@ is None,
            },
    {
        self.error.as_ref()
    }
}

/// Result codes are told apart by their numbers, a number that has no name of
/// its own is kept as it is, and every failure of a file operation is, in its
/// low byte, SQLite's general input/output error.
pub proof fn law_codes(a: VfsErrorCode, b: VfsErrorCode, raw: i32)
    ensures
        !(a is Other) && !(b is Other) && raw_code(a) == raw_code(b) ==> a == b,
        raw_code(VfsErrorCode::Other(raw)) == raw,
        !(a is Other) ==> 0 < raw_code(a),
        a is IoRead || a is IoWrite || a is IoSync || a is IoTruncate || a is IoStat || a
            is IoDelete || a is IoAccess || a is IoClose || a is IoDeleteNoEntry ==> raw_code(a)
            % 256 == 10,
{
}

/// An outcome says what it is: success with its value, or the code and the
/// diagnostic of the failure.
pub proof fn law_outcomes(done: Result<(), VfsError>, text: Result<String, VfsError>)
    ensures
        unit_outcome(done) is Ok <==> done is Ok,
        text_outcome(text) is Ok <==> text is Ok,
        text is Ok ==> text_outcome(text)->Ok_0 == text->Ok_0@,
        done matches Err(e) ==> unit_outcome(done)->Err_0.code == e.code && unit_outcome(
            done,
        )->Err_0.message == e.message@,
        text matches Err(e) ==> text_outcome(text)->Err_0.code == e.code && text_outcome(
            text,
        )->Err_0.message == e.message@,
{
}

/// An error says the code and the diagnostic that it holds, and an outcome with
/// a value says that value.
pub proof fn law_errors_say_what_they_hold<T>(e: VfsError, outcome: Result<T, VfsError>)
    ensures
        e@.code == e.code,
        e@.message == e.message@,
        outcome matches Ok(value) ==> value_outcome(outcome) == Ok::<T, ErrorView>(value),
        outcome matches Err(failure) ==> value_outcome(outcome) == Err::<T, ErrorView>(failure@),
{
}

} // verus!
