//! The error taxonomy: every fallible operation of this crate reports one of
//! these typed errors.  A distinguished end-of-stream status code is
//! recognised by the predicate [`Error::is_eof`], orthogonally to the task
//! that failed.

use crate::FileMode;
use vstd::prelude::*;

verus! {

/// A status code of the trajectory codec.
///
/// `ExdrOk` reports success and `ExdrEndOfFile` reports the end of the
/// stream; every other code is a true failure.  Codes that do not belong to
/// the codec's closed list are kept verbatim in `UnmatchedCode`.
#[derive(Debug, Clone, Copy, PartialEq, Eq, Structural)]
pub enum ErrorCode {
    ExdrOk,
    ExdrHeader,
    ExdrString,
    ExdrDouble,
    ExdrInt,
    ExdrFloat,
    ExdrUint,
    Exdr3dx,
    ExdrClose,
    ExdrMagic,
    ExdrNoMem,
    ExdrEndOfFile,
    ExdrFileNotFound,
    ExdrNr,
    UnmatchedCode(u32),
}

/// The code that a raw numeric codec status maps to.
pub open spec fn spec_code_from_raw(code: u32) -> ErrorCode {
    if code == 0 {
        ErrorCode::ExdrOk
    } else if code == 1 {
        ErrorCode::ExdrHeader
    } else if code == 2 {
        ErrorCode::ExdrString
    } else if code == 3 {
        ErrorCode::ExdrDouble
    } else if code == 4 {
        ErrorCode::ExdrInt
    } else if code == 5 {
        ErrorCode::ExdrFloat
    } else if code == 6 {
        ErrorCode::ExdrUint
    } else if code == 7 {
        ErrorCode::Exdr3dx
    } else if code == 8 {
        ErrorCode::ExdrClose
    } else if code == 9 {
        ErrorCode::ExdrMagic
    } else if code == 10 {
        ErrorCode::ExdrNoMem
    } else if code == 11 {
        ErrorCode::ExdrEndOfFile
    } else if code == 12 {
        ErrorCode::ExdrFileNotFound
    } else if code == 13 {
        ErrorCode::ExdrNr
    } else {
        ErrorCode::UnmatchedCode(code)
    }
}

impl ErrorCode {
    /// Map a raw numeric status returned by a codec call to its code.
    pub fn from_raw(code: u32) -> (r: ErrorCode)
        ensures
            r == spec_code_from_raw(code),
    {
        match code {
            0 => ErrorCode::ExdrOk,
            1 => ErrorCode::ExdrHeader,
            2 => ErrorCode::ExdrString,
            3 => ErrorCode::ExdrDouble,
            4 => ErrorCode::ExdrInt,
            5 => ErrorCode::ExdrFloat,
            6 => ErrorCode::ExdrUint,
            7 => ErrorCode::Exdr3dx,
            8 => ErrorCode::ExdrClose,
            9 => ErrorCode::ExdrMagic,
            10 => ErrorCode::ExdrNoMem,
            11 => ErrorCode::ExdrEndOfFile,
            12 => ErrorCode::ExdrFileNotFound,
            13 => ErrorCode::ExdrNr,
            _ => ErrorCode::UnmatchedCode(code),
        }
    }

    /// Turn a raw status into `Ok(value)` exactly when it reports success,
    /// and into the mapped code otherwise.
    pub fn check<T>(code: u32, value: T) -> (r: Result<T, ErrorCode>)
        ensures
            spec_code_from_raw(code) == ErrorCode::ExdrOk ==> (r matches Ok(v) && v == value),
            spec_code_from_raw(code) != ErrorCode::ExdrOk ==> r == Err::<T, ErrorCode>(
                spec_code_from_raw(code),
            ),
    {
        let c = ErrorCode::from_raw(code);
        if c == ErrorCode::ExdrOk {
            Ok(value)
        } else {
            Err(c)
        }
    }
}

/// The operation during which an error arose.
#[derive(Debug, PartialEq)]
pub enum ErrorTask {
    /// Opening the file at the given path, in the given mode, failed.
    OpenFile(String, FileMode),
    /// The path cannot be represented in the codec's narrow string encoding.
    PathEncodingInvalid,
    /// Reading a frame failed.
    Read,
    /// Writing a frame failed.
    Write,
    /// Flushing buffered output failed.
    Flush,
    /// Determining the number of atoms failed.
    ReadNumAtoms,
    /// Repositioning the handle failed.
    Seek,
}

/// An error of this crate: a failed task together with the codec status code
/// that caused it, when one is available.
///
/// `CouldNotCheckNAtoms` is produced by the frame iterator when the atom
/// count of the trajectory cannot be determined; it wraps the underlying
/// error.
#[derive(Debug, PartialEq)]
pub enum Error {
    Failed { task: ErrorTask, code: Option<ErrorCode> },
    CouldNotCheckNAtoms(Box<Error>),
}

impl Error {
    /// The task that failed; `CouldNotCheckNAtoms` reports the task of the
    /// error it wraps.
    pub open spec fn spec_task(self) -> ErrorTask
        decreases self,
    {
        match self {
            Error::Failed { task, .. } => task,
            Error::CouldNotCheckNAtoms(inner) => inner.spec_task(),
        }
    }

    /// The codec status code attached to the error, if any;
    /// `CouldNotCheckNAtoms` reports the code of the error it wraps.
    pub open spec fn spec_code(self) -> Option<ErrorCode>
        decreases self,
    {
        match self {
            Error::Failed { code, .. } => code,
            Error::CouldNotCheckNAtoms(inner) => inner.spec_code(),
        }
    }

    /// Whether the error merely reports the end of the stream.
    ///
    /// This holds of a failed task whose status code is the end-of-stream
    /// sentinel, whatever the task.  A `CouldNotCheckNAtoms` wrapper is
    /// never end-of-stream: a stream whose atom count cannot be determined
    /// did not end cleanly, whatever code the underlying lookup reports.
    pub open spec fn spec_is_eof(self) -> bool {
        match self {
            Error::Failed { code, .. } => code == Some(ErrorCode::ExdrEndOfFile),
            Error::CouldNotCheckNAtoms(_) => false,
        }
    }

    /// The task during which the error arose.
    pub fn task(&self) -> (r: &ErrorTask)
        ensures
            *r == self.spec_task(),
        decreases *self,
    {
        match self {
            Error::Failed { task, .. } => task,
            Error::CouldNotCheckNAtoms(inner) => inner.task(),
        }
    }

    /// The codec status code attached to the error, if any.
    pub fn code(&self) -> (r: Option<ErrorCode>)
        ensures
            r == self.spec_code(),
        decreases *self,
    {
        match self {
            Error::Failed { code, .. } => *code,
            Error::CouldNotCheckNAtoms(inner) => inner.code(),
        }
    }

    /// True exactly when the error reports the end of the stream, which is
    /// the natural end of iteration rather than a failure.
    pub fn is_eof(&self) -> (r: bool)
        ensures
            r == self.spec_is_eof(),
    {
        match self {
            Error::Failed { code: Some(c), .. } => *c == ErrorCode::ExdrEndOfFile,
            _ => false,
        }
    }

    /// An error for a failed open of `path` in mode `mode`.
    pub fn from_open(path: String, mode: FileMode) -> (r: Error)
        ensures
            r == (Error::Failed { task: ErrorTask::OpenFile(path, mode), code: None }),
    {
        Error::Failed { task: ErrorTask::OpenFile(path, mode), code: None }
    }

    /// An error for a path that the codec's string encoding cannot hold.
    pub fn from_path_encoding() -> (r: Error)
        ensures
            r == (Error::Failed { task: ErrorTask::PathEncodingInvalid, code: None }),
    {
        Error::Failed { task: ErrorTask::PathEncodingInvalid, code: None }
    }

    /// An error for a failed read.
    pub fn from_read(code: ErrorCode) -> (r: Error)
        ensures
            r == (Error::Failed { task: ErrorTask::Read, code: Some(code) }),
    {
        Error::Failed { task: ErrorTask::Read, code: Some(code) }
    }

    /// An error for a failed write.
    pub fn from_write(code: ErrorCode) -> (r: Error)
        ensures
            r == (Error::Failed { task: ErrorTask::Write, code: Some(code) }),
    {
        Error::Failed { task: ErrorTask::Write, code: Some(code) }
    }

    /// An error for a failed flush.
    pub fn from_flush(code: ErrorCode) -> (r: Error)
        ensures
            r == (Error::Failed { task: ErrorTask::Flush, code: Some(code) }),
    {
        Error::Failed { task: ErrorTask::Flush, code: Some(code) }
    }

    /// An error for a failed atom-count lookup.
    pub fn from_read_num_atoms(code: ErrorCode) -> (r: Error)
        ensures
            r == (Error::Failed { task: ErrorTask::ReadNumAtoms, code: Some(code) }),
    {
        Error::Failed { task: ErrorTask::ReadNumAtoms, code: Some(code) }
    }

    /// An error for a failed seek.
    pub fn from_seek() -> (r: Error)
        ensures
            r == (Error::Failed { task: ErrorTask::Seek, code: None }),
    {
        Error::Failed { task: ErrorTask::Seek, code: None }
    }

    /// The iterator's wrapper around a failed atom-count lookup.
    pub fn could_not_check_natoms(inner: Error) -> (r: Error)
        ensures
            r matches Error::CouldNotCheckNAtoms(b) && *b == inner,
    {
        Error::CouldNotCheckNAtoms(Box::new(inner))
    }
}

/// Turn a raw numeric codec status into `Ok(())` exactly when it reports
/// success, and into an [`Error`] for the given task otherwise.
pub fn check_code(code: u32, task: ErrorTask) -> (r: Result<(), Error>)
    ensures
        spec_code_from_raw(code) == ErrorCode::ExdrOk ==> r is Ok,
        spec_code_from_raw(code) != ErrorCode::ExdrOk ==> r == Err::<(), Error>(
            (Error::Failed { task: task, code: Some(spec_code_from_raw(code)) }),
        ),
{
    let c = ErrorCode::from_raw(code);
    if c == ErrorCode::ExdrOk {
        Ok(())
    } else {
        Err(Error::Failed { task, code: Some(c) })
    }
}

} // verus!
