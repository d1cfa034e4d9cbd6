use nix::errno::Errno;
use vstd::prelude::*;

verus! {

/// The classes of failure a mapped file reports.
#[derive(Debug, Clone, Copy, PartialEq, Eq, Structural)]
pub enum ErrorKind {
    /// The operation is not permitted in the current state.
    Unsupported,
    /// A write would extend past the fixed length of the mapped region.
    OutOfSpace,
    /// An operating-system call failed; the error is passed on as it came.
    Os,
}

/// A failed operation on a mapped file.
#[derive(Debug, Clone, Copy, PartialEq, Eq, Structural)]
pub enum MapError {
    /// The file to map has length zero.
    EmptyFile,
    /// A write was attempted on a file opened read-only.
    WriteNotEnabled,
    /// A seek computed an offset outside the mapped region.
    SeekBeyondLimits,
    /// A write does not fit between the cursor and the end of the region.
    NoSpaceLeft,
    /// An operating-system call failed with this `errno` value.
    Os(i32),
}

/// The text that `nix::errno::Errno::desc` gives for the error number `code`.
pub uninterp spec fn os_error_text(code: i32) -> Seq<char>;

/// Calls `nix::errno::Errno::desc` on the `Errno` that `Errno::from_i32`
/// makes of `code`. The description is a fixed table in the outside crate;
/// the contract only gives it a name.
#[verifier::external_body]
fn os_error_description(code: i32) -> (r: &'static str)
    ensures
        r@ == os_error_text(code),
{
    Errno::from_i32(code).desc()
}

impl MapError {
    /// The class this error belongs to.
    pub open spec fn class(self) -> ErrorKind {
        match self {
            MapError::EmptyFile => ErrorKind::Unsupported,
            MapError::WriteNotEnabled => ErrorKind::Unsupported,
            MapError::SeekBeyondLimits => ErrorKind::Unsupported,
            MapError::NoSpaceLeft => ErrorKind::OutOfSpace,
            MapError::Os(_) => ErrorKind::Os,
        }
    }

    /// The text shown for this error.
    pub open spec fn text(self) -> Seq<char> {
        match self {
            MapError::EmptyFile => "cannot map an empty file"@,
            MapError::WriteNotEnabled => "write not enabled"@,
            MapError::SeekBeyondLimits => "seek beyond limits"@,
            MapError::NoSpaceLeft => "no space left"@,
            MapError::Os(code) => os_error_text(code),
        }
    }

    pub fn kind(&self) -> (r: ErrorKind)
        ensures
            r == self.class(),
    {
        match self {
            MapError::EmptyFile => ErrorKind::Unsupported,
            MapError::WriteNotEnabled => ErrorKind::Unsupported,
            MapError::SeekBeyondLimits => ErrorKind::Unsupported,
            MapError::NoSpaceLeft => ErrorKind::OutOfSpace,
            MapError::Os(_) => ErrorKind::Os,
        }
    }

    /// The message of this error: a fixed text for the failures the mapped
    /// file detects itself, the operating system's own description for the
    /// ones it passes on.
    pub fn message(&self) -> (r: &'static str)
        ensures
            r@ == self.text(),
    {
        match self {
            MapError::EmptyFile => "cannot map an empty file",
            MapError::WriteNotEnabled => "write not enabled",
            MapError::SeekBeyondLimits => "seek beyond limits",
            MapError::NoSpaceLeft => "no space left",
            MapError::Os(code) => os_error_description(*code),
        }
    }

    /// The `errno` value of an error passed on from the operating system.
    pub fn raw_os_error(&self) -> (r: Option<i32>)
        ensures
            r == match *self {
                MapError::Os(code) => Some(code),
                _ => None::<i32>,
            },
    {
        match self {
            MapError::Os(code) => Some(*code),
            _ => None,
        }
    }
}

} // verus!
