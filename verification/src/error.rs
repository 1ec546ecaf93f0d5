//! The failures that the debugger core reports to its caller.

use crate::text::{decimal, decimal_text, errno_text, errno_text_of};
use vstd::prelude::*;
use vstd::string::StringExecFns;

verus! {

/// Everything that an operation of this library can fail with.
#[derive(Debug, PartialEq, Eq)]
pub enum Error {
    /// The target program could not be executed. Carries the reason that
    /// the operating system gave to the child.
    LaunchFailure(String),
    /// An attach was asked for with a process identifier that names no
    /// process.
    InvalidTarget,
    /// A tracing request failed. Carries the operating system's error number.
    TracingSyscallFailure(i32),
    /// No descriptor in the register table has the identity asked for.
    UnknownRegister,
    /// A value's size disagrees with the descriptor it is used with.
    SizeMismatch,
    /// A descriptor combines a numeric format with a size, which it carries,
    /// that cannot be decoded.
    DecodeFailure(usize),
}

impl Error {
    /// The message of the error, where `syscall_text` is how the operating
    /// system's error number reads.
    pub open spec fn text(self, syscall_text: Seq<char>) -> Seq<char> {
        match self {
            Error::LaunchFailure(reason) => "child failed to launch: "@ + reason@,
            Error::InvalidTarget => "invalid process id"@,
            Error::TracingSyscallFailure(_) => syscall_text,
            Error::UnknownRegister => "unknown register"@,
            Error::SizeMismatch => "value size does not match the register"@,
            Error::DecodeFailure(size) => "unexpected size of register: "@ + decimal(size as nat),
        }
    }

    /// The message of the error.
    pub open spec fn message(self) -> Seq<char> {
        match self {
            Error::TracingSyscallFailure(errno) => self.text(errno_text(errno as int)),
            _ => self.text(Seq::<char>::empty()),
        }
    }

    /// Writes the message of the error, given how the operating system's
    /// error number reads. The text is used for a failed tracing request
    /// only.
    pub fn render(&self, syscall_text: &str) -> (message: String)
        ensures
            message@ == self.text(syscall_text@),
    {
        match self {
            Error::LaunchFailure(reason) => {
                let mut message = String::from_str("child failed to launch: ");
                message.append(reason.as_str());
                message
            },
            Error::InvalidTarget => String::from_str("invalid process id"),
            Error::TracingSyscallFailure(_) => String::from_str(syscall_text),
            Error::UnknownRegister => String::from_str("unknown register"),
            Error::SizeMismatch => String::from_str("value size does not match the register"),
            Error::DecodeFailure(size) => {
                let mut message = String::from_str("unexpected size of register: ");
                let digits = decimal_text(*size as u64);
                message.append(digits.as_str());
                message
            },
        }
    }

    /// Writes the message of the error.
    pub fn to_string(&self) -> (message: String)
        ensures
            message@ == self.message(),
    {
        match self {
            Error::TracingSyscallFailure(errno) => {
                let syscall_text = errno_text_of(*errno);
                self.render(syscall_text.as_str())
            },
            _ => {
                let message = self.render("");
                assert(""@ =~= Seq::<char>::empty()) by {
                    reveal_strlit("");
                }
                message
            },
        }
    }
}

} // verus!
