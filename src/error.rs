//! Errors of the interface, and the check of a finished process's status.
use vstd::prelude::*;

use crate::process::{ExitStatus, Output};
use crate::text::{text_from_utf8, trim_text, trimmed};
use vstd::utf8::{decode_utf8, valid_utf8};

verus! {


/// Error that is returned when `simctl` does not complete a request, or when
/// its response cannot be interpreted.
#[derive(Debug)]
pub enum Error {
    /// `simctl` exited unsuccessfully. Holds the bytes it wrote to its
    /// standard output and standard error, and how it ended.
    Output { stdout: Vec<u8>, stderr: Vec<u8>, status: ExitStatus },
    /// The process could not be started, most likely because the developer
    /// directory does not hold an Xcode installation. Holds the message of
    /// the operating system's error.
    Io(String),
    /// The listing could not be decoded, or a push payload encoded. Holds
    /// the decoder's message.
    Json(String),
    /// The response was expected to be UTF-8 text and was not.
    Utf8(std::string::FromUtf8Error),
}

/// Result of an operation of this interface.
pub type Result<T> = std::result::Result<T, Error>;

/// The error that stands for a process that exited unsuccessfully.
pub open spec fn failure_of(out: Output) -> Error {
    Error::Output { stdout: out.stdout, stderr: out.stderr, status: out.status }
}

impl Output {
    /// Hands the output back when the process exited successfully, and an
    /// [`Error::Output`] with the same bytes and status when it did not.
    pub fn validate_with_output(self) -> (r: Result<Output>)
        ensures
            self.status.is_success() ==> r == Ok::<Output, Error>(self),
            !self.status.is_success() ==> r == Err::<Output, Error>(failure_of(self)),
    {
        if self.status.success() {
            Ok(self)
        } else {
            Err(Error::Output { stdout: self.stdout, stderr: self.stderr, status: self.status })
        }
    }

    /// Succeeds when the process exited successfully; otherwise fails with an
    /// [`Error::Output`] with the same bytes and status.
    pub fn validate(self) -> (r: Result<()>)
        ensures
            self.status.is_success() ==> r is Ok,
            !self.status.is_success() ==> r == Err::<(), Error>(failure_of(self)),
    {
        let _ = self.validate_with_output()?;
        Ok(())
    }

    /// What a successful process wrote to its standard output, as text
    /// without leading and trailing whitespace.
    pub open spec fn trimmed_stdout(self) -> Seq<char> {
        trimmed(decode_utf8(self.stdout@))
    }

    /// Reads the standard output of a successful process as text, without
    /// leading and trailing whitespace. Fails with [`Error::Output`] where
    /// the process exited unsuccessfully, and with [`Error::Utf8`] where the
    /// output is not UTF-8.
    pub(crate) fn into_trimmed_text(self) -> (r: Result<String>)
        ensures
            !self.status.is_success() ==> r == Err::<String, Error>(failure_of(self)),
            self.status.is_success() && !valid_utf8(self.stdout@) ==> r matches Err(Error::Utf8(_)),
            self.status.is_success() && valid_utf8(self.stdout@) ==> (r matches Ok(t) && t@
                == self.trimmed_stdout()),
            self.status.is_success() && self.stdout@.len() == 0 ==> (r matches Ok(t) && t@.len()
                == 0),
    {
        let output = self.validate_with_output()?;
        proof {
            assert(self.stdout@.len() == 0 ==> valid_utf8(self.stdout@) && decode_utf8(
                self.stdout@,
            ).len() == 0);
        }
        match text_from_utf8(output.stdout) {
            Ok(text) => Ok(trim_text(text.as_str())),
            Err(e) => Err(Error::Utf8(e)),
        }
    }
}

} // verus!
