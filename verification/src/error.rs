use vstd::prelude::*;
use vstd::string::*;

verus! {

/// Why an execution could not be carried out at all.
///
/// A program that fails on its own account (a non-zero exit, a signal, output
/// on standard error, a timeout) is no error: it is reported in the metrics.
#[derive(Debug)]
pub enum Error {
    /// The build step printed diagnostics; nothing was run.
    Compilation { message: String },
    /// The operating system refused a fork, an exec, a descriptor or a read.
    IO { message: String },
    /// The resource group could not be created, joined or configured.
    Cgroup { message: String },
}

/// The three kinds of error, without their text.
#[derive(Debug, Clone, Copy, PartialEq, Eq, Structural)]
pub enum ErrorKind {
    Compilation,
    IO,
    Cgroup,
}

impl Error {
    /// The kind of the error.
    pub open spec fn spec_kind(&self) -> ErrorKind {
        match self {
            Error::Compilation { .. } => ErrorKind::Compilation,
            Error::IO { .. } => ErrorKind::IO,
            Error::Cgroup { .. } => ErrorKind::Cgroup,
        }
    }

    /// The text that the error carries.
    pub open spec fn spec_message(&self) -> Seq<char> {
        match self {
            Error::Compilation { message } => message@,
            Error::IO { message } => message@,
            Error::Cgroup { message } => message@,
        }
    }

    /// What introduces an error of the given kind when it is shown.
    pub open spec fn spec_prefix(kind: ErrorKind) -> Seq<char> {
        match kind {
            ErrorKind::Compilation => "Compilation error: "@,
            ErrorKind::IO => "IO error: "@,
            ErrorKind::Cgroup => "Failed to create cgroup: "@,
        }
    }

    /// The kind of the error.
    pub fn kind(&self) -> (kind: ErrorKind)
        ensures
            kind == self.spec_kind(),
    {
        match self {
            Error::Compilation { .. } => ErrorKind::Compilation,
            Error::IO { .. } => ErrorKind::IO,
            Error::Cgroup { .. } => ErrorKind::Cgroup,
        }
    }

    /// The text that the error carries.
    pub fn message(&self) -> (message: &str)
        ensures
            message@ == self.spec_message(),
    {
        match self {
            Error::Compilation { message } => message.as_str(),
            Error::IO { message } => message.as_str(),
            Error::Cgroup { message } => message.as_str(),
        }
    }

    /// The error as one line for a person: what kind it is, then its text.
    pub fn describe(&self) -> (line: String)
        ensures
            line@ == Error::spec_prefix(self.spec_kind()) + self.spec_message(),
    {
        let prefix = match self {
            Error::Compilation { .. } => "Compilation error: ",
            Error::IO { .. } => "IO error: ",
            Error::Cgroup { .. } => "Failed to create cgroup: ",
        };
        let mut line = String::from_str(prefix);
        line.append(self.message());
        line
    }
}

} // verus!
