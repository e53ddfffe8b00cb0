use vstd::prelude::*;
use vstd::utf8::*;

use crate::command::CommandArgs;
use crate::error::{Error, ErrorKind};
use crate::text::utf8_text;
use crate::util::{join_path, spec_join_path};

verus! {

/// How a submission becomes a project: the file its source is written to,
/// and the build command, if the language has one.
#[derive(Debug, Clone, Copy, PartialEq, Eq)]
pub struct Compiler<'a> {
    pub main_file: &'a str,
    pub args: Option<CommandArgs<'a>>,
}

impl<'a> Compiler<'a> {
    /// Whether the build succeeded: there was no build command, or the
    /// command printed no diagnostics.
    pub open spec fn spec_accepts(&self, diagnostics: Seq<u8>) -> bool {
        self.args is None || diagnostics.len() == 0
    }

    /// The path of the source file inside the project directory.
    pub fn main_file_path(&self, project_path: &str) -> (path: String)
        ensures
            path@ == spec_join_path(project_path@, self.main_file@),
    {
        join_path(project_path, self.main_file)
    }

    /// Judges a build from what the build command wrote to standard error,
    /// and hands the project directory on where the build succeeded. Where
    /// the language has no build command the diagnostics are not looked at.
    /// Any diagnostics at all fail the build; they become the message of the
    /// error, and where they are not valid UTF-8 the error is one of I/O.
    pub fn compile(&self, project_path: String, diagnostics: Vec<u8>) -> (project: Result<
        String,
        Error,
    >)
        ensures
            project is Ok <==> self.spec_accepts(diagnostics@),
            project matches Ok(path) ==> path@ == project_path@,
            project matches Err(error) ==> {
                &&& valid_utf8(diagnostics@) ==> error.spec_kind() == ErrorKind::Compilation
                    && error.spec_message() == decode_utf8(diagnostics@)
                &&& !valid_utf8(diagnostics@) ==> error.spec_kind() == ErrorKind::IO
            },
    {
        if self.args.is_none() || diagnostics.len() == 0 {
            return Ok(project_path);
        }
        match utf8_text(diagnostics) {
            Ok(message) => Err(Error::Compilation { message }),
            Err(message) => Err(Error::IO { message }),
        }
    }
}

} // verus!
