//! The two diagnostic logs that the shell may write.

use vstd::prelude::*;

verus! {

/// One of the two log files. Both live in the working directory of the
/// process and hold plain text.
#[derive(Clone, Copy, Debug, PartialEq, Eq, Structural)]
pub enum LogFile {
    /// Receives the description of a fault and a stack trace.
    Panic,
    /// Receives the description of a failed host run.
    Error,
}

impl LogFile {
    /// The file's name, relative to the working directory.
    pub open spec fn name(self) -> Seq<char> {
        match self {
            LogFile::Panic => "panic_log.txt"@,
            LogFile::Error => "error_log.txt"@,
        }
    }

    /// The file's name, relative to the working directory.
    pub fn file_name(self) -> (name: &'static str)
        ensures
            name@ == self.name(),
    {
        match self {
            LogFile::Panic => "panic_log.txt",
            LogFile::Error => "error_log.txt",
        }
    }
}

/// The two logs are different files: writing one never touches the other.
pub proof fn lemma_log_names_differ()
    ensures
        LogFile::Panic.name() != LogFile::Error.name(),
{
    reveal_strlit("panic_log.txt");
    reveal_strlit("error_log.txt");
    assert(LogFile::Panic.name()[0] == 'p');
    assert(LogFile::Error.name()[0] == 'e');
}

} // verus!
