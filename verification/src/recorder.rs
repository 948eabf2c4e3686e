//! An in-memory stand-in for the surroundings, for dry runs: it keeps what
//! reports would have written instead of writing it.

use vstd::prelude::*;
use crate::log::{lemma_log_names_differ, LogFile};
use crate::report::Report;
use crate::surroundings::Surroundings;

verus! {

/// The two logs, each absent or with its content, and the text printed on
/// standard error.
pub struct Recorder {
    panic_log: Option<String>,
    error_log: Option<String>,
    stderr: String,
}

impl View for Recorder {
    type V = Surroundings;

    closed spec fn view(&self) -> Surroundings {
        let none = Map::<Seq<char>, Seq<char>>::empty();
        let one = match self.panic_log {
            Some(text) => none.insert(LogFile::Panic.name(), text@),
            None => none,
        };
        let both = match self.error_log {
            Some(text) => one.insert(LogFile::Error.name(), text@),
            None => one,
        };
        Surroundings { files: both, stderr: self.stderr@ }
    }
}

impl Recorder {
    /// A recorder of surroundings in which no file exists and nothing has
    /// been printed.
    pub fn new() -> (recorder: Recorder)
        ensures
            recorder@ == Surroundings::blank(),
    {
        Recorder { panic_log: None, error_log: None, stderr: String::new() }
    }

    /// Carries out `report` in memory. `opened` says whether the log is to
    /// count as one that could be opened.
    pub fn deliver(&mut self, report: &Report, opened: bool)
        ensures
            final(self)@ == old(self)@.deliver(report@, opened),
    {
        proof {
            lemma_log_names_differ();
        }
        if opened {
            match report.log {
                LogFile::Panic => {
                    self.panic_log = Some(report.body.clone());
                },
                LogFile::Error => {
                    self.error_log = Some(report.body.clone());
                },
            }
        }
        self.stderr.append(report.notice.as_str());
        assert(self@.files =~= old(self)@.deliver(report@, opened).files);
    }

    /// The content of `log`, or `None` where the file does not exist.
    pub fn log_text(&self, log: LogFile) -> (text: Option<&str>)
        ensures
            text is Some <==> self@.files.contains_key(log.name()),
            text matches Some(content) ==> content@ == self@.files[log.name()],
    {
        proof {
            lemma_log_names_differ();
        }
        match log {
            LogFile::Panic => match &self.panic_log {
                Some(content) => Some(content.as_str()),
                None => None,
            },
            LogFile::Error => match &self.error_log {
                Some(content) => Some(content.as_str()),
                None => None,
            },
        }
    }

    /// Everything printed on standard error so far.
    pub fn stderr_text(&self) -> (text: &str)
        ensures
            text@ == self@.stderr,
    {
        self.stderr.as_str()
    }
}

} // verus!
