//! A model of what the shell can change outside itself, and the laws that
//! its reports obey there.

use vstd::prelude::*;
use crate::log::{lemma_log_names_differ, LogFile};
use crate::report::{failure_line, ReportView};
use crate::text::{is_single_line, occurs_at, occurs_in};

verus! {

/// The files of the working directory, each name with its content, and
/// everything printed on standard error so far.
#[verifier::ext_equal]
pub struct Surroundings {
    pub files: Map<Seq<char>, Seq<char>>,
    pub stderr: Seq<char>,
}

impl Surroundings {
    /// Surroundings in which no file exists and nothing has been printed.
    pub open spec fn blank() -> Surroundings {
        Surroundings { files: Map::empty(), stderr: Seq::empty() }
    }

    /// The surroundings once `report` has been carried out. `opened` says
    /// whether the log could be opened; if not, the log is left alone.
    pub open spec fn deliver(self, report: ReportView, opened: bool) -> Surroundings {
        Surroundings {
            files: if opened {
                self.files.insert(report.log.name(), report.body)
            } else {
                self.files
            },
            stderr: self.stderr + report.notice,
        }
    }

    /// The surroundings once the host has returned: untouched after a clean
    /// exit (`failure` is `None`), else with the failure reported.
    pub open spec fn after_host_exit(
        self,
        failure: Option<Seq<char>>,
        opened: bool,
    ) -> Surroundings {
        match failure {
            None => self,
            Some(detail) => self.deliver(ReportView::of_failure(detail), opened),
        }
    }
}

/// A fault leads to exactly one write: the panic log is replaced by a text
/// that holds the fault's description, and no other file changes. Standard
/// error receives the opening line of that text, which holds the description
/// too.
pub proof fn lemma_fault_written_once_and_mirrored(
    before: Surroundings,
    description: Seq<char>,
    trace: Seq<char>,
)
    ensures
        ({
            let report = ReportView::of_fault(description, trace);
            let after = before.deliver(report, true);
            &&& after.files == before.files.insert(LogFile::Panic.name(), report.body)
            &&& after.stderr == before.stderr + report.notice
            &&& occurs_in(description, report.body)
            &&& occurs_in(description, report.notice)
            &&& occurs_at(report.notice, report.body, 0)
        }),
{
    let report = ReportView::of_fault(description, trace);
    reveal_strlit("PANIC: ");
    assert(report.notice.subrange(7, 7int + description.len()) =~= description);
    assert(report.body.subrange(7, 7int + description.len()) =~= description);
    assert(occurs_at(description, report.notice, 7));
    assert(occurs_at(description, report.body, 7));
    assert(report.body.subrange(0, 0int + report.notice.len()) =~= report.notice);
}

/// A second fault overwrites the panic log: the files are as if the first
/// fault had never been reported, and the log is as long as the second text.
/// Standard error keeps both lines, in order.
pub proof fn lemma_refault_overwrites(
    before: Surroundings,
    first_description: Seq<char>,
    first_trace: Seq<char>,
    second_description: Seq<char>,
    second_trace: Seq<char>,
)
    ensures
        ({
            let first = ReportView::of_fault(first_description, first_trace);
            let second = ReportView::of_fault(second_description, second_trace);
            let after = before.deliver(first, true).deliver(second, true);
            &&& after.files == before.deliver(second, true).files
            &&& after.files[LogFile::Panic.name()] == second.body
            &&& after.files[LogFile::Panic.name()].len() == second.body.len()
            &&& after.stderr == before.stderr + first.notice + second.notice
        }),
{
    let first = ReportView::of_fault(first_description, first_trace);
    let second = ReportView::of_fault(second_description, second_trace);
    let after = before.deliver(first, true).deliver(second, true);
    assert(after.files =~= before.deliver(second, true).files);
}

/// After a failed host run the error log holds exactly one line, provided
/// that the host's rendering of its error holds no line feed. The line names
/// the failure as an error of the host and holds the rendering.
pub proof fn lemma_host_failure_is_one_line(before: Surroundings, detail: Seq<char>)
    requires
        !detail.contains('\n'),
    ensures
        ({
            let after = before.after_host_exit(Some(detail), true);
            let line = after.files[LogFile::Error.name()];
            &&& after.files.contains_key(LogFile::Error.name())
            &&& line == failure_line(detail)
            &&& is_single_line(line)
            &&& occurs_at("Tauri Error"@, line, 0)
            &&& occurs_in(detail, line)
        }),
{
    let line = failure_line(detail);
    reveal_strlit("Tauri Error: ");
    reveal_strlit("Tauri Error");
    reveal_strlit("\n");
    assert forall|i: int| 0 <= i < line.len() - 1 implies line[i] != '\n' by {
        if i >= 13 {
            assert(line[i] == detail[i - 13]);
            assert(detail.contains(detail[i - 13]));
        }
    }
    assert(line.subrange(0, 0int + "Tauri Error"@.len()) =~= "Tauri Error"@);
    assert(line.subrange(13, 13int + detail.len()) =~= detail);
    assert(occurs_at(detail, line, 13));
}

/// Reporting a failed host run leaves every file but the error log as it
/// was, the panic log among them: this path does not pass through the crash
/// handler.
pub proof fn lemma_host_failure_spares_panic_log(
    before: Surroundings,
    detail: Seq<char>,
    opened: bool,
)
    ensures
        ({
            let after = before.after_host_exit(Some(detail), opened);
            &&& after.files.remove(LogFile::Error.name()) == before.files.remove(
                LogFile::Error.name(),
            )
            &&& after.files.contains_key(LogFile::Panic.name()) == before.files.contains_key(
                LogFile::Panic.name(),
            )
            &&& after.files[LogFile::Panic.name()] == before.files[LogFile::Panic.name()]
        }),
{
    lemma_log_names_differ();
    let after = before.after_host_exit(Some(detail), opened);
    assert(after.files.remove(LogFile::Error.name()) =~= before.files.remove(
        LogFile::Error.name(),
    ));
}

/// A clean exit of the host changes nothing: no log is written and nothing
/// is printed.
pub proof fn lemma_clean_exit_writes_nothing(before: Surroundings, opened: bool)
    ensures
        before.after_host_exit(None, opened) == before,
{
}

/// Carrying out a report leaves its log in place with exactly the report's
/// text, whether or not the file was there before and whatever it held.
pub proof fn lemma_report_creates_its_log(before: Surroundings, report: ReportView)
    ensures
        before.deliver(report, true).files.contains_key(report.log.name()),
        before.deliver(report, true).files[report.log.name()] == report.body,
{
}

/// A log that cannot be opened is skipped: no file changes, and standard
/// error still receives the notice.
pub proof fn lemma_unopened_log_is_skipped(before: Surroundings, report: ReportView)
    ensures
        before.deliver(report, false).files == before.files,
        before.deliver(report, false).stderr == before.stderr + report.notice,
{
}

} // verus!
