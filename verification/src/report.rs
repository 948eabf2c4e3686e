//! What the shell reports, and where: the text of each log and of the line
//! that mirrors it on standard error.

use vstd::prelude::*;
use crate::log::LogFile;

verus! {

/// One diagnostic event, ready to be carried out: `body` replaces the whole
/// content of `log`, which is created if missing, and `notice` is printed on
/// standard error. A log that cannot be opened is skipped in silence; the
/// notice is printed either way.
#[derive(Debug, PartialEq, Eq)]
pub struct Report {
    pub log: LogFile,
    pub body: String,
    pub notice: String,
}

/// A report as contracts see it: its texts as sequences of characters.
pub struct ReportView {
    pub log: LogFile,
    pub body: Seq<char>,
    pub notice: Seq<char>,
}

impl View for Report {
    type V = ReportView;

    open spec fn view(&self) -> ReportView {
        ReportView { log: self.log, body: self.body@, notice: self.notice@ }
    }
}

/// The line that names a fault.
pub open spec fn fault_notice(description: Seq<char>) -> Seq<char> {
    "PANIC: "@ + description + "\n"@
}

/// The part of the panic log that holds the stack trace.
pub open spec fn trace_section(trace: Seq<char>) -> Seq<char> {
    "\nBacktrace:\n"@ + trace + "\n"@
}

/// The line that describes a failed host run.
pub open spec fn failure_line(detail: Seq<char>) -> Seq<char> {
    "Tauri Error: "@ + detail + "\n"@
}

impl ReportView {
    /// The report of a fault: the panic log gets the line that names the
    /// fault, then the trace; standard error gets the line alone.
    pub open spec fn of_fault(description: Seq<char>, trace: Seq<char>) -> ReportView {
        ReportView {
            log: LogFile::Panic,
            body: fault_notice(description) + trace_section(trace),
            notice: fault_notice(description),
        }
    }

    /// The report of a failed host run: the same line for the error log and
    /// for standard error.
    pub open spec fn of_failure(detail: Seq<char>) -> ReportView {
        ReportView {
            log: LogFile::Error,
            body: failure_line(detail),
            notice: failure_line(detail),
        }
    }
}

/// Reports a fault whose stack trace the caller has rendered as text.
pub fn report_fault(description: &str, trace: &str) -> (report: Report)
    ensures
        report@ == ReportView::of_fault(description@, trace@),
{
    let mut notice = String::from_str("PANIC: ");
    notice.append(description);
    notice.append("\n");
    let mut body = notice.clone();
    body.append("\nBacktrace:\n");
    body.append(trace);
    body.append("\n");
    assert(body@ =~= fault_notice(description@) + trace_section(trace@));
    Report { log: LogFile::Panic, body, notice }
}

/// Calls `std::backtrace::Backtrace::capture` and renders what it returns with
/// the `Debug` impl of `Backtrace`. The text depends on the environment and on
/// the stack at the call, so nothing is claimed of it.
#[verifier::external_body]
fn capture_trace() -> (trace: String) {
    format!("{:?}", std::backtrace::Backtrace::capture())
}

/// Reports a fault where it is observed: captures the stack trace that is
/// available there and reports the fault with it.
pub fn report_captured_fault(description: &str) -> (report: Report)
    ensures
        report@.log == LogFile::Panic,
        report@.notice == fault_notice(description@),
        exists|trace: Seq<char>| report@ == #[trigger] ReportView::of_fault(description@, trace),
{
    let trace = capture_trace();
    report_fault(description, trace.as_str())
}

/// Reports a failed host run, given the host's own rendering of its error.
pub fn report_host_failure(detail: &str) -> (report: Report)
    ensures
        report@ == ReportView::of_failure(detail@),
{
    let mut line = String::from_str("Tauri Error: ");
    line.append(detail);
    line.append("\n");
    let notice = line.clone();
    Report { log: LogFile::Error, body: line, notice }
}

/// Decides what follows once the host has returned: nothing after a clean
/// exit, one report after a failed run.
pub fn report_host_exit(outcome: &Result<(), String>) -> (report: Option<Report>)
    ensures
        outcome is Ok ==> report is None,
        outcome matches Err(detail) ==>
            report matches Some(r) && r@ == ReportView::of_failure(detail@),
{
    match outcome {
        Ok(_) => None,
        Err(detail) => Some(report_host_failure(detail.as_str())),
    }
}

} // verus!
