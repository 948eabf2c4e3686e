use startup_shell::log::LogFile;
use startup_shell::report::{
    report_captured_fault, report_fault, report_host_exit, report_host_failure, Report,
};

#[test]
fn log_files_have_their_names() {
    assert_eq!(LogFile::Panic.file_name(), "panic_log.txt");
    assert_eq!(LogFile::Error.file_name(), "error_log.txt");
    assert_ne!(LogFile::Panic.file_name(), LogFile::Error.file_name());
}

#[test]
fn fault_report_has_exact_texts() {
    let report = report_fault("panicked at src/main.rs:3:5:\nboom", "<disabled>");
    assert_eq!(report.log, LogFile::Panic);
    assert_eq!(
        report.body,
        "PANIC: panicked at src/main.rs:3:5:\nboom\n\nBacktrace:\n<disabled>\n"
    );
    assert_eq!(report.notice, "PANIC: panicked at src/main.rs:3:5:\nboom\n");
}

#[test]
fn fault_report_equals_the_value_written_out() {
    let report = report_fault("boom", "0: main");
    let expected = Report {
        log: LogFile::Panic,
        body: String::from("PANIC: boom\n\nBacktrace:\n0: main\n"),
        notice: String::from("PANIC: boom\n"),
    };
    assert_eq!(report, expected);
}

#[test]
fn fault_notice_opens_the_log_text() {
    let report = report_fault("index out of bounds", "0: main\n1: start");
    assert!(report.body.starts_with(report.notice.as_str()));
    assert!(report.body.contains("index out of bounds"));
    assert!(report.notice.contains("index out of bounds"));
}

#[test]
fn fault_report_with_empty_texts() {
    let report = report_fault("", "");
    assert_eq!(report.body, "PANIC: \n\nBacktrace:\n\n");
    assert_eq!(report.notice, "PANIC: \n");
}

#[test]
fn captured_fault_is_framed_like_any_fault() {
    let report = report_captured_fault("boom");
    assert_eq!(report.log, LogFile::Panic);
    assert_eq!(report.notice, "PANIC: boom\n");
    assert!(report.body.starts_with("PANIC: boom\n\nBacktrace:\n"));
    assert!(report.body.ends_with('\n'));
    let trace = &report.body["PANIC: boom\n\nBacktrace:\n".len()..report.body.len() - 1];
    assert_eq!(report, report_fault("boom", trace));
}

#[test]
fn host_failure_report_has_exact_texts() {
    let report = report_host_failure("Setup(\"no window\")");
    assert_eq!(report.log, LogFile::Error);
    assert_eq!(report.body, "Tauri Error: Setup(\"no window\")\n");
    assert_eq!(report.notice, "Tauri Error: Setup(\"no window\")\n");
}

#[test]
fn host_failure_is_one_line() {
    let report = report_host_failure("window creation failed");
    assert_eq!(report.body.matches('\n').count(), 1);
    assert!(report.body.ends_with('\n'));
    assert_eq!(report.body.lines().count(), 1);
}

#[test]
fn host_failure_with_line_feed_in_detail_spans_lines() {
    let report = report_host_failure("outer\n\nCaused by:\n    inner");
    assert_eq!(report.body, "Tauri Error: outer\n\nCaused by:\n    inner\n");
    assert_eq!(report.body.lines().count(), 4);
}

#[test]
fn clean_exit_reports_nothing() {
    assert_eq!(report_host_exit(&Ok(())), None);
}

#[test]
fn failed_exit_reports_the_failure() {
    let outcome: Result<(), String> = Err(String::from("window creation failed"));
    let report = report_host_exit(&outcome);
    assert_eq!(report, Some(report_host_failure("window creation failed")));
}

#[test]
fn failed_exit_with_empty_detail() {
    let outcome: Result<(), String> = Err(String::new());
    let report = report_host_exit(&outcome).unwrap();
    assert_eq!(report.log, LogFile::Error);
    assert_eq!(report.body, "Tauri Error: \n");
}

#[test]
fn text_beyond_ascii_is_kept() {
    let report = report_fault("パニック", "跡");
    assert_eq!(report.body, "PANIC: パニック\n\nBacktrace:\n跡\n");
    let failure = report_host_failure("ウィンドウ");
    assert_eq!(failure.notice, "Tauri Error: ウィンドウ\n");
}
