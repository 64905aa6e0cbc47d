use epub2md::errors::PipelineError;
use epub2md::paths::InputSpec;
use epub2md::pipeline::Action;
use epub2md::pipeline::Event;
use epub2md::pipeline::Pipeline;
use epub2md::pipeline::SpawnOutcome;
use epub2md::pipeline::ToolOutcome;

const BOOK_HTML: &str = "<html><body><h1>Title</h1><p>Hello</p></body></html>";

fn input(epub: &str, out: Option<&str>) -> InputSpec {
    InputSpec {
        epub_path: epub.to_string(),
        output_path: out.map(|s| s.to_string()),
    }
}

fn dep_ok() -> Event {
    Event::Dependency {
        outcome: SpawnOutcome::Exited { success: true },
    }
}

fn cwd_ok(cwd: &str) -> Event {
    Event::Cwd {
        result: Ok(cwd.to_string()),
    }
}

fn converter_ok() -> Event {
    Event::Converter {
        outcome: ToolOutcome::Exited {
            success: true,
            stderr: String::new(),
        },
    }
}

fn read_ok(html: &str) -> Event {
    Event::Read {
        result: Ok(html.to_string()),
    }
}

/// Drives one full run on `book.epub` in `/work` and returns the written
/// Markdown content.
fn run_to_completion(html: &str) -> String {
    let mut p = Pipeline::new(input("book.epub", None));
    assert!(matches!(p.next_action(), Action::CheckDependency));
    p = p.step(dep_ok());
    assert!(matches!(p.next_action(), Action::ResolveCwd));
    p = p.step(cwd_ok("/work"));
    match p.next_action() {
        Action::RunConverter { epub, html_out } => {
            assert_eq!(epub, "book.epub");
            assert_eq!(html_out, "/work/temp_epub.html");
        }
        _ => panic!("expected RunConverter"),
    }
    p = p.step(converter_ok());
    match p.next_action() {
        Action::ReadIntermediate { path } => assert_eq!(path, "/work/temp_epub.html"),
        _ => panic!("expected ReadIntermediate"),
    }
    p = p.step(read_ok(html));
    let content = match p.next_action() {
        Action::WriteOutput { path, content } => {
            assert_eq!(path, "/work/book.md");
            content
        }
        _ => panic!("expected WriteOutput"),
    };
    p = p.step(Event::Write { error: None });
    match p.next_action() {
        Action::DeleteIntermediate { path } => assert_eq!(path, "/work/temp_epub.html"),
        _ => panic!("expected DeleteIntermediate"),
    }
    p = p.step(Event::Delete { error: None });
    assert!(p.is_finished());
    match p.next_action() {
        Action::ReportSuccess { output } => assert_eq!(output, "/work/book.md"),
        _ => panic!("expected ReportSuccess"),
    }
    content
}

#[test]
fn invalid_input_fails_before_any_subprocess() {
    let p = Pipeline::new(input("notes.txt", None));
    assert!(p.is_finished());
    match p.next_action() {
        Action::ReportFailure { error } => {
            assert!(matches!(error, PipelineError::InvalidInput { .. }));
        }
        _ => panic!("expected ReportFailure"),
    }
}

#[test]
fn missing_tool_reports_dependency_unavailable() {
    let mut p = Pipeline::new(input("book.epub", None));
    p = p.step(Event::Dependency {
        outcome: SpawnOutcome::StartFailed,
    });
    assert!(p.is_finished());
    match p.next_action() {
        Action::ReportFailure { error } => match error {
            PipelineError::DependencyUnavailable { msg } => {
                assert!(msg.contains("not found"));
            }
            _ => panic!("expected DependencyUnavailable"),
        },
        _ => panic!("expected ReportFailure"),
    }
}

#[test]
fn failing_version_check_is_distinguished_from_missing_tool() {
    let missing = Pipeline::new(input("book.epub", None)).step(Event::Dependency {
        outcome: SpawnOutcome::StartFailed,
    });
    let failing = Pipeline::new(input("book.epub", None)).step(Event::Dependency {
        outcome: SpawnOutcome::Exited { success: false },
    });
    let msg_of = |p: &Pipeline| match p.next_action() {
        Action::ReportFailure { error } => error.describe(),
        _ => panic!("expected ReportFailure"),
    };
    let missing_msg = msg_of(&missing);
    let failing_msg = msg_of(&failing);
    assert!(missing_msg.starts_with("dependency unavailable: "));
    assert!(failing_msg.starts_with("dependency unavailable: "));
    assert_ne!(missing_msg, failing_msg);
    assert!(failing_msg.contains("version check"));
}

#[test]
fn dependency_failure_stays_failed_whatever_follows() {
    let mut p = Pipeline::new(input("book.epub", None));
    p = p.step(Event::Dependency {
        outcome: SpawnOutcome::Exited { success: false },
    });
    p = p.step(cwd_ok("/work"));
    p = p.step(converter_ok());
    p = p.step(read_ok(BOOK_HTML));
    assert!(p.is_finished());
    match p.next_action() {
        Action::ReportFailure { error } => {
            assert!(matches!(error, PipelineError::DependencyUnavailable { .. }));
        }
        _ => panic!("expected ReportFailure"),
    }
}

#[test]
fn tool_failure_carries_captured_stderr_verbatim() {
    let mut p = Pipeline::new(input("book.epub", None));
    p = p.step(dep_ok());
    p = p.step(cwd_ok("/work"));
    p = p.step(Event::Converter {
        outcome: ToolOutcome::Exited {
            success: false,
            stderr: "epub parse failed at byte 42".to_string(),
        },
    });
    match p.next_action() {
        Action::ReportFailure { error } => {
            match &error {
                PipelineError::ExternalToolError { msg } => {
                    assert!(msg.ends_with("epub parse failed at byte 42"));
                }
                _ => panic!("expected ExternalToolError"),
            }
            assert!(error.describe().contains("epub parse failed at byte 42"));
        }
        _ => panic!("expected ReportFailure"),
    }
}

#[test]
fn unstartable_conversion_reports_external_tool_error() {
    let mut p = Pipeline::new(input("book.epub", None));
    p = p.step(dep_ok());
    p = p.step(cwd_ok("/work"));
    p = p.step(Event::Converter {
        outcome: ToolOutcome::StartFailed {
            msg: "no such file".to_string(),
        },
    });
    match p.next_action() {
        Action::ReportFailure { error } => match error {
            PipelineError::ExternalToolError { msg } => {
                assert!(msg.contains("no such file"));
            }
            _ => panic!("expected ExternalToolError"),
        },
        _ => panic!("expected ReportFailure"),
    }
}

#[test]
fn full_run_writes_the_transformed_markdown() {
    let content = run_to_completion(BOOK_HTML);
    assert_eq!(content, html2md::parse_html(BOOK_HTML));
    assert_ne!(content, BOOK_HTML);
    assert!(content.contains("Title"));
    assert!(content.contains("Hello"));
}

#[test]
fn two_runs_on_the_same_input_write_identical_bytes() {
    let first = run_to_completion(BOOK_HTML);
    let second = run_to_completion(BOOK_HTML);
    assert_eq!(first, second);
}

#[test]
fn cwd_failure_reports_io_error() {
    let mut p = Pipeline::new(input("book.epub", None));
    p = p.step(dep_ok());
    p = p.step(Event::Cwd {
        result: Err("permission denied".to_string()),
    });
    match p.next_action() {
        Action::ReportFailure { error } => match error {
            PipelineError::IoError { msg } => assert!(msg.contains("permission denied")),
            _ => panic!("expected IoError"),
        },
        _ => panic!("expected ReportFailure"),
    }
}

#[test]
fn read_failure_reports_io_error() {
    let mut p = Pipeline::new(input("book.epub", None));
    p = p.step(dep_ok());
    p = p.step(cwd_ok("/work"));
    p = p.step(converter_ok());
    p = p.step(Event::Read {
        result: Err("stream did not contain valid UTF-8".to_string()),
    });
    match p.next_action() {
        Action::ReportFailure { error } => match error {
            PipelineError::IoError { msg } => {
                assert!(msg.contains("stream did not contain valid UTF-8"));
            }
            _ => panic!("expected IoError"),
        },
        _ => panic!("expected ReportFailure"),
    }
}

#[test]
fn write_failure_fails_without_asking_for_cleanup() {
    let mut p = Pipeline::new(input("book.epub", None));
    p = p.step(dep_ok());
    p = p.step(cwd_ok("/work"));
    p = p.step(converter_ok());
    p = p.step(read_ok(BOOK_HTML));
    p = p.step(Event::Write {
        error: Some("disk full".to_string()),
    });
    assert!(p.is_finished());
    match p.next_action() {
        Action::ReportFailure { error } => match error {
            PipelineError::IoError { msg } => assert!(msg.contains("disk full")),
            _ => panic!("expected IoError"),
        },
        _ => panic!("expected ReportFailure, not a delete"),
    }
}

#[test]
fn delete_failure_after_write_is_still_reported() {
    let mut p = Pipeline::new(input("book.epub", None));
    p = p.step(dep_ok());
    p = p.step(cwd_ok("/work"));
    p = p.step(converter_ok());
    p = p.step(read_ok(BOOK_HTML));
    p = p.step(Event::Write { error: None });
    p = p.step(Event::Delete {
        error: Some("operation not permitted".to_string()),
    });
    assert!(p.is_finished());
    match p.next_action() {
        Action::ReportFailure { error } => match error {
            PipelineError::IoError { msg } => {
                assert!(msg.contains("could not be deleted"));
                assert!(msg.contains("operation not permitted"));
            }
            _ => panic!("expected IoError"),
        },
        _ => panic!("expected ReportFailure"),
    }
}

#[test]
fn event_that_does_not_belong_to_the_state_changes_nothing() {
    let mut p = Pipeline::new(input("book.epub", None));
    p = p.step(Event::Write { error: None });
    p = p.step(Event::Delete { error: None });
    assert!(matches!(p.next_action(), Action::CheckDependency));
}

#[test]
fn caller_supplied_output_is_used_for_the_write() {
    let mut p = Pipeline::new(input("book.epub", Some("/elsewhere/out.md")));
    p = p.step(dep_ok());
    p = p.step(cwd_ok("/work"));
    p = p.step(converter_ok());
    p = p.step(read_ok(BOOK_HTML));
    match p.next_action() {
        Action::WriteOutput { path, .. } => assert_eq!(path, "/elsewhere/out.md"),
        _ => panic!("expected WriteOutput"),
    }
}

#[test]
fn usage_error_describes_the_invocation() {
    let msg = PipelineError::UsageError.describe();
    assert_eq!(msg, "usage: epub2md <input epub file> [output md file]");
}
