use spring_initializr_cli::errors::WizardError;
use spring_initializr_cli::report::{report_outcome, ExecOutcome, ToolReport};
use spring_initializr_cli::text::center_text;

#[test]
fn success_reports_standard_output_verbatim() {
    let outcome = ExecOutcome {
        exit_code: Some(0),
        stdout: "Using service at https://start.spring.io\n".to_string(),
        stderr: "".to_string(),
    };
    match report_outcome(&outcome) {
        ToolReport::Success(text) => {
            assert_eq!(text, "Using service at https://start.spring.io\n")
        }
        ToolReport::Failure(_) => panic!("a zero exit must report success"),
    }
}

#[test]
fn nonzero_exit_reports_standard_error_verbatim() {
    let outcome = ExecOutcome {
        exit_code: Some(2),
        stdout: "partial output".to_string(),
        stderr: "unknown option\n".to_string(),
    };
    match report_outcome(&outcome) {
        ToolReport::Failure(text) => assert_eq!(text, "unknown option\n"),
        ToolReport::Success(_) => panic!("a non-zero exit must report failure"),
    }
}

#[test]
fn signal_death_reports_standard_error() {
    let outcome = ExecOutcome {
        exit_code: None,
        stdout: "".to_string(),
        stderr: "killed".to_string(),
    };
    assert!(matches!(report_outcome(&outcome), ToolReport::Failure(_)));
}

#[test]
fn error_kinds_have_distinct_messages() {
    assert_eq!(WizardError::Fetch.message(), "failed to fetch the metadata document");
    assert_eq!(WizardError::Schema.message(), "schema category missing or malformed");
    assert_eq!(WizardError::Spawn.message(), "failed to spawn the external tool");
}

#[test]
fn narrow_text_is_centered_by_half_the_leftover_width() {
    assert_eq!(center_text("abcd", 10), "   abcd");
    assert_eq!(center_text("abc", 10), "   abc");
    assert_eq!(center_text("", 4), "  ");
}

#[test]
fn wide_text_is_returned_unchanged() {
    assert_eq!(center_text("abcdefgh", 8), "abcdefgh");
    assert_eq!(center_text("abcdefgh", 3), "abcdefgh");
}
