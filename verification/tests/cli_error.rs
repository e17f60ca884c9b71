use agenthub::cli_error::{is_non_error_kind, render_cli_error, write_cli_error, CliErrorKind};

#[test]
fn write_cli_error_formats_single_error_without_cause_chain() {
    let err = anyhow::Error::msg("team_id is required (flag or env fallback)");

    let rendered = write_cli_error(&err);

    assert_eq!(rendered, "Error: team_id is required (flag or env fallback)\n");
    assert!(!rendered.contains("Caused by:"));
}

#[test]
fn write_cli_error_formats_cause_chain() {
    let err = anyhow::Error::msg("grpc unavailable").context("actor permission review control failed");

    let rendered = write_cli_error(&err);

    assert!(rendered.contains("Error: actor permission review control failed"));
    assert!(rendered.contains("Caused by:\n  1: grpc unavailable"));
}

#[test]
fn render_cli_error_numbers_every_cause() {
    let messages: Vec<String> = vec!["top", "a", "b", "c", "d", "e", "f", "g", "h", "i", "j"]
        .into_iter()
        .map(|s| s.to_string())
        .collect();
    let rendered = render_cli_error(&messages);
    assert!(rendered.starts_with("Error: top\n\nCaused by:\n  1: a\n  2: b\n"));
    assert!(rendered.ends_with("  9: i\n  10: j\n"));
}

#[test]
fn printing_help_or_version_is_no_failure() {
    assert!(is_non_error_kind(CliErrorKind::DisplayHelp));
    assert!(is_non_error_kind(CliErrorKind::DisplayVersion));
    assert!(!is_non_error_kind(CliErrorKind::Other));
}
