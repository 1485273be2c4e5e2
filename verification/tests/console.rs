use crately::actors::console::{
    banner_text, line_ending, line_output, render_event, spinner_clear_text, spinner_frame,
    Console, ConsoleEvent, ConsoleLine, CrateSummary, LineStyle, SpinnerCommand, ERROR, LOCATION,
    PROGRESS, SUCCESS, WARNING,
};
use crately::colors::ColorConfig;
use crately::crate_specifier::CrateSpecifier;

fn plain() -> ColorConfig {
    ColorConfig::with_enabled(false)
}

#[test]
fn console_test_constants_are_defined() {
    assert_eq!(SUCCESS, "✓");
    assert_eq!(ERROR, "✗");
    assert_eq!(PROGRESS, "⋯");
    assert_eq!(LOCATION, "→");
    assert_eq!(WARNING, "⚠");
}

#[test]
fn test_line_ending_normal_mode() {
    assert_eq!(line_ending(false), "\n");
}

#[test]
fn test_line_ending_raw_mode() {
    assert_eq!(line_ending(true), "\r\n");
}

#[test]
fn console_test_banner_template_has_box_drawing_characters() {
    let banner = banner_text("0.1.0");
    assert!(banner.contains("╔"));
    assert!(banner.contains("╗"));
    assert!(banner.contains("╚"));
    assert!(banner.contains("╝"));
    assert!(banner.contains("═"));
    assert!(banner.contains("║"));
}

#[test]
fn console_test_banner_template_has_expected_content() {
    let banner = banner_text("0.1.0");
    assert!(banner.contains("CRATELY"));
    assert!(banner.contains("Crate Documentation & Search Service"));
    assert!(banner.contains("License: AGPL-3.0-or-later"));
    assert!(banner.contains("Version"));
}

#[test]
fn console_test_print_banner_with_short_version() {
    assert!(banner_text("0.1").contains("Version 0.1    "));
}

#[test]
fn console_test_print_banner_with_max_length_version() {
    let banner = banner_text("10.20.3");
    assert!(banner.contains("Version 10.20.3                       ║"));
}

#[test]
fn console_test_print_banner_with_long_version() {
    assert!(banner_text("1.0.0-rc.1").contains("Version 1.0.0-rc.1 "));
}

#[test]
fn console_test_print_banner_with_empty_version() {
    let banner = banner_text("");
    assert!(banner.contains("Version                               ║"));
}

#[test]
fn console_test_print_success_executes_without_panic() {
    let line = ConsoleLine { style: LineStyle::Success, text: "Test success message".to_string() };
    assert_eq!(line_output(&line, false, plain()), "✓ Test success message\n");
}

#[test]
fn test_print_success_raw_mode_executes_without_panic() {
    let line = ConsoleLine { style: LineStyle::Success, text: "Test success message".to_string() };
    assert_eq!(line_output(&line, true, plain()), "✓ Test success message\r\n");
}

#[test]
fn console_test_print_error_executes_without_panic() {
    let line = ConsoleLine { style: LineStyle::Error, text: "Test error message".to_string() };
    assert_eq!(line_output(&line, false, plain()), "✗ Test error message\n");
}

#[test]
fn console_test_print_progress_executes_without_panic() {
    let line = ConsoleLine { style: LineStyle::Progress, text: "Test progress message".to_string() };
    assert_eq!(line_output(&line, false, plain()), "⋯ Test progress message\n");
}

#[test]
fn console_test_print_warning_executes_without_panic() {
    let line = ConsoleLine { style: LineStyle::Warning, text: "Test warning message".to_string() };
    assert_eq!(line_output(&line, false, plain()), "⚠ Test warning message\n");
}

#[test]
fn console_test_print_separator_executes_without_panic() {
    let lines = render_event(&ConsoleEvent::PrintSeparator);
    assert_eq!(lines.len(), 1);
    assert_eq!(
        lines[0].text,
        "───────────────────────────────────────────────────────────"
    );
}

#[test]
fn colored_line_keeps_symbol_outside_the_colors() {
    let line = ConsoleLine { style: LineStyle::Success, text: "ok".to_string() };
    let out = line_output(&line, false, ColorConfig::with_enabled(true));
    assert!(out.starts_with("✓ \u{1b}["));
    assert!(out.ends_with("ok\u{1b}[0m\n"));
}

#[test]
fn list_response_lines() {
    let console = Console::new(plain());
    let out = console.show(&ConsoleEvent::CrateListResponse {
        crates: vec![CrateSummary {
            name: "serde".to_string(),
            version: "1.0.0".to_string(),
            status: "complete".to_string(),
        }],
        total_count: 3,
    });
    assert_eq!(
        out,
        vec![
            "✓ Found 1 crate (total: 3)\n".to_string(),
            "  → serde@1.0.0 [complete]\n".to_string()
        ]
    );
    let none = console.show(&ConsoleEvent::CrateListResponse { crates: vec![], total_count: 0 });
    assert_eq!(none, vec!["⚠ No crates found in database\n".to_string()]);
}

#[test]
fn query_response_lines() {
    let lines = render_event(&ConsoleEvent::CrateQueryResponse {
        specifier: Some(CrateSpecifier::parse("serde@1.0.0").unwrap()),
        status: "complete".to_string(),
        features: vec!["derive".to_string(), "std".to_string()],
        created_at: String::new(),
    });
    let texts: Vec<&str> = lines.iter().map(|l| l.text.as_str()).collect();
    assert_eq!(
        texts,
        vec![
            "Found crate: serde@1.0.0",
            "  → Status: complete",
            "  → Features: derive, std"
        ]
    );
}

#[test]
fn progress_lines_for_pipeline_events() {
    let s = CrateSpecifier::parse("tokio@1.35.0").unwrap();
    let lines = render_event(&ConsoleEvent::DocChunkPersisted { specifier: s.clone(), chunk_index: 0 });
    assert_eq!(lines[0].text, "Persisting chunk 1/? for tokio@1.35.0");
    let lines = render_event(&ConsoleEvent::CrateProcessingComplete {
        specifier: s,
        stages_completed: 4,
        total_duration_ms: 1234,
    });
    assert_eq!(lines[0].style, LineStyle::Success);
    assert_eq!(lines[0].text, "Crate processing complete: tokio@1.35.0 (4 stages, 1234ms)");
}

#[test]
fn reload_failure_shows_error_and_warning() {
    let console = Console::new(plain());
    let out = console.show(&ConsoleEvent::ConfigReloadFailed { error: "bad".to_string() });
    assert_eq!(
        out,
        vec![
            "✗ Configuration reload failed → bad\n".to_string(),
            "⚠ Server continues with previous configuration\n".to_string()
        ]
    );
}

#[test]
fn raw_mode_changes_line_endings() {
    let mut console = Console::new(plain());
    console.set_raw_mode(true);
    let out = console.show(&ConsoleEvent::ServerReloaded { port: 8080 });
    assert_eq!(out, vec!["✓ Server reloaded → http://127.0.0.1:8080\r\n".to_string()]);
}

#[test]
fn spinner_task_starts_once() {
    let mut console = Console::new(plain());
    assert!(console.update_spinner("x".to_string()).is_none());
    let (first, _) = console.start_spinner("Working".to_string());
    assert!(first);
    let (second, cmd) = console.start_spinner("Again".to_string());
    assert!(!second);
    assert!(matches!(cmd, SpinnerCommand::Start(m) if m == "Again"));
    let (stop, lines) = console.stop_spinner(Some("Done".to_string()), true);
    assert!(matches!(stop, Some(SpinnerCommand::Stop)));
    assert_eq!(lines, vec!["✓ Done\n".to_string()]);
    assert_eq!(spinner_frame(0), '⠋');
    assert_eq!(spinner_frame(11), '⠙');
    assert_eq!(spinner_clear_text(false), format!("\r{}\r", " ".repeat(80)));
}

#[test]
fn success_message_follows_the_raw_mode() {
    let mut console = Console::new(plain());
    console.set_raw_mode(true);
    assert_eq!(console.show(&ConsoleEvent::PrintSuccess("done".to_string())), vec!["✓ done\r\n"]);
    console.set_raw_mode(false);
    assert_eq!(console.show(&ConsoleEvent::PrintSuccess("done".to_string())), vec!["✓ done\n"]);
}
