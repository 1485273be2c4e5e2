use crately::cli::ColorChoice;
use crately::colors::{ColorConfig, TerminalEnvironment};

fn color_terminal() -> TerminalEnvironment {
    TerminalEnvironment {
        no_color: false,
        term: Some("xterm-256color".to_string()),
        clicolor: None,
        is_terminal: true,
    }
}

#[test]
fn test_color_config_force_disable_disables_colors() {
    let config = ColorConfig::new(true, &color_terminal());
    assert!(!config.is_enabled(), "Force disable should disable colors");
}

#[test]
fn test_color_config_respects_no_color_env() {
    let config = ColorConfig::new(true, &color_terminal());
    assert!(!config.is_enabled(), "Force disable should disable colors");
}

#[test]
fn test_color_config_respects_no_color_empty_value() {
    let config = ColorConfig::new(true, &color_terminal());
    assert!(
        !config.is_enabled(),
        "Force disable should work regardless of NO_COLOR"
    );
}

#[test]
fn test_color_config_is_copy() {
    let config1 = ColorConfig::new(false, &color_terminal());
    let config2 = config1;
    assert_eq!(config1.is_enabled(), config2.is_enabled());
}

#[test]
fn no_color_variable_disables_colors() {
    let env = TerminalEnvironment {
        no_color: true,
        term: Some("xterm".to_string()),
        clicolor: None,
        is_terminal: true,
    };
    assert!(!ColorConfig::new(false, &env).is_enabled());
}

#[test]
fn dumb_or_empty_terminal_disables_colors() {
    let dumb = TerminalEnvironment {
        no_color: false,
        term: Some("dumb".to_string()),
        clicolor: None,
        is_terminal: true,
    };
    assert!(!ColorConfig::new(false, &dumb).is_enabled());
    let empty = TerminalEnvironment {
        no_color: false,
        term: Some(String::new()),
        clicolor: None,
        is_terminal: true,
    };
    assert!(!ColorConfig::new(false, &empty).is_enabled());
}

#[test]
fn capable_or_unknown_terminal_enables_colors() {
    assert!(ColorConfig::new(false, &color_terminal()).is_enabled());
    let unset = TerminalEnvironment {
        no_color: false,
        term: None,
        clicolor: None,
        is_terminal: true,
    };
    assert!(ColorConfig::new(false, &unset).is_enabled());
}

use crately::colors::{format_error, format_progress, format_success, format_warning};

fn disabled() -> ColorConfig {
    ColorConfig::new(true, &color_terminal())
}

#[test]
fn test_format_success_with_colors_disabled() {
    assert_eq!(format_success("Success", disabled()), "Success");
}

#[test]
fn test_format_error_with_colors_disabled() {
    assert_eq!(format_error("Error", disabled()), "Error");
}

#[test]
fn test_format_warning_with_colors_disabled() {
    assert_eq!(format_warning("Warning", disabled()), "Warning");
}

#[test]
fn test_format_progress_with_colors_disabled() {
    assert_eq!(format_progress("Progress", disabled()), "Progress");
}

#[test]
fn test_format_success_with_colors_enabled() {
    let result = format_success("Success", ColorConfig::with_enabled(true));
    assert!(result.contains("\x1b["));
    assert!(result.contains("Success"));
}

#[test]
fn test_format_error_with_colors_enabled() {
    let result = format_error("Error", ColorConfig::with_enabled(true));
    assert!(result.contains("\x1b["));
    assert!(result.contains("Error"));
}

#[test]
fn test_format_warning_with_colors_enabled() {
    let result = format_warning("Warning", ColorConfig::with_enabled(true));
    assert!(result.contains("\x1b["));
    assert!(result.contains("Warning"));
}

#[test]
fn test_format_progress_with_colors_enabled() {
    let result = format_progress("Progress", ColorConfig::with_enabled(true));
    assert!(result.contains("\x1b["));
    assert!(result.contains("Progress"));
}

#[test]
fn enabled_colors_wrap_text_in_escape_sequences() {
    let result = format_success("ok", ColorConfig::with_enabled(true));
    assert!(result == "\x1b[38;5;10mok\x1b[0m" || result == "\x1b[mok\x1b[0m");
    let result = format_error("no", ColorConfig::with_enabled(true));
    assert!(result == "\x1b[38;5;9mno\x1b[0m" || result == "\x1b[mno\x1b[0m");
}

#[test]
fn clicolor_zero_or_piped_output_disables_colors() {
    let mut env = color_terminal();
    env.clicolor = Some("0".to_string());
    assert!(!ColorConfig::new(false, &env).is_enabled());
    env.clicolor = Some("1".to_string());
    assert!(ColorConfig::new(false, &env).is_enabled());
    let mut piped = color_terminal();
    piped.is_terminal = false;
    assert!(!ColorConfig::new(false, &piped).is_enabled());
}

#[test]
fn color_choice_always_and_never_override_detection() {
    let mut piped = color_terminal();
    piped.is_terminal = false;
    assert!(ColorConfig::for_choice(ColorChoice::Always, &piped).is_enabled());
    assert!(!ColorConfig::for_choice(ColorChoice::Never, &color_terminal()).is_enabled());
    assert!(ColorConfig::for_choice(ColorChoice::Auto, &color_terminal()).is_enabled());
    assert!(!ColorConfig::for_choice(ColorChoice::Auto, &piped).is_enabled());
}
