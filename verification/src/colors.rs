//! Color support for terminal output.
//!
//! Whether colors are used depends on an explicit user choice and on the
//! terminal environment: the `NO_COLOR` convention, the `CLICOLOR` and
//! `TERM` variables, and whether the output goes to a terminal.
//! The environment is read by the caller and handed over as a
//! [`TerminalEnvironment`].
//!
//! Colored text is wrapped in the ANSI escape sequences that `crossterm`
//! writes: a foreground color before the text and a color reset after it.

use vstd::prelude::*;

use vstd::string::StrSliceExecFns;

use crossterm::style::{Color, ResetColor, SetForegroundColor};
use vstd::string::StringExecFns;

use crate::cli::ColorChoice;
use crate::text::{decimal, str_eq};

verus! {

/// What the process environment says about color support.
#[derive(Debug, Clone, PartialEq, Eq)]
pub struct TerminalEnvironment {
    /// Whether the `NO_COLOR` variable is set (to any value, even an empty one).
    pub no_color: bool,
    /// The value of the `TERM` variable, if it is set.
    pub term: Option<String>,
    /// The value of the `CLICOLOR` variable, if it is set.
    pub clicolor: Option<String>,
    /// Whether the output goes to a terminal (not to a pipe or a file).
    pub is_terminal: bool,
}

/// Whether the environment allows colored output: `NO_COLOR` is not set,
/// `CLICOLOR` is not set to `0`, the output goes to a terminal, and `TERM`
/// is either unset or a non-empty name other than `dumb`.
pub open spec fn environment_allows_colors(env: TerminalEnvironment) -> bool {
    &&& !env.no_color
    &&& !(env.clicolor matches Some(c) && c@ == "0"@)
    &&& env.is_terminal
    &&& match env.term {
        Some(term) => term@.len() > 0 && term@ != "dumb"@,
        None => true,
    }
}

/// Configuration for color output support.
#[derive(Debug, Clone, Copy, Default)]
pub struct ColorConfig {
    /// Whether colors are enabled for output
    enabled: bool,
}

impl ColorConfig {
    /// Whether this configuration enables colors.
    pub closed spec fn spec_enabled(self) -> bool {
        self.enabled
    }

    /// Creates a color configuration: colors are enabled unless the user
    /// disabled them (`force_disable`) or the environment does not allow them.
    pub fn new(force_disable: bool, env: &TerminalEnvironment) -> (config: Self)
        ensures
            config.spec_enabled() == (!force_disable && environment_allows_colors(*env)),
    {
        let enabled = !force_disable && Self::should_enable_colors(env);
        Self { enabled }
    }

    /// The color configuration for a `--color` choice: `always` enables
    /// colors, `never` disables them, and `auto` enables them when the
    /// environment allows them.
    pub fn for_choice(choice: ColorChoice, env: &TerminalEnvironment) -> (config: Self)
        ensures
            config.spec_enabled() == match choice {
                ColorChoice::Always => true,
                ColorChoice::Never => false,
                ColorChoice::Auto => environment_allows_colors(*env),
            },
    {
        match choice {
            ColorChoice::Always => Self { enabled: true },
            ColorChoice::Never => Self { enabled: false },
            ColorChoice::Auto => Self { enabled: Self::should_enable_colors(env) },
        }
    }

    /// Checks if colors are enabled.
    pub fn is_enabled(self) -> (enabled: bool)
        ensures
            enabled == self.spec_enabled(),
    {
        self.enabled
    }

    /// Determines if the environment allows colors.
    fn should_enable_colors(env: &TerminalEnvironment) -> (allowed: bool)
        ensures
            allowed == environment_allows_colors(*env),
    {
        if env.no_color || !env.is_terminal {
            return false;
        }
        match &env.clicolor {
            Some(c) => {
                if str_eq(c.as_str(), "0") {
                    return false;
                }
            },
            None => {},
        }
        match &env.term {
            Some(term) => term.as_str().unicode_len() > 0 && !str_eq(term.as_str(), "dumb"),
            None => true,
        }
    }
}


/// The colors used for messages.
#[derive(Debug, Clone, Copy, PartialEq, Eq, Structural)]
pub enum TextColor {
    Green,
    Red,
    Yellow,
    Cyan,
}

/// The 256-color palette index of a color.
pub open spec fn palette_index(c: TextColor) -> nat {
    match c {
        TextColor::Green => 10,
        TextColor::Red => 9,
        TextColor::Yellow => 11,
        TextColor::Cyan => 14,
    }
}

/// The sequence that sets the foreground color.
pub open spec fn foreground_sequence(c: TextColor) -> Seq<char> {
    "\x1b[38;5;"@ + decimal(palette_index(c)) + "m"@
}

/// The sequence that `crossterm` writes for a color when the `NO_COLOR`
/// variable is set to a non-empty value.
pub open spec fn empty_color_sequence() -> Seq<char> {
    "\x1b[m"@
}

/// The sequence that resets colors.
pub open spec fn reset_sequence() -> Seq<char> {
    "\x1b[0m"@
}

/// The text of `crossterm::style::SetForegroundColor` for a color. Its
/// `Display` writes `ESC [ 38;5;<index> m`, except that the color part is
/// left out when the `NO_COLOR` variable is set to a non-empty value (read
/// once per process); which of the two comes out is not stated.
#[verifier::external_body]
fn foreground_text(color: TextColor) -> (s: String)
    ensures
        s@ == foreground_sequence(color) || s@ == empty_color_sequence(),
{
    let c = match color {
        TextColor::Green => Color::Green,
        TextColor::Red => Color::Red,
        TextColor::Yellow => Color::Yellow,
        TextColor::Cyan => Color::Cyan,
    };
    SetForegroundColor(c).to_string()
}

/// The text of `crossterm::style::ResetColor`: `ESC [ 0m`.
#[verifier::external_body]
fn reset_text() -> (s: String)
    ensures
        s@ == reset_sequence(),
{
    ResetColor.to_string()
}

/// What a message looks like: the plain text when colors are disabled,
/// otherwise the text between a color sequence and a reset.
pub open spec fn colored(text: Seq<char>, color: TextColor, enabled: bool, s: Seq<char>) -> bool {
    if enabled {
        s == foreground_sequence(color) + text + reset_sequence() || s == empty_color_sequence()
            + text + reset_sequence()
    } else {
        s == text
    }
}

/// The text in the given color when colors are enabled.
fn write_colored(text: &str, color: TextColor, config: ColorConfig) -> (s: String)
    ensures
        colored(text@, color, config.spec_enabled(), s@),
{
    if config.is_enabled() {
        let mut s = foreground_text(color);
        s.append(text);
        let reset = reset_text();
        s.append(reset.as_str());
        s
    } else {
        String::from_str(text)
    }
}

/// Formats a success message (green).
pub fn format_success(text: &str, config: ColorConfig) -> (s: String)
    ensures
        colored(text@, TextColor::Green, config.spec_enabled(), s@),
{
    write_colored(text, TextColor::Green, config)
}

/// Formats an error message (red).
pub fn format_error(text: &str, config: ColorConfig) -> (s: String)
    ensures
        colored(text@, TextColor::Red, config.spec_enabled(), s@),
{
    write_colored(text, TextColor::Red, config)
}

/// Formats a warning message (yellow).
pub fn format_warning(text: &str, config: ColorConfig) -> (s: String)
    ensures
        colored(text@, TextColor::Yellow, config.spec_enabled(), s@),
{
    write_colored(text, TextColor::Yellow, config)
}

/// Formats a progress message (cyan).
pub fn format_progress(text: &str, config: ColorConfig) -> (s: String)
    ensures
        colored(text@, TextColor::Cyan, config.spec_enabled(), s@),
{
    write_colored(text, TextColor::Cyan, config)
}

impl ColorConfig {
    /// A configuration with colors enabled or disabled as given.
    pub fn with_enabled(enabled: bool) -> (config: Self)
        ensures
            config.spec_enabled() == enabled,
    {
        ColorConfig { enabled }
    }
}
} // verus!
