//! Command-line interface of crately.
//!
//! The types below describe the parsed command line. [`Cli::try_parse_from`]
//! parses an argument vector (the program name first) according to the
//! grammar written out in [`crate::cli_grammar`].

use vstd::prelude::*;
use vstd::string::StrSliceExecFns;
use vstd::string::StringExecFns;

use crate::cli_grammar::{
    finish_exec, parse_command_line, run, initial_state, step_exec, CliError, CliErrorView, ParseState,
};
use crate::text::{push_char, str_eq, strings_view};

verus! {

/// Color output control
#[derive(Debug, Clone, Copy, PartialEq, Eq, Structural)]
pub enum ColorChoice {
    /// Always use colors
    Always,
    /// Automatically detect color support (default)
    Auto,
    /// Never use colors
    Never,
}

/// The ASCII lowercase of a character: `A`..=`Z` map to `a`..=`z`, every other
/// character is unchanged.
pub open spec fn ascii_lower_char(c: char) -> char {
    if 'A' <= c && c <= 'Z' {
        (((c as u32) + 32) as u8) as char
    } else {
        c
    }
}

/// The ASCII lowercase of a string.
pub open spec fn ascii_lower(s: Seq<char>) -> Seq<char> {
    Seq::new(s.len(), |i: int| ascii_lower_char(s[i]))
}

/// The color choice that a value names, compared without regard to ASCII case.
pub open spec fn color_choice_of(s: Seq<char>) -> Option<ColorChoice> {
    let lower = ascii_lower(s);
    if lower == "always"@ {
        Some(ColorChoice::Always)
    } else if lower == "auto"@ {
        Some(ColorChoice::Auto)
    } else if lower == "never"@ {
        Some(ColorChoice::Never)
    } else {
        None
    }
}

/// The message given for a value that names no color choice.
pub open spec fn invalid_color_message(s: Seq<char>) -> Seq<char> {
    "Invalid color choice: '"@ + s + "'. Valid options: always, auto, never"@
}

/// The ASCII lowercase of `s`.
pub fn to_ascii_lower(s: &str) -> (lower: String)
    ensures
        lower@ == ascii_lower(s@),
{
    let n = s.unicode_len();
    let mut out = String::new();
    let mut i: usize = 0;
    while i < n
        invariant
            n == s@.len(),
            i <= n,
            out@ == ascii_lower(s@).subrange(0, i as int),
        decreases n - i,
    {
        let c = s.get_char(i);
        let lc: char = if 'A' <= c && c <= 'Z' {
            (((c as u32) + 32) as u8) as char
        } else {
            c
        };
        push_char(&mut out, lc);
        i = i + 1;
        assert(out@ =~= ascii_lower(s@).subrange(0, i as int));
    }
    assert(out@ =~= ascii_lower(s@));
    out
}

impl ColorChoice {
    /// Parses a color choice, ignoring ASCII case.
    pub fn parse_choice(s: &str) -> (r: Result<ColorChoice, String>)
        ensures
            match color_choice_of(s@) {
                Some(c) => r == Ok::<ColorChoice, String>(c),
                None => r is Err && r->Err_0@ == invalid_color_message(s@),
            },
    {
        let lower = to_ascii_lower(s);
        if str_eq(lower.as_str(), "always") {
            Ok(ColorChoice::Always)
        } else if str_eq(lower.as_str(), "auto") {
            Ok(ColorChoice::Auto)
        } else if str_eq(lower.as_str(), "never") {
            Ok(ColorChoice::Never)
        } else {
            let mut msg = String::from_str("Invalid color choice: '");
            msg.append(s);
            msg.append("'. Valid options: always, auto, never");
            Err(msg)
        }
    }
}

impl std::str::FromStr for ColorChoice {
    type Err = String;

    /// Parses a color choice (see [`ColorChoice::parse_choice`]).
    fn from_str(s: &str) -> (r: Result<Self, Self::Err>)
        ensures
            match color_choice_of(s@) {
                Some(c) => r == Ok::<ColorChoice, String>(c),
                None => r is Err && r->Err_0@ == invalid_color_message(s@),
            },
    {
        ColorChoice::parse_choice(s)
    }
}

impl Default for ColorChoice {
    fn default() -> (c: Self)
        ensures
            c == ColorChoice::Auto,
    {
        ColorChoice::Auto
    }
}

/// Crately - Crate documentation processing and semantic search service
#[derive(Debug)]
pub struct Cli {
    /// Control color output (default: auto)
    pub color: ColorChoice,
    /// The subcommand to execute
    pub command: Commands,
}

/// Available CLI subcommands
#[derive(Debug)]
pub enum Commands {
    /// Manage cached crate data
    Cache(CacheArgs),
    /// Run comprehensive system diagnostics
    Doctor(DoctorArgs),
    /// Initialize crately configuration
    Init(InitArgs),
    /// Start the crately server
    Serve,
    /// Process multiple crates in batch
    Batch(BatchArgs),
    /// Pre-populate cache with popular crates
    Warm(WarmArgs),
}

/// Arguments for the doctor subcommand
#[derive(Debug, Clone, Copy, PartialEq, Eq, Structural)]
pub struct DoctorArgs {
    /// Show detailed diagnostic information (`-v`, `--verbose`)
    pub verbose: bool,
    /// Attempt automatic fixes for detected issues (`-f`, `--fix`)
    pub fix: bool,
}

/// Arguments for the init subcommand
#[derive(Debug, Clone, Copy, PartialEq, Eq, Structural)]
pub struct InitArgs {
    /// Skip interactive wizard and use defaults (`--no-interactive`)
    pub no_interactive: bool,
}

/// Arguments for the cache subcommand
#[derive(Debug)]
pub struct CacheArgs {
    /// The cache operation to perform
    pub command: CacheCommands,
    /// Preview changes without executing them (`--dry-run`)
    pub dry_run: bool,
    /// Output results in JSON format (`--json`)
    pub json: bool,
}

/// Cache management operations
#[derive(Debug)]
pub enum CacheCommands {
    /// List all cached crates with details
    List,
    /// Display cache usage statistics and analytics
    Stats,
    /// Remove old or unused cache entries
    Clean(CleanArgs),
    /// Delete specific cache or all cached data
    Clear(ClearArgs),
}

/// Arguments for the cache clean subcommand
#[derive(Debug)]
pub struct CleanArgs {
    /// Remove caches older than the specified duration (`--older-than`)
    pub older_than: String,
}

/// Arguments for the cache clear subcommand
#[derive(Debug)]
pub struct ClearArgs {
    /// Specific crate to clear from cache (positional `CRATE`)
    pub crate_spec: Option<String>,
    /// Clear all cached data (`--all`); conflicts with a crate
    pub all: bool,
}

/// Arguments for the batch subcommand
#[derive(Debug)]
pub struct BatchArgs {
    /// Crate specifiers to process (positional `CRATES`)
    pub crates: Vec<String>,
    /// Process all dependencies from a manifest file (`--from`); conflicts with crates
    pub from: Option<String>,
    /// Number of concurrent processing tasks (`--parallel`)
    pub parallel: Option<usize>,
}

/// Arguments for the warm subcommand
#[derive(Debug, Clone, Copy, PartialEq, Eq, Structural)]
pub struct WarmArgs {
    /// Warm cache with popular crates (`--popular`)
    pub popular: bool,
    /// Number of concurrent processing tasks (`--parallel`)
    pub parallel: Option<usize>,
}

/// The mathematical content of a parsed cache operation.
pub enum CacheCommandsView {
    List,
    Stats,
    Clean { older_than: Seq<char> },
    Clear { crate_spec: Option<Seq<char>>, all: bool },
}

/// The mathematical content of a parsed subcommand.
pub enum CommandsView {
    Cache { command: CacheCommandsView, dry_run: bool, json: bool },
    Doctor(DoctorArgs),
    Init(InitArgs),
    Serve,
    Batch { crates: Seq<Seq<char>>, from: Option<Seq<char>>, parallel: Option<usize> },
    Warm(WarmArgs),
}

/// The mathematical content of a parsed command line.
pub struct CliView {
    pub color: ColorChoice,
    pub command: CommandsView,
}

pub open spec fn opt_string_view(o: Option<String>) -> Option<Seq<char>> {
    match o {
        Some(s) => Some(s@),
        None => None,
    }
}


impl View for Cli {
    type V = CliView;

    open spec fn view(&self) -> CliView {
        CliView {
            color: self.color,
            command: match self.command {
                Commands::Cache(a) => CommandsView::Cache {
                    command: match a.command {
                        CacheCommands::List => CacheCommandsView::List,
                        CacheCommands::Stats => CacheCommandsView::Stats,
                        CacheCommands::Clean(c) => CacheCommandsView::Clean {
                            older_than: c.older_than@,
                        },
                        CacheCommands::Clear(c) => CacheCommandsView::Clear {
                            crate_spec: opt_string_view(c.crate_spec),
                            all: c.all,
                        },
                    },
                    dry_run: a.dry_run,
                    json: a.json,
                },
                Commands::Doctor(a) => CommandsView::Doctor(a),
                Commands::Init(a) => CommandsView::Init(a),
                Commands::Serve => CommandsView::Serve,
                Commands::Batch(a) => CommandsView::Batch {
                    crates: strings_view(a.crates@),
                    from: opt_string_view(a.from),
                    parallel: a.parallel,
                },
                Commands::Warm(a) => CommandsView::Warm(a),
            },
        }
    }
}

/// The arguments of a command line, each taken as its characters.
pub open spec fn tokens(args: Seq<&str>) -> Seq<Seq<char>> {
    Seq::new(args.len(), |i: int| args[i]@)
}

/// The mathematical content of a parse result.
pub open spec fn parse_result_view(r: Result<Cli, CliError>) -> Result<CliView, CliErrorView> {
    match r {
        Ok(c) => Ok(c@),
        Err(e) => Err(e@),
    }
}

impl Cli {
    /// Parses a command line (program name first) according to the grammar
    /// of [`crate::cli_grammar::parse_command_line`].
    pub fn try_parse_from(args: &[&str]) -> (r: Result<Cli, CliError>)
        ensures
            parse_result_view(r) == parse_command_line(tokens(args@)),
    {
        let ghost toks = tokens(args@);
        if args.len() == 0 {
            return Err(CliError::MissingSubcommand);
        }
        let mut state = ParseState::initial();
        let mut i: usize = 1;
        assert(toks.subrange(1, toks.len() as int) =~= toks.drop_first());
        while i < args.len()
            invariant
                1 <= i <= args.len(),
                toks == tokens(args@),
                run(state@, toks.subrange(i as int, toks.len() as int)) == run(
                    initial_state(),
                    toks.drop_first(),
                ),
            decreases args.len() - i,
        {
            let tok: &str = args[i];
            let ghost rest = toks.subrange(i as int, toks.len() as int);
            assert(rest[0] == tok@);
            assert(rest.drop_first() =~= toks.subrange(i + 1, toks.len() as int));
            match step_exec(state, tok) {
                Ok(next) => {
                    state = next;
                },
                Err(e) => {
                    return Err(e);
                },
            }
            i = i + 1;
        }
        assert(toks.subrange(i as int, toks.len() as int) =~= Seq::<Seq<char>>::empty());
        finish_exec(state)
    }
}

} // verus!
