//! The grammar of crately's command line.
//!
//! A command line is read one argument at a time by a small state machine:
//! [`step`] says what one argument does to the [`ParseStateView`], and
//! [`finish`] turns the state reached after the last argument into a parsed
//! command line or an error. The rules are:
//!
//! - the first argument is the program name and is skipped;
//! - `-h`/`--help` and `-V`/`--version` are accepted everywhere and end the parse;
//! - `--color <WHEN>` is accepted everywhere (always/auto/never, any ASCII case);
//! - a subcommand selects the options that are accepted after it:
//!   `doctor [-v|--verbose] [-f|--fix]`, `init [--no-interactive]`, `serve`,
//!   `cache [--dry-run] [--json] (list | stats | clean --older-than <D> | clear [CRATE] [--all])`,
//!   `batch [CRATES...] [--from <FILE>] [--parallel <N>]`,
//!   `warm [--popular] [--parallel <N>]`;
//!   `--dry-run` and `--json` are also accepted after the cache operation;
//! - short flags may be grouped (`-vf`); an option given twice is an error;
//! - a value is the next argument, which must not itself look like an option;
//! - `--all` conflicts with a crate, `--from` with listed crates.

use vstd::prelude::*;
use vstd::string::StrSliceExecFns;
use vstd::string::StringExecFns;

use crate::cli::{
    color_choice_of, opt_string_view, parse_result_view, BatchArgs, CacheArgs,
    CacheCommands, CacheCommandsView, CleanArgs, ClearArgs, Cli, CliView, ColorChoice, Commands,
    CommandsView, DoctorArgs, InitArgs, WarmArgs,
};
use crate::text::{str_eq, strings_view};

verus! {

/// The options of the command line, as named in error reports.
#[derive(Debug, Clone, Copy, PartialEq, Eq, Structural)]
pub enum Opt {
    Color,
    Verbose,
    Fix,
    NoInteractive,
    DryRun,
    Json,
    OlderThan,
    All,
    CrateSpec,
    From,
    Parallel,
    Popular,
    Crates,
}

/// Why a command line was not parsed into a [`Cli`].
#[derive(Debug, Clone, PartialEq, Eq)]
pub enum CliError {
    /// Help was requested (`-h`, `--help` or the `help` subcommand).
    DisplayHelp,
    /// The version was requested (`-V`, `--version`).
    DisplayVersion,
    /// No subcommand (or no cache operation) was given.
    MissingSubcommand,
    /// A positional argument where a subcommand was expected names none.
    UnrecognizedSubcommand(String),
    /// An argument that is not accepted at its place.
    UnknownArgument(String),
    /// An option that takes a value was not followed by one.
    MissingValue(Opt),
    /// An option's value could not be parsed.
    InvalidValue(Opt, String),
    /// An option was given more than once.
    RepeatedArgument(Opt),
    /// Two options that exclude each other were both given.
    ArgumentConflict(Opt, Opt),
    /// A required option was not given.
    MissingRequired(Opt),
}

/// The mathematical content of a [`CliError`].
pub enum CliErrorView {
    DisplayHelp,
    DisplayVersion,
    MissingSubcommand,
    UnrecognizedSubcommand(Seq<char>),
    UnknownArgument(Seq<char>),
    MissingValue(Opt),
    InvalidValue(Opt, Seq<char>),
    RepeatedArgument(Opt),
    ArgumentConflict(Opt, Opt),
    MissingRequired(Opt),
}

impl View for CliError {
    type V = CliErrorView;

    open spec fn view(&self) -> CliErrorView {
        match self {
            CliError::DisplayHelp => CliErrorView::DisplayHelp,
            CliError::DisplayVersion => CliErrorView::DisplayVersion,
            CliError::MissingSubcommand => CliErrorView::MissingSubcommand,
            CliError::UnrecognizedSubcommand(s) => CliErrorView::UnrecognizedSubcommand(s@),
            CliError::UnknownArgument(s) => CliErrorView::UnknownArgument(s@),
            CliError::MissingValue(o) => CliErrorView::MissingValue(*o),
            CliError::InvalidValue(o, s) => CliErrorView::InvalidValue(*o, s@),
            CliError::RepeatedArgument(o) => CliErrorView::RepeatedArgument(*o),
            CliError::ArgumentConflict(a, b) => CliErrorView::ArgumentConflict(*a, *b),
            CliError::MissingRequired(o) => CliErrorView::MissingRequired(*o),
        }
    }
}

/// Where in the command tree the parser stands.
#[derive(Debug, Clone, Copy, PartialEq, Eq, Structural)]
pub enum Level {
    Top,
    Cache,
    CacheList,
    CacheStats,
    CacheClean,
    CacheClear,
    Doctor,
    Init,
    Serve,
    Batch,
    Warm,
}

/// Which option, if any, waits for its value.
#[derive(Debug, Clone, Copy, PartialEq, Eq, Structural)]
pub enum Pending {
    NoValue,
    Color,
    OlderThan,
    From,
    Parallel,
}

/// The state of the parser between two arguments.
pub struct ParseState {
    pub level: Level,
    pub pending: Pending,
    pub color: Option<ColorChoice>,
    pub verbose: bool,
    pub fix: bool,
    pub no_interactive: bool,
    pub dry_run: bool,
    pub json: bool,
    pub all: bool,
    pub popular: bool,
    pub older_than: Option<String>,
    pub crate_spec: Option<String>,
    pub from: Option<String>,
    pub parallel: Option<usize>,
    pub crates: Vec<String>,
}

/// The mathematical content of a [`ParseState`].
pub struct ParseStateView {
    pub level: Level,
    pub pending: Pending,
    pub color: Option<ColorChoice>,
    pub verbose: bool,
    pub fix: bool,
    pub no_interactive: bool,
    pub dry_run: bool,
    pub json: bool,
    pub all: bool,
    pub popular: bool,
    pub older_than: Option<Seq<char>>,
    pub crate_spec: Option<Seq<char>>,
    pub from: Option<Seq<char>>,
    pub parallel: Option<usize>,
    pub crates: Seq<Seq<char>>,
}

impl View for ParseState {
    type V = ParseStateView;

    open spec fn view(&self) -> ParseStateView {
        ParseStateView {
            level: self.level,
            pending: self.pending,
            color: self.color,
            verbose: self.verbose,
            fix: self.fix,
            no_interactive: self.no_interactive,
            dry_run: self.dry_run,
            json: self.json,
            all: self.all,
            popular: self.popular,
            older_than: opt_string_view(self.older_than),
            crate_spec: opt_string_view(self.crate_spec),
            from: opt_string_view(self.from),
            parallel: self.parallel,
            crates: strings_view(self.crates@),
        }
    }
}

/// The state before the first argument after the program name.
pub open spec fn initial_state() -> ParseStateView {
    ParseStateView {
        level: Level::Top,
        pending: Pending::NoValue,
        color: None,
        verbose: false,
        fix: false,
        no_interactive: false,
        dry_run: false,
        json: false,
        all: false,
        popular: false,
        older_than: None,
        crate_spec: None,
        from: None,
        parallel: None,
        crates: Seq::empty(),
    }
}

/// An argument that looks like an option: `-` followed by at least one character.
pub open spec fn is_option_token(tok: Seq<char>) -> bool {
    tok.len() > 1 && tok[0] == '-'
}

/// An argument that looks like a long option: `--` followed by at least one character.
pub open spec fn is_long_token(tok: Seq<char>) -> bool {
    tok.len() > 2 && tok[0] == '-' && tok[1] == '-'
}

/// The levels below the `cache` subcommand, where `--dry-run` and `--json` apply.
pub open spec fn in_cache_tree(level: Level) -> bool {
    level == Level::Cache || level == Level::CacheList || level == Level::CacheStats || level
        == Level::CacheClean || level == Level::CacheClear
}

/// The option that a pending value belongs to.
pub open spec fn pending_option(p: Pending) -> Opt {
    match p {
        Pending::Color => Opt::Color,
        Pending::OlderThan => Opt::OlderThan,
        Pending::From => Opt::From,
        _ => Opt::Parallel,
    }
}

pub open spec fn is_digit(c: char) -> bool {
    '0' <= c && c <= '9'
}

pub open spec fn digit_value(c: char) -> int {
    (c as int) - 48
}

/// The number that a string of decimal digits denotes.
pub open spec fn digits_value(s: Seq<char>) -> int
    decreases s.len(),
{
    if s.len() == 0 {
        0
    } else {
        digits_value(s.drop_last()) * 10 + digit_value(s.last())
    }
}

/// The digits of an unsigned number, without its optional leading `+`.
pub open spec fn unsigned_body(tok: Seq<char>) -> Seq<char> {
    if tok.len() > 0 && tok[0] == '+' {
        tok.drop_first()
    } else {
        tok
    }
}

/// The `usize` that a value denotes: an optional `+`, then at least one
/// decimal digit, the number fitting in `usize`.
pub open spec fn usize_of(tok: Seq<char>) -> Option<usize> {
    let body = unsigned_body(tok);
    if body.len() > 0 && (forall|i: int| 0 <= i < body.len() ==> is_digit(#[trigger] body[i]))
        && digits_value(body) <= usize::MAX {
        Some(digits_value(body) as usize)
    } else {
        None
    }
}

/// What a value does to a state whose option waits for it.
pub open spec fn assign_value(s: ParseStateView, tok: Seq<char>) -> Result<
    ParseStateView,
    CliErrorView,
> {
    match s.pending {
        Pending::Color => match color_choice_of(tok) {
            Some(c) => Ok(ParseStateView { color: Some(c), pending: Pending::NoValue, ..s }),
            None => Err(CliErrorView::InvalidValue(Opt::Color, tok)),
        },
        Pending::OlderThan => Ok(
            ParseStateView { older_than: Some(tok), pending: Pending::NoValue, ..s },
        ),
        Pending::From => Ok(ParseStateView { from: Some(tok), pending: Pending::NoValue, ..s }),
        _ => match usize_of(tok) {
            Some(n) => Ok(ParseStateView { parallel: Some(n), pending: Pending::NoValue, ..s }),
            None => Err(CliErrorView::InvalidValue(Opt::Parallel, tok)),
        },
    }
}

/// What a long option (`--name`) does.
pub open spec fn long_option(s: ParseStateView, tok: Seq<char>) -> Result<
    ParseStateView,
    CliErrorView,
> {
    if tok == "--help"@ {
        Err(CliErrorView::DisplayHelp)
    } else if tok == "--version"@ {
        Err(CliErrorView::DisplayVersion)
    } else if tok == "--color"@ {
        if s.color is Some {
            Err(CliErrorView::RepeatedArgument(Opt::Color))
        } else {
            Ok(ParseStateView { pending: Pending::Color, ..s })
        }
    } else if in_cache_tree(s.level) && tok == "--dry-run"@ {
        if s.dry_run {
            Err(CliErrorView::RepeatedArgument(Opt::DryRun))
        } else {
            Ok(ParseStateView { dry_run: true, ..s })
        }
    } else if in_cache_tree(s.level) && tok == "--json"@ {
        if s.json {
            Err(CliErrorView::RepeatedArgument(Opt::Json))
        } else {
            Ok(ParseStateView { json: true, ..s })
        }
    } else if s.level == Level::Doctor && tok == "--verbose"@ {
        if s.verbose {
            Err(CliErrorView::RepeatedArgument(Opt::Verbose))
        } else {
            Ok(ParseStateView { verbose: true, ..s })
        }
    } else if s.level == Level::Doctor && tok == "--fix"@ {
        if s.fix {
            Err(CliErrorView::RepeatedArgument(Opt::Fix))
        } else {
            Ok(ParseStateView { fix: true, ..s })
        }
    } else if s.level == Level::Init && tok == "--no-interactive"@ {
        if s.no_interactive {
            Err(CliErrorView::RepeatedArgument(Opt::NoInteractive))
        } else {
            Ok(ParseStateView { no_interactive: true, ..s })
        }
    } else if s.level == Level::CacheClean && tok == "--older-than"@ {
        if s.older_than is Some {
            Err(CliErrorView::RepeatedArgument(Opt::OlderThan))
        } else {
            Ok(ParseStateView { pending: Pending::OlderThan, ..s })
        }
    } else if s.level == Level::CacheClear && tok == "--all"@ {
        if s.all {
            Err(CliErrorView::RepeatedArgument(Opt::All))
        } else {
            Ok(ParseStateView { all: true, ..s })
        }
    } else if s.level == Level::Batch && tok == "--from"@ {
        if s.from is Some {
            Err(CliErrorView::RepeatedArgument(Opt::From))
        } else {
            Ok(ParseStateView { pending: Pending::From, ..s })
        }
    } else if (s.level == Level::Batch || s.level == Level::Warm) && tok == "--parallel"@ {
        if s.parallel is Some {
            Err(CliErrorView::RepeatedArgument(Opt::Parallel))
        } else {
            Ok(ParseStateView { pending: Pending::Parallel, ..s })
        }
    } else if s.level == Level::Warm && tok == "--popular"@ {
        if s.popular {
            Err(CliErrorView::RepeatedArgument(Opt::Popular))
        } else {
            Ok(ParseStateView { popular: true, ..s })
        }
    } else {
        Err(CliErrorView::UnknownArgument(tok))
    }
}

/// What one letter of a short option group (`-xyz`) does; `tok` is the whole group.
pub open spec fn short_flag(s: ParseStateView, c: char, tok: Seq<char>) -> Result<
    ParseStateView,
    CliErrorView,
> {
    if c == 'h' {
        Err(CliErrorView::DisplayHelp)
    } else if c == 'V' {
        Err(CliErrorView::DisplayVersion)
    } else if s.level == Level::Doctor && c == 'v' {
        if s.verbose {
            Err(CliErrorView::RepeatedArgument(Opt::Verbose))
        } else {
            Ok(ParseStateView { verbose: true, ..s })
        }
    } else if s.level == Level::Doctor && c == 'f' {
        if s.fix {
            Err(CliErrorView::RepeatedArgument(Opt::Fix))
        } else {
            Ok(ParseStateView { fix: true, ..s })
        }
    } else {
        Err(CliErrorView::UnknownArgument(tok))
    }
}

/// What the letters `cs` of a short option group `tok` do, left to right.
pub open spec fn short_group(s: ParseStateView, tok: Seq<char>, cs: Seq<char>) -> Result<
    ParseStateView,
    CliErrorView,
>
    decreases cs.len(),
{
    if cs.len() == 0 {
        Ok(s)
    } else {
        match short_flag(s, cs[0], tok) {
            Ok(next) => short_group(next, tok, cs.drop_first()),
            Err(e) => Err(e),
        }
    }
}

/// The subcommand that a name selects at the top level.
pub open spec fn top_subcommand(tok: Seq<char>) -> Option<Level> {
    if tok == "cache"@ {
        Some(Level::Cache)
    } else if tok == "doctor"@ {
        Some(Level::Doctor)
    } else if tok == "init"@ {
        Some(Level::Init)
    } else if tok == "serve"@ {
        Some(Level::Serve)
    } else if tok == "batch"@ {
        Some(Level::Batch)
    } else if tok == "warm"@ {
        Some(Level::Warm)
    } else {
        None
    }
}

/// The cache operation that a name selects.
pub open spec fn cache_subcommand(tok: Seq<char>) -> Option<Level> {
    if tok == "list"@ {
        Some(Level::CacheList)
    } else if tok == "stats"@ {
        Some(Level::CacheStats)
    } else if tok == "clean"@ {
        Some(Level::CacheClean)
    } else if tok == "clear"@ {
        Some(Level::CacheClear)
    } else {
        None
    }
}

/// What an argument that is not an option does.
pub open spec fn positional(s: ParseStateView, tok: Seq<char>) -> Result<
    ParseStateView,
    CliErrorView,
> {
    match s.level {
        Level::Top => if tok == "help"@ {
            Err(CliErrorView::DisplayHelp)
        } else {
            match top_subcommand(tok) {
                Some(l) => Ok(ParseStateView { level: l, ..s }),
                None => Err(CliErrorView::UnrecognizedSubcommand(tok)),
            }
        },
        Level::Cache => if tok == "help"@ {
            Err(CliErrorView::DisplayHelp)
        } else {
            match cache_subcommand(tok) {
                Some(l) => Ok(ParseStateView { level: l, ..s }),
                None => Err(CliErrorView::UnrecognizedSubcommand(tok)),
            }
        },
        Level::CacheClear => if s.crate_spec is None {
            Ok(ParseStateView { crate_spec: Some(tok), ..s })
        } else {
            Err(CliErrorView::UnknownArgument(tok))
        },
        Level::Batch => Ok(ParseStateView { crates: s.crates.push(tok), ..s }),
        _ => Err(CliErrorView::UnknownArgument(tok)),
    }
}

/// What one argument does to the parser state.
pub open spec fn step(s: ParseStateView, tok: Seq<char>) -> Result<ParseStateView, CliErrorView> {
    if s.pending != Pending::NoValue {
        if is_option_token(tok) {
            Err(CliErrorView::MissingValue(pending_option(s.pending)))
        } else {
            assign_value(s, tok)
        }
    } else if is_long_token(tok) {
        long_option(s, tok)
    } else if is_option_token(tok) {
        short_group(s, tok, tok.drop_first())
    } else {
        positional(s, tok)
    }
}

/// What a sequence of arguments does to the parser state, left to right.
pub open spec fn run(s: ParseStateView, toks: Seq<Seq<char>>) -> Result<
    ParseStateView,
    CliErrorView,
>
    decreases toks.len(),
{
    if toks.len() == 0 {
        Ok(s)
    } else {
        match step(s, toks[0]) {
            Ok(next) => run(next, toks.drop_first()),
            Err(e) => Err(e),
        }
    }
}

/// The command line that the state after the last argument stands for.
pub open spec fn finish(s: ParseStateView) -> Result<CliView, CliErrorView> {
    let color = match s.color {
        Some(c) => c,
        None => ColorChoice::Auto,
    };
    if s.pending != Pending::NoValue {
        Err(CliErrorView::MissingValue(pending_option(s.pending)))
    } else {
        let cache = |command: CacheCommandsView|
            Ok(
                CliView {
                    color,
                    command: CommandsView::Cache { command, dry_run: s.dry_run, json: s.json },
                },
            );
        match s.level {
            Level::Top => Err(CliErrorView::MissingSubcommand),
            Level::Cache => Err(CliErrorView::MissingSubcommand),
            Level::CacheList => cache(CacheCommandsView::List),
            Level::CacheStats => cache(CacheCommandsView::Stats),
            Level::CacheClean => match s.older_than {
                Some(d) => cache(CacheCommandsView::Clean { older_than: d }),
                None => Err(CliErrorView::MissingRequired(Opt::OlderThan)),
            },
            Level::CacheClear => if s.all && s.crate_spec is Some {
                Err(CliErrorView::ArgumentConflict(Opt::All, Opt::CrateSpec))
            } else {
                cache(CacheCommandsView::Clear { crate_spec: s.crate_spec, all: s.all })
            },
            Level::Doctor => Ok(
                CliView {
                    color,
                    command: CommandsView::Doctor(DoctorArgs { verbose: s.verbose, fix: s.fix }),
                },
            ),
            Level::Init => Ok(
                CliView {
                    color,
                    command: CommandsView::Init(InitArgs { no_interactive: s.no_interactive }),
                },
            ),
            Level::Serve => Ok(CliView { color, command: CommandsView::Serve }),
            Level::Batch => if s.from is Some && s.crates.len() > 0 {
                Err(CliErrorView::ArgumentConflict(Opt::From, Opt::Crates))
            } else {
                Ok(
                    CliView {
                        color,
                        command: CommandsView::Batch {
                            crates: s.crates,
                            from: s.from,
                            parallel: s.parallel,
                        },
                    },
                )
            },
            Level::Warm => Ok(
                CliView {
                    color,
                    command: CommandsView::Warm(
                        WarmArgs { popular: s.popular, parallel: s.parallel },
                    ),
                },
            ),
        }
    }
}

/// The parse of a whole command line, program name first.
pub open spec fn parse_command_line(args: Seq<Seq<char>>) -> Result<CliView, CliErrorView> {
    if args.len() == 0 {
        Err(CliErrorView::MissingSubcommand)
    } else {
        match run(initial_state(), args.drop_first()) {
            Ok(s) => finish(s),
            Err(e) => Err(e),
        }
    }
}

/// The mathematical content of the result of one parser step.
pub open spec fn step_result_view(r: Result<ParseState, CliError>) -> Result<
    ParseStateView,
    CliErrorView,
> {
    match r {
        Ok(s) => Ok(s@),
        Err(e) => Err(e@),
    }
}

impl ParseState {
    /// The state before the first argument.
    pub fn initial() -> (s: ParseState)
        ensures
            s@ == initial_state(),
    {
        let s = ParseState {
            level: Level::Top,
            pending: Pending::NoValue,
            color: None,
            verbose: false,
            fix: false,
            no_interactive: false,
            dry_run: false,
            json: false,
            all: false,
            popular: false,
            older_than: None,
            crate_spec: None,
            from: None,
            parallel: None,
            crates: Vec::new(),
        };
        assert(s@.crates =~= Seq::<Seq<char>>::empty());
        s
    }
}

/// Copies a string slice into an owned string.
fn owned(tok: &str) -> (s: String)
    ensures
        s@ == tok@,
{
    String::from_str(tok)
}

/// Parses an unsigned number (see [`usize_of`]).
pub fn parse_usize(tok: &str) -> (r: Option<usize>)
    ensures
        r == usize_of(tok@),
{
    let n = tok.unicode_len();
    let mut start: usize = 0;
    if n > 0 && tok.get_char(0) == '+' {
        start = 1;
    }
    let ghost body = unsigned_body(tok@);
    assert(body =~= tok@.subrange(start as int, n as int));
    if start >= n {
        assert(body.len() == 0);
        assert(usize_of(tok@) is None);
        return None;
    }
    let mut value: usize = 0;
    let mut overflow = false;
    let mut i: usize = start;
    while i < n
        invariant
            n == tok@.len(),
            start <= i <= n,
            body == tok@.subrange(start as int, n as int),
            body == unsigned_body(tok@),
            forall|k: int| 0 <= k < i - start ==> is_digit(#[trigger] body[k]),
            !overflow ==> value == digits_value(body.take(i - start)),
            overflow ==> digits_value(body.take(i - start)) > usize::MAX,
            digits_value(body.take(i - start)) >= 0,
        decreases n - i,
    {
        let c = tok.get_char(i);
        assert(c == body[i - start]);
        if !('0' <= c && c <= '9') {
            assert(!is_digit(body[i - start]));
            return None;
        }
        let d: usize = ((c as u32) - 48) as usize;
        let ghost prev = body.take(i - start);
        let ghost next = body.take(i - start + 1);
        assert(next.drop_last() =~= prev);
        assert(next.last() == c);
        assert(digits_value(next) == digits_value(prev) * 10 + d);
        if !overflow {
            match value.checked_mul(10) {
                Some(v10) => match v10.checked_add(d) {
                    Some(v) => {
                        value = v;
                    },
                    None => {
                        overflow = true;
                    },
                },
                None => {
                    overflow = true;
                },
            }
        }
        i = i + 1;
    }
    assert(body.take(n - start) =~= body);
    if overflow {
        None
    } else {
        Some(value)
    }
}

/// One parser step on a value argument (see [`assign_value`]).
fn assign_value_exec(s: ParseState, tok: &str) -> (r: Result<ParseState, CliError>)
    requires
        s.pending != Pending::NoValue,
    ensures
        step_result_view(r) == assign_value(s@, tok@),
{
    match s.pending {
        Pending::Color => match ColorChoice::parse_choice(tok) {
            Ok(c) => Ok(ParseState { color: Some(c), pending: Pending::NoValue, ..s }),
            Err(_) => Err(CliError::InvalidValue(Opt::Color, owned(tok))),
        },
        Pending::OlderThan => Ok(
            ParseState { older_than: Some(owned(tok)), pending: Pending::NoValue, ..s },
        ),
        Pending::From => Ok(ParseState { from: Some(owned(tok)), pending: Pending::NoValue, ..s }),
        _ => match parse_usize(tok) {
            Some(n) => Ok(ParseState { parallel: Some(n), pending: Pending::NoValue, ..s }),
            None => Err(CliError::InvalidValue(Opt::Parallel, owned(tok))),
        },
    }
}

/// One parser step on a long option (see [`long_option`]).
fn long_option_exec(s: ParseState, tok: &str) -> (r: Result<ParseState, CliError>)
    ensures
        step_result_view(r) == long_option(s@, tok@),
{
    let cache_tree = s.level == Level::Cache || s.level == Level::CacheList || s.level
        == Level::CacheStats || s.level == Level::CacheClean || s.level == Level::CacheClear;
    if str_eq(tok, "--help") {
        Err(CliError::DisplayHelp)
    } else if str_eq(tok, "--version") {
        Err(CliError::DisplayVersion)
    } else if str_eq(tok, "--color") {
        if s.color.is_some() {
            Err(CliError::RepeatedArgument(Opt::Color))
        } else {
            Ok(ParseState { pending: Pending::Color, ..s })
        }
    } else if cache_tree && str_eq(tok, "--dry-run") {
        if s.dry_run {
            Err(CliError::RepeatedArgument(Opt::DryRun))
        } else {
            Ok(ParseState { dry_run: true, ..s })
        }
    } else if cache_tree && str_eq(tok, "--json") {
        if s.json {
            Err(CliError::RepeatedArgument(Opt::Json))
        } else {
            Ok(ParseState { json: true, ..s })
        }
    } else if s.level == Level::Doctor && str_eq(tok, "--verbose") {
        if s.verbose {
            Err(CliError::RepeatedArgument(Opt::Verbose))
        } else {
            Ok(ParseState { verbose: true, ..s })
        }
    } else if s.level == Level::Doctor && str_eq(tok, "--fix") {
        if s.fix {
            Err(CliError::RepeatedArgument(Opt::Fix))
        } else {
            Ok(ParseState { fix: true, ..s })
        }
    } else if s.level == Level::Init && str_eq(tok, "--no-interactive") {
        if s.no_interactive {
            Err(CliError::RepeatedArgument(Opt::NoInteractive))
        } else {
            Ok(ParseState { no_interactive: true, ..s })
        }
    } else if s.level == Level::CacheClean && str_eq(tok, "--older-than") {
        if s.older_than.is_some() {
            Err(CliError::RepeatedArgument(Opt::OlderThan))
        } else {
            Ok(ParseState { pending: Pending::OlderThan, ..s })
        }
    } else if s.level == Level::CacheClear && str_eq(tok, "--all") {
        if s.all {
            Err(CliError::RepeatedArgument(Opt::All))
        } else {
            Ok(ParseState { all: true, ..s })
        }
    } else if s.level == Level::Batch && str_eq(tok, "--from") {
        if s.from.is_some() {
            Err(CliError::RepeatedArgument(Opt::From))
        } else {
            Ok(ParseState { pending: Pending::From, ..s })
        }
    } else if (s.level == Level::Batch || s.level == Level::Warm) && str_eq(tok, "--parallel") {
        if s.parallel.is_some() {
            Err(CliError::RepeatedArgument(Opt::Parallel))
        } else {
            Ok(ParseState { pending: Pending::Parallel, ..s })
        }
    } else if s.level == Level::Warm && str_eq(tok, "--popular") {
        if s.popular {
            Err(CliError::RepeatedArgument(Opt::Popular))
        } else {
            Ok(ParseState { popular: true, ..s })
        }
    } else {
        Err(CliError::UnknownArgument(owned(tok)))
    }
}

/// One letter of a short option group (see [`short_flag`]).
fn short_flag_exec(s: ParseState, c: char, tok: &str) -> (r: Result<ParseState, CliError>)
    ensures
        step_result_view(r) == short_flag(s@, c, tok@),
{
    if c == 'h' {
        Err(CliError::DisplayHelp)
    } else if c == 'V' {
        Err(CliError::DisplayVersion)
    } else if s.level == Level::Doctor && c == 'v' {
        if s.verbose {
            Err(CliError::RepeatedArgument(Opt::Verbose))
        } else {
            Ok(ParseState { verbose: true, ..s })
        }
    } else if s.level == Level::Doctor && c == 'f' {
        if s.fix {
            Err(CliError::RepeatedArgument(Opt::Fix))
        } else {
            Ok(ParseState { fix: true, ..s })
        }
    } else {
        Err(CliError::UnknownArgument(owned(tok)))
    }
}

/// A short option group (see [`short_group`]).
fn short_group_exec(s: ParseState, tok: &str) -> (r: Result<ParseState, CliError>)
    requires
        tok@.len() > 0,
    ensures
        step_result_view(r) == short_group(s@, tok@, tok@.drop_first()),
{
    let n = tok.unicode_len();
    let mut state = s;
    let mut i: usize = 1;
    assert(tok@.subrange(1, n as int) =~= tok@.drop_first());
    while i < n
        invariant
            n == tok@.len(),
            1 <= i <= n,
            short_group(state@, tok@, tok@.subrange(i as int, n as int)) == short_group(
                s@,
                tok@,
                tok@.drop_first(),
            ),
        decreases n - i,
    {
        let c = tok.get_char(i);
        let ghost rest = tok@.subrange(i as int, n as int);
        assert(rest[0] == c);
        assert(rest.drop_first() =~= tok@.subrange(i + 1, n as int));
        match short_flag_exec(state, c, tok) {
            Ok(next) => {
                state = next;
            },
            Err(e) => {
                return Err(e);
            },
        }
        i = i + 1;
    }
    assert(tok@.subrange(i as int, n as int) =~= Seq::<char>::empty());
    Ok(state)
}

/// An argument that is not an option (see [`positional`]).
fn positional_exec(s: ParseState, tok: &str) -> (r: Result<ParseState, CliError>)
    ensures
        step_result_view(r) == positional(s@, tok@),
{
    match s.level {
        Level::Top => {
            if str_eq(tok, "help") {
                Err(CliError::DisplayHelp)
            } else if str_eq(tok, "cache") {
                Ok(ParseState { level: Level::Cache, ..s })
            } else if str_eq(tok, "doctor") {
                Ok(ParseState { level: Level::Doctor, ..s })
            } else if str_eq(tok, "init") {
                Ok(ParseState { level: Level::Init, ..s })
            } else if str_eq(tok, "serve") {
                Ok(ParseState { level: Level::Serve, ..s })
            } else if str_eq(tok, "batch") {
                Ok(ParseState { level: Level::Batch, ..s })
            } else if str_eq(tok, "warm") {
                Ok(ParseState { level: Level::Warm, ..s })
            } else {
                Err(CliError::UnrecognizedSubcommand(owned(tok)))
            }
        },
        Level::Cache => {
            if str_eq(tok, "help") {
                Err(CliError::DisplayHelp)
            } else if str_eq(tok, "list") {
                Ok(ParseState { level: Level::CacheList, ..s })
            } else if str_eq(tok, "stats") {
                Ok(ParseState { level: Level::CacheStats, ..s })
            } else if str_eq(tok, "clean") {
                Ok(ParseState { level: Level::CacheClean, ..s })
            } else if str_eq(tok, "clear") {
                Ok(ParseState { level: Level::CacheClear, ..s })
            } else {
                Err(CliError::UnrecognizedSubcommand(owned(tok)))
            }
        },
        Level::CacheClear => {
            if s.crate_spec.is_none() {
                Ok(ParseState { crate_spec: Some(owned(tok)), ..s })
            } else {
                Err(CliError::UnknownArgument(owned(tok)))
            }
        },
        Level::Batch => {
            let mut s = s;
            let ghost old_crates = s@.crates;
            s.crates.push(owned(tok));
            assert(s@.crates =~= old_crates.push(tok@));
            Ok(s)
        },
        _ => Err(CliError::UnknownArgument(owned(tok))),
    }
}

/// One parser step (see [`step`]).
pub fn step_exec(s: ParseState, tok: &str) -> (r: Result<ParseState, CliError>)
    ensures
        step_result_view(r) == step(s@, tok@),
{
    let n = tok.unicode_len();
    let is_option = n > 1 && tok.get_char(0) == '-';
    let is_long = n > 2 && tok.get_char(0) == '-' && tok.get_char(1) == '-';
    if s.pending != Pending::NoValue {
        if is_option {
            let opt = match s.pending {
                Pending::Color => Opt::Color,
                Pending::OlderThan => Opt::OlderThan,
                Pending::From => Opt::From,
                _ => Opt::Parallel,
            };
            Err(CliError::MissingValue(opt))
        } else {
            assign_value_exec(s, tok)
        }
    } else if is_long {
        long_option_exec(s, tok)
    } else if is_option {
        short_group_exec(s, tok)
    } else {
        positional_exec(s, tok)
    }
}

/// The command line that a final parser state stands for (see [`finish`]).
pub fn finish_exec(s: ParseState) -> (r: Result<Cli, CliError>)
    ensures
        parse_result_view(r) == finish(s@),
{
    let color = match s.color {
        Some(c) => c,
        None => ColorChoice::Auto,
    };
    if s.pending != Pending::NoValue {
        let opt = match s.pending {
            Pending::Color => Opt::Color,
            Pending::OlderThan => Opt::OlderThan,
            Pending::From => Opt::From,
            _ => Opt::Parallel,
        };
        return Err(CliError::MissingValue(opt));
    }
    let dry_run = s.dry_run;
    let json = s.json;
    match s.level {
        Level::Top => Err(CliError::MissingSubcommand),
        Level::Cache => Err(CliError::MissingSubcommand),
        Level::CacheList => Ok(
            Cli {
                color,
                command: Commands::Cache(CacheArgs { command: CacheCommands::List, dry_run, json }),
            },
        ),
        Level::CacheStats => Ok(
            Cli {
                color,
                command: Commands::Cache(
                    CacheArgs { command: CacheCommands::Stats, dry_run, json },
                ),
            },
        ),
        Level::CacheClean => match s.older_than {
            Some(d) => Ok(
                Cli {
                    color,
                    command: Commands::Cache(
                        CacheArgs {
                            command: CacheCommands::Clean(CleanArgs { older_than: d }),
                            dry_run,
                            json,
                        },
                    ),
                },
            ),
            None => Err(CliError::MissingRequired(Opt::OlderThan)),
        },
        Level::CacheClear => {
            if s.all && s.crate_spec.is_some() {
                Err(CliError::ArgumentConflict(Opt::All, Opt::CrateSpec))
            } else {
                Ok(
                    Cli {
                        color,
                        command: Commands::Cache(
                            CacheArgs {
                                command: CacheCommands::Clear(
                                    ClearArgs { crate_spec: s.crate_spec, all: s.all },
                                ),
                                dry_run,
                                json,
                            },
                        ),
                    },
                )
            }
        },
        Level::Doctor => Ok(
            Cli { color, command: Commands::Doctor(DoctorArgs { verbose: s.verbose, fix: s.fix }) },
        ),
        Level::Init => Ok(
            Cli {
                color,
                command: Commands::Init(InitArgs { no_interactive: s.no_interactive }),
            },
        ),
        Level::Serve => Ok(Cli { color, command: Commands::Serve }),
        Level::Batch => {
            if s.from.is_some() && s.crates.len() > 0 {
                Err(CliError::ArgumentConflict(Opt::From, Opt::Crates))
            } else {
                Ok(
                    Cli {
                        color,
                        command: Commands::Batch(
                            BatchArgs { crates: s.crates, from: s.from, parallel: s.parallel },
                        ),
                    },
                )
            }
        },
        Level::Warm => Ok(
            Cli {
                color,
                command: Commands::Warm(WarmArgs { popular: s.popular, parallel: s.parallel }),
            },
        ),
    }
}


/// The cache operations `list`, `stats` and `clear` take `--json` and
/// `--dry-run` after the operation as well as before it: with the flag on
/// either side, the command line parses to that operation with just that
/// flag set (and the default color).
pub proof fn law_cache_flags_after_operation(prog: Seq<char>, op: Seq<char>, flag: Seq<char>)
    requires
        op == "list"@ || op == "stats"@ || op == "clear"@,
        flag == "--json"@ || flag == "--dry-run"@,
    ensures
        parse_command_line(seq![prog, "cache"@, op, flag]) == parse_command_line(
            seq![prog, "cache"@, flag, op],
        ),
        parse_command_line(seq![prog, "cache"@, op, flag]) == Ok::<CliView, CliErrorView>(
            CliView {
                color: ColorChoice::Auto,
                command: CommandsView::Cache {
                    command: if op == "list"@ {
                        CacheCommandsView::List
                    } else if op == "stats"@ {
                        CacheCommandsView::Stats
                    } else {
                        CacheCommandsView::Clear { crate_spec: None, all: false }
                    },
                    dry_run: flag == "--dry-run"@,
                    json: flag == "--json"@,
                },
            },
        ),
{
    reveal_strlit("cache");
    reveal_strlit("list");
    reveal_strlit("stats");
    reveal_strlit("clear");
    reveal_strlit("clean");
    reveal_strlit("help");
    reveal_strlit("doctor");
    reveal_strlit("init");
    reveal_strlit("serve");
    reveal_strlit("batch");
    reveal_strlit("warm");
    reveal_strlit("--json");
    reveal_strlit("--dry-run");
    reveal_strlit("--help");
    reveal_strlit("--version");
    reveal_strlit("--color");
    let a = seq![prog, "cache"@, op, flag];
    let b = seq![prog, "cache"@, flag, op];
    assert(a.drop_first() =~= seq!["cache"@, op, flag]);
    assert(b.drop_first() =~= seq!["cache"@, flag, op]);
    let t1 = seq!["cache"@, op, flag];
    let t2 = seq!["cache"@, flag, op];
    assert(t1.drop_first() =~= seq![op, flag]);
    assert(t1.drop_first().drop_first() =~= seq![flag]);
    assert(t1.drop_first().drop_first().drop_first() =~= Seq::<Seq<char>>::empty());
    assert(t2.drop_first() =~= seq![flag, op]);
    assert(t2.drop_first().drop_first() =~= seq![op]);
    assert(t2.drop_first().drop_first().drop_first() =~= Seq::<Seq<char>>::empty());
    reveal_with_fuel(run, 4);
    let s1 = ParseStateView { level: Level::Cache, ..initial_state() };
    let lv = if op == "list"@ {
        Level::CacheList
    } else if op == "stats"@ {
        Level::CacheStats
    } else {
        Level::CacheClear
    };
    let s2 = ParseStateView { level: lv, ..initial_state() };
    let s3 = ParseStateView { dry_run: flag == "--dry-run"@, json: flag == "--json"@, ..s2 };
    assert(op[0] != "help"@[0]);
    if op == "clear"@ {
        assert(op[4] != "clean"@[4]);
    }
    assert(flag[2] != "--help"@[2]);
    assert(flag[2] != "--version"@[2]);
    assert(step(initial_state(), "cache"@) == Ok::<ParseStateView, CliErrorView>(s1));
    assert(step(s1, op) == Ok::<ParseStateView, CliErrorView>(s2));
    assert(step(s2, flag) == Ok::<ParseStateView, CliErrorView>(s3));
    assert(run(initial_state(), t1) == Ok::<ParseStateView, CliErrorView>(s3));
}


/// `cache clean --older-than <D>` takes `--json` and `--dry-run` after the
/// operation's option as well as between `cache` and `clean`: both parse to
/// the clean operation with that age and just that flag set.
pub proof fn law_cache_clean_flags(prog: Seq<char>, age: Seq<char>, flag: Seq<char>)
    requires
        flag == "--json"@ || flag == "--dry-run"@,
        !is_option_token(age),
    ensures
        parse_command_line(seq![prog, "cache"@, "clean"@, "--older-than"@, age, flag])
            == parse_command_line(seq![prog, "cache"@, flag, "clean"@, "--older-than"@, age]),
        parse_command_line(seq![prog, "cache"@, "clean"@, "--older-than"@, age, flag]) == Ok::<
            CliView,
            CliErrorView,
        >(
            CliView {
                color: ColorChoice::Auto,
                command: CommandsView::Cache {
                    command: CacheCommandsView::Clean { older_than: age },
                    dry_run: flag == "--dry-run"@,
                    json: flag == "--json"@,
                },
            },
        ),
{
    reveal_strlit("cache");
    reveal_strlit("clean");
    reveal_strlit("list");
    reveal_strlit("stats");
    reveal_strlit("clear");
    reveal_strlit("help");
    reveal_strlit("doctor");
    reveal_strlit("init");
    reveal_strlit("serve");
    reveal_strlit("batch");
    reveal_strlit("warm");
    reveal_strlit("--json");
    reveal_strlit("--dry-run");
    reveal_strlit("--help");
    reveal_strlit("--version");
    reveal_strlit("--color");
    reveal_strlit("--older-than");
    reveal_strlit("--verbose");
    reveal_strlit("--fix");
    reveal_strlit("--no-interactive");
    reveal_strlit("--all");
    reveal_strlit("--from");
    reveal_strlit("--parallel");
    reveal_strlit("--popular");
    let s1 = ParseStateView { level: Level::Cache, ..initial_state() };
    let s2 = ParseStateView { level: Level::CacheClean, ..initial_state() };
    let s3 = ParseStateView { pending: Pending::OlderThan, ..s2 };
    let s4 = ParseStateView { older_than: Some(age), ..s2 };
    let s5 = ParseStateView { dry_run: flag == "--dry-run"@, json: flag == "--json"@, ..s4 };
    let f1 = ParseStateView { dry_run: flag == "--dry-run"@, json: flag == "--json"@, ..s1 };
    let f2 = ParseStateView { level: Level::CacheClean, ..f1 };
    let f3 = ParseStateView { pending: Pending::OlderThan, ..f2 };
    assert(flag[2] != "--help"@[2]);
    assert(flag[2] != "--version"@[2]);
    assert(flag[2] != "--color"@[2]);
    assert("clean"@[0] != "help"@[0]);
    assert("clean"@[4] != "clear"@[4]);
    assert("--older-than"@[2] != "--dry-run"@[2]);
    assert("--older-than"@[2] != "--json"@[2]);
    assert(step(initial_state(), "cache"@) == Ok::<ParseStateView, CliErrorView>(s1));
    assert(step(s1, "clean"@) == Ok::<ParseStateView, CliErrorView>(s2));
    assert(step(s2, "--older-than"@) == Ok::<ParseStateView, CliErrorView>(s3));
    assert(step(s3, age) == Ok::<ParseStateView, CliErrorView>(s4));
    assert(step(s4, flag) == Ok::<ParseStateView, CliErrorView>(s5));
    assert(step(s1, flag) == Ok::<ParseStateView, CliErrorView>(f1));
    assert(step(f1, "clean"@) == Ok::<ParseStateView, CliErrorView>(f2));
    assert(step(f2, "--older-than"@) == Ok::<ParseStateView, CliErrorView>(f3));
    assert(step(f3, age) == Ok::<ParseStateView, CliErrorView>(s5));
    let a = seq![prog, "cache"@, "clean"@, "--older-than"@, age, flag];
    let b = seq![prog, "cache"@, flag, "clean"@, "--older-than"@, age];
    assert(a.drop_first() =~= seq!["cache"@, "clean"@, "--older-than"@, age, flag]);
    assert(b.drop_first() =~= seq!["cache"@, flag, "clean"@, "--older-than"@, age]);
    lemma_run_five(initial_state(), a.drop_first());
    lemma_run_five(initial_state(), b.drop_first());
}

/// Running five arguments is five steps.
proof fn lemma_run_five(s: ParseStateView, t: Seq<Seq<char>>)
    requires
        t.len() == 5,
    ensures
        run(s, t) == match step(s, t[0]) {
            Ok(s1) => match step(s1, t[1]) {
                Ok(s2) => match step(s2, t[2]) {
                    Ok(s3) => match step(s3, t[3]) {
                        Ok(s4) => step(s4, t[4]),
                        Err(e) => Err(e),
                    },
                    Err(e) => Err(e),
                },
                Err(e) => Err(e),
            },
            Err(e) => Err(e),
        },
{
    reveal_with_fuel(run, 6);
    assert(t.drop_first()[0] == t[1]);
    assert(t.drop_first().drop_first()[0] == t[2]);
    assert(t.drop_first().drop_first().drop_first()[0] == t[3]);
    assert(t.drop_first().drop_first().drop_first().drop_first()[0] == t[4]);
    assert(t.drop_first().drop_first().drop_first().drop_first().drop_first().len() == 0);
}

/// `--json` and `--dry-run` belong to `cache`: before it, or after another
/// subcommand, they are unknown arguments.
pub proof fn law_cache_flags_only_under_cache(prog: Seq<char>, sub: Seq<char>, flag: Seq<char>)
    requires
        sub == "doctor"@ || sub == "init"@ || sub == "serve"@ || sub == "warm"@ || sub == "batch"@,
        flag == "--json"@ || flag == "--dry-run"@,
    ensures
        parse_command_line(seq![prog, sub, flag]) == Err::<CliView, CliErrorView>(
            CliErrorView::UnknownArgument(flag),
        ),
        parse_command_line(seq![prog, flag, "cache"@, "list"@]) == Err::<CliView, CliErrorView>(
            CliErrorView::UnknownArgument(flag),
        ),
{
    reveal_strlit("cache");
    reveal_strlit("list");
    reveal_strlit("help");
    reveal_strlit("doctor");
    reveal_strlit("init");
    reveal_strlit("serve");
    reveal_strlit("batch");
    reveal_strlit("warm");
    reveal_strlit("--json");
    reveal_strlit("--dry-run");
    reveal_strlit("--help");
    reveal_strlit("--version");
    reveal_strlit("--color");
    reveal_strlit("--verbose");
    reveal_strlit("--fix");
    reveal_strlit("--no-interactive");
    reveal_strlit("--older-than");
    reveal_strlit("--all");
    reveal_strlit("--from");
    reveal_strlit("--parallel");
    reveal_strlit("--popular");
    assert(flag[2] != "--help"@[2]);
    assert(flag[2] != "--version"@[2]);
    assert(flag[2] != "--color"@[2]);
    assert(flag[2] != "--verbose"@[2]);
    assert(flag[2] != "--fix"@[2]);
    assert(flag[2] != "--no-interactive"@[2]);
    assert(flag[2] != "--older-than"@[2]);
    assert(flag[2] != "--all"@[2]);
    assert(flag[2] != "--from"@[2]);
    assert(flag[2] != "--parallel"@[2]);
    assert(flag[2] != "--popular"@[2]);
    assert(sub[0] != "help"@[0]);
    let a = seq![prog, sub, flag];
    let b = seq![prog, flag, "cache"@, "list"@];
    assert(a.drop_first() =~= seq![sub, flag]);
    assert(a.drop_first().drop_first() =~= seq![flag]);
    assert(b.drop_first() =~= seq![flag, "cache"@, "list"@]);
    reveal_with_fuel(run, 3);
}

} // verus!
