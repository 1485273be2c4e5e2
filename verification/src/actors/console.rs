//! What the console shows.
//!
//! Every message the console receives becomes a list of lines, each with a
//! style: success, error, progress and warning lines carry a symbol and a
//! color, plain lines are shown as they are. Lines end with `\r\n` while the
//! terminal is in raw mode and with `\n` otherwise. The console also starts,
//! updates and stops a spinner. Writing to the terminal (only when it is a
//! terminal) and animating the spinner are done by the caller.

use vstd::prelude::*;
use vstd::string::StrSliceExecFns;
use vstd::string::StringExecFns;

use crate::colors::{colored, format_error, format_progress, format_success, format_warning, ColorConfig, TextColor};
use crate::crate_specifier::{specifier_text, CrateSpecifier, CrateSpecifierView};
use crate::text::{decimal, push_char, push_decimal, strings_view};

verus! {

/// The symbol of success lines.
pub const SUCCESS: &'static str = "✓";

/// The symbol of error lines.
pub const ERROR: &'static str = "✗";

/// The symbol of progress lines.
pub const PROGRESS: &'static str = "⋯";

/// The symbol that points at a location or a detail.
pub const LOCATION: &'static str = "→";

/// The symbol of warning lines.
pub const WARNING: &'static str = "⚠";

/// The end of a line: `\r\n` in raw mode, `\n` otherwise.
pub open spec fn line_end(raw_mode: bool) -> Seq<char> {
    if raw_mode {
        "\r\n"@
    } else {
        "\n"@
    }
}

/// The end of a line in the given mode.
pub fn line_ending(raw_mode: bool) -> (s: &'static str)
    ensures
        s@ == line_end(raw_mode),
{
    if raw_mode {
        "\r\n"
    } else {
        "\n"
    }
}

/// The banner's text before the version.
pub open spec fn banner_head() -> Seq<char> {
    "╔═══════════════════════════════════════════════════════════╗\n║                        CRATELY                            ║\n║          Crate Documentation & Search Service             ║\n║                  License: AGPL-3.0-or-later               ║\n║                     Version "@
}

/// The banner's text after the version.
pub open spec fn banner_tail() -> Seq<char> {
    "                       ║\n╚═══════════════════════════════════════════════════════════╝"@
}

/// `s` followed by spaces up to `width` characters (longer text is kept whole).
pub open spec fn pad_right(s: Seq<char>, width: nat) -> Seq<char> {
    if s.len() >= width {
        s
    } else {
        s + Seq::new((width - s.len()) as nat, |i: int| ' ')
    }
}

/// The startup banner, with the version left-aligned in seven columns.
pub open spec fn banner(version: Seq<char>) -> Seq<char> {
    banner_head() + pad_right(version, 7) + banner_tail()
}

/// The startup banner for a version (see [`banner`]).
pub fn banner_text(version: &str) -> (s: String)
    ensures
        s@ == banner(version@),
{
    let mut s = String::from_str("╔═══════════════════════════════════════════════════════════╗\n║                        CRATELY                            ║\n║          Crate Documentation & Search Service             ║\n║                  License: AGPL-3.0-or-later               ║\n║                     Version ");
    s.append(version);
    let n = version.unicode_len();
    let ghost start = s@;
    let mut k: usize = n;
    while k < 7
        invariant
            n == version@.len(),
            n <= k <= 7 || (n > 7 && k == n),
            s@ == start + Seq::new((k - n) as nat, |i: int| ' '),
        decreases 7 - k,
    {
        push_char(&mut s, ' ');
        assert(Seq::new((k + 1 - n) as nat, |i: int| ' ') =~= Seq::new((k - n) as nat, |i: int| ' ').push(' '));
        k = k + 1;
    }
    s.append("                       ║\n╚═══════════════════════════════════════════════════════════╝");
    assert(s@ =~= banner(version@));
    s
}

/// The separator line.
pub open spec fn separator() -> Seq<char> {
    "───────────────────────────────────────────────────────────"@
}

/// How a line is shown.
#[derive(Debug, Clone, Copy, PartialEq, Eq, Structural)]
pub enum LineStyle {
    Success,
    Error,
    Progress,
    Warning,
    Plain,
}

/// A line to show: its style and its text.
pub struct ConsoleLine {
    pub style: LineStyle,
    pub text: String,
}

/// The symbol and color of a style (none for plain lines).
pub open spec fn style_parts(style: LineStyle) -> Option<(Seq<char>, TextColor)> {
    match style {
        LineStyle::Success => Some(("✓"@, TextColor::Green)),
        LineStyle::Error => Some(("✗"@, TextColor::Red)),
        LineStyle::Progress => Some(("⋯"@, TextColor::Cyan)),
        LineStyle::Warning => Some(("⚠"@, TextColor::Yellow)),
        LineStyle::Plain => None,
    }
}

/// Whether `out` is what the terminal receives for a line: the symbol, a
/// space and the colored text for styled lines, the text alone for plain
/// ones, then the line ending.
pub open spec fn shown_as(style: LineStyle, text: Seq<char>, raw_mode: bool, colors: bool, out: Seq<char>) -> bool {
    match style_parts(style) {
        None => out == text + line_end(raw_mode),
        Some((symbol, color)) => {
            let prefix = symbol + " "@;
            let end = line_end(raw_mode);
            &&& out.len() >= prefix.len() + end.len()
            &&& out.subrange(0, prefix.len() as int) == prefix
            &&& out.subrange(out.len() - end.len(), out.len() as int) == end
            &&& colored(text, color, colors, out.subrange(prefix.len() as int, out.len() - end.len()))
        },
    }
}

/// The text the terminal receives for a line (see [`shown_as`]).
pub fn line_output(line: &ConsoleLine, raw_mode: bool, config: ColorConfig) -> (s: String)
    ensures
        shown_as(line.style, line.text@, raw_mode, config.spec_enabled(), s@),
{
    let (symbol, body) = match line.style {
        LineStyle::Success => ("✓", format_success(line.text.as_str(), config)),
        LineStyle::Error => ("✗", format_error(line.text.as_str(), config)),
        LineStyle::Progress => ("⋯", format_progress(line.text.as_str(), config)),
        LineStyle::Warning => ("⚠", format_warning(line.text.as_str(), config)),
        LineStyle::Plain => {
            let mut s = line.text.clone();
            s.append(line_ending(raw_mode));
            return s;
        },
    };
    let mut s = String::from_str(symbol);
    s.append(" ");
    let ghost prefix = s@;
    s.append(body.as_str());
    let ghost middle = s@;
    let end = line_ending(raw_mode);
    s.append(end);
    proof {
        let (sym, color) = style_parts(line.style)->Some_0;
        assert(prefix == sym + " "@);
        assert(s@.subrange(0, prefix.len() as int) =~= prefix);
        assert(s@.subrange(s@.len() - end@.len(), s@.len() as int) =~= end@);
        assert(s@.subrange(prefix.len() as int, s@.len() - end@.len()) =~= body@);
    }
    s
}

/// A crate as listed by the database.
pub struct CrateSummary {
    pub name: String,
    pub version: String,
    pub status: String,
}

/// The messages the console shows.
pub enum ConsoleEvent {
    PrintSuccess(String),
    PrintError(String),
    PrintProgress(String),
    PrintWarning(String),
    PrintSeparator,
    /// The configuration was loaded from this path (as printed).
    ConfigLoaded { config_path: String },
    ConfigReloadFailed { error: String },
    ServerReloaded { port: u16 },
    ServerStarted,
    CratePersisted { name: String, version: String, record_id: String },
    DatabaseError { operation: String, error: String },
    DatabaseWarning { operation: String, warning: String },
    /// The answer to a query for one crate: the crate if it was found.
    CrateQueryResponse {
        specifier: Option<CrateSpecifier>,
        status: String,
        features: Vec<String>,
        created_at: String,
    },
    CrateListResponse { crates: Vec<CrateSummary>, total_count: u32 },
    DocChunkPersisted { specifier: CrateSpecifier, chunk_index: usize },
    EmbeddingPersisted { specifier: CrateSpecifier, model_name: String },
    ChunksPersistenceComplete { specifier: CrateSpecifier, chunk_count: u32 },
    EmbeddingsPersistenceComplete {
        specifier: CrateSpecifier,
        vector_count: u32,
        embedding_model: String,
    },
    CrateProcessingComplete { specifier: CrateSpecifier, stages_completed: u32, total_duration_ms: u64 },
}

/// The lines as (style, text) pairs.
pub open spec fn lines_view(v: Seq<ConsoleLine>) -> Seq<(LineStyle, Seq<char>)> {
    Seq::new(v.len(), |i: int| (v[i].style, v[i].text@))
}

/// Texts joined with `, `.
pub open spec fn join_comma(s: Seq<Seq<char>>) -> Seq<char>
    decreases s.len(),
{
    if s.len() == 0 {
        Seq::empty()
    } else if s.len() == 1 {
        s[0]
    } else {
        join_comma(s.drop_last()) + ", "@ + s.last()
    }
}

/// The listing lines of crates: `  → name@version [status]`.
pub open spec fn listing_lines(crates: Seq<CrateSummary>) -> Seq<(LineStyle, Seq<char>)> {
    Seq::new(
        crates.len(),
        |i: int|
            (
                LineStyle::Plain,
                "  → "@ + crates[i].name@ + "@"@ + crates[i].version@ + " ["@ + crates[i].status@
                    + "]"@,
            ),
    )
}

/// The lines shown for a message.
pub open spec fn event_lines(e: ConsoleEvent) -> Seq<(LineStyle, Seq<char>)> {
    match e {
        ConsoleEvent::PrintSuccess(m) => seq![(LineStyle::Success, m@)],
        ConsoleEvent::PrintError(m) => seq![(LineStyle::Error, m@)],
        ConsoleEvent::PrintProgress(m) => seq![(LineStyle::Progress, m@)],
        ConsoleEvent::PrintWarning(m) => seq![(LineStyle::Warning, m@)],
        ConsoleEvent::PrintSeparator => seq![(LineStyle::Plain, separator())],
        ConsoleEvent::ConfigLoaded { config_path } => seq![
            (LineStyle::Success, "Configuration loaded → "@ + config_path@),
        ],
        ConsoleEvent::ConfigReloadFailed { error } => seq![
            (LineStyle::Error, "Configuration reload failed → "@ + error@),
            (LineStyle::Warning, "Server continues with previous configuration"@),
        ],
        ConsoleEvent::ServerReloaded { port } => seq![
            (LineStyle::Success, "Server reloaded → http://127.0.0.1:"@ + decimal(port as nat)),
        ],
        ConsoleEvent::ServerStarted => seq![
            (LineStyle::Plain, Seq::empty()),
            (LineStyle::Plain, "Server is running. Press 'q' or Ctrl+C to shutdown gracefully"@),
            (LineStyle::Plain, "Press 'r' to reload configuration"@),
            (LineStyle::Plain, Seq::empty()),
        ],
        ConsoleEvent::CratePersisted { name, version, record_id } => seq![
            (
                LineStyle::Success,
                "Persisted crate: "@ + name@ + "@"@ + version@ + " (record: "@ + record_id@ + ")"@,
            ),
        ],
        ConsoleEvent::DatabaseError { operation, error } => seq![
            (LineStyle::Error, "Database error during "@ + operation@ + ": "@ + error@),
        ],
        ConsoleEvent::DatabaseWarning { operation, warning } => seq![
            (LineStyle::Warning, "Database warning during "@ + operation@ + ": "@ + warning@),
        ],
        ConsoleEvent::CrateQueryResponse { specifier, status, features, created_at } => match specifier {
            Some(s) => seq![
                (LineStyle::Success, "Found crate: "@ + specifier_text(s@)),
                (LineStyle::Plain, "  → Status: "@ + status@),
            ] + (if features@.len() > 0 {
                seq![(LineStyle::Plain, "  → Features: "@ + join_comma(strings_view(features@)))]
            } else {
                Seq::empty()
            }) + (if created_at@.len() > 0 {
                seq![(LineStyle::Plain, "  → Created: "@ + created_at@)]
            } else {
                Seq::empty()
            }),
            None => seq![(LineStyle::Warning, "Crate not found in database"@)],
        },
        ConsoleEvent::CrateListResponse { crates, total_count } => if crates@.len() == 0 {
            seq![(LineStyle::Warning, "No crates found in database"@)]
        } else {
            seq![
                (
                    LineStyle::Success,
                    "Found "@ + decimal(crates@.len()) + " crate"@ + (if crates@.len() == 1 {
                        Seq::<char>::empty()
                    } else {
                        "s"@
                    }) + " (total: "@ + decimal(total_count as nat) + ")"@,
                ),
            ] + listing_lines(crates@)
        },
        ConsoleEvent::DocChunkPersisted { specifier, chunk_index } => seq![
            (
                LineStyle::Progress,
                "Persisting chunk "@ + decimal(chunk_index.wrapping_add(1) as nat) + "/? for "@ + specifier_text(
                    specifier@,
                ),
            ),
        ],
        ConsoleEvent::EmbeddingPersisted { specifier, model_name } => seq![
            (
                LineStyle::Progress,
                "Vectorized chunk for "@ + specifier_text(specifier@) + " with "@ + model_name@,
            ),
        ],
        ConsoleEvent::ChunksPersistenceComplete { specifier, chunk_count } => seq![
            (
                LineStyle::Success,
                "All "@ + decimal(chunk_count as nat) + " chunks persisted for "@ + specifier_text(
                    specifier@,
                ),
            ),
        ],
        ConsoleEvent::EmbeddingsPersistenceComplete { specifier, vector_count, embedding_model } =>
            seq![
            (
                LineStyle::Success,
                "All "@ + decimal(vector_count as nat) + " embeddings persisted for "@
                    + specifier_text(specifier@) + " using "@ + embedding_model@,
            ),
        ],
        ConsoleEvent::CrateProcessingComplete { specifier, stages_completed, total_duration_ms } =>
            seq![
            (
                LineStyle::Success,
                "Crate processing complete: "@ + specifier_text(specifier@) + " ("@ + decimal(
                    stages_completed as nat,
                ) + " stages, "@ + decimal(total_duration_ms as nat) + "ms)"@,
            ),
        ],
    }
}

/// Appends a line.
fn push_line(v: &mut Vec<ConsoleLine>, style: LineStyle, text: String)
    ensures
        lines_view(final(v)@) == lines_view(old(v)@).push((style, text@)),
{
    let ghost t = text@;
    v.push(ConsoleLine { style, text });
    assert(lines_view(v@) =~= lines_view(old(v)@).push((style, t)));
}

/// Texts joined with `, ` (see [`join_comma`]).
fn join_with_comma(items: &Vec<String>) -> (s: String)
    ensures
        s@ == join_comma(strings_view(items@)),
{
    let mut s = String::new();
    let mut i: usize = 0;
    while i < items.len()
        invariant
            i <= items@.len(),
            s@ == join_comma(strings_view(items@).take(i as int)),
        decreases items@.len() - i,
    {
        let ghost before = strings_view(items@).take(i as int);
        if i > 0 {
            s.append(", ");
        }
        s.append(items[i].as_str());
        assert(strings_view(items@).take(i + 1).drop_last() =~= before);
        i = i + 1;
    }
    assert(strings_view(items@).take(i as int) =~= strings_view(items@));
    s
}

/// The text `name@version` of a specifier.
fn specifier_display(s: &CrateSpecifier) -> (t: String)
    ensures
        t@ == specifier_text(s@),
{
    s.to_text()
}

/// The lines shown for a message (see [`event_lines`]).
pub fn render_event(event: &ConsoleEvent) -> (lines: Vec<ConsoleLine>)
    ensures
        lines_view(lines@) == event_lines(*event),
{
    let mut v: Vec<ConsoleLine> = Vec::new();
    match event {
        ConsoleEvent::PrintSuccess(m) => push_line(&mut v, LineStyle::Success, m.clone()),
        ConsoleEvent::PrintError(m) => push_line(&mut v, LineStyle::Error, m.clone()),
        ConsoleEvent::PrintProgress(m) => push_line(&mut v, LineStyle::Progress, m.clone()),
        ConsoleEvent::PrintWarning(m) => push_line(&mut v, LineStyle::Warning, m.clone()),
        ConsoleEvent::PrintSeparator => push_line(
            &mut v,
            LineStyle::Plain,
            String::from_str("───────────────────────────────────────────────────────────"),
        ),
        ConsoleEvent::ConfigLoaded { config_path } => {
            let mut t = String::from_str("Configuration loaded → ");
            t.append(config_path.as_str());
            push_line(&mut v, LineStyle::Success, t);
        },
        ConsoleEvent::ConfigReloadFailed { error } => {
            let mut t = String::from_str("Configuration reload failed → ");
            t.append(error.as_str());
            push_line(&mut v, LineStyle::Error, t);
            push_line(
                &mut v,
                LineStyle::Warning,
                String::from_str("Server continues with previous configuration"),
            );
        },
        ConsoleEvent::ServerReloaded { port } => {
            let mut t = String::from_str("Server reloaded → http://127.0.0.1:");
            push_decimal(&mut t, *port as u64);
            push_line(&mut v, LineStyle::Success, t);
        },
        ConsoleEvent::ServerStarted => {
            push_line(&mut v, LineStyle::Plain, String::new());
            push_line(
                &mut v,
                LineStyle::Plain,
                String::from_str("Server is running. Press 'q' or Ctrl+C to shutdown gracefully"),
            );
            push_line(&mut v, LineStyle::Plain, String::from_str("Press 'r' to reload configuration"));
            push_line(&mut v, LineStyle::Plain, String::new());
        },
        ConsoleEvent::CratePersisted { name, version, record_id } => {
            let mut t = String::from_str("Persisted crate: ");
            t.append(name.as_str());
            t.append("@");
            t.append(version.as_str());
            t.append(" (record: ");
            t.append(record_id.as_str());
            t.append(")");
            push_line(&mut v, LineStyle::Success, t);
        },
        ConsoleEvent::DatabaseError { operation, error } => {
            let mut t = String::from_str("Database error during ");
            t.append(operation.as_str());
            t.append(": ");
            t.append(error.as_str());
            push_line(&mut v, LineStyle::Error, t);
        },
        ConsoleEvent::DatabaseWarning { operation, warning } => {
            let mut t = String::from_str("Database warning during ");
            t.append(operation.as_str());
            t.append(": ");
            t.append(warning.as_str());
            push_line(&mut v, LineStyle::Warning, t);
        },
        ConsoleEvent::CrateQueryResponse { specifier, status, features, created_at } => {
            match specifier {
                Some(s) => {
                    let mut t = String::from_str("Found crate: ");
                    let st = specifier_display(s);
                    t.append(st.as_str());
                    push_line(&mut v, LineStyle::Success, t);
                    let mut u = String::from_str("  → Status: ");
                    u.append(status.as_str());
                    push_line(&mut v, LineStyle::Plain, u);
                    if features.len() > 0 {
                        let mut f = String::from_str("  → Features: ");
                        let joined = join_with_comma(features);
                        f.append(joined.as_str());
                        push_line(&mut v, LineStyle::Plain, f);
                    }
                    if created_at.as_str().unicode_len() > 0 {
                        let mut c = String::from_str("  → Created: ");
                        c.append(created_at.as_str());
                        push_line(&mut v, LineStyle::Plain, c);
                    }
                },
                None => push_line(
                    &mut v,
                    LineStyle::Warning,
                    String::from_str("Crate not found in database"),
                ),
            }
        },
        ConsoleEvent::CrateListResponse { crates, total_count } => {
            if crates.len() == 0 {
                push_line(&mut v, LineStyle::Warning, String::from_str("No crates found in database"));
            } else {
                let mut t = String::from_str("Found ");
                push_decimal(&mut t, crates.len() as u64);
                t.append(" crate");
                if crates.len() != 1 {
                    t.append("s");
                }
                t.append(" (total: ");
                push_decimal(&mut t, *total_count as u64);
                t.append(")");
                proof {
                    reveal_strlit("s");
                }
                push_line(&mut v, LineStyle::Success, t);
                let ghost head = lines_view(v@);
                let mut i: usize = 0;
                while i < crates.len()
                    invariant
                        i <= crates@.len(),
                        lines_view(v@) == head + listing_lines(crates@).take(i as int),
                    decreases crates@.len() - i,
                {
                    let c = &crates[i];
                    let mut line = String::from_str("  → ");
                    line.append(c.name.as_str());
                    line.append("@");
                    line.append(c.version.as_str());
                    line.append(" [");
                    line.append(c.status.as_str());
                    line.append("]");
                    let ghost before = lines_view(v@);
                    push_line(&mut v, LineStyle::Plain, line);
                    assert(listing_lines(crates@).take(i + 1) =~= listing_lines(crates@).take(
                        i as int,
                    ).push(listing_lines(crates@)[i as int]));
                    i = i + 1;
                }
                assert(listing_lines(crates@).take(i as int) =~= listing_lines(crates@));
            }
        },
        ConsoleEvent::DocChunkPersisted { specifier, chunk_index } => {
            let mut t = String::from_str("Persisting chunk ");
            let shown = chunk_index.wrapping_add(1);
            push_decimal(&mut t, shown as u64);
            t.append("/? for ");
            let st = specifier_display(specifier);
            t.append(st.as_str());
            push_line(&mut v, LineStyle::Progress, t);
        },
        ConsoleEvent::EmbeddingPersisted { specifier, model_name } => {
            let mut t = String::from_str("Vectorized chunk for ");
            let st = specifier_display(specifier);
            t.append(st.as_str());
            t.append(" with ");
            t.append(model_name.as_str());
            push_line(&mut v, LineStyle::Progress, t);
        },
        ConsoleEvent::ChunksPersistenceComplete { specifier, chunk_count } => {
            let mut t = String::from_str("All ");
            push_decimal(&mut t, *chunk_count as u64);
            t.append(" chunks persisted for ");
            let st = specifier_display(specifier);
            t.append(st.as_str());
            push_line(&mut v, LineStyle::Success, t);
        },
        ConsoleEvent::EmbeddingsPersistenceComplete { specifier, vector_count, embedding_model } => {
            let mut t = String::from_str("All ");
            push_decimal(&mut t, *vector_count as u64);
            t.append(" embeddings persisted for ");
            let st = specifier_display(specifier);
            t.append(st.as_str());
            t.append(" using ");
            t.append(embedding_model.as_str());
            push_line(&mut v, LineStyle::Success, t);
        },
        ConsoleEvent::CrateProcessingComplete { specifier, stages_completed, total_duration_ms } => {
            let mut t = String::from_str("Crate processing complete: ");
            let st = specifier_display(specifier);
            t.append(st.as_str());
            t.append(" (");
            push_decimal(&mut t, *stages_completed as u64);
            t.append(" stages, ");
            push_decimal(&mut t, *total_duration_ms);
            t.append("ms)");
            push_line(&mut v, LineStyle::Success, t);
        },
    }
    assert(lines_view(v@) =~= event_lines(*event));
    v
}

/// A command for the spinner task.
#[derive(Debug)]
pub enum SpinnerCommand {
    /// Show the spinner with this message.
    Start(String),
    /// Change the spinner's message.
    Update(String),
    /// Hide the spinner.
    Stop,
}

/// The console's state.
pub struct Console {
    raw_mode_active: bool,
    color_config: ColorConfig,
    spinner_started: bool,
}

impl Console {
    pub closed spec fn spec_raw_mode(&self) -> bool {
        self.raw_mode_active
    }

    pub closed spec fn spec_colors(&self) -> bool {
        self.color_config.spec_enabled()
    }

    pub closed spec fn spec_spinner_started(&self) -> bool {
        self.spinner_started
    }

    /// A console in normal mode, without a spinner.
    pub fn new(color_config: ColorConfig) -> (c: Self)
        ensures
            !c.spec_raw_mode(),
            c.spec_colors() == color_config.spec_enabled(),
            !c.spec_spinner_started(),
    {
        Console { raw_mode_active: false, color_config, spinner_started: false }
    }

    /// Whether the terminal is in raw mode.
    pub fn raw_mode_active(&self) -> (b: bool)
        ensures
            b == self.spec_raw_mode(),
    {
        self.raw_mode_active
    }

    /// The color configuration.
    pub fn color_config(&self) -> (c: ColorConfig)
        ensures
            c.spec_enabled() == self.spec_colors(),
    {
        self.color_config
    }

    /// Records whether the terminal is in raw mode.
    pub fn set_raw_mode(&mut self, on: bool)
        ensures
            final(self).spec_raw_mode() == on,
            final(self).spec_colors() == old(self).spec_colors(),
            final(self).spec_spinner_started() == old(self).spec_spinner_started(),
    {
        self.raw_mode_active = on;
    }

    /// The texts that the terminal receives for a message, one per line.
    pub fn show(&self, event: &ConsoleEvent) -> (out: Vec<String>)
        ensures
            out@.len() == event_lines(*event).len(),
            forall|i: int|
                0 <= i < out@.len() ==> shown_as(
                    event_lines(*event)[i].0,
                    event_lines(*event)[i].1,
                    self.spec_raw_mode(),
                    self.spec_colors(),
                    (#[trigger] out@[i])@,
                ),
    {
        let lines = render_event(event);
        self.output_of(&lines)
    }

    /// The texts that the terminal receives for lines.
    pub fn output_of(&self, lines: &Vec<ConsoleLine>) -> (out: Vec<String>)
        ensures
            out@.len() == lines@.len(),
            forall|i: int|
                0 <= i < out@.len() ==> shown_as(
                    lines@[i].style,
                    lines@[i].text@,
                    self.spec_raw_mode(),
                    self.spec_colors(),
                    (#[trigger] out@[i])@,
                ),
    {
        let mut out: Vec<String> = Vec::new();
        let mut i: usize = 0;
        while i < lines.len()
            invariant
                i <= lines@.len(),
                out@.len() == i,
                forall|k: int|
                    0 <= k < i ==> shown_as(
                        lines@[k].style,
                        lines@[k].text@,
                        self.spec_raw_mode(),
                        self.spec_colors(),
                        (#[trigger] out@[k])@,
                    ),
            decreases lines@.len() - i,
        {
            out.push(line_output(&lines[i], self.raw_mode_active, self.color_config));
            i = i + 1;
        }
        out
    }

    /// A request to show the spinner: the spinner task is started the first
    /// time (the first result), then it is told to show the message.
    pub fn start_spinner(&mut self, message: String) -> (r: (bool, SpinnerCommand))
        ensures
            r.0 == !old(self).spec_spinner_started(),
            r.1 matches SpinnerCommand::Start(m) && m@ == message@,
            final(self).spec_spinner_started(),
            final(self).spec_raw_mode() == old(self).spec_raw_mode(),
            final(self).spec_colors() == old(self).spec_colors(),
    {
        let start_task = !self.spinner_started;
        self.spinner_started = true;
        (start_task, SpinnerCommand::Start(message))
    }

    /// A new spinner message; nothing when no spinner task was started.
    pub fn update_spinner(&self, message: String) -> (r: Option<SpinnerCommand>)
        ensures
            self.spec_spinner_started() ==> (r matches Some(SpinnerCommand::Update(m)) && m@ == message@),
            !self.spec_spinner_started() ==> r is None,
    {
        if self.spinner_started {
            Some(SpinnerCommand::Update(message))
        } else {
            None
        }
    }

    /// A request to hide the spinner, with a final message shown as a
    /// success or an error line.
    pub fn stop_spinner(&self, final_message: Option<String>, success: bool) -> (r: (Option<SpinnerCommand>, Vec<String>))
        ensures
            self.spec_spinner_started() ==> r.0 matches Some(SpinnerCommand::Stop),
            !self.spec_spinner_started() ==> r.0 is None,
            final_message is None ==> r.1@.len() == 0,
            final_message matches Some(m) ==> r.1@.len() == 1 && shown_as(
                if success { LineStyle::Success } else { LineStyle::Error },
                m@,
                self.spec_raw_mode(),
                self.spec_colors(),
                r.1@[0]@,
            ),
    {
        let cmd = if self.spinner_started {
            Some(SpinnerCommand::Stop)
        } else {
            None
        };
        let mut out: Vec<String> = Vec::new();
        match final_message {
            Some(m) => {
                let line = ConsoleLine {
                    style: if success { LineStyle::Success } else { LineStyle::Error },
                    text: m,
                };
                out.push(line_output(&line, self.raw_mode_active, self.color_config));
            },
            None => {},
        }
        (cmd, out)
    }
}

/// The spinner's frames.
pub open spec fn spinner_frames() -> Seq<char> {
    seq!['⠋', '⠙', '⠹', '⠸', '⠼', '⠴', '⠦', '⠧', '⠇', '⠏']
}

/// The frame shown at step `index` (the frames repeat).
pub fn spinner_frame(index: usize) -> (c: char)
    ensures
        c == spinner_frames()[(index % 10) as int],
{
    let frames = ['⠋', '⠙', '⠹', '⠸', '⠼', '⠴', '⠦', '⠧', '⠇', '⠏'];
    frames[index % 10]
}

/// What the spinner writes when it hides: it blanks the line (80 spaces)
/// and returns to its start, then ends the line in raw mode.
pub open spec fn spinner_clear(raw_mode: bool) -> Seq<char> {
    "\r"@ + Seq::new(80, |i: int| ' ') + "\r"@ + (if raw_mode {
        "\r\n"@
    } else {
        Seq::empty()
    })
}

/// What the spinner writes when it hides (see [`spinner_clear`]).
pub fn spinner_clear_text(raw_mode: bool) -> (s: String)
    ensures
        s@ == spinner_clear(raw_mode),
{
    let mut s = String::from_str("\r");
    let ghost start = s@;
    let mut k: usize = 0;
    while k < 80
        invariant
            k <= 80,
            s@ == start + Seq::new(k as nat, |i: int| ' '),
        decreases 80 - k,
    {
        push_char(&mut s, ' ');
        assert(Seq::new((k + 1) as nat, |i: int| ' ') =~= Seq::new(k as nat, |i: int| ' ').push(' '));
        k = k + 1;
    }
    s.append("\r");
    if raw_mode {
        s.append("\r\n");
    }
    proof {
        reveal_strlit("\r");
    }
    assert(s@ =~= spinner_clear(raw_mode));
    s
}


/// A success message reaches the terminal as one line: `✓`, a space, the
/// message (in green when colors are on, see [`colored`]) and the line
/// ending of the raw mode that was last set.
pub proof fn law_success_message_line(c: Console, m: String, out: Seq<String>)
    requires
        out.len() == event_lines(ConsoleEvent::PrintSuccess(m)).len(),
        forall|i: int|
            0 <= i < out.len() ==> shown_as(
                event_lines(ConsoleEvent::PrintSuccess(m))[i].0,
                event_lines(ConsoleEvent::PrintSuccess(m))[i].1,
                c.spec_raw_mode(),
                c.spec_colors(),
                (#[trigger] out[i])@,
            ),
    ensures
        out.len() == 1,
        exists|x: Seq<char>|
            colored(m@, TextColor::Green, c.spec_colors(), x) && out[0]@ == "✓"@ + " "@ + x + line_end(
                c.spec_raw_mode(),
            ),
{
    let s = out[0]@;
    let p = "✓"@ + " "@;
    let end = line_end(c.spec_raw_mode());
    assert(shown_as(LineStyle::Success, m@, c.spec_raw_mode(), c.spec_colors(), s));
    let x = s.subrange(p.len() as int, s.len() - end.len());
    assert(s =~= p + x + end);
}

} // verus!
