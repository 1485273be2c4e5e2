//! `crately warm`: cache warming.

use vstd::prelude::*;

use crate::cli::WarmArgs;
use crate::commands::lines::{parallelism, parallelism_line, push_line, push_owned};
use crate::text::strings_view;

verus! {

/// The report of `crately warm`.
pub open spec fn warm_report(args: WarmArgs) -> Seq<Seq<char>> {
    seq!["Warming cache..."@, ""@] + (if args.popular {
        seq![
            "Pre-populating cache with popular crates"@,
            ""@,
            "Implementation pending:"@,
            "  - Load curated list of popular crates from configuration"@,
            "  - Popular crates might include:"@,
            "    - serde, tokio, axum, clap"@,
            "    - async-trait, anyhow, thiserror"@,
            "    - tracing, log, env_logger"@,
            "    - reqwest, hyper, tower"@,
            "  - Download and process each crate in parallel"@,
            "  - Report progress and completion status"@,
            ""@,
        ]
    } else {
        seq![
            "Warming cache with default configuration"@,
            ""@,
            "Implementation pending:"@,
            "  - Identify crates to warm based on usage patterns"@,
            "  - Process recently accessed crates"@,
            "  - Update cache statistics and metadata"@,
            "  - Optimize cache for better query performance"@,
            ""@,
        ]
    }) + seq![parallelism_line(args.parallel), ""@, "Cache warming complete"@]
}

/// Warms the cache and returns the lines to print.
pub fn run(args: WarmArgs) -> (lines: Vec<String>)
    ensures
        strings_view(lines@) == warm_report(args),
{
    let mut v: Vec<String> = Vec::new();
    push_line(&mut v, "Warming cache...");
    push_line(&mut v, "");
    if args.popular {
        push_line(&mut v, "Pre-populating cache with popular crates");
        push_line(&mut v, "");
        push_line(&mut v, "Implementation pending:");
        push_line(&mut v, "  - Load curated list of popular crates from configuration");
        push_line(&mut v, "  - Popular crates might include:");
        push_line(&mut v, "    - serde, tokio, axum, clap");
        push_line(&mut v, "    - async-trait, anyhow, thiserror");
        push_line(&mut v, "    - tracing, log, env_logger");
        push_line(&mut v, "    - reqwest, hyper, tower");
        push_line(&mut v, "  - Download and process each crate in parallel");
        push_line(&mut v, "  - Report progress and completion status");
        push_line(&mut v, "");
    } else {
        push_line(&mut v, "Warming cache with default configuration");
        push_line(&mut v, "");
        push_line(&mut v, "Implementation pending:");
        push_line(&mut v, "  - Identify crates to warm based on usage patterns");
        push_line(&mut v, "  - Process recently accessed crates");
        push_line(&mut v, "  - Update cache statistics and metadata");
        push_line(&mut v, "  - Optimize cache for better query performance");
        push_line(&mut v, "");
    }
    push_owned(&mut v, parallelism(args.parallel));
    push_line(&mut v, "");
    push_line(&mut v, "Cache warming complete");
    assert(strings_view(v@) =~= warm_report(args));
    v
}

} // verus!
