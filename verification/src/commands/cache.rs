//! `crately cache`: managing the cache of processed crates.

use vstd::prelude::*;
use vstd::string::StringExecFns;

use crate::cli::{CacheArgs, CacheCommands, CleanArgs, ClearArgs};
use crate::commands::lines::{push_line, push_owned};
use crate::text::strings_view;

verus! {

/// The report of `cache list`.
pub open spec fn list_report(dry_run: bool, json: bool) -> Seq<Seq<char>> {
    if json {
        seq!["{\"cached_crates\":[],\"message\":\"List implementation pending\"}"@]
    } else {
        seq![
            "Listing cached crates..."@,
            ""@,
            "Implementation pending:"@,
            "  - Query SurrealDB for cached crate entries"@,
            "  - Display crate name, version, size, creation date"@,
            "  - Show last access time and usage statistics"@,
            ""@,
        ] + if dry_run {
            seq!["[DRY RUN] Would list all cached crates"@]
        } else {
            seq!["No cached crates found"@]
        }
    }
}

/// The report of `cache stats`.
pub open spec fn stats_report(dry_run: bool, json: bool) -> Seq<Seq<char>> {
    if json {
        seq!["{\"total_size\":0,\"entry_count\":0,\"message\":\"Stats implementation pending\"}"@]
    } else {
        seq![
            "Cache statistics..."@,
            ""@,
            "Implementation pending:"@,
            "  - Total cache size and entry count"@,
            "  - Storage utilization by crate"@,
            "  - Access patterns and frequency"@,
            "  - Cache hit/miss rates"@,
            ""@,
        ] + if dry_run {
            seq!["[DRY RUN] Would display cache statistics"@]
        } else {
            seq!["Total cache size: 0 bytes"@, "Total entries: 0"@]
        }
    }
}

/// The report of `cache clean`.
pub open spec fn clean_report(older_than: Seq<char>, dry_run: bool, json: bool) -> Seq<Seq<char>> {
    if json {
        seq![
            "{\"removed_count\":0,\"duration\":\""@ + older_than
                + "\",\"message\":\"Clean implementation pending\"}"@,
        ]
    } else {
        seq![
            "Cleaning cache entries older than: "@ + older_than,
            ""@,
            "Implementation pending:"@,
            "  - Parse duration string (e.g., 30d, 6w, 3m, 1y)"@,
            "  - Query SurrealDB for entries older than threshold"@,
            "  - Remove identified cache entries"@,
            "  - Report number of entries and bytes freed"@,
            ""@,
        ] + if dry_run {
            seq!["[DRY RUN] Would remove 0 cache entries older than "@ + older_than]
        } else {
            seq!["Removed 0 cache entries"@]
        }
    }
}

/// The report of `cache clear`.
pub open spec fn clear_report(crate_spec: Option<Seq<char>>, all: bool, dry_run: bool, json: bool) -> Seq<
    Seq<char>,
> {
    if json {
        if all {
            seq!["{\"cleared\":\"all\",\"message\":\"Clear all implementation pending\"}"@]
        } else {
            match crate_spec {
                Some(spec) => seq![
                    "{\"cleared\":\""@ + spec
                        + "\",\"message\":\"Clear specific implementation pending\"}"@,
                ],
                None => seq!["{\"error\":\"No crate specified and --all not provided\"}"@],
            }
        }
    } else if all {
        seq![
            "Clearing all cached data..."@,
            ""@,
            "Implementation pending:"@,
            "  - Remove all entries from SurrealDB cache tables"@,
            "  - Clean up associated file system storage"@,
            "  - Report total space freed"@,
            ""@,
        ] + if dry_run {
            seq!["[DRY RUN] Would clear all cached data"@]
        } else {
            seq!["Cleared all cached data"@]
        }
    } else {
        match crate_spec {
            Some(spec) => seq![
                "Clearing cache for: "@ + spec,
                ""@,
                "Implementation pending:"@,
                "  - Parse crate specifier (name@version)"@,
                "  - Query SurrealDB for specific crate entry"@,
                "  - Remove cache entry and associated data"@,
                "  - Report space freed"@,
                ""@,
            ] + if dry_run {
                seq!["[DRY RUN] Would clear cache for "@ + spec]
            } else {
                seq!["Cache for "@ + spec + " not found"@]
            },
            None => seq![
                "Error: Must specify either a crate (e.g., serde@1.0.0) or use --all"@,
                ""@,
                "Examples:"@,
                "  crately cache clear serde@1.0.0"@,
                "  crately cache clear --all"@,
            ],
        }
    }
}

/// The report of `crately cache`: a dry-run notice, then the subcommand's report.
pub open spec fn cache_report(args: CacheArgs) -> Seq<Seq<char>> {
    (if args.dry_run {
        seq!["[DRY RUN MODE] No changes will be made"@, ""@]
    } else {
        Seq::empty()
    }) + match args.command {
        CacheCommands::List => list_report(args.dry_run, args.json),
        CacheCommands::Stats => stats_report(args.dry_run, args.json),
        CacheCommands::Clean(c) => clean_report(c.older_than@, args.dry_run, args.json),
        CacheCommands::Clear(c) => clear_report(
            match c.crate_spec {
                Some(s) => Some(s@),
                None => None,
            },
            c.all,
            args.dry_run,
            args.json,
        ),
    }
}

/// Lists the cached crates.
pub fn handle_list(dry_run: bool, json: bool) -> (lines: Vec<String>)
    ensures
        strings_view(lines@) == list_report(dry_run, json),
{
    let mut v: Vec<String> = Vec::new();
    if json {
        push_line(&mut v, "{\"cached_crates\":[],\"message\":\"List implementation pending\"}");
    } else {
        push_line(&mut v, "Listing cached crates...");
        push_line(&mut v, "");
        push_line(&mut v, "Implementation pending:");
        push_line(&mut v, "  - Query SurrealDB for cached crate entries");
        push_line(&mut v, "  - Display crate name, version, size, creation date");
        push_line(&mut v, "  - Show last access time and usage statistics");
        push_line(&mut v, "");
        if dry_run {
            push_line(&mut v, "[DRY RUN] Would list all cached crates");
        } else {
            push_line(&mut v, "No cached crates found");
        }
    }
    assert(strings_view(v@) =~= list_report(dry_run, json));
    v
}

/// Shows cache statistics.
pub fn handle_stats(dry_run: bool, json: bool) -> (lines: Vec<String>)
    ensures
        strings_view(lines@) == stats_report(dry_run, json),
{
    let mut v: Vec<String> = Vec::new();
    if json {
        push_line(
            &mut v,
            "{\"total_size\":0,\"entry_count\":0,\"message\":\"Stats implementation pending\"}",
        );
    } else {
        push_line(&mut v, "Cache statistics...");
        push_line(&mut v, "");
        push_line(&mut v, "Implementation pending:");
        push_line(&mut v, "  - Total cache size and entry count");
        push_line(&mut v, "  - Storage utilization by crate");
        push_line(&mut v, "  - Access patterns and frequency");
        push_line(&mut v, "  - Cache hit/miss rates");
        push_line(&mut v, "");
        if dry_run {
            push_line(&mut v, "[DRY RUN] Would display cache statistics");
        } else {
            push_line(&mut v, "Total cache size: 0 bytes");
            push_line(&mut v, "Total entries: 0");
        }
    }
    assert(strings_view(v@) =~= stats_report(dry_run, json));
    v
}

/// Removes cache entries older than a duration.
pub fn handle_clean(args: CleanArgs, dry_run: bool, json: bool) -> (lines: Vec<String>)
    ensures
        strings_view(lines@) == clean_report(args.older_than@, dry_run, json),
{
    let older = args.older_than.as_str();
    let mut v: Vec<String> = Vec::new();
    if json {
        let mut l = String::from_str("{\"removed_count\":0,\"duration\":\"");
        l.append(older);
        l.append("\",\"message\":\"Clean implementation pending\"}");
        push_owned(&mut v, l);
    } else {
        let mut l = String::from_str("Cleaning cache entries older than: ");
        l.append(older);
        push_owned(&mut v, l);
        push_line(&mut v, "");
        push_line(&mut v, "Implementation pending:");
        push_line(&mut v, "  - Parse duration string (e.g., 30d, 6w, 3m, 1y)");
        push_line(&mut v, "  - Query SurrealDB for entries older than threshold");
        push_line(&mut v, "  - Remove identified cache entries");
        push_line(&mut v, "  - Report number of entries and bytes freed");
        push_line(&mut v, "");
        if dry_run {
            let mut d = String::from_str("[DRY RUN] Would remove 0 cache entries older than ");
            d.append(older);
            push_owned(&mut v, d);
        } else {
            push_line(&mut v, "Removed 0 cache entries");
        }
    }
    assert(strings_view(v@) =~= clean_report(args.older_than@, dry_run, json));
    v
}

/// Removes one crate's cached data, or all of it.
pub fn handle_clear(args: ClearArgs, dry_run: bool, json: bool) -> (lines: Vec<String>)
    ensures
        strings_view(lines@) == clear_report(
            match args.crate_spec {
                Some(s) => Some(s@),
                None => None,
            },
            args.all,
            dry_run,
            json,
        ),
{
    let mut v: Vec<String> = Vec::new();
    if json {
        if args.all {
            push_line(&mut v, "{\"cleared\":\"all\",\"message\":\"Clear all implementation pending\"}");
        } else {
            match &args.crate_spec {
                Some(spec) => {
                    let mut l = String::from_str("{\"cleared\":\"");
                    l.append(spec.as_str());
                    l.append("\",\"message\":\"Clear specific implementation pending\"}");
                    push_owned(&mut v, l);
                },
                None => push_line(
                    &mut v,
                    "{\"error\":\"No crate specified and --all not provided\"}",
                ),
            }
        }
    } else if args.all {
        push_line(&mut v, "Clearing all cached data...");
        push_line(&mut v, "");
        push_line(&mut v, "Implementation pending:");
        push_line(&mut v, "  - Remove all entries from SurrealDB cache tables");
        push_line(&mut v, "  - Clean up associated file system storage");
        push_line(&mut v, "  - Report total space freed");
        push_line(&mut v, "");
        if dry_run {
            push_line(&mut v, "[DRY RUN] Would clear all cached data");
        } else {
            push_line(&mut v, "Cleared all cached data");
        }
    } else {
        match &args.crate_spec {
            Some(spec) => {
                let mut l = String::from_str("Clearing cache for: ");
                l.append(spec.as_str());
                push_owned(&mut v, l);
                push_line(&mut v, "");
                push_line(&mut v, "Implementation pending:");
                push_line(&mut v, "  - Parse crate specifier (name@version)");
                push_line(&mut v, "  - Query SurrealDB for specific crate entry");
                push_line(&mut v, "  - Remove cache entry and associated data");
                push_line(&mut v, "  - Report space freed");
                push_line(&mut v, "");
                if dry_run {
                    let mut d = String::from_str("[DRY RUN] Would clear cache for ");
                    d.append(spec.as_str());
                    push_owned(&mut v, d);
                } else {
                    let mut d = String::from_str("Cache for ");
                    d.append(spec.as_str());
                    d.append(" not found");
                    push_owned(&mut v, d);
                }
            },
            None => {
                push_line(&mut v, "Error: Must specify either a crate (e.g., serde@1.0.0) or use --all");
                push_line(&mut v, "");
                push_line(&mut v, "Examples:");
                push_line(&mut v, "  crately cache clear serde@1.0.0");
                push_line(&mut v, "  crately cache clear --all");
            },
        }
    }
    assert(strings_view(v@) =~= clear_report(
        match args.crate_spec {
            Some(s) => Some(s@),
            None => None,
        },
        args.all,
        dry_run,
        json,
    ));
    v
}

/// Runs a cache subcommand and returns the lines to print.
pub fn run(args: CacheArgs) -> (lines: Vec<String>)
    ensures
        strings_view(lines@) == cache_report(args),
{
    let ghost a = args;
    let CacheArgs { command, dry_run, json } = args;
    let mut v: Vec<String> = Vec::new();
    if dry_run {
        push_line(&mut v, "[DRY RUN MODE] No changes will be made");
        push_line(&mut v, "");
    }
    let rest = match command {
        CacheCommands::List => handle_list(dry_run, json),
        CacheCommands::Stats => handle_stats(dry_run, json),
        CacheCommands::Clean(c) => handle_clean(c, dry_run, json),
        CacheCommands::Clear(c) => handle_clear(c, dry_run, json),
    };
    let ghost head = strings_view(v@);
    let mut i: usize = 0;
    while i < rest.len()
        invariant
            i <= rest@.len(),
            strings_view(v@) == head + strings_view(rest@).take(i as int),
        decreases rest@.len() - i,
    {
        push_owned(&mut v, rest[i].clone());
        assert(strings_view(rest@).take(i + 1) =~= strings_view(rest@).take(i as int).push(
            rest@[i as int]@,
        ));
        i = i + 1;
    }
    assert(strings_view(rest@).take(i as int) =~= strings_view(rest@));
    assert(strings_view(v@) =~= cache_report(a));
    v
}

} // verus!
