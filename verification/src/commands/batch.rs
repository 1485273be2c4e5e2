//! `crately batch`: processing several crates at once.

use vstd::prelude::*;
use vstd::string::StringExecFns;

use crate::cli::BatchArgs;
use crate::commands::lines::{parallelism, parallelism_line, push_line, push_owned};
use crate::text::{decimal, push_decimal, strings_view};

verus! {

/// The listing of the crates asked for: `  - <spec>` each.
pub open spec fn crate_list(crates: Seq<Seq<char>>) -> Seq<Seq<char>> {
    Seq::new(crates.len(), |i: int| "  - "@ + crates[i])
}

/// The report of `crately batch`.
pub open spec fn batch_report(args: BatchArgs) -> Seq<Seq<char>> {
    let crates = strings_view(args.crates@);
    seq!["Batch processing crates..."@, ""@] + (match args.from {
        Some(file) => seq![
            "Processing dependencies from: "@ + file@,
            ""@,
            "Implementation pending:"@,
            "  - Parse manifest file (Cargo.toml, package.json, etc.)"@,
            "  - Extract all dependencies with version constraints"@,
            "  - Process each dependency in parallel"@,
            "  - Report success/failure for each crate"@,
            ""@,
            parallelism_line(args.parallel),
        ],
        None => if crates.len() > 0 {
            seq!["Processing "@ + decimal(crates.len()) + " crate(s):"@] + crate_list(crates)
                + seq![
                ""@,
                "Implementation pending:"@,
                "  - Validate crate specifiers"@,
                "  - Download crate archives from crates.io"@,
                "  - Compile documentation for each crate"@,
                "  - Vectorize documentation and store in database"@,
                "  - Process crates in parallel with configurable concurrency"@,
                ""@,
                parallelism_line(args.parallel),
            ]
        } else {
            seq![
                "Error: No crates specified and --from flag not provided"@,
                ""@,
                "Examples:"@,
                "  crately batch serde@^1.0 tokio@1.35 actix-web@4.4"@,
                "  crately batch --from Cargo.toml"@,
                "  crately batch --from Cargo.toml --parallel 8"@,
                "  crately batch serde@1.0.0 --parallel 4"@,
            ]
        },
    }) + seq![""@, "Batch processing complete"@]
}

/// Processes the crates and returns the lines to print.
pub fn run(args: BatchArgs) -> (lines: Vec<String>)
    ensures
        strings_view(lines@) == batch_report(args),
{
    let mut v: Vec<String> = Vec::new();
    push_line(&mut v, "Batch processing crates...");
    push_line(&mut v, "");
    match &args.from {
        Some(file) => {
            let mut l = String::from_str("Processing dependencies from: ");
            l.append(file.as_str());
            push_owned(&mut v, l);
            push_line(&mut v, "");
            push_line(&mut v, "Implementation pending:");
            push_line(&mut v, "  - Parse manifest file (Cargo.toml, package.json, etc.)");
            push_line(&mut v, "  - Extract all dependencies with version constraints");
            push_line(&mut v, "  - Process each dependency in parallel");
            push_line(&mut v, "  - Report success/failure for each crate");
            push_line(&mut v, "");
            push_owned(&mut v, parallelism(args.parallel));
        },
        None => {
            if args.crates.len() > 0 {
                let mut l = String::from_str("Processing ");
                push_decimal(&mut l, args.crates.len() as u64);
                l.append(" crate(s):");
                push_owned(&mut v, l);
                let ghost head = strings_view(v@);
                let ghost crates = strings_view(args.crates@);
                let mut i: usize = 0;
                while i < args.crates.len()
                    invariant
                        i <= args.crates@.len(),
                        crates == strings_view(args.crates@),
                        strings_view(v@) == head + crate_list(crates).take(i as int),
                    decreases args.crates@.len() - i,
                {
                    let mut item = String::from_str("  - ");
                    item.append(args.crates[i].as_str());
                    push_owned(&mut v, item);
                    assert(crate_list(crates).take(i + 1) =~= crate_list(crates).take(i as int).push(
                        crate_list(crates)[i as int],
                    ));
                    i = i + 1;
                }
                assert(crate_list(crates).take(i as int) =~= crate_list(crates));
                push_line(&mut v, "");
                push_line(&mut v, "Implementation pending:");
                push_line(&mut v, "  - Validate crate specifiers");
                push_line(&mut v, "  - Download crate archives from crates.io");
                push_line(&mut v, "  - Compile documentation for each crate");
                push_line(&mut v, "  - Vectorize documentation and store in database");
                push_line(&mut v, "  - Process crates in parallel with configurable concurrency");
                push_line(&mut v, "");
                push_owned(&mut v, parallelism(args.parallel));
            } else {
                push_line(&mut v, "Error: No crates specified and --from flag not provided");
                push_line(&mut v, "");
                push_line(&mut v, "Examples:");
                push_line(&mut v, "  crately batch serde@^1.0 tokio@1.35 actix-web@4.4");
                push_line(&mut v, "  crately batch --from Cargo.toml");
                push_line(&mut v, "  crately batch --from Cargo.toml --parallel 8");
                push_line(&mut v, "  crately batch serde@1.0.0 --parallel 4");
            }
        },
    }
    push_line(&mut v, "");
    push_line(&mut v, "Batch processing complete");
    assert(strings_view(v@) =~= batch_report(args));
    v
}

} // verus!
