//! `crately doctor`: system diagnostics.

use vstd::prelude::*;

use crate::cli::DoctorArgs;
use crate::commands::lines::push_line;
use crate::text::strings_view;

verus! {

/// The report of `crately doctor`.
pub open spec fn doctor_report(args: DoctorArgs) -> Seq<Seq<char>> {
    seq!["Running system diagnostics..."@, ""@] + (if args.verbose {
        seq!["Verbose mode: enabled"@]
    } else {
        Seq::empty()
    }) + (if args.fix {
        seq!["Auto-fix mode: enabled"@]
    } else {
        Seq::empty()
    }) + seq![
        ""@,
        "Diagnostics to be implemented:"@,
        "  - Configuration file validation"@,
        "  - Database connectivity check"@,
        "  - File system permissions"@,
        "  - Dependency verification"@,
        "  - Runtime environment checks"@,
        ""@,
    ] + (if args.fix {
        seq!["Auto-fix mode would attempt to resolve issues here"@]
    } else {
        Seq::empty()
    }) + seq!["Doctor diagnostics complete"@]
}

/// Runs the diagnostics and returns the lines to print.
pub fn run(args: DoctorArgs) -> (lines: Vec<String>)
    ensures
        strings_view(lines@) == doctor_report(args),
{
    let mut v: Vec<String> = Vec::new();
    push_line(&mut v, "Running system diagnostics...");
    push_line(&mut v, "");
    if args.verbose {
        push_line(&mut v, "Verbose mode: enabled");
    }
    if args.fix {
        push_line(&mut v, "Auto-fix mode: enabled");
    }
    push_line(&mut v, "");
    push_line(&mut v, "Diagnostics to be implemented:");
    push_line(&mut v, "  - Configuration file validation");
    push_line(&mut v, "  - Database connectivity check");
    push_line(&mut v, "  - File system permissions");
    push_line(&mut v, "  - Dependency verification");
    push_line(&mut v, "  - Runtime environment checks");
    push_line(&mut v, "");
    if args.fix {
        push_line(&mut v, "Auto-fix mode would attempt to resolve issues here");
    }
    push_line(&mut v, "Doctor diagnostics complete");
    assert(strings_view(v@) =~= doctor_report(args));
    v
}

} // verus!
