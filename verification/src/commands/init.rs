//! `crately init`: configuration setup.

use vstd::prelude::*;

use crate::cli::InitArgs;
use crate::commands::lines::push_line;
use crate::text::strings_view;

verus! {

/// The report of `crately init`.
pub open spec fn init_report(args: InitArgs) -> Seq<Seq<char>> {
    seq!["Initializing crately configuration..."@, ""@] + (if args.no_interactive {
        seq![
            "Non-interactive mode: Using default configuration"@,
            ""@,
            "Configuration initialized with defaults."@,
            "You will need to manually configure:"@,
            "  - OpenAI API key"@,
            "  - Cache settings"@,
            ""@,
        ]
    } else {
        seq![
            "Interactive Setup Wizard"@,
            "========================"@,
            ""@,
            "This wizard will guide you through:"@,
            "  1. OpenAI API key setup"@,
            "  2. Cache configuration"@,
            "  3. Test run validation"@,
            "  4. Setup completion"@,
            ""@,
            "Interactive wizard to be implemented"@,
            ""@,
        ]
    }) + seq![
        "Initialization complete!"@,
        ""@,
        "Next steps:"@,
        "  - Run 'crately doctor' to verify your configuration"@,
        "  - Run 'crately serve' to start the server"@,
    ]
}

/// Initializes the configuration and returns the lines to print.
pub fn run(args: InitArgs) -> (lines: Vec<String>)
    ensures
        strings_view(lines@) == init_report(args),
{
    let mut v: Vec<String> = Vec::new();
    push_line(&mut v, "Initializing crately configuration...");
    push_line(&mut v, "");
    if args.no_interactive {
        push_line(&mut v, "Non-interactive mode: Using default configuration");
        push_line(&mut v, "");
        push_line(&mut v, "Configuration initialized with defaults.");
        push_line(&mut v, "You will need to manually configure:");
        push_line(&mut v, "  - OpenAI API key");
        push_line(&mut v, "  - Cache settings");
        push_line(&mut v, "");
    } else {
        push_line(&mut v, "Interactive Setup Wizard");
        push_line(&mut v, "========================");
        push_line(&mut v, "");
        push_line(&mut v, "This wizard will guide you through:");
        push_line(&mut v, "  1. OpenAI API key setup");
        push_line(&mut v, "  2. Cache configuration");
        push_line(&mut v, "  3. Test run validation");
        push_line(&mut v, "  4. Setup completion");
        push_line(&mut v, "");
        push_line(&mut v, "Interactive wizard to be implemented");
        push_line(&mut v, "");
    }
    push_line(&mut v, "Initialization complete!");
    push_line(&mut v, "");
    push_line(&mut v, "Next steps:");
    push_line(&mut v, "  - Run 'crately doctor' to verify your configuration");
    push_line(&mut v, "  - Run 'crately serve' to start the server");
    assert(strings_view(v@) =~= init_report(args));
    v
}

} // verus!
