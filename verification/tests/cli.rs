use crately::cli::{CacheCommands, Cli, ColorChoice, Commands};


#[test]
fn test_cli_doctor_no_flags() {
    let cli = Cli::try_parse_from(&["crately", "doctor"]).expect("Failed to parse CLI");
    match cli.command {
        Commands::Doctor(args) => {
            assert!(!args.verbose, "verbose should default to false");
            assert!(!args.fix, "fix should default to false");
        }
        _ => panic!("Expected Doctor command"),
    }
}

#[test]
fn test_cli_doctor_verbose_flag() {
    let cli =
        Cli::try_parse_from(&["crately", "doctor", "--verbose"]).expect("Failed to parse CLI");
    match cli.command {
        Commands::Doctor(args) => {
            assert!(args.verbose, "verbose should be true");
            assert!(!args.fix, "fix should be false");
        }
        _ => panic!("Expected Doctor command"),
    }
}

#[test]
fn test_cli_doctor_fix_flag() {
    let cli = Cli::try_parse_from(&["crately", "doctor", "--fix"]).expect("Failed to parse CLI");
    match cli.command {
        Commands::Doctor(args) => {
            assert!(!args.verbose, "verbose should be false");
            assert!(args.fix, "fix should be true");
        }
        _ => panic!("Expected Doctor command"),
    }
}

#[test]
fn test_cli_doctor_both_flags() {
    let cli = Cli::try_parse_from(&["crately", "doctor", "--verbose", "--fix"])
        .expect("Failed to parse CLI");
    match cli.command {
        Commands::Doctor(args) => {
            assert!(args.verbose, "verbose should be true");
            assert!(args.fix, "fix should be true");
        }
        _ => panic!("Expected Doctor command"),
    }
}

#[test]
fn test_cli_doctor_short_flags() {
    let cli =
        Cli::try_parse_from(&["crately", "doctor", "-v", "-f"]).expect("Failed to parse CLI");
    match cli.command {
        Commands::Doctor(args) => {
            assert!(args.verbose, "verbose should be true with -v");
            assert!(args.fix, "fix should be true with -f");
        }
        _ => panic!("Expected Doctor command"),
    }
}

#[test]
fn test_cli_serve_command() {
    let cli = Cli::try_parse_from(&["crately", "serve"]).expect("Failed to parse CLI");
    match cli.command {
        Commands::Serve => {
            // Successfully parsed serve command
        }
        _ => panic!("Expected Serve command"),
    }
}

#[test]
fn test_cli_version_flag() {
    // Version flag should cause parse to fail with exit, which is expected behavior
    // We just verify it doesn't panic
    let result = Cli::try_parse_from(&["crately", "--version"]);
    assert!(result.is_err(), "Version flag should cause early exit");
}

#[test]
fn test_cli_help_flag() {
    // Help flag should cause parse to fail with exit, which is expected behavior
    let result = Cli::try_parse_from(&["crately", "--help"]);
    assert!(result.is_err(), "Help flag should cause early exit");
}

#[test]
fn test_cli_init_no_flags() {
    let cli = Cli::try_parse_from(&["crately", "init"]).expect("Failed to parse CLI");
    match cli.command {
        Commands::Init(args) => {
            assert!(
                !args.no_interactive,
                "no_interactive should default to false"
            );
        }
        _ => panic!("Expected Init command"),
    }
}

#[test]
fn test_cli_init_with_no_interactive_flag() {
    let cli = Cli::try_parse_from(&["crately", "init", "--no-interactive"])
        .expect("Failed to parse CLI");
    match cli.command {
        Commands::Init(args) => {
            assert!(args.no_interactive, "no_interactive should be true");
        }
        _ => panic!("Expected Init command"),
    }
}

#[test]
fn test_cache_list_command() {
    let cli = Cli::try_parse_from(&["crately", "cache", "list"]).expect("Failed to parse CLI");
    match cli.command {
        Commands::Cache(args) => {
            assert!(!args.dry_run, "dry_run should default to false");
            assert!(!args.json, "json should default to false");
            match args.command {
                CacheCommands::List => {}
                _ => panic!("Expected List subcommand"),
            }
        }
        _ => panic!("Expected Cache command"),
    }
}

#[test]
fn test_cache_list_with_json_flag() {
    let cli =
        Cli::try_parse_from(&["crately", "cache", "--json", "list"]).expect("Failed to parse");
    match cli.command {
        Commands::Cache(args) => {
            assert!(args.json, "json should be true");
            assert!(!args.dry_run, "dry_run should be false");
        }
        _ => panic!("Expected Cache command"),
    }
}

#[test]
fn test_cache_list_with_dry_run_flag() {
    let cli = Cli::try_parse_from(&["crately", "cache", "--dry-run", "list"])
        .expect("Failed to parse");
    match cli.command {
        Commands::Cache(args) => {
            assert!(args.dry_run, "dry_run should be true");
            assert!(!args.json, "json should be false");
        }
        _ => panic!("Expected Cache command"),
    }
}

#[test]
fn test_cache_stats_command() {
    let cli = Cli::try_parse_from(&["crately", "cache", "stats"]).expect("Failed to parse CLI");
    match cli.command {
        Commands::Cache(args) => match args.command {
            CacheCommands::Stats => {}
            _ => panic!("Expected Stats subcommand"),
        },
        _ => panic!("Expected Cache command"),
    }
}

#[test]
fn test_cache_clean_with_older_than() {
    let cli = Cli::try_parse_from(&["crately", "cache", "clean", "--older-than", "30d"])
        .expect("Failed to parse");
    match cli.command {
        Commands::Cache(args) => match args.command {
            CacheCommands::Clean(clean_args) => {
                assert_eq!(clean_args.older_than, "30d", "older_than should be '30d'");
            }
            _ => panic!("Expected Clean subcommand"),
        },
        _ => panic!("Expected Cache command"),
    }
}

#[test]
fn test_cache_clean_requires_older_than() {
    let result = Cli::try_parse_from(&["crately", "cache", "clean"]);
    assert!(
        result.is_err(),
        "Clean command should require --older-than flag"
    );
}

#[test]
fn test_cache_clear_with_crate_spec() {
    let cli = Cli::try_parse_from(&["crately", "cache", "clear", "serde@1.0.0"])
        .expect("Failed to parse");
    match cli.command {
        Commands::Cache(args) => match args.command {
            CacheCommands::Clear(clear_args) => {
                assert_eq!(
                    clear_args.crate_spec,
                    Some("serde@1.0.0".to_string()),
                    "crate_spec should be 'serde@1.0.0'"
                );
                assert!(!clear_args.all, "all should be false");
            }
            _ => panic!("Expected Clear subcommand"),
        },
        _ => panic!("Expected Cache command"),
    }
}

#[test]
fn test_cache_clear_with_all_flag() {
    let cli =
        Cli::try_parse_from(&["crately", "cache", "clear", "--all"]).expect("Failed to parse");
    match cli.command {
        Commands::Cache(args) => match args.command {
            CacheCommands::Clear(clear_args) => {
                assert!(clear_args.all, "all should be true");
                assert_eq!(clear_args.crate_spec, None, "crate_spec should be None");
            }
            _ => panic!("Expected Clear subcommand"),
        },
        _ => panic!("Expected Cache command"),
    }
}

#[test]
fn test_cache_clear_rejects_both_crate_and_all() {
    let result = Cli::try_parse_from(&["crately", "cache", "clear", "serde@1.0.0", "--all"]);
    assert!(
        result.is_err(),
        "Clear command should reject both crate spec and --all"
    );
}

#[test]
fn test_cache_clear_requires_crate_or_all() {
    let cli = Cli::try_parse_from(&["crately", "cache", "clear"]).expect("Failed to parse");
    match cli.command {
        Commands::Cache(args) => match args.command {
            CacheCommands::Clear(clear_args) => {
                assert_eq!(clear_args.crate_spec, None, "crate_spec should be None");
                assert!(!clear_args.all, "all should be false");
            }
            _ => panic!("Expected Clear subcommand"),
        },
        _ => panic!("Expected Cache command"),
    }
}

#[test]
fn test_cache_with_both_global_flags() {
    let cli = Cli::try_parse_from(&["crately", "cache", "--dry-run", "--json", "list"])
        .expect("Failed to parse");
    match cli.command {
        Commands::Cache(args) => {
            assert!(args.dry_run, "dry_run should be true");
            assert!(args.json, "json should be true");
        }
        _ => panic!("Expected Cache command"),
    }
}

#[test]
fn test_cache_clean_with_global_flags() {
    let cli = Cli::try_parse_from(&[
        "crately",
        "cache",
        "--dry-run",
        "--json",
        "clean",
        "--older-than",
        "1y",
    ])
    .expect("Failed to parse");
    match cli.command {
        Commands::Cache(args) => {
            assert!(args.dry_run, "dry_run should be true");
            assert!(args.json, "json should be true");
            match args.command {
                CacheCommands::Clean(clean_args) => {
                    assert_eq!(clean_args.older_than, "1y", "older_than should be '1y'");
                }
                _ => panic!("Expected Clean subcommand"),
            }
        }
        _ => panic!("Expected Cache command"),
    }
}

#[test]
fn cli_test_batch_with_multiple_crates() {
    let cli = Cli::try_parse_from(&[
        "crately",
        "batch",
        "serde@^1.0",
        "tokio@1.35",
        "actix-web@4.4",
    ])
    .expect("Failed to parse");
    match cli.command {
        Commands::Batch(args) => {
            assert_eq!(args.crates.len(), 3, "should have 3 crate specifiers");
            assert_eq!(args.crates[0], "serde@^1.0");
            assert_eq!(args.crates[1], "tokio@1.35");
            assert_eq!(args.crates[2], "actix-web@4.4");
            assert_eq!(args.from, None, "from should be None");
            assert_eq!(args.parallel, None, "parallel should be None");
        }
        _ => panic!("Expected Batch command"),
    }
}

#[test]
fn cli_test_batch_with_single_crate() {
    let cli =
        Cli::try_parse_from(&["crately", "batch", "serde@1.0.0"]).expect("Failed to parse");
    match cli.command {
        Commands::Batch(args) => {
            assert_eq!(args.crates.len(), 1, "should have 1 crate specifier");
            assert_eq!(args.crates[0], "serde@1.0.0");
        }
        _ => panic!("Expected Batch command"),
    }
}

#[test]
fn cli_test_batch_with_from_flag() {
    let cli = Cli::try_parse_from(&["crately", "batch", "--from", "Cargo.toml"])
        .expect("Failed to parse");
    match cli.command {
        Commands::Batch(args) => {
            assert_eq!(args.crates.len(), 0, "crates should be empty");
            assert_eq!(
                args.from,
                Some("Cargo.toml".to_string()),
                "from should be Cargo.toml"
            );
            assert_eq!(args.parallel, None, "parallel should be None");
        }
        _ => panic!("Expected Batch command"),
    }
}

#[test]
fn cli_test_batch_with_parallel_flag() {
    let cli = Cli::try_parse_from(&["crately", "batch", "--parallel", "4", "serde@1.0.0"])
        .expect("Failed to parse");
    match cli.command {
        Commands::Batch(args) => {
            assert_eq!(args.crates.len(), 1);
            assert_eq!(args.parallel, Some(4), "parallel should be 4");
        }
        _ => panic!("Expected Batch command"),
    }
}

#[test]
fn cli_test_batch_with_from_and_parallel() {
    let cli = Cli::try_parse_from(&[
        "crately",
        "batch",
        "--from",
        "Cargo.toml",
        "--parallel",
        "8",
    ])
    .expect("Failed to parse");
    match cli.command {
        Commands::Batch(args) => {
            assert_eq!(
                args.from,
                Some("Cargo.toml".to_string()),
                "from should be Cargo.toml"
            );
            assert_eq!(args.parallel, Some(8), "parallel should be 8");
        }
        _ => panic!("Expected Batch command"),
    }
}

#[test]
fn test_batch_rejects_crates_and_from() {
    let result =
        Cli::try_parse_from(&["crately", "batch", "serde@1.0.0", "--from", "Cargo.toml"]);
    assert!(
        result.is_err(),
        "Batch should reject both crates and --from"
    );
}

#[test]
fn test_batch_allows_no_arguments() {
    let cli = Cli::try_parse_from(&["crately", "batch"]).expect("Failed to parse");
    match cli.command {
        Commands::Batch(args) => {
            assert_eq!(args.crates.len(), 0, "crates should be empty");
            assert_eq!(args.from, None, "from should be None");
            assert_eq!(args.parallel, None, "parallel should be None");
        }
        _ => panic!("Expected Batch command"),
    }
}

#[test]
fn cli_test_warm_with_popular_flag() {
    let cli = Cli::try_parse_from(&["crately", "warm", "--popular"]).expect("Failed to parse");
    match cli.command {
        Commands::Warm(args) => {
            assert!(args.popular, "popular should be true");
            assert_eq!(args.parallel, None, "parallel should be None");
        }
        _ => panic!("Expected Warm command"),
    }
}

#[test]
fn cli_test_warm_with_parallel_flag() {
    let cli =
        Cli::try_parse_from(&["crately", "warm", "--parallel", "6"]).expect("Failed to parse");
    match cli.command {
        Commands::Warm(args) => {
            assert!(!args.popular, "popular should be false");
            assert_eq!(args.parallel, Some(6), "parallel should be 6");
        }
        _ => panic!("Expected Warm command"),
    }
}

#[test]
fn cli_test_warm_with_both_flags() {
    let cli = Cli::try_parse_from(&["crately", "warm", "--popular", "--parallel", "12"])
        .expect("Failed to parse");
    match cli.command {
        Commands::Warm(args) => {
            assert!(args.popular, "popular should be true");
            assert_eq!(args.parallel, Some(12), "parallel should be 12");
        }
        _ => panic!("Expected Warm command"),
    }
}

#[test]
fn cli_test_warm_with_no_flags() {
    let cli = Cli::try_parse_from(&["crately", "warm"]).expect("Failed to parse");
    match cli.command {
        Commands::Warm(args) => {
            assert!(!args.popular, "popular should default to false");
            assert_eq!(args.parallel, None, "parallel should be None");
        }
        _ => panic!("Expected Warm command"),
    }
}

#[test]
fn test_batch_parallel_accepts_positive_numbers() {
    let cli = Cli::try_parse_from(&["crately", "batch", "--parallel", "100"])
        .expect("Failed to parse");
    match cli.command {
        Commands::Batch(args) => {
            assert_eq!(args.parallel, Some(100), "parallel should be 100");
        }
        _ => panic!("Expected Batch command"),
    }
}

#[test]
fn test_warm_parallel_accepts_positive_numbers() {
    let cli =
        Cli::try_parse_from(&["crately", "warm", "--parallel", "50"]).expect("Failed to parse");
    match cli.command {
        Commands::Warm(args) => {
            assert_eq!(args.parallel, Some(50), "parallel should be 50");
        }
        _ => panic!("Expected Warm command"),
    }
}

#[test]
fn test_cli_color_flag_default() {
    let cli = Cli::try_parse_from(&["crately", "serve"]).expect("Failed to parse");
    assert_eq!(
        cli.color,
        ColorChoice::Auto,
        "color should default to Auto"
    );
}

#[test]
fn test_cli_color_flag_always() {
    let cli =
        Cli::try_parse_from(&["crately", "--color", "always", "serve"]).expect("Failed to parse");
    assert_eq!(
        cli.color,
        ColorChoice::Always,
        "color should be Always when flag is set"
    );
}

#[test]
fn test_cli_color_flag_never() {
    let cli =
        Cli::try_parse_from(&["crately", "--color", "never", "serve"]).expect("Failed to parse");
    assert_eq!(
        cli.color,
        ColorChoice::Never,
        "color should be Never when flag is set"
    );
}

#[test]
fn test_cli_color_flag_auto() {
    let cli =
        Cli::try_parse_from(&["crately", "--color", "auto", "serve"]).expect("Failed to parse");
    assert_eq!(
        cli.color,
        ColorChoice::Auto,
        "color should be Auto when flag is set"
    );
}

#[test]
fn test_cli_color_flag_with_other_commands() {
    let cli = Cli::try_parse_from(&["crately", "--color", "never", "doctor"])
        .expect("Failed to parse");
    assert_eq!(
        cli.color,
        ColorChoice::Never,
        "color should work with any command"
    );
    match cli.command {
        Commands::Doctor(_) => {}
        _ => panic!("Expected Doctor command"),
    }
}

#[test]
fn test_cli_color_flag_case_insensitive() {
    let cli =
        Cli::try_parse_from(&["crately", "--color", "ALWAYS", "serve"]).expect("Failed to parse");
    assert_eq!(
        cli.color,
        ColorChoice::Always,
        "color flag should be case insensitive"
    );
}

#[test]
fn test_cli_color_flag_invalid_value() {
    let result = Cli::try_parse_from(&["crately", "--color", "invalid", "serve"]);
    assert!(result.is_err(), "Invalid color value should cause parse error");
}

#[test]
fn test_color_choice_from_str() {
    assert_eq!("always".parse::<ColorChoice>().unwrap(), ColorChoice::Always);
    assert_eq!("auto".parse::<ColorChoice>().unwrap(), ColorChoice::Auto);
    assert_eq!("never".parse::<ColorChoice>().unwrap(), ColorChoice::Never);
    assert_eq!("ALWAYS".parse::<ColorChoice>().unwrap(), ColorChoice::Always);
    assert!("invalid".parse::<ColorChoice>().is_err());
}
