use crately::cli::{
    BatchArgs, CacheArgs, CacheCommands, CleanArgs, ClearArgs, DoctorArgs, InitArgs, WarmArgs,
};
use crately::commands::{batch, cache, doctor, init, warm};

fn batch_args(crates: &[&str], from: Option<&str>, parallel: Option<usize>) -> BatchArgs {
    BatchArgs {
        crates: crates.iter().map(|s| s.to_string()).collect(),
        from: from.map(|s| s.to_string()),
        parallel,
    }
}

#[test]
fn batch_test_batch_with_single_crate() {
    let lines = batch::run(batch_args(&["serde@1.0.0"], None, None));
    assert!(lines.contains(&"Processing 1 crate(s):".to_string()));
    assert!(lines.contains(&"  - serde@1.0.0".to_string()));
    assert_eq!(lines.last().unwrap(), "Batch processing complete");
}

#[test]
fn batch_test_batch_with_multiple_crates() {
    let lines = batch::run(batch_args(&["serde@^1.0", "tokio@1.35", "actix-web@4.4"], None, None));
    assert!(lines.contains(&"Processing 3 crate(s):".to_string()));
    assert!(lines.contains(&"  - actix-web@4.4".to_string()));
}

#[test]
fn batch_test_batch_with_parallel_flag() {
    let lines = batch::run(batch_args(&["serde@1.0.0"], None, Some(4)));
    assert!(lines.contains(&"Would process with 4 parallel workers".to_string()));
}

#[test]
fn batch_test_batch_with_from_flag() {
    let lines = batch::run(batch_args(&[], Some("Cargo.toml"), None));
    assert!(lines.contains(&"Processing dependencies from: Cargo.toml".to_string()));
    assert!(lines.contains(&"Would use default parallelism based on system capabilities".to_string()));
}

#[test]
fn batch_test_batch_with_from_and_parallel() {
    let lines = batch::run(batch_args(&[], Some("Cargo.toml"), Some(8)));
    assert!(lines.contains(&"Would process with 8 parallel workers".to_string()));
}

#[test]
fn test_batch_with_no_arguments() {
    let lines = batch::run(batch_args(&[], None, None));
    assert!(lines.contains(&"Error: No crates specified and --from flag not provided".to_string()));
    assert_eq!(lines.last().unwrap(), "Batch processing complete");
}

#[test]
fn test_batch_with_many_crates() {
    let names: Vec<String> = (0..20).map(|i| format!("crate{}@1.0.0", i)).collect();
    let refs: Vec<&str> = names.iter().map(|s| s.as_str()).collect();
    let lines = batch::run(batch_args(&refs, None, Some(10)));
    assert!(lines.contains(&"Processing 20 crate(s):".to_string()));
    assert!(lines.contains(&"  - crate19@1.0.0".to_string()));
}

#[test]
fn test_batch_with_high_parallelism() {
    let lines = batch::run(batch_args(&["serde@1.0.0"], None, Some(128)));
    assert!(lines.contains(&"Would process with 128 parallel workers".to_string()));
}

#[test]
fn batch_from_takes_precedence_over_crates() {
    let lines = batch::run(batch_args(&["serde@1.0.0"], Some("Cargo.toml"), None));
    assert!(!lines.contains(&"  - serde@1.0.0".to_string()));
}

fn cache_args(command: CacheCommands, dry_run: bool, json: bool) -> CacheArgs {
    CacheArgs { command, dry_run, json }
}

#[test]
fn test_handle_list_default() {
    let lines = cache::handle_list(false, false);
    assert_eq!(lines.last().unwrap(), "No cached crates found");
}

#[test]
fn test_handle_list_dry_run() {
    let lines = cache::handle_list(true, false);
    assert_eq!(lines.last().unwrap(), "[DRY RUN] Would list all cached crates");
}

#[test]
fn test_handle_list_json() {
    let lines = cache::handle_list(false, true);
    assert_eq!(lines, vec![r#"{"cached_crates":[],"message":"List implementation pending"}"#]);
}

#[test]
fn test_handle_list_dry_run_json() {
    assert_eq!(cache::handle_list(true, true).len(), 1);
}

#[test]
fn test_handle_stats_default() {
    let lines = cache::handle_stats(false, false);
    assert!(lines.contains(&"Total cache size: 0 bytes".to_string()));
    assert_eq!(lines.last().unwrap(), "Total entries: 0");
}

#[test]
fn test_handle_stats_dry_run() {
    let lines = cache::handle_stats(true, false);
    assert_eq!(lines.last().unwrap(), "[DRY RUN] Would display cache statistics");
}

#[test]
fn test_handle_stats_json() {
    assert_eq!(
        cache::handle_stats(false, true),
        vec![r#"{"total_size":0,"entry_count":0,"message":"Stats implementation pending"}"#]
    );
}

#[test]
fn test_handle_stats_dry_run_json() {
    assert_eq!(cache::handle_stats(true, true).len(), 1);
}

fn clean(older_than: &str) -> CleanArgs {
    CleanArgs { older_than: older_than.to_string() }
}

#[test]
fn test_handle_clean_default() {
    let lines = cache::handle_clean(clean("30d"), false, false);
    assert_eq!(lines[0], "Cleaning cache entries older than: 30d");
    assert_eq!(lines.last().unwrap(), "Removed 0 cache entries");
}

#[test]
fn test_handle_clean_dry_run() {
    let lines = cache::handle_clean(clean("7d"), true, false);
    assert_eq!(lines.last().unwrap(), "[DRY RUN] Would remove 0 cache entries older than 7d");
}

#[test]
fn test_handle_clean_json() {
    assert_eq!(
        cache::handle_clean(clean("1y"), false, true),
        vec![r#"{"removed_count":0,"duration":"1y","message":"Clean implementation pending"}"#]
    );
}

#[test]
fn test_handle_clean_dry_run_json() {
    assert_eq!(cache::handle_clean(clean("6w"), true, true).len(), 1);
}

fn clear(spec: Option<&str>, all: bool) -> ClearArgs {
    ClearArgs { crate_spec: spec.map(|s| s.to_string()), all }
}

#[test]
fn test_handle_clear_specific_crate() {
    let lines = cache::handle_clear(clear(Some("serde@1.0.0"), false), false, false);
    assert_eq!(lines[0], "Clearing cache for: serde@1.0.0");
    assert_eq!(lines.last().unwrap(), "Cache for serde@1.0.0 not found");
}

#[test]
fn test_handle_clear_specific_crate_dry_run() {
    let lines = cache::handle_clear(clear(Some("serde@1.0.0"), false), true, false);
    assert_eq!(lines.last().unwrap(), "[DRY RUN] Would clear cache for serde@1.0.0");
}

#[test]
fn test_handle_clear_specific_crate_json() {
    assert_eq!(
        cache::handle_clear(clear(Some("serde@1.0.0"), false), false, true),
        vec![r#"{"cleared":"serde@1.0.0","message":"Clear specific implementation pending"}"#]
    );
}

#[test]
fn test_handle_clear_all() {
    let lines = cache::handle_clear(clear(None, true), false, false);
    assert_eq!(lines.last().unwrap(), "Cleared all cached data");
}

#[test]
fn test_handle_clear_all_dry_run() {
    let lines = cache::handle_clear(clear(None, true), true, false);
    assert_eq!(lines.last().unwrap(), "[DRY RUN] Would clear all cached data");
}

#[test]
fn test_handle_clear_all_json() {
    assert_eq!(
        cache::handle_clear(clear(None, true), false, true),
        vec![r#"{"cleared":"all","message":"Clear all implementation pending"}"#]
    );
}

#[test]
fn test_handle_clear_neither_crate_nor_all() {
    let lines = cache::handle_clear(clear(None, false), false, false);
    assert_eq!(
        lines[0],
        "Error: Must specify either a crate (e.g., serde@1.0.0) or use --all"
    );
}

#[test]
fn test_run_list_command() {
    let lines = cache::run(cache_args(CacheCommands::List, false, false));
    assert_eq!(lines[0], "Listing cached crates...");
}

#[test]
fn test_run_stats_command() {
    let lines = cache::run(cache_args(CacheCommands::Stats, false, false));
    assert_eq!(lines[0], "Cache statistics...");
}

#[test]
fn test_run_clean_command() {
    let lines = cache::run(cache_args(CacheCommands::Clean(clean("30d")), false, false));
    assert_eq!(lines[0], "Cleaning cache entries older than: 30d");
}

#[test]
fn test_run_clear_command() {
    let lines = cache::run(cache_args(CacheCommands::Clear(clear(None, true)), false, false));
    assert_eq!(lines[0], "Clearing all cached data...");
}

#[test]
fn test_run_with_dry_run_flag() {
    let lines = cache::run(cache_args(CacheCommands::List, true, false));
    assert_eq!(lines[0], "[DRY RUN MODE] No changes will be made");
    assert_eq!(lines[1], "");
    assert_eq!(lines[2], "Listing cached crates...");
}

#[test]
fn test_run_with_json_flag() {
    let lines = cache::run(cache_args(CacheCommands::Stats, false, true));
    assert_eq!(lines.len(), 1);
}

#[test]
fn test_run_with_both_flags() {
    let lines = cache::run(cache_args(CacheCommands::List, true, true));
    assert_eq!(lines.len(), 3);
    assert_eq!(lines[2], r#"{"cached_crates":[],"message":"List implementation pending"}"#);
}

#[test]
fn test_doctor_runs_without_flags() {
    let lines = doctor::run(DoctorArgs { verbose: false, fix: false });
    assert_eq!(lines[0], "Running system diagnostics...");
    assert!(!lines.contains(&"Verbose mode: enabled".to_string()));
    assert_eq!(lines.last().unwrap(), "Doctor diagnostics complete");
}

#[test]
fn test_doctor_runs_with_verbose() {
    let lines = doctor::run(DoctorArgs { verbose: true, fix: false });
    assert!(lines.contains(&"Verbose mode: enabled".to_string()));
}

#[test]
fn test_doctor_runs_with_fix() {
    let lines = doctor::run(DoctorArgs { verbose: false, fix: true });
    assert!(lines.contains(&"Auto-fix mode: enabled".to_string()));
    assert!(lines.contains(&"Auto-fix mode would attempt to resolve issues here".to_string()));
}

#[test]
fn test_doctor_runs_with_all_flags() {
    let lines = doctor::run(DoctorArgs { verbose: true, fix: true });
    assert_eq!(lines.len(), 14);
}

#[test]
fn test_init_runs_interactive_mode() {
    let lines = init::run(InitArgs { no_interactive: false });
    assert!(lines.contains(&"Interactive Setup Wizard".to_string()));
    assert!(lines.contains(&"Initialization complete!".to_string()));
}

#[test]
fn test_init_runs_non_interactive_mode() {
    let lines = init::run(InitArgs { no_interactive: true });
    assert!(lines.contains(&"Non-interactive mode: Using default configuration".to_string()));
    assert_eq!(
        lines.last().unwrap(),
        "  - Run 'crately serve' to start the server"
    );
}

#[test]
fn warm_test_warm_with_popular_flag() {
    let lines = warm::run(WarmArgs { popular: true, parallel: None });
    assert!(lines.contains(&"Pre-populating cache with popular crates".to_string()));
}

#[test]
fn warm_test_warm_with_parallel_flag() {
    let lines = warm::run(WarmArgs { popular: false, parallel: Some(4) });
    assert!(lines.contains(&"Would process with 4 parallel workers".to_string()));
}

#[test]
fn warm_test_warm_with_both_flags() {
    let lines = warm::run(WarmArgs { popular: true, parallel: Some(8) });
    assert!(lines.contains(&"Would process with 8 parallel workers".to_string()));
    assert!(lines.contains(&"    - serde, tokio, axum, clap".to_string()));
}

#[test]
fn warm_test_warm_with_no_flags() {
    let lines = warm::run(WarmArgs { popular: false, parallel: None });
    assert!(lines.contains(&"Warming cache with default configuration".to_string()));
    assert_eq!(lines.last().unwrap(), "Cache warming complete");
}

#[test]
fn test_warm_with_high_parallelism() {
    let lines = warm::run(WarmArgs { popular: true, parallel: Some(64) });
    assert!(lines.contains(&"Would process with 64 parallel workers".to_string()));
}

#[test]
fn test_warm_with_low_parallelism() {
    let lines = warm::run(WarmArgs { popular: false, parallel: Some(1) });
    assert!(lines.contains(&"Would process with 1 parallel workers".to_string()));
}

#[test]
fn test_warm_default_behavior() {
    let lines = warm::run(WarmArgs { popular: false, parallel: None });
    assert!(lines.contains(&"Would use default parallelism based on system capabilities".to_string()));
}
