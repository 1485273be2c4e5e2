use crately::actors::processor_actor::sorted_source_paths;
use crately::crate_specifier::Version;
use crately::precedence::path_ranks_below;

fn v(s: &str) -> Version {
    Version::parse(s).unwrap()
}

#[test]
fn semver_precedence_example_chain() {
    let chain = [
        "1.0.0-alpha",
        "1.0.0-alpha.1",
        "1.0.0-alpha.beta",
        "1.0.0-beta",
        "1.0.0-beta.2",
        "1.0.0-beta.11",
        "1.0.0-rc.1",
        "1.0.0",
        "1.0.1",
        "1.1.0",
        "2.0.0",
    ];
    for i in 0..chain.len() {
        for j in 0..chain.len() {
            assert_eq!(v(chain[i]).ranks_below(&v(chain[j])), i < j, "{} vs {}", chain[i], chain[j]);
        }
    }
}

#[test]
fn build_metadata_does_not_rank() {
    assert!(!v("1.0.0+a").ranks_below(&v("1.0.0+b")));
    assert!(!v("1.0.0+b").ranks_below(&v("1.0.0+a")));
    assert!(v("1.0.0-rc.1+z").ranks_below(&v("1.0.0+a")));
}

#[test]
fn paths_compare_component_by_component() {
    assert!(path_ranks_below("src/a/b.rs", "src/a-b.rs"));
    assert!(!path_ranks_below("src/a-b.rs", "src/a/b.rs"));
    assert!(path_ranks_below("src/lib.rs", "src/lib.rs/x"));
    assert!(!path_ranks_below("src/lib.rs", "src/lib.rs"));
}

#[test]
fn source_paths_are_sorted_by_component() {
    let paths = vec![
        "src/z.rs".to_string(),
        "src/a-b.rs".to_string(),
        "src/a/b.rs".to_string(),
        "src/lib.rs".to_string(),
    ];
    assert_eq!(
        sorted_source_paths(&paths),
        vec!["src/a/b.rs", "src/a-b.rs", "src/lib.rs", "src/z.rs"]
    );
}
