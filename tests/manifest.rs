use maturin_sdist::error::{SdistError, ToolOutput};
use maturin_sdist::manifest::{
    archive_steps, contains_target, plan_source_distribution, resolve_entries, resolve_manifest,
    split_lines, ArchiveStep, ManifestEntry,
};
use maturin_sdist::paths::join_path;

fn run(status: Option<i32>, stdout: &[u8]) -> ToolOutput {
    ToolOutput { status, stdout: stdout.to_vec(), stderr: b"warning: dirty".to_vec() }
}

fn entry(target: &str, source: &str) -> ManifestEntry {
    ManifestEntry { target: target.to_string(), source: source.to_string() }
}

#[test]
fn listing_resolves_against_manifest_directory() {
    let out = run(Some(0), b"pyproject.toml\nsrc/lib.rs\n");
    let entries = resolve_manifest(out, "/proj/Cargo.toml").unwrap();
    assert_eq!(
        entries,
        vec![entry("pyproject.toml", "/proj/pyproject.toml"), entry("src/lib.rs", "/proj/src/lib.rs")]
    );
}

#[test]
fn every_listed_path_becomes_an_entry() {
    let out = run(Some(0), b"Cargo.toml\r\nsrc/main.rs\npyproject.toml\nREADME.md");
    let entries = resolve_manifest(out, "work/pkg/Cargo.toml").unwrap();
    assert_eq!(
        entries,
        vec![
            entry("Cargo.toml", "work/pkg/Cargo.toml"),
            entry("src/main.rs", "work/pkg/src/main.rs"),
            entry("pyproject.toml", "work/pkg/pyproject.toml"),
            entry("README.md", "work/pkg/README.md"),
        ]
    );
}

#[test]
fn manifest_in_current_directory_keeps_relative_paths() {
    let out = run(Some(0), b"pyproject.toml\n");
    let entries = resolve_manifest(out, "Cargo.toml").unwrap();
    assert_eq!(entries, vec![entry("pyproject.toml", "pyproject.toml")]);
}

#[test]
fn listing_without_descriptor_is_refused() {
    let out = run(Some(0), b"Cargo.toml\nsrc/lib.rs\n");
    assert!(matches!(
        resolve_manifest(out, "/proj/Cargo.toml"),
        Err(SdistError::MissingBuildDescriptor)
    ));
}

#[test]
fn listing_without_descriptor_plans_no_writes() {
    let out = run(Some(0), b"Cargo.toml\nsub/pyproject.toml\n");
    assert!(matches!(
        plan_source_distribution(out, "/proj/Cargo.toml", "Name: x\n"),
        Err(SdistError::MissingBuildDescriptor)
    ));
}

#[test]
fn empty_listing_is_refused() {
    let out = run(Some(0), b"");
    assert!(matches!(
        resolve_manifest(out, "/proj/Cargo.toml"),
        Err(SdistError::MissingBuildDescriptor)
    ));
}

#[test]
fn failed_tool_run_is_an_execution_error() {
    for _ in 0..2 {
        let out = run(Some(101), b"pyproject.toml\n");
        match resolve_manifest(out.clone(), "/proj/Cargo.toml") {
            Err(SdistError::ToolExecution(got)) => assert_eq!(got, out),
            other => panic!("unexpected result: {:?}", other),
        }
    }
}

#[test]
fn tool_killed_by_signal_is_an_execution_error() {
    let out = run(None, b"pyproject.toml\n");
    assert!(matches!(
        resolve_manifest(out, "/proj/Cargo.toml"),
        Err(SdistError::ToolExecution(_))
    ));
}

#[test]
fn invalid_utf8_listing_is_an_encoding_error() {
    let out = run(Some(0), b"pyproject.toml\n\xff\xfe\n");
    assert!(matches!(resolve_manifest(out, "/proj/Cargo.toml"), Err(SdistError::Encoding)));
}

#[test]
fn manifest_without_parent_is_refused() {
    let out = run(Some(0), b"pyproject.toml\n");
    assert!(matches!(resolve_manifest(out, ""), Err(SdistError::NoManifestDirectory)));
    let out = run(Some(0), b"pyproject.toml\n");
    assert!(matches!(resolve_manifest(out, "/"), Err(SdistError::NoManifestDirectory)));
}

#[test]
fn resolving_twice_gives_identical_entries() {
    let bytes: &[u8] = "pyproject.toml\nsrc/lib.rs\ndata/é.txt\n".as_bytes();
    let first = resolve_manifest(run(Some(0), bytes), "/proj/Cargo.toml").unwrap();
    let second = resolve_manifest(run(Some(0), bytes), "/proj/Cargo.toml").unwrap();
    assert_eq!(first, second);
    assert_eq!(first[2], entry("data/é.txt", "/proj/data/é.txt"));
}

#[test]
fn lines_follow_str_lines() {
    assert_eq!(split_lines(""), Vec::<String>::new());
    assert_eq!(split_lines("\n"), vec![String::new()]);
    assert_eq!(split_lines("a\r\nb"), vec!["a".to_string(), "b".to_string()]);
    assert_eq!(split_lines("a\n\nb\n"), vec!["a".to_string(), String::new(), "b".to_string()]);
    assert_eq!(split_lines("a\r"), vec!["a\r".to_string()]);
    for text in ["x\ny\r\n", "one", "\r\n\r\n", "é\nü"] {
        let expected: Vec<String> = text.lines().map(|l| l.to_string()).collect();
        assert_eq!(split_lines(text), expected);
    }
}

#[test]
fn joining_follows_path_push() {
    assert_eq!(join_path("/proj", "src/lib.rs"), "/proj/src/lib.rs");
    assert_eq!(join_path("/proj/", "a"), "/proj/a");
    assert_eq!(join_path("/", "a"), "/a");
    assert_eq!(join_path("", "a"), "a");
    assert_eq!(join_path("/proj", "/etc/x"), "/etc/x");
    for (dir, rel) in [("/proj", "src/lib.rs"), ("a/b/", "c"), ("", "d"), ("/x", "/y")] {
        let expected = std::path::Path::new(dir).join(rel);
        assert_eq!(join_path(dir, rel), expected.to_str().unwrap());
    }
}

#[test]
fn resolve_entries_pairs_each_line() {
    let listing = vec!["pyproject.toml".to_string(), "src/lib.rs".to_string()];
    assert_eq!(
        resolve_entries(&listing, "/p"),
        vec![entry("pyproject.toml", "/p/pyproject.toml"), entry("src/lib.rs", "/p/src/lib.rs")]
    );
    assert_eq!(resolve_entries(&Vec::new(), "/p"), Vec::new());
}

#[test]
fn contains_target_compares_whole_paths() {
    let entries = vec![entry("sub/pyproject.toml", "/p/sub/pyproject.toml"), entry("pyproject.toml", "/p/pyproject.toml")];
    assert!(contains_target(&entries, "pyproject.toml"));
    assert!(!contains_target(&entries[..1].to_vec(), "pyproject.toml"));
    assert!(!contains_target(&Vec::new(), "pyproject.toml"));
}

#[test]
fn archive_steps_copy_entries_then_metadata() {
    let entries = vec![entry("pyproject.toml", "/p/pyproject.toml"), entry("src/lib.rs", "/p/src/lib.rs")];
    let steps = archive_steps(&entries, "Metadata-Version: 2.1\n");
    assert_eq!(
        steps,
        vec![
            ArchiveStep::AddFile(entries[0].clone()),
            ArchiveStep::AddFile(entries[1].clone()),
            ArchiveStep::AddText {
                name: "PKG-INFO".to_string(),
                contents: "Metadata-Version: 2.1\n".to_string(),
            },
        ]
    );
}

#[test]
fn plan_lists_files_and_metadata() {
    let out = run(Some(0), b"pyproject.toml\n");
    let steps = plan_source_distribution(out, "/proj/Cargo.toml", "Name: demo\n").unwrap();
    assert_eq!(
        steps,
        vec![
            ArchiveStep::AddFile(entry("pyproject.toml", "/proj/pyproject.toml")),
            ArchiveStep::AddText { name: "PKG-INFO".to_string(), contents: "Name: demo\n".to_string() },
        ]
    );
}
