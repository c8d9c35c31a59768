use std::collections::HashMap;

use rust_docs_mcp::cache::docgen::{parse_docs, unreadable_text, Artifact, GenerateRequest, MemberGeneration};
use rust_docs_mcp::cache::downloader::{
    expand_home, extract_source_params, parse_repository_hint, validate_source, AcquireRequest,
    CrateSource, RepositoryLocation, RepositoryRef, SourceKind,
};
use rust_docs_mcp::cache::error::{ambiguity_text, CacheError};
use rust_docs_mcp::cache::run::{
    BackupRequest, CacheReply, CacheRequest, CacheRun, CacheStep, MemberReport,
};
use rust_docs_mcp::cache::service::{CrateCache, DocsStep, SourceStep};
use rust_docs_mcp::cache::storage::{CacheStorage, SourceTree};
use rust_docs_mcp::cache::tools::{
    CacheCrateFromCratesIOParams, CacheCrateFromGitHubParams, CacheCrateFromLocalParams,
};
use rust_docs_mcp::cache::transaction::{CacheTransaction, TransactionError, TransactionState};
use rust_docs_mcp::cache::utils::CacheResponse;
use rust_docs_mcp::cache::workspace::{ManifestReport, WorkspaceHandler};

fn docs(version: &str) -> rustdoc_types::Crate {
    rustdoc_types::Crate {
        root: rustdoc_types::Id(0),
        crate_version: Some(version.to_string()),
        includes_private: false,
        index: HashMap::new(),
        paths: HashMap::new(),
        external_crates: HashMap::new(),
        target: rustdoc_types::Target {
            triple: "x86_64-unknown-linux-gnu".to_string(),
            target_features: vec![],
        },
        format_version: rustdoc_types::FORMAT_VERSION,
    }
}

fn docs_text(version: &str) -> String {
    serde_json::to_string(&docs(version)).unwrap()
}

fn artifact(version: &str) -> Artifact {
    Artifact::read(docs_text(version))
}

fn raw(text: &str) -> Artifact {
    Artifact::read(text.to_string())
}

fn tree() -> SourceTree {
    SourceTree { size_bytes: 2048, cached_at: 1_700_000_000 }
}

fn cache() -> CrateCache {
    CrateCache::new(Some("/cache".to_string()), None).unwrap()
}

fn registry(name: &str, version: &str, members: Option<Vec<String>>, update: Option<bool>) -> CrateSource {
    CrateSource::CratesIO(CacheCrateFromCratesIOParams {
        crate_name: name.to_string(),
        version: version.to_string(),
        members,
        update,
    })
}

fn github(branch: Option<&str>, tag: Option<&str>) -> CrateSource {
    CrateSource::GitHub(CacheCrateFromGitHubParams {
        crate_name: "gamma".to_string(),
        github_url: "https://github.com/acme/gamma".to_string(),
        branch: branch.map(|b| b.to_string()),
        tag: tag.map(|t| t.to_string()),
        members: None,
        update: None,
    })
}

fn package_manifest() -> ManifestReport {
    ManifestReport { exists: true, is_workspace: Ok(false), members: Ok(vec![]) }
}

fn workspace_manifest(members: &[&str]) -> ManifestReport {
    ManifestReport {
        exists: true,
        is_workspace: Ok(true),
        members: Ok(members.iter().map(|m| m.to_string()).collect()),
    }
}

fn asked(step: CacheStep) -> (CacheRun, CacheRequest) {
    match step {
        CacheStep::Ask(run, request) => (run, request),
        CacheStep::Done(response) => panic!("the request ended early: {:?}", response),
    }
}

fn done(step: CacheStep) -> CacheResponse {
    match step {
        CacheStep::Done(response) => response,
        CacheStep::Ask(_, request) => panic!("the request goes on: {:?}", request),
    }
}

fn backup(name: &str, version: &str) -> BackupRequest {
    BackupRequest {
        name: name.to_string(),
        version: version.to_string(),
        entry: format!("/cache/crates/{}/{}", name, version),
        backup: format!("/cache/backups/{}/{}", name, version),
    }
}

fn acquire(name: &str, version: &str, source: Option<&str>, kind: SourceKind) -> AcquireRequest {
    AcquireRequest {
        name: name.to_string(),
        version: version.to_string(),
        source: source.map(|s| s.to_string()),
        kind,
        destination: format!("/cache/crates/{}/{}/source", name, version),
    }
}

fn generate(name: &str, version: &str, member: Option<&str>, member_name: Option<&str>) -> GenerateRequest {
    GenerateRequest {
        name: name.to_string(),
        version: version.to_string(),
        source_dir: format!("/cache/crates/{}/{}/source", name, version),
        member: member.map(|m| m.to_string()),
        output: match member_name {
            Some(m) => format!("/cache/crates/{}/{}/members/{}/docs.json", name, version, m),
            None => format!("/cache/crates/{}/{}/docs.json", name, version),
        },
    }
}

/// Caches a package with its documentation, by the steps of a request.
fn cache_package(cache: &mut CrateCache, name: &str, version: &str, text: &str) {
    let (run, _) = asked(cache.cache_crate_with_source(registry(name, version, None, None)));
    let (run, _) = asked(cache.resume(run, CacheReply::Acquired(Ok(tree()))));
    let (run, _) = asked(cache.resume(run, CacheReply::Inspected(package_manifest())));
    let response = done(cache.resume(run, CacheReply::Generated(Ok(raw(text)))));
    assert_eq!(
        response,
        CacheResponse::Success { crate_name: name.to_string(), version: version.to_string() }
    );
}

#[test]
fn new_cache_roots() {
    let cache = CrateCache::new(Some("/data/cache".to_string()), Some("/home/u".to_string())).unwrap();
    assert_eq!(cache.get_source_path("a", "1"), "/data/cache/crates/a/1/source");
    let cache = CrateCache::new(None, Some("/home/u".to_string())).unwrap();
    assert_eq!(cache.get_source_path("a", "1"), "/home/u/.rust-docs-mcp/cache/crates/a/1/source");
    assert!(cache.list_all_cached_crates().is_empty());
    match CrateCache::new(None, None) {
        Err(e) => {
            assert_eq!(e, CacheError::NoCacheDir);
            assert_eq!(e.message(), "Could not determine the cache directory");
        },
        Ok(_) => panic!("a cache without a directory"),
    }
}

#[test]
fn layout_is_a_function_of_the_key() {
    let storage = CacheStorage::new("/c".to_string());
    assert_eq!(storage.cache_dir(), "/c");
    assert_eq!(storage.crate_path("serde", "1.0.0"), "/c/crates/serde/1.0.0");
    assert_eq!(storage.source_path("serde", "1.0.0"), "/c/crates/serde/1.0.0/source");
    assert_eq!(storage.docs_path("serde", "1.0.0"), "/c/crates/serde/1.0.0/docs.json");
    assert_eq!(
        storage.member_docs_path("serde", "1.0.0", "serde_derive"),
        "/c/crates/serde/1.0.0/members/serde_derive/docs.json"
    );
    assert_eq!(storage.backup_path("serde", "1.0.0"), "/c/backups/serde/1.0.0");
    // Nothing has to be cached for a path to be given.
    assert!(!storage.is_cached("serde", "1.0.0"));
}

#[test]
fn storage_keeps_entries_apart() {
    let mut storage = CacheStorage::new("/c".to_string());
    storage.store_source("a", "1", SourceTree { size_bytes: 1, cached_at: 10 });
    storage.store_source("a", "2", SourceTree { size_bytes: 2, cached_at: 20 });
    storage.store_source("b", "1", SourceTree { size_bytes: 3, cached_at: 30 });
    // A second tree for a cached key is not taken.
    storage.store_source("a", "1", SourceTree { size_bytes: 9, cached_at: 90 });
    storage.store_docs("a", "2", Some(raw("two")));
    storage.store_member_docs("b", "1", "m", Some(raw("member")));
    // Artifacts need a cached source.
    storage.store_docs("z", "1", Some(raw("lost")));
    storage.store_member_docs("z", "1", "m", Some(raw("lost")));

    assert!(storage.is_cached("a", "1") && storage.is_cached("a", "2") && storage.is_cached("b", "1"));
    assert!(!storage.is_cached("z", "1"));
    assert!(!storage.has_docs("z", "1"));
    assert!(!storage.has_member_docs("z", "1", "m"));
    assert!(!storage.has_docs("a", "1"));
    assert!(storage.has_docs("a", "2"));
    assert_eq!(storage.docs("a", "2").map(|a| a.text()), Some("two"));
    assert_eq!(storage.docs("a", "1"), None);
    assert!(storage.has_member_docs("b", "1", "m"));
    assert!(!storage.has_member_docs("b", "1", "n"));
    assert!(!storage.has_member_docs("a", "1", "m"));
    assert_eq!(storage.member_docs("b", "1", "m").map(|a| a.text()), Some("member"));

    let mut listed: Vec<(String, String, u64, u64)> = storage
        .list_cached_crates()
        .into_iter()
        .map(|m| (m.name, m.version, m.size_bytes, m.cached_at))
        .collect();
    listed.sort();
    assert_eq!(
        listed,
        vec![
            ("a".to_string(), "1".to_string(), 1, 10),
            ("a".to_string(), "2".to_string(), 2, 20),
            ("b".to_string(), "1".to_string(), 3, 30),
        ]
    );

    storage.store_docs("a", "2", None);
    assert!(!storage.has_docs("a", "2"));
    storage.store_member_docs("b", "1", "m", Some(raw("again")));
    assert_eq!(storage.member_docs("b", "1", "m").map(|a| a.text()), Some("again"));
    storage.store_member_docs("b", "1", "m", None);
    assert!(!storage.has_member_docs("b", "1", "m"));
}

#[test]
fn remove_after_caching_leaves_nothing() {
    let mut cache = cache();
    cache_package(&mut cache, "alpha", "1.0.0", &docs_text("1.0.0"));
    cache_package(&mut cache, "beta", "2.0.0", &docs_text("2.0.0"));
    cache
        .generate_workspace_member_docs(
            "alpha",
            "1.0.0",
            "crates/core",
            MemberGeneration::Generated(artifact("1.0.0")),
        )
        .unwrap();
    assert!(cache.storage().is_cached("alpha", "1.0.0"));
    assert!(cache.storage().has_docs("alpha", "1.0.0"));
    assert!(cache.storage().has_member_docs("alpha", "1.0.0", "core"));

    assert_eq!(cache.remove_crate("alpha", "1.0.0"), Ok(()));

    assert!(!cache.storage().is_cached("alpha", "1.0.0"));
    assert!(!cache.storage().has_docs("alpha", "1.0.0"));
    assert!(!cache.storage().has_member_docs("alpha", "1.0.0", "core"));
    assert!(cache.storage().has_docs("beta", "2.0.0"));
    assert_eq!(cache.get_cached_versions("alpha"), Vec::<String>::new());
}

#[test]
fn remove_of_absent_key_is_not_found() {
    let mut cache = cache();
    cache_package(&mut cache, "alpha", "1.0.0", &docs_text("1.0.0"));
    let r = cache.remove_crate("alpha", "9.9.9");
    assert_eq!(
        r,
        Err(CacheError::NotFound { name: "alpha".to_string(), version: "9.9.9".to_string() })
    );
    assert_eq!(r.unwrap_err().message(), "Nothing is cached for alpha-9.9.9");
    assert!(cache.storage().has_docs("alpha", "1.0.0"));
    assert_eq!(cache.remove_crate("alpha", "1.0.0"), Ok(()));
    assert!(cache.remove_crate("alpha", "1.0.0").is_err());
}

#[test]
fn cached_versions_of_a_package() {
    let mut cache = cache();
    cache.download_or_copy_crate("alpha", "1.0.0", Ok(tree())).unwrap();
    cache.download_or_copy_crate("beta", "0.1.0", Ok(tree())).unwrap();
    cache.download_or_copy_crate("alpha", "1.1.0", Ok(tree())).unwrap();
    let mut versions = cache.get_cached_versions("alpha");
    versions.sort();
    assert_eq!(versions, vec!["1.0.0".to_string(), "1.1.0".to_string()]);
    assert_eq!(cache.get_cached_versions("beta"), vec!["0.1.0".to_string()]);
    assert!(cache.get_cached_versions("gamma").is_empty());
    assert_eq!(cache.list_all_cached_crates().len(), 3);
}

#[test]
fn ensure_docs_acquires_then_generates_then_loads() {
    let mut cache = cache();
    assert_eq!(
        cache.ensure_crate_docs("alpha", "1.0.0", None),
        DocsStep::Acquire(acquire("alpha", "1.0.0", None, SourceKind::Registry))
    );
    assert_eq!(
        cache.download_or_copy_crate("alpha", "1.0.0", Ok(tree())),
        Ok("/cache/crates/alpha/1.0.0/source".to_string())
    );
    assert_eq!(
        cache.ensure_crate_docs("alpha", "1.0.0", None),
        DocsStep::Generate(generate("alpha", "1.0.0", None, None))
    );
    assert_eq!(
        cache.generate_docs("alpha", "1.0.0", Ok(artifact("1.0.0"))),
        Ok("/cache/crates/alpha/1.0.0/docs.json".to_string())
    );
    assert_eq!(cache.ensure_crate_docs("alpha", "1.0.0", None), DocsStep::Ready(docs("1.0.0")));
}

#[test]
fn ensure_docs_twice_is_a_pure_cache_hit() {
    let mut cache = cache();
    cache_package(&mut cache, "alpha", "1.0.0", &docs_text("1.0.0"));
    let first = cache.ensure_crate_docs("alpha", "1.0.0", None);
    let second = cache.ensure_crate_docs("alpha", "1.0.0", Some("https://github.com/acme/alpha"));
    assert_eq!(first, DocsStep::Ready(docs("1.0.0")));
    assert_eq!(first, second);
    assert_eq!(cache.load_docs("alpha", "1.0.0"), Ok(docs("1.0.0")));
}

#[test]
fn acquisition_failure_is_reported_and_changes_nothing() {
    let mut cache = cache();
    assert_eq!(
        cache.download_or_copy_crate("alpha", "1.0.0", Err("no such version".to_string())),
        Err(CacheError::Acquisition("no such version".to_string()))
    );
    assert!(!cache.storage().is_cached("alpha", "1.0.0"));
    // A cached key short-circuits, whatever the outcome says.
    cache.download_or_copy_crate("alpha", "1.0.0", Ok(tree())).unwrap();
    assert_eq!(
        cache.download_or_copy_crate("alpha", "1.0.0", Err("offline".to_string())),
        Ok("/cache/crates/alpha/1.0.0/source".to_string())
    );
    let listed = cache.list_all_cached_crates();
    assert_eq!(listed.len(), 1);
    assert_eq!(listed[0].size_bytes, 2048);
    assert_eq!(listed[0].cached_at, 1_700_000_000);
}

#[test]
fn generation_needs_the_source() {
    let mut cache = cache();
    let r = cache.generate_docs("alpha", "1.0.0", Ok(artifact("1.0.0")));
    assert_eq!(
        r,
        Err(CacheError::Precondition { name: "alpha".to_string(), version: "1.0.0".to_string() })
    );
    assert_eq!(r.unwrap_err().message(), "Source of alpha-1.0.0 is not cached");
    assert!(!cache.storage().has_docs("alpha", "1.0.0"));
    assert!(!cache.storage().is_cached("alpha", "1.0.0"));
    let r = cache.generate_workspace_member_docs(
        "alpha",
        "1.0.0",
        "crates/core",
        MemberGeneration::Generated(artifact("1.0.0")),
    );
    assert_eq!(
        r,
        Err(CacheError::Precondition { name: "alpha".to_string(), version: "1.0.0".to_string() })
    );
}

#[test]
fn generation_failure_leaves_no_artifact() {
    let mut cache = cache();
    cache.download_or_copy_crate("alpha", "1.0.0", Ok(tree())).unwrap();
    assert_eq!(
        cache.generate_docs("alpha", "1.0.0", Err("rustdoc crashed".to_string())),
        Err(CacheError::Generation("rustdoc crashed".to_string()))
    );
    assert!(!cache.storage().has_docs("alpha", "1.0.0"));
    assert_eq!(
        cache.load_docs("alpha", "1.0.0"),
        Err(CacheError::NotFound { name: "alpha".to_string(), version: "1.0.0".to_string() })
    );
    cache.generate_docs("alpha", "1.0.0", Ok(artifact("1.0.0"))).unwrap();
    assert!(cache.storage().has_docs("alpha", "1.0.0"));
    // A failed regeneration does not leave the old artifact to be loaded.
    assert!(cache.generate_docs("alpha", "1.0.0", Err("again".to_string())).is_err());
    assert!(!cache.storage().has_docs("alpha", "1.0.0"));
    assert!(cache.storage().is_cached("alpha", "1.0.0"));
}

#[test]
fn member_generation_outcomes() {
    let mut cache = cache();
    cache.download_or_copy_crate("ws", "1.0.0", Ok(tree())).unwrap();
    let r = cache.generate_workspace_member_docs(
        "ws",
        "1.0.0",
        "crates/missing",
        MemberGeneration::ManifestMissing,
    );
    assert_eq!(
        r,
        Err(CacheError::MemberNotFound {
            member: "crates/missing".to_string(),
            name: "ws".to_string(),
            version: "1.0.0".to_string(),
        })
    );
    assert_eq!(
        r.unwrap_err().message(),
        "Workspace member 'crates/missing' not found in ws-1.0.0. Make sure the member path is correct."
    );
    assert_eq!(
        cache.generate_workspace_member_docs(
            "ws",
            "1.0.0",
            "crates/core",
            MemberGeneration::Failed("tool failed".to_string()),
        ),
        Err(CacheError::Generation("tool failed".to_string()))
    );
    assert!(!cache.storage().has_member_docs("ws", "1.0.0", "core"));
    assert_eq!(
        cache.generate_workspace_member_docs(
            "ws",
            "1.0.0",
            "crates/core",
            MemberGeneration::Generated(artifact("core")),
        ),
        Ok("/cache/crates/ws/1.0.0/members/core/docs.json".to_string())
    );
    assert!(cache.storage().has_member_docs("ws", "1.0.0", "core"));
    assert!(!cache.storage().has_docs("ws", "1.0.0"));
    assert_eq!(cache.load_member_docs("ws", "1.0.0", "core"), Ok(docs("core")));
    assert_eq!(
        cache.load_member_docs("ws", "1.0.0", "other"),
        Err(CacheError::NotFound { name: "ws".to_string(), version: "1.0.0".to_string() })
    );
}

#[test]
fn unreadable_artifacts_fail_to_deserialize() {
    let mut cache = cache();
    cache.download_or_copy_crate("alpha", "1.0.0", Ok(tree())).unwrap();
    cache.generate_docs("alpha", "1.0.0", Ok(raw("{ not json"))).unwrap();
    match cache.load_docs("alpha", "1.0.0") {
        Err(CacheError::Deserialization(message)) => {
            assert!(message.starts_with("Failed to parse documentation JSON: "));
            assert!(message.len() > "Failed to parse documentation JSON: ".len());
            assert_ne!(message, "Failed to parse documentation JSON: { not json");
        },
        other => panic!("expected a deserialization error, got {:?}", other),
    }
    // JSON, but not the documentation of a package.
    cache.generate_docs("alpha", "1.0.0", Ok(raw("{\"root\": 0}"))).unwrap();
    match cache.ensure_crate_docs("alpha", "1.0.0", None) {
        DocsStep::Failed(CacheError::Deserialization(message)) => {
            assert!(message.starts_with("Failed to parse documentation JSON: "));
            assert!(message.contains("missing field"));
        },
        other => panic!("expected a deserialization error, got {:?}", other),
    }
}

#[test]
fn parse_docs_reads_what_was_written() {
    assert_eq!(parse_docs(&docs_text("3.2.1")), Ok(docs("3.2.1")));
    let parsed = parse_docs(&docs_text("3.2.1")).unwrap();
    assert_eq!(parsed.crate_version, Some("3.2.1".to_string()));
    assert_eq!(parsed.format_version, rustdoc_types::FORMAT_VERSION);
    assert!(parse_docs("").is_err());
    assert!(parse_docs("[1, 2]").is_err());
}

#[test]
fn ensure_member_docs_steps() {
    let mut cache = cache();
    assert_eq!(
        cache.ensure_workspace_member_docs("ws", "1.0.0", Some("/src/ws"), "crates/core"),
        DocsStep::Acquire(acquire("ws", "1.0.0", Some("/src/ws"), SourceKind::Local))
    );
    cache.download_or_copy_crate("ws", "1.0.0", Ok(tree())).unwrap();
    assert_eq!(
        cache.ensure_workspace_member_docs("ws", "1.0.0", Some("/src/ws"), "crates/core"),
        DocsStep::Generate(generate("ws", "1.0.0", Some("crates/core"), Some("core")))
    );
    cache
        .generate_workspace_member_docs(
            "ws",
            "1.0.0",
            "crates/core",
            MemberGeneration::Generated(artifact("core")),
        )
        .unwrap();
    assert_eq!(
        cache.ensure_workspace_member_docs("ws", "1.0.0", None, "crates/core"),
        DocsStep::Ready(docs("core"))
    );
    // The artifact is stored under the member's name, whatever leads to it.
    assert_eq!(
        cache.ensure_workspace_member_docs("ws", "1.0.0", None, "core"),
        DocsStep::Ready(docs("core"))
    );
}

#[test]
fn ensure_crate_or_member_docs_refuses_to_guess() {
    let mut cache = cache();
    let workspace = workspace_manifest(&["crates/a", "crates/b"]);
    // Not cached: nothing is known of the source yet.
    assert_eq!(
        cache.ensure_crate_or_member_docs("ws", "1.0.0", None, &workspace),
        DocsStep::Acquire(acquire("ws", "1.0.0", None, SourceKind::Registry))
    );
    cache.download_or_copy_crate("ws", "1.0.0", Ok(tree())).unwrap();
    let step = cache.ensure_crate_or_member_docs("ws", "1.0.0", None, &workspace);
    assert_eq!(
        step,
        DocsStep::Failed(CacheError::AmbiguousWorkspace {
            members: vec!["crates/a".to_string(), "crates/b".to_string()],
        })
    );
    match step {
        DocsStep::Failed(e) => assert_eq!(
            e.message(),
            "This is a workspace crate. Please specify a member using the 'member' parameter.\nAvailable members: [\"crates/a\", \"crates/b\"]\nExample: specify member=\"crates/a\""
        ),
        _ => unreachable!(),
    }
    assert_eq!(
        CacheError::AmbiguousWorkspace { members: vec![] }.message(),
        "This is a workspace crate. Please specify a member using the 'member' parameter.\nAvailable members: []\nExample: specify member=\"crates/example\""
    );
    // With a member named, the member's documentation is what is sought.
    assert_eq!(
        cache.ensure_crate_or_member_docs("ws", "1.0.0", Some("crates/a"), &workspace),
        DocsStep::Generate(generate("ws", "1.0.0", Some("crates/a"), Some("a")))
    );
    // An ordinary package, or a manifest that is not there, goes the usual way.
    assert_eq!(
        cache.ensure_crate_or_member_docs("ws", "1.0.0", None, &package_manifest()),
        DocsStep::Generate(generate("ws", "1.0.0", None, None))
    );
    let missing = ManifestReport {
        exists: false,
        is_workspace: Err("no such file".to_string()),
        members: Err("no such file".to_string()),
    };
    assert_eq!(
        cache.ensure_crate_or_member_docs("ws", "1.0.0", None, &missing),
        DocsStep::Generate(generate("ws", "1.0.0", None, None))
    );
    let unreadable = ManifestReport {
        exists: true,
        is_workspace: Err("bad toml".to_string()),
        members: Ok(vec![]),
    };
    assert_eq!(
        cache.ensure_crate_or_member_docs("ws", "1.0.0", None, &unreadable),
        DocsStep::Failed(CacheError::Parse("bad toml".to_string()))
    );
    let unlisted = ManifestReport {
        exists: true,
        is_workspace: Ok(true),
        members: Err("bad glob".to_string()),
    };
    assert_eq!(
        cache.ensure_crate_or_member_docs("ws", "1.0.0", None, &unlisted),
        DocsStep::Failed(CacheError::Parse("bad glob".to_string()))
    );
}

#[test]
fn ensure_source_steps() {
    let mut cache = cache();
    assert_eq!(
        cache.ensure_crate_source("alpha", "1.0.0", Some("https://github.com/acme/alpha#tag:v1")),
        SourceStep::Acquire(acquire(
            "alpha",
            "1.0.0",
            Some("https://github.com/acme/alpha#tag:v1"),
            SourceKind::Repository
        ))
    );
    cache.download_or_copy_crate("alpha", "1.0.0", Ok(tree())).unwrap();
    assert_eq!(
        cache.ensure_crate_source("alpha", "1.0.0", None),
        SourceStep::Ready("/cache/crates/alpha/1.0.0/source".to_string())
    );
    let package = package_manifest();
    let workspace = workspace_manifest(&["crates/a"]);
    assert_eq!(
        cache.ensure_crate_or_member_source("beta", "1.0.0", None, None, &package, false),
        SourceStep::Acquire(acquire("beta", "1.0.0", None, SourceKind::Registry))
    );
    assert_eq!(
        cache.ensure_crate_or_member_source("alpha", "1.0.0", None, None, &package, false),
        SourceStep::Ready("/cache/crates/alpha/1.0.0/source".to_string())
    );
    assert_eq!(
        cache.ensure_crate_or_member_source("alpha", "1.0.0", Some("crates/a"), None, &workspace, true),
        SourceStep::Ready("/cache/crates/alpha/1.0.0/source/crates/a".to_string())
    );
    assert_eq!(
        cache.ensure_crate_or_member_source("alpha", "1.0.0", Some("crates/x"), None, &workspace, false),
        SourceStep::Failed(CacheError::MemberNotFound {
            member: "crates/x".to_string(),
            name: "alpha".to_string(),
            version: "1.0.0".to_string(),
        })
    );
    assert_eq!(
        cache.ensure_crate_or_member_source("alpha", "1.0.0", None, None, &workspace, false),
        SourceStep::Failed(CacheError::AmbiguousWorkspace { members: vec!["crates/a".to_string()] })
    );
}

#[test]
fn source_kinds() {
    assert_eq!(SourceKind::detect(None), SourceKind::Registry);
    assert_eq!(SourceKind::detect(Some("https://github.com/a/b")), SourceKind::Repository);
    assert_eq!(SourceKind::detect(Some("http://example.org/r#branch:main")), SourceKind::Repository);
    assert_eq!(SourceKind::detect(Some("/home/u/project")), SourceKind::Local);
    assert_eq!(SourceKind::detect(Some("~/project")), SourceKind::Local);
    assert_eq!(SourceKind::detect(Some("http:/")), SourceKind::Local);
    assert_eq!(SourceKind::detect(Some("")), SourceKind::Local);
}

#[test]
fn member_names() {
    assert_eq!(WorkspaceHandler::extract_member_name("crates/rmcp"), "rmcp");
    assert_eq!(WorkspaceHandler::extract_member_name("rmcp"), "rmcp");
    assert_eq!(WorkspaceHandler::extract_member_name("a/b/c"), "c");
    assert_eq!(WorkspaceHandler::extract_member_name("crates/rmcp/"), "");
    assert_eq!(WorkspaceHandler::extract_member_name(""), "");
    assert_eq!(WorkspaceHandler::extract_member_name("crates/börse"), "börse");
}

#[test]
fn source_params_of_each_kind() {
    let cache = cache();
    let members = Some(vec!["crates/a".to_string()]);
    assert_eq!(
        cache.extract_source_params(&registry("alpha", "1.0.0", members.clone(), Some(true))),
        ("alpha".to_string(), "1.0.0".to_string(), members, None, true)
    );
    assert_eq!(
        cache.extract_source_params(&github(Some("main"), None)),
        (
            "gamma".to_string(),
            "main".to_string(),
            None,
            Some("https://github.com/acme/gamma#branch:main".to_string()),
            false
        )
    );
    assert_eq!(
        cache.extract_source_params(&github(None, Some("v1.2"))),
        (
            "gamma".to_string(),
            "v1.2".to_string(),
            None,
            Some("https://github.com/acme/gamma#tag:v1.2".to_string()),
            false
        )
    );
    assert_eq!(
        extract_source_params(&github(None, None)),
        ("gamma".to_string(), String::new(), None, Some("https://github.com/acme/gamma".to_string()), false)
    );
    let local = CrateSource::LocalPath(CacheCrateFromLocalParams {
        crate_name: "delta".to_string(),
        version: "0.3.0".to_string(),
        path: "~/work/delta".to_string(),
        members: None,
        update: Some(false),
    });
    assert_eq!(
        cache.extract_source_params(&local),
        ("delta".to_string(), "0.3.0".to_string(), None, Some("~/work/delta".to_string()), false)
    );
}

#[test]
fn workspace_response_names_the_source_kind() {
    let cache = cache();
    let members = vec!["crates/a".to_string(), "crates/b".to_string()];
    let response = cache.generate_workspace_response(
        "ws",
        "1.0.0",
        members.clone(),
        &github(Some("main"), None),
        true,
    );
    assert_eq!(
        response,
        CacheResponse::WorkspaceDetected {
            crate_name: "ws".to_string(),
            version: "1.0.0".to_string(),
            members: members.clone(),
            source_type: "github".to_string(),
            updated: true,
        }
    );
    assert_eq!(response.status(), "workspace_detected");
    match cache.generate_workspace_response("ws", "1", vec![], &registry("ws", "1", None, None), false) {
        CacheResponse::WorkspaceDetected { source_type, updated, .. } => {
            assert_eq!(source_type, "cratesio");
            assert!(!updated);
        },
        other => panic!("unexpected response {:?}", other),
    }
    let local = CrateSource::LocalPath(CacheCrateFromLocalParams {
        crate_name: "ws".to_string(),
        version: "1".to_string(),
        path: ".".to_string(),
        members: None,
        update: None,
    });
    match cache.generate_workspace_response("ws", "1", vec![], &local, false) {
        CacheResponse::WorkspaceDetected { source_type, .. } => assert_eq!(source_type, "local"),
        other => panic!("unexpected response {:?}", other),
    }
}

#[test]
fn response_builders_and_status_tags() {
    assert_eq!(CacheResponse::success("a", "1").status(), "success");
    assert_eq!(
        CacheResponse::success_updated("a", "1"),
        CacheResponse::SuccessUpdated { crate_name: "a".to_string(), version: "1".to_string() }
    );
    assert_eq!(CacheResponse::success_updated("a", "1").status(), "success");
    assert_eq!(
        CacheResponse::members_success("a", "1", vec!["m".to_string()], vec!["ok".to_string()], false)
            .status(),
        "success"
    );
    assert_eq!(
        CacheResponse::members_partial("a", "1", vec![], vec![], vec!["bad".to_string()], true).status(),
        "partial_success"
    );
    assert_eq!(CacheResponse::workspace_detected("a", "1", vec![], "local", false).status(), "workspace_detected");
    assert_eq!(
        CacheResponse::error("boom".to_string()),
        CacheResponse::Error { message: "boom".to_string() }
    );
    assert_eq!(CacheResponse::error("boom".to_string()).status(), "error");
}

#[test]
fn caching_alpha_from_the_registry() {
    let mut cache = cache();
    let (run, request) = asked(cache.cache_crate_with_source(registry("alpha", "1.0.0", None, None)));
    assert_eq!(request, CacheRequest::Acquire(acquire("alpha", "1.0.0", None, SourceKind::Registry)));
    let (run, request) = asked(cache.resume(run, CacheReply::Acquired(Ok(tree()))));
    assert_eq!(
        request,
        CacheRequest::Inspect { manifest_path: "/cache/crates/alpha/1.0.0/source/Cargo.toml".to_string() }
    );
    assert!(cache.storage().is_cached("alpha", "1.0.0"));
    let (run, request) = asked(cache.resume(run, CacheReply::Inspected(package_manifest())));
    assert_eq!(request, CacheRequest::Generate(generate("alpha", "1.0.0", None, None)));
    let response = done(cache.resume(run, CacheReply::Generated(Ok(artifact("1.0.0")))));
    assert_eq!(
        response,
        CacheResponse::Success { crate_name: "alpha".to_string(), version: "1.0.0".to_string() }
    );
    assert!(cache.storage().has_docs("alpha", "1.0.0"));
}

#[test]
fn caching_what_is_cached_asks_for_nothing_new() {
    let mut cache = cache();
    cache_package(&mut cache, "alpha", "1.0.0", &docs_text("1.0.0"));
    // The source is cached: it is only inspected, and the stored artifact is read back.
    let (run, request) = asked(cache.cache_crate_with_source(registry("alpha", "1.0.0", None, None)));
    assert_eq!(
        request,
        CacheRequest::Inspect { manifest_path: "/cache/crates/alpha/1.0.0/source/Cargo.toml".to_string() }
    );
    let response = done(cache.resume(run, CacheReply::Inspected(package_manifest())));
    assert_eq!(
        response,
        CacheResponse::Success { crate_name: "alpha".to_string(), version: "1.0.0".to_string() }
    );
}

#[test]
fn download_failure_ends_the_request() {
    let mut cache = cache();
    let (run, _) = asked(cache.cache_crate_with_source(registry("alpha", "1.0.0", None, None)));
    let response = done(cache.resume(run, CacheReply::Acquired(Err("registry unreachable".to_string()))));
    assert_eq!(
        response,
        CacheResponse::Error { message: "Failed to download crate: registry unreachable".to_string() }
    );
    assert!(!cache.storage().is_cached("alpha", "1.0.0"));
}

#[test]
fn generation_failure_ends_the_request() {
    let mut cache = cache();
    let (run, _) = asked(cache.cache_crate_with_source(registry("alpha", "1.0.0", None, None)));
    let (run, _) = asked(cache.resume(run, CacheReply::Acquired(Ok(tree()))));
    // A manifest that cannot be read is taken for an ordinary package.
    let unreadable = ManifestReport {
        exists: true,
        is_workspace: Err("bad toml".to_string()),
        members: Err("bad toml".to_string()),
    };
    let (run, request) = asked(cache.resume(run, CacheReply::Inspected(unreadable)));
    assert_eq!(request, CacheRequest::Generate(generate("alpha", "1.0.0", None, None)));
    let response = done(cache.resume(run, CacheReply::Generated(Err("rustdoc failed".to_string()))));
    assert_eq!(
        response,
        CacheResponse::Error { message: "Failed to cache crate: rustdoc failed".to_string() }
    );
    assert!(cache.storage().is_cached("alpha", "1.0.0"));
    assert!(!cache.storage().has_docs("alpha", "1.0.0"));
}

#[test]
fn unexpected_reply_fails_the_request() {
    let mut cache = cache();
    let (run, _) = asked(cache.cache_crate_with_source(registry("alpha", "1.0.0", None, None)));
    let response = done(cache.resume(run, CacheReply::Restored));
    assert_eq!(
        response,
        CacheResponse::Error { message: "Failed to download crate: unexpected reply".to_string() }
    );
    let (run, _) = asked(cache.cache_crate_with_source(registry("alpha", "1.0.0", None, None)));
    let (run, _) = asked(cache.resume(run, CacheReply::Acquired(Ok(tree()))));
    let response = done(cache.resume(run, CacheReply::Generated(Ok(artifact("1.0.0")))));
    assert_eq!(
        response,
        CacheResponse::Error { message: "Failed to cache crate: unexpected reply".to_string() }
    );
    assert!(!cache.storage().has_docs("alpha", "1.0.0"));
}

#[test]
fn workspace_without_member_is_detected() {
    let mut cache = cache();
    let source = CrateSource::LocalPath(CacheCrateFromLocalParams {
        crate_name: "ws".to_string(),
        version: "0.1.0".to_string(),
        path: "/src/ws".to_string(),
        members: None,
        update: None,
    });
    let (run, request) = asked(cache.cache_crate_with_source(source));
    assert_eq!(
        request,
        CacheRequest::Acquire(acquire("ws", "0.1.0", Some("/src/ws"), SourceKind::Local))
    );
    let (run, _) = asked(cache.resume(run, CacheReply::Acquired(Ok(tree()))));
    let response = done(cache.resume(
        run,
        CacheReply::Inspected(workspace_manifest(&["crates/a", "crates/b", "tools/c"])),
    ));
    assert_eq!(
        response,
        CacheResponse::WorkspaceDetected {
            crate_name: "ws".to_string(),
            version: "0.1.0".to_string(),
            members: vec!["crates/a".to_string(), "crates/b".to_string(), "tools/c".to_string()],
            source_type: "local".to_string(),
            updated: false,
        }
    );
    // The source is cached, and no documentation was generated.
    assert!(cache.storage().is_cached("ws", "0.1.0"));
    assert!(!cache.storage().has_docs("ws", "0.1.0"));
    assert!(!cache.storage().has_member_docs("ws", "0.1.0", "a"));
    assert!(!cache.storage().has_member_docs("ws", "0.1.0", "b"));
    assert!(!cache.storage().has_member_docs("ws", "0.1.0", "c"));
}

#[test]
fn workspace_whose_members_cannot_be_listed() {
    let mut cache = cache();
    let (run, _) = asked(cache.cache_crate_with_source(registry("ws", "0.1.0", None, None)));
    let (run, _) = asked(cache.resume(run, CacheReply::Acquired(Ok(tree()))));
    let report = ManifestReport {
        exists: true,
        is_workspace: Ok(true),
        members: Err("bad glob".to_string()),
    };
    let response = done(cache.resume(run, CacheReply::Inspected(report)));
    assert_eq!(
        response,
        CacheResponse::Error {
            message: "Failed to cache crate: Failed to get workspace members: bad glob".to_string()
        }
    );
}

#[test]
fn repository_needs_exactly_one_of_branch_and_tag() {
    let mut cache = cache();
    let response = done(cache.cache_crate_with_source(github(None, None)));
    assert_eq!(
        response,
        CacheResponse::Error { message: "Either branch or tag must be specified".to_string() }
    );
    let response = done(cache.cache_crate_with_source(github(Some("main"), Some("v1"))));
    assert_eq!(
        response,
        CacheResponse::Error { message: "Only one of branch or tag can be specified".to_string() }
    );
    let response = done(cache.cache_crate_with_source(github(Some(""), None)));
    assert_eq!(
        response,
        CacheResponse::Error { message: "Either branch or tag must be specified".to_string() }
    );
    // Nothing was asked for and nothing is in the cache.
    assert!(cache.list_all_cached_crates().is_empty());
    assert_eq!(
        validate_source(&github(None, None)),
        Err(CacheError::Validation("Either branch or tag must be specified".to_string()))
    );
    assert_eq!(
        validate_source(&github(Some("a"), Some("b"))),
        Err(CacheError::Validation("Only one of branch or tag can be specified".to_string()))
    );
    assert_eq!(validate_source(&github(None, Some("v1"))), Ok(()));
    assert_eq!(validate_source(&registry("a", "", None, None)), Ok(()));
}

#[test]
fn repository_is_cached_under_its_reference() {
    let mut cache = cache();
    let (run, request) = asked(cache.cache_crate_with_source(github(None, Some("v1.2"))));
    assert_eq!(
        request,
        CacheRequest::Acquire(acquire(
            "gamma",
            "v1.2",
            Some("https://github.com/acme/gamma#tag:v1.2"),
            SourceKind::Repository
        ))
    );
    let (run, _) = asked(cache.resume(run, CacheReply::Acquired(Ok(tree()))));
    let (run, _) = asked(cache.resume(run, CacheReply::Inspected(package_manifest())));
    let response = done(cache.resume(run, CacheReply::Generated(Ok(artifact("v1.2")))));
    assert_eq!(
        response,
        CacheResponse::Success { crate_name: "gamma".to_string(), version: "v1.2".to_string() }
    );
    assert!(cache.storage().has_docs("gamma", "v1.2"));
    assert_eq!(cache.get_cached_versions("gamma"), vec!["v1.2".to_string()]);
}

fn member_names_of(plans: &CacheRequest) -> Vec<(String, String, bool, bool)> {
    match plans {
        CacheRequest::Members(plans) => plans
            .iter()
            .map(|p| (p.member_path.clone(), p.member_name.clone(), p.settled.is_some(), p.acquire.is_some()))
            .collect(),
        other => panic!("expected the members to be handed out, got {:?}", other),
    }
}

#[test]
fn fan_out_with_partial_failure() {
    let mut cache = cache();
    let members = vec!["crates/a".to_string(), "crates/b".to_string()];
    let (run, request) =
        asked(cache.cache_crate_with_source(registry("ws", "1.0.0", Some(members.clone()), None)));
    assert_eq!(
        member_names_of(&request),
        vec![
            ("crates/a".to_string(), "a".to_string(), false, true),
            ("crates/b".to_string(), "b".to_string(), false, true),
        ]
    );
    match &request {
        CacheRequest::Members(plans) => {
            assert_eq!(plans[0].acquire, Some(acquire("ws", "1.0.0", None, SourceKind::Registry)));
            assert_eq!(plans[0].generate, generate("ws", "1.0.0", Some("crates/a"), Some("a")));
            assert_eq!(plans[1].generate, generate("ws", "1.0.0", Some("crates/b"), Some("b")));
        },
        _ => unreachable!(),
    }
    let reports = vec![
        MemberReport { source: Some(tree()), docs: MemberGeneration::Generated(artifact("a")) },
        MemberReport { source: None, docs: MemberGeneration::Failed("download timed out".to_string()) },
    ];
    let response = done(cache.resume(run, CacheReply::Members(reports)));
    assert_eq!(
        response,
        CacheResponse::PartialSuccess {
            crate_name: "ws".to_string(),
            version: "1.0.0".to_string(),
            members,
            results: vec!["Successfully cached member: crates/a".to_string()],
            errors: vec!["Failed to cache member crates/b: download timed out".to_string()],
            updated: false,
        }
    );
    assert_eq!(response.status(), "partial_success");
    assert!(cache.storage().has_member_docs("ws", "1.0.0", "a"));
    assert!(!cache.storage().has_member_docs("ws", "1.0.0", "b"));
    assert_eq!(cache.load_member_docs("ws", "1.0.0", "a"), Ok(docs("a")));
}

#[test]
fn fan_out_all_members_succeed() {
    let mut cache = cache();
    cache.download_or_copy_crate("ws", "1.0.0", Ok(tree())).unwrap();
    cache
        .generate_workspace_member_docs("ws", "1.0.0", "crates/a", MemberGeneration::Generated(artifact("a")))
        .unwrap();
    let members = vec!["crates/a".to_string(), "crates/b".to_string(), "crates/c".to_string()];
    let (run, request) =
        asked(cache.cache_crate_with_source(registry("ws", "1.0.0", Some(members.clone()), None)));
    // `a` is settled by what is stored; nobody has to acquire the cached source.
    assert_eq!(
        member_names_of(&request),
        vec![
            ("crates/a".to_string(), "a".to_string(), true, false),
            ("crates/b".to_string(), "b".to_string(), false, false),
            ("crates/c".to_string(), "c".to_string(), false, false),
        ]
    );
    let reports = vec![
        MemberReport { source: None, docs: MemberGeneration::Failed("not run".to_string()) },
        MemberReport { source: None, docs: MemberGeneration::Generated(artifact("b")) },
        MemberReport { source: None, docs: MemberGeneration::Generated(artifact("c")) },
    ];
    let response = done(cache.resume(run, CacheReply::Members(reports)));
    assert_eq!(
        response,
        CacheResponse::MembersSuccess {
            crate_name: "ws".to_string(),
            version: "1.0.0".to_string(),
            members,
            results: vec![
                "Successfully cached member: crates/a".to_string(),
                "Successfully cached member: crates/b".to_string(),
                "Successfully cached member: crates/c".to_string(),
            ],
            updated: false,
        }
    );
    assert_eq!(cache.load_member_docs("ws", "1.0.0", "a"), Ok(docs("a")));
    assert_eq!(cache.load_member_docs("ws", "1.0.0", "b"), Ok(docs("b")));
    assert_eq!(cache.load_member_docs("ws", "1.0.0", "c"), Ok(docs("c")));
}

#[test]
fn fan_out_failures_of_every_kind() {
    let mut cache = cache();
    let members: Vec<String> =
        ["m0", "m1", "m2", "m3", "m4"].iter().map(|m| format!("crates/{}", m)).collect();
    let (run, _) = asked(cache.cache_crate_with_source(registry("ws", "1.0.0", Some(members.clone()), None)));
    let reports = vec![
        // No manifest for the member.
        MemberReport { source: Some(tree()), docs: MemberGeneration::ManifestMissing },
        // An artifact that cannot be read is stored, and reported as a failure.
        MemberReport { source: Some(tree()), docs: MemberGeneration::Generated(raw("garbage")) },
        // An artifact without a source to generate it from is not taken.
        MemberReport { source: None, docs: MemberGeneration::Generated(artifact("m2")) },
        MemberReport { source: Some(tree()), docs: MemberGeneration::Generated(artifact("m3")) },
        // The last member's task never reported.
    ];
    let response = done(cache.resume(run, CacheReply::Members(reports)));
    match response {
        CacheResponse::PartialSuccess { results, errors, members: listed, updated, .. } => {
            assert_eq!(listed, members);
            assert!(!updated);
            assert_eq!(results, vec!["Successfully cached member: crates/m3".to_string()]);
            assert_eq!(errors.len(), 4);
            assert_eq!(
                errors[0],
                "Failed to cache member crates/m0: Workspace member 'crates/m0' not found in ws-1.0.0. Make sure the member path is correct."
            );
            assert!(errors[1].starts_with(
                "Failed to cache member crates/m1: Failed to parse documentation JSON: "
            ));
            assert_eq!(errors[2], "Failed to cache member crates/m2: Source of ws-1.0.0 is not cached");
            assert_eq!(errors[3], "Failed to cache member crates/m4: member task did not report");
        },
        other => panic!("unexpected response {:?}", other),
    }
    assert!(cache.storage().is_cached("ws", "1.0.0"));
    assert!(!cache.storage().has_member_docs("ws", "1.0.0", "m0"));
    assert!(cache.storage().has_member_docs("ws", "1.0.0", "m1"));
    assert!(!cache.storage().has_member_docs("ws", "1.0.0", "m2"));
    assert!(cache.storage().has_member_docs("ws", "1.0.0", "m3"));
    assert!(!cache.storage().has_member_docs("ws", "1.0.0", "m4"));
}

#[test]
fn fan_out_without_members_or_reports() {
    let mut cache = cache();
    let (run, request) = asked(cache.cache_crate_with_source(registry("ws", "1.0.0", Some(vec![]), None)));
    assert_eq!(request, CacheRequest::Members(vec![]));
    let response = done(cache.resume(run, CacheReply::Members(vec![])));
    assert_eq!(
        response,
        CacheResponse::MembersSuccess {
            crate_name: "ws".to_string(),
            version: "1.0.0".to_string(),
            members: vec![],
            results: vec![],
            updated: false,
        }
    );
    assert!(!cache.storage().is_cached("ws", "1.0.0"));
    let (run, _) = asked(cache.cache_crate_with_source(registry(
        "ws",
        "1.0.0",
        Some(vec!["crates/a".to_string()]),
        None,
    )));
    let response = done(cache.resume(run, CacheReply::Restored));
    assert_eq!(
        response,
        CacheResponse::PartialSuccess {
            crate_name: "ws".to_string(),
            version: "1.0.0".to_string(),
            members: vec!["crates/a".to_string()],
            results: vec![],
            errors: vec!["Failed to cache member crates/a: member task did not report".to_string()],
            updated: false,
        }
    );
}

#[test]
fn update_replaces_the_entry() {
    let mut cache = cache();
    cache_package(&mut cache, "alpha", "1.0.0", &docs_text("old"));
    let (run, request) = asked(cache.cache_crate_with_source(registry("alpha", "1.0.0", None, Some(true))));
    assert_eq!(request, CacheRequest::SetAside(backup("alpha", "1.0.0")));
    // Nothing has changed yet.
    assert!(cache.storage().has_docs("alpha", "1.0.0"));
    let (run, request) = asked(cache.resume(run, CacheReply::SetAside(Ok(()))));
    assert_eq!(request, CacheRequest::Acquire(acquire("alpha", "1.0.0", None, SourceKind::Registry)));
    // The live entry is gone while the update runs.
    assert!(!cache.storage().is_cached("alpha", "1.0.0"));
    let fresh = SourceTree { size_bytes: 4096, cached_at: 1_800_000_000 };
    let (run, _) = asked(cache.resume(run, CacheReply::Acquired(Ok(fresh))));
    let (run, _) = asked(cache.resume(run, CacheReply::Inspected(package_manifest())));
    let (run, request) = asked(cache.resume(run, CacheReply::Generated(Ok(artifact("new")))));
    assert_eq!(request, CacheRequest::Discard(backup("alpha", "1.0.0")));
    let response = done(cache.resume(run, CacheReply::Discarded(Ok(()))));
    assert_eq!(
        response,
        CacheResponse::SuccessUpdated { crate_name: "alpha".to_string(), version: "1.0.0".to_string() }
    );
    assert_eq!(cache.load_docs("alpha", "1.0.0"), Ok(docs("new")));
    assert_eq!(cache.list_all_cached_crates()[0].size_bytes, 4096);
}

#[test]
fn update_of_uncached_key_is_a_plain_request() {
    let mut cache = cache();
    let (run, request) = asked(cache.cache_crate_with_source(registry("alpha", "1.0.0", None, Some(true))));
    assert_eq!(request, CacheRequest::Acquire(acquire("alpha", "1.0.0", None, SourceKind::Registry)));
    let (run, _) = asked(cache.resume(run, CacheReply::Acquired(Ok(tree()))));
    let (run, _) = asked(cache.resume(run, CacheReply::Inspected(package_manifest())));
    let response = done(cache.resume(run, CacheReply::Generated(Ok(artifact("1.0.0")))));
    assert_eq!(
        response,
        CacheResponse::Success { crate_name: "alpha".to_string(), version: "1.0.0".to_string() }
    );
}

/// What can be seen of an entry from outside.
fn observed(cache: &CrateCache, name: &str, version: &str, members: &[&str]) -> Vec<Option<String>> {
    let mut seen = vec![
        Some(cache.storage().is_cached(name, version).to_string()),
        cache.storage().docs(name, version).map(|a| a.text().to_string()),
    ];
    for member in members {
        seen.push(cache.storage().member_docs(name, version, member).map(|a| a.text().to_string()));
    }
    for listed in cache.list_all_cached_crates() {
        if listed.name == name && listed.version == version {
            seen.push(Some(format!("{} {}", listed.size_bytes, listed.cached_at)));
        }
    }
    seen
}

fn cached_with_member(cache: &mut CrateCache) {
    cache_package(cache, "alpha", "1.0.0", &docs_text("old"));
    cache
        .generate_workspace_member_docs(
            "alpha",
            "1.0.0",
            "crates/core",
            MemberGeneration::Generated(artifact("old core")),
        )
        .unwrap();
}

#[test]
fn failed_update_restores_the_entry() {
    let mut cache = cache();
    cached_with_member(&mut cache);
    let before = observed(&cache, "alpha", "1.0.0", &["core"]);

    // The download fails.
    let (run, _) = asked(cache.cache_crate_with_source(registry("alpha", "1.0.0", None, Some(true))));
    let (run, _) = asked(cache.resume(run, CacheReply::SetAside(Ok(()))));
    let (run, request) = asked(cache.resume(run, CacheReply::Acquired(Err("registry unreachable".to_string()))));
    assert_eq!(request, CacheRequest::Restore(backup("alpha", "1.0.0")));
    assert_eq!(observed(&cache, "alpha", "1.0.0", &["core"]), before);
    let response = done(cache.resume(run, CacheReply::Restored));
    assert_eq!(
        response,
        CacheResponse::Error {
            message: "Update failed, restored from backup: registry unreachable".to_string()
        }
    );
    assert_eq!(observed(&cache, "alpha", "1.0.0", &["core"]), before);

    // The generation fails, after a new source tree was cached.
    let (run, _) = asked(cache.cache_crate_with_source(registry("alpha", "1.0.0", None, Some(true))));
    let (run, _) = asked(cache.resume(run, CacheReply::SetAside(Ok(()))));
    let (run, _) = asked(cache.resume(run, CacheReply::Acquired(Ok(SourceTree { size_bytes: 1, cached_at: 1 }))));
    let (run, _) = asked(cache.resume(run, CacheReply::Inspected(package_manifest())));
    assert_ne!(observed(&cache, "alpha", "1.0.0", &["core"]), before);
    let (run, request) = asked(cache.resume(run, CacheReply::Generated(Err("rustdoc failed".to_string()))));
    assert_eq!(request, CacheRequest::Restore(backup("alpha", "1.0.0")));
    let response = done(cache.resume(run, CacheReply::Restored));
    assert_eq!(
        response,
        CacheResponse::Error { message: "Update failed, restored from backup: rustdoc failed".to_string() }
    );
    assert_eq!(observed(&cache, "alpha", "1.0.0", &["core"]), before);
    assert_eq!(cache.load_docs("alpha", "1.0.0"), Ok(docs("old")));
    assert_eq!(cache.load_member_docs("alpha", "1.0.0", "core"), Ok(docs("old core")));

    // The new artifact cannot be read.
    let (run, _) = asked(cache.cache_crate_with_source(registry("alpha", "1.0.0", None, Some(true))));
    let (run, _) = asked(cache.resume(run, CacheReply::SetAside(Ok(()))));
    let (run, _) = asked(cache.resume(run, CacheReply::Acquired(Ok(tree()))));
    let (run, _) = asked(cache.resume(run, CacheReply::Inspected(package_manifest())));
    let (run, _) = asked(cache.resume(run, CacheReply::Generated(Ok(raw("garbage")))));
    match done(cache.resume(run, CacheReply::Restored)) {
        CacheResponse::Error { message } => assert!(message.starts_with(
            "Update failed, restored from backup: Failed to parse documentation JSON: "
        )),
        other => panic!("unexpected response {:?}", other),
    }
    assert_eq!(observed(&cache, "alpha", "1.0.0", &["core"]), before);

    // The manifest cannot be read: an update does not guess.
    let (run, _) = asked(cache.cache_crate_with_source(registry("alpha", "1.0.0", None, Some(true))));
    let (run, _) = asked(cache.resume(run, CacheReply::SetAside(Ok(()))));
    let (run, _) = asked(cache.resume(run, CacheReply::Acquired(Ok(tree()))));
    let unreadable = ManifestReport {
        exists: true,
        is_workspace: Err("bad toml".to_string()),
        members: Err("bad toml".to_string()),
    };
    let (run, _) = asked(cache.resume(run, CacheReply::Inspected(unreadable)));
    assert_eq!(
        done(cache.resume(run, CacheReply::Restored)),
        CacheResponse::Error { message: "Update failed, restored from backup: bad toml".to_string() }
    );
    assert_eq!(observed(&cache, "alpha", "1.0.0", &["core"]), before);
}

#[test]
fn update_that_cannot_set_the_entry_aside() {
    let mut cache = cache();
    cached_with_member(&mut cache);
    let before = observed(&cache, "alpha", "1.0.0", &["core"]);
    let (run, _) = asked(cache.cache_crate_with_source(registry("alpha", "1.0.0", None, Some(true))));
    let response = done(cache.resume(run, CacheReply::SetAside(Err("disk full".to_string()))));
    assert_eq!(
        response,
        CacheResponse::Error { message: "Failed to start update transaction: disk full".to_string() }
    );
    assert_eq!(observed(&cache, "alpha", "1.0.0", &["core"]), before);
}

#[test]
fn update_whose_cleanup_fails_keeps_the_new_entry() {
    let mut cache = cache();
    cache_package(&mut cache, "alpha", "1.0.0", &docs_text("old"));
    let (run, _) = asked(cache.cache_crate_with_source(registry("alpha", "1.0.0", None, Some(true))));
    let (run, _) = asked(cache.resume(run, CacheReply::SetAside(Ok(()))));
    let (run, _) = asked(cache.resume(run, CacheReply::Acquired(Ok(tree()))));
    let (run, _) = asked(cache.resume(run, CacheReply::Inspected(package_manifest())));
    let (run, _) = asked(cache.resume(run, CacheReply::Generated(Ok(artifact("new")))));
    let response = done(cache.resume(run, CacheReply::Discarded(Err("permission denied".to_string()))));
    assert_eq!(
        response,
        CacheResponse::Error {
            message: "Update succeeded but failed to cleanup: permission denied".to_string()
        }
    );
    assert_eq!(cache.load_docs("alpha", "1.0.0"), Ok(docs("new")));
}

#[test]
fn update_of_a_workspace() {
    let mut cache = cache();
    cache_package(&mut cache, "ws", "1.0.0", &docs_text("old"));
    let (run, _) = asked(cache.cache_crate_with_source(github_ws(None, true)));
    let (run, _) = asked(cache.resume(run, CacheReply::SetAside(Ok(()))));
    let (run, _) = asked(cache.resume(run, CacheReply::Acquired(Ok(tree()))));
    let (run, request) = asked(cache.resume(run, CacheReply::Inspected(workspace_manifest(&["crates/a"]))));
    assert_eq!(request, CacheRequest::Discard(backup("ws", "1.0.0")));
    let response = done(cache.resume(run, CacheReply::Discarded(Ok(()))));
    assert_eq!(
        response,
        CacheResponse::WorkspaceDetected {
            crate_name: "ws".to_string(),
            version: "1.0.0".to_string(),
            members: vec!["crates/a".to_string()],
            source_type: "github".to_string(),
            updated: true,
        }
    );
    assert!(cache.storage().is_cached("ws", "1.0.0"));
    assert!(!cache.storage().has_docs("ws", "1.0.0"));
}

fn github_ws(members: Option<Vec<String>>, update: bool) -> CrateSource {
    CrateSource::GitHub(CacheCrateFromGitHubParams {
        crate_name: "ws".to_string(),
        github_url: "https://github.com/acme/ws".to_string(),
        branch: None,
        tag: Some("1.0.0".to_string()),
        members,
        update: Some(update),
    })
}

#[test]
fn update_of_members() {
    let mut cache = cache();
    cache.download_or_copy_crate("ws", "1.0.0", Ok(tree())).unwrap();
    cache
        .generate_workspace_member_docs("ws", "1.0.0", "crates/a", MemberGeneration::Generated(artifact("old a")))
        .unwrap();
    let before = observed(&cache, "ws", "1.0.0", &["a", "b"]);
    let members = vec!["crates/a".to_string(), "crates/b".to_string()];

    // Every member fails: the update failed and the entry is put back.
    let (run, _) = asked(cache.cache_crate_with_source(github_ws(Some(members.clone()), true)));
    let (run, request) = asked(cache.resume(run, CacheReply::SetAside(Ok(()))));
    // The old artifacts were set aside with the entry: every member is to be done anew.
    assert_eq!(
        member_names_of(&request),
        vec![
            ("crates/a".to_string(), "a".to_string(), false, true),
            ("crates/b".to_string(), "b".to_string(), false, true),
        ]
    );
    let reports = vec![
        MemberReport { source: Some(tree()), docs: MemberGeneration::Failed("a broke".to_string()) },
        MemberReport { source: None, docs: MemberGeneration::Failed("b broke".to_string()) },
    ];
    let (run, request) = asked(cache.resume(run, CacheReply::Members(reports)));
    assert_eq!(request, CacheRequest::Restore(backup("ws", "1.0.0")));
    assert_eq!(
        done(cache.resume(run, CacheReply::Restored)),
        CacheResponse::Error {
            message: "Update failed, restored from backup: Failed to update any workspace members:\nFailed to cache member crates/a: a broke\nFailed to cache member crates/b: b broke"
                .to_string()
        }
    );
    assert_eq!(observed(&cache, "ws", "1.0.0", &["a", "b"]), before);

    // One member succeeds: the update is committed with a partial success.
    let (run, _) = asked(cache.cache_crate_with_source(github_ws(Some(members.clone()), true)));
    let (run, _) = asked(cache.resume(run, CacheReply::SetAside(Ok(()))));
    let reports = vec![
        MemberReport { source: Some(tree()), docs: MemberGeneration::Failed("a broke".to_string()) },
        MemberReport { source: Some(tree()), docs: MemberGeneration::Generated(artifact("new b")) },
    ];
    let (run, request) = asked(cache.resume(run, CacheReply::Members(reports)));
    assert_eq!(request, CacheRequest::Discard(backup("ws", "1.0.0")));
    assert_eq!(
        done(cache.resume(run, CacheReply::Discarded(Ok(())))),
        CacheResponse::PartialSuccess {
            crate_name: "ws".to_string(),
            version: "1.0.0".to_string(),
            members,
            results: vec!["Successfully cached member: crates/b".to_string()],
            errors: vec!["Failed to cache member crates/a: a broke".to_string()],
            updated: true,
        }
    );
    assert!(!cache.storage().has_member_docs("ws", "1.0.0", "a"));
    assert_eq!(cache.load_member_docs("ws", "1.0.0", "b"), Ok(docs("new b")));
}

#[test]
fn transaction_begin_commit() {
    let mut storage = CacheStorage::new("/c".to_string());
    storage.store_source("a", "1", tree());
    storage.store_docs("a", "1", Some(raw("old")));
    let mut tx = CacheTransaction::new("a", "1");
    assert_eq!(tx.current_state(), TransactionState::Pending);
    assert_eq!(tx.begin(&mut storage, Ok(())), Ok(()));
    assert_eq!(tx.current_state(), TransactionState::Pending);
    assert!(!storage.is_cached("a", "1"));
    storage.store_source("a", "1", SourceTree { size_bytes: 7, cached_at: 7 });
    storage.store_docs("a", "1", Some(raw("new")));
    assert_eq!(tx.commit(Ok(())), Ok(()));
    assert_eq!(tx.current_state(), TransactionState::Committed);
    assert_eq!(storage.docs("a", "1").map(|a| a.text()), Some("new"));
    // One terminal transition only.
    assert_eq!(tx.rollback(&mut storage), Err(TransactionError::InvalidState));
    assert_eq!(tx.commit(Ok(())), Err(TransactionError::InvalidState));
    assert_eq!(tx.begin(&mut storage, Ok(())), Err(TransactionError::InvalidState));
    assert_eq!(tx.current_state(), TransactionState::Committed);
    assert_eq!(storage.docs("a", "1").map(|a| a.text()), Some("new"));
}

#[test]
fn transaction_rollback_restores() {
    let mut storage = CacheStorage::new("/c".to_string());
    storage.store_source("a", "1", tree());
    storage.store_docs("a", "1", Some(raw("old")));
    storage.store_member_docs("a", "1", "m", Some(raw("old m")));
    storage.store_source("b", "1", tree());
    let mut tx = CacheTransaction::new("a", "1");
    assert_eq!(tx.begin(&mut storage, Ok(())), Ok(()));
    // Beginning twice is refused.
    assert_eq!(tx.begin(&mut storage, Ok(())), Err(TransactionError::InvalidState));
    // The update leaves partial state behind, and touches another key.
    storage.store_source("a", "1", SourceTree { size_bytes: 7, cached_at: 7 });
    storage.store_member_docs("a", "1", "n", Some(raw("partial")));
    storage.store_docs("b", "1", Some(raw("other")));
    assert_eq!(tx.rollback(&mut storage), Ok(()));
    assert_eq!(tx.current_state(), TransactionState::RolledBack);
    assert_eq!(storage.docs("a", "1").map(|a| a.text()), Some("old"));
    assert_eq!(storage.member_docs("a", "1", "m").map(|a| a.text()), Some("old m"));
    assert!(!storage.has_member_docs("a", "1", "n"));
    let listed = storage.list_cached_crates();
    let entry = listed.iter().find(|m| m.name == "a").unwrap();
    assert_eq!((entry.size_bytes, entry.cached_at), (2048, 1_700_000_000));
    // The rollback touches no other key.
    assert_eq!(storage.docs("b", "1").map(|a| a.text()), Some("other"));
    assert_eq!(tx.commit(Ok(())), Err(TransactionError::InvalidState));
    assert_eq!(tx.rollback(&mut storage), Err(TransactionError::InvalidState));
}

#[test]
fn transaction_on_absent_key_rolls_back_to_absence() {
    let mut storage = CacheStorage::new("/c".to_string());
    let mut tx = CacheTransaction::new("a", "1");
    assert_eq!(tx.begin(&mut storage, Ok(())), Ok(()));
    storage.store_source("a", "1", tree());
    tx.release(&mut storage);
    assert!(!storage.is_cached("a", "1"));
}

#[test]
fn transaction_backup_failure_changes_nothing() {
    let mut storage = CacheStorage::new("/c".to_string());
    storage.store_source("a", "1", tree());
    storage.store_docs("a", "1", Some(raw("old")));
    let mut tx = CacheTransaction::new("a", "1");
    assert_eq!(
        tx.begin(&mut storage, Err("disk full".to_string())),
        Err(TransactionError::Backup("disk full".to_string()))
    );
    assert_eq!(tx.current_state(), TransactionState::Pending);
    assert_eq!(storage.docs("a", "1").map(|a| a.text()), Some("old"));
    // No transition occurred: the transaction can still begin.
    assert_eq!(tx.begin(&mut storage, Ok(())), Ok(()));
    assert!(!storage.is_cached("a", "1"));
    tx.release(&mut storage);
    assert_eq!(storage.docs("a", "1").map(|a| a.text()), Some("old"));
}

#[test]
fn transaction_cleanup_failure_is_not_fatal() {
    let mut storage = CacheStorage::new("/c".to_string());
    storage.store_source("a", "1", tree());
    let mut tx = CacheTransaction::new("a", "1");
    assert_eq!(tx.begin(&mut storage, Ok(())), Ok(()));
    storage.store_source("a", "1", SourceTree { size_bytes: 7, cached_at: 7 });
    assert_eq!(
        tx.commit(Err("busy".to_string())),
        Err(TransactionError::Cleanup("busy".to_string()))
    );
    assert_eq!(tx.current_state(), TransactionState::Committed);
    // Giving up a committed transaction restores nothing.
    tx.release(&mut storage);
    assert_eq!(storage.list_cached_crates()[0].size_bytes, 7);
}

#[test]
fn transaction_never_begun_restores_nothing() {
    let mut storage = CacheStorage::new("/c".to_string());
    storage.store_source("a", "1", tree());
    let mut tx = CacheTransaction::new("a", "1");
    assert_eq!(tx.rollback(&mut storage), Ok(()));
    assert_eq!(tx.current_state(), TransactionState::RolledBack);
    assert!(storage.is_cached("a", "1"));
    let mut storage = CacheStorage::new("/c".to_string());
    let mut taken = storage.take("a", "1");
    assert!(taken.is_none());
    storage.store_source("a", "1", tree());
    taken = storage.take("a", "1");
    assert!(!storage.is_cached("a", "1"));
    storage.put(taken.unwrap());
    assert!(storage.is_cached("a", "1"));
}

fn location(url: &str, reference: Option<RepositoryRef>) -> RepositoryLocation {
    RepositoryLocation { url: url.to_string(), reference }
}

#[test]
fn repository_hints_are_read_back() {
    assert_eq!(
        parse_repository_hint("https://github.com/acme/gamma#branch:main"),
        location("https://github.com/acme/gamma", Some(RepositoryRef::Branch("main".to_string())))
    );
    assert_eq!(
        parse_repository_hint("https://github.com/acme/gamma#tag:v1.2"),
        location("https://github.com/acme/gamma", Some(RepositoryRef::Tag("v1.2".to_string())))
    );
    assert_eq!(
        parse_repository_hint("https://github.com/acme/gamma"),
        location("https://github.com/acme/gamma", None)
    );
    assert_eq!(
        parse_repository_hint("https://github.com/acme/gamma#readme"),
        location("https://github.com/acme/gamma#readme", None)
    );
    assert_eq!(
        parse_repository_hint("url#branch:"),
        location("url", Some(RepositoryRef::Branch(String::new())))
    );
    assert_eq!(
        parse_repository_hint("url#tag:a#branch:b"),
        location("url", Some(RepositoryRef::Tag("a#branch:b".to_string())))
    );
    assert_eq!(parse_repository_hint("url#x#branch:b"), location("url#x#branch:b", None));
    assert_eq!(parse_repository_hint(""), location("", None));
    // What a description gives as its hint is read back as the description says.
    for source in [github(Some("dev"), None), github(None, Some("v2")), github(None, None)] {
        let (_, version, _, hint, _) = extract_source_params(&source);
        let read = parse_repository_hint(&hint.unwrap());
        assert_eq!(read.url, "https://github.com/acme/gamma");
        match read.reference {
            Some(RepositoryRef::Branch(name)) | Some(RepositoryRef::Tag(name)) => assert_eq!(name, version),
            None => assert_eq!(version, ""),
        }
    }
}

#[test]
fn home_is_expanded_in_local_paths() {
    assert_eq!(expand_home("~", "/home/u"), "/home/u");
    assert_eq!(expand_home("~/work/delta", "/home/u"), "/home/u/work/delta");
    assert_eq!(expand_home("~/", "/home/u"), "/home/u/");
    assert_eq!(expand_home("~user/x", "/home/u"), "~user/x");
    assert_eq!(expand_home("/abs/~/x", "/home/u"), "/abs/~/x");
    assert_eq!(expand_home("relative/x", "/home/u"), "relative/x");
    assert_eq!(expand_home("", "/home/u"), "");
}

#[test]
fn artifacts_record_whether_they_can_be_read() {
    let good = Artifact::read(docs_text("1.0.0"));
    assert!(good.is_readable());
    assert_eq!(good.failure(), None);
    assert_eq!(good.text(), docs_text("1.0.0"));
    assert_eq!(good.load(), Ok(docs("1.0.0")));
    assert_eq!(good.copy(), good);

    let bad = Artifact::read("{ not json".to_string());
    assert!(!bad.is_readable());
    assert_eq!(bad.text(), "{ not json");
    let failure = bad.failure().unwrap().to_string();
    assert!(failure.starts_with("Failed to parse documentation JSON: "));
    assert_eq!(bad.load(), Err(failure.clone()));
    assert_eq!(parse_docs("{ not json"), Err(failure));
    assert_eq!(bad.copy(), bad);
    assert_ne!(bad, good);

    let wrong = Artifact::read("{\"root\": 0}".to_string());
    assert!(wrong.failure().unwrap().contains("missing field"));
    assert_eq!(unreadable_text("line 1"), "Failed to parse documentation JSON: line 1");
}

#[test]
fn ambiguity_text_from_a_listing() {
    assert_eq!(
        ambiguity_text("a and b", &vec!["crates/a".to_string(), "crates/b".to_string()]),
        "This is a workspace crate. Please specify a member using the 'member' parameter.\nAvailable members: a and b\nExample: specify member=\"crates/a\""
    );
    assert_eq!(
        ambiguity_text("", &vec![]),
        "This is a workspace crate. Please specify a member using the 'member' parameter.\nAvailable members: \nExample: specify member=\"crates/example\""
    );
}

#[test]
fn backend_follows_the_description_not_the_hint() {
    let mut cache = cache();
    let ssh = CrateSource::GitHub(CacheCrateFromGitHubParams {
        crate_name: "gamma".to_string(),
        github_url: "git@github.com:acme/gamma.git".to_string(),
        branch: Some("main".to_string()),
        tag: None,
        members: None,
        update: None,
    });
    let (_, request) = asked(cache.cache_crate_with_source(ssh));
    assert_eq!(
        request,
        CacheRequest::Acquire(acquire(
            "gamma",
            "main",
            Some("git@github.com:acme/gamma.git#branch:main"),
            SourceKind::Repository
        ))
    );
    let odd = CrateSource::LocalPath(CacheCrateFromLocalParams {
        crate_name: "delta".to_string(),
        version: "1".to_string(),
        path: "https://not-a-url".to_string(),
        members: Some(vec!["m".to_string()]),
        update: None,
    });
    let (_, request) = asked(cache.cache_crate_with_source(odd));
    match request {
        CacheRequest::Members(plans) => assert_eq!(
            plans[0].acquire,
            Some(acquire("delta", "1", Some("https://not-a-url"), SourceKind::Local))
        ),
        other => panic!("unexpected request {:?}", other),
    }
}
