use std::path::PathBuf;

use rust_docs_mcp::analyzer::{
    assoc_item_path, cargo_config, cfg_attrs, cfgs, crate_name, display_name, display_path,
    find_crate, has_test_cfg, load_config, module_file, module_file_by_extension, name, path,
    select_package, select_package_and_target, select_target, unknown_binary_text,
    unknown_package_text, WorkspaceKind,
    test_attr, use_tree_matches_item_path, CargoFeatures, LoadOptions, NamedItem, PackageInfo,
    ProcMacroServerChoice, TargetInfo, TargetKind,
};
use rust_docs_mcp::item::{CfgExpr, ItemCfgAttr, ItemTestAttr};
use rust_docs_mcp::text::{join_lines, last_segment_position, replace_char, split_path, starts_with};
use rust_docs_mcp::options::ProjectOptions;

fn project_options() -> ProjectOptions {
    ProjectOptions {
        lib: true,
        bin: None,
        package: None,
        no_default_features: false,
        all_features: false,
        features: vec![],
        target: None,
        manifest_path: PathBuf::from("Cargo.toml"),
    }
}

#[test]
fn test_load_options_creation() {
    let opts = LoadOptions {
        cfg_test: true,
        sysroot: false,
    };
    assert!(opts.cfg_test);
    assert!(!opts.sysroot);
}

#[test]
fn test_cargo_config_with_test_enabled() {
    let project_opts = ProjectOptions {
        lib: true,
        bin: None,
        package: None,
        no_default_features: false,
        all_features: false,
        features: vec![],
        target: None,
        manifest_path: PathBuf::from("Cargo.toml"),
    };

    let load_opts = LoadOptions {
        cfg_test: true,
        sysroot: false,
    };

    let _config = cargo_config(&project_opts, &load_opts);

    // Just verify we can create a config with test enabled
    assert!(load_opts.cfg_test);
}

#[test]
fn test_cargo_config_with_test_disabled() {
    let project_opts = ProjectOptions {
        lib: true,
        bin: None,
        package: None,
        no_default_features: false,
        all_features: false,
        features: vec![],
        target: None,
        manifest_path: PathBuf::from("Cargo.toml"),
    };

    let load_opts = LoadOptions {
        cfg_test: false,
        sysroot: false,
    };

    let _config = cargo_config(&project_opts, &load_opts);

    // Just verify we can create a config with test disabled
    assert!(!load_opts.cfg_test);
}

#[test]
fn test_load_config_creation() {
    let config = load_config();
    // We disable load_out_dirs_from_check to prevent hangs
    assert!(!config.load_out_dirs_from_check);
}

#[test]
fn test_has_test_cfg() {
    let attrs = vec![
        ItemCfgAttr::Flag("test".to_string()),
        ItemCfgAttr::KeyValue("target_os".to_string(), "linux".to_string()),
    ];
    assert!(has_test_cfg(&attrs));

    let attrs = vec![ItemCfgAttr::KeyValue(
        "target_os".to_string(),
        "linux".to_string(),
    )];
    assert!(!has_test_cfg(&attrs));
}

#[test]
fn test_crate_name_canonicalization() {
    let display_name = "my-crate-name".to_string();
    let canonicalized = crate_name(&display_name);
    assert_eq!(canonicalized, "my_crate_name");
}

#[test]
fn cargo_config_follows_the_options() {
    let mut project = project_options();
    project.features = vec!["serde".to_string(), "std".to_string()];
    project.no_default_features = true;
    project.target = Some("wasm32-unknown-unknown".to_string());
    let load = LoadOptions { cfg_test: true, sysroot: true };
    let config = cargo_config(&project, &load);
    assert!(!config.all_targets);
    assert!(config.enable_test_cfg);
    assert!(config.set_test);
    assert!(config.no_deps);
    assert!(config.discover_sysroot);
    assert!(!config.wrap_rustc_in_build_scripts);
    assert_eq!(config.target, Some("wasm32-unknown-unknown".to_string()));
    assert_eq!(
        config.features,
        CargoFeatures::Selected {
            features: vec!["serde".to_string(), "std".to_string()],
            no_default_features: true,
        }
    );

    project.all_features = true;
    let load = LoadOptions { cfg_test: false, sysroot: false };
    let config = cargo_config(&project, &load);
    assert_eq!(config.features, CargoFeatures::All);
    assert!(!config.enable_test_cfg);
    assert!(!config.set_test);
    assert!(!config.discover_sysroot);
}

#[test]
fn load_config_runs_no_build_scripts() {
    let config = load_config();
    assert!(!config.load_out_dirs_from_check);
    assert!(!config.prefill_caches);
    assert_eq!(config.with_proc_macro_server, ProcMacroServerChoice::Sysroot);
}

fn package(name: &str, is_member: bool) -> PackageInfo {
    PackageInfo { name: name.to_string(), is_member }
}

#[test]
fn select_package_without_members_fails() {
    let options = project_options();
    assert_eq!(select_package(&vec![], &options), Err("no packages found".to_string()));
    let packages = vec![package("serde", false), package("libc", false)];
    assert_eq!(select_package(&packages, &options), Err("no packages found".to_string()));
}

#[test]
fn select_package_picks_the_single_member() {
    let options = project_options();
    let packages = vec![package("serde", false), package("app", true), package("libc", false)];
    assert_eq!(select_package(&packages, &options), Ok(1));
}

#[test]
fn select_package_by_name() {
    let mut options = project_options();
    options.package = Some("beta".to_string());
    let packages = vec![
        package("beta", false),
        package("alpha", true),
        package("beta", true),
        package("beta", true),
    ];
    assert_eq!(select_package(&packages, &options), Ok(2));
}

#[test]
fn select_package_unknown_name_lists_members() {
    let mut options = project_options();
    options.package = Some("ga\"mma".to_string());
    let packages = vec![package("alpha", true), package("serde", false), package("beta", true)];
    assert_eq!(
        select_package(&packages, &options),
        Err(
            "No package found with name \"ga\\\"mma\".\n\nPackages present in workspace:\n- alpha\n- beta\n"
                .to_string()
        )
    );
}

#[test]
fn select_package_among_several_needs_a_name() {
    let options = project_options();
    let packages = vec![package("alpha", true), package("beta", true)];
    assert_eq!(
        select_package(&packages, &options),
        Err(
            "Multiple packages present in workspace,\nplease explicitly select one via --package flag.\n\nPackages present in workspace:\n- alpha\n- beta\n"
                .to_string()
        )
    );
}

fn target(name: &str, kind: TargetKind) -> TargetInfo {
    TargetInfo { name: name.to_string(), kind }
}

#[test]
fn select_target_without_candidates_fails() {
    let options = project_options();
    assert_eq!(select_target(&vec![], &options), Err("no targets found".to_string()));
    let targets = vec![
        target("ex", TargetKind::Example),
        target("t", TargetKind::Test),
        target("b", TargetKind::Bench),
        target("o", TargetKind::Other),
        target("build", TargetKind::BuildScript),
    ];
    assert_eq!(select_target(&targets, &options), Err("no targets found".to_string()));
}

#[test]
fn select_target_lib() {
    let options = project_options();
    let targets = vec![
        target("cli", TargetKind::Bin),
        target("t", TargetKind::Test),
        target("core", TargetKind::Lib),
    ];
    assert_eq!(select_target(&targets, &options), Ok(2));
}

#[test]
fn select_target_lib_missing() {
    let options = project_options();
    let targets = vec![target("cli", TargetKind::Bin), target("tool", TargetKind::Bin)];
    assert_eq!(
        select_target(&targets, &options),
        Err(
            "No library target found.\n\nTargets present in package:\n- cli (--bin cli)\n- tool (--bin tool)\n"
                .to_string()
        )
    );
}

#[test]
fn select_target_bin_by_name() {
    let mut options = project_options();
    options.lib = false;
    options.bin = Some("tool".to_string());
    let targets = vec![
        target("tool", TargetKind::Lib),
        target("cli", TargetKind::Bin),
        target("tool", TargetKind::Bin),
    ];
    assert_eq!(select_target(&targets, &options), Ok(2));
    options.bin = Some("other".to_string());
    assert_eq!(
        select_target(&targets, &options),
        Err(
            "No binary target found with name \"other\".\n\nTargets present in package:\n- tool (--lib)\n- cli (--bin cli)\n- tool (--bin tool)\n"
                .to_string()
        )
    );
}

#[test]
fn select_target_single_or_ambiguous() {
    let mut options = project_options();
    options.lib = false;
    let targets = vec![target("t", TargetKind::Test), target("cli", TargetKind::Bin)];
    assert_eq!(select_target(&targets, &options), Ok(1));
    let targets = vec![target("core", TargetKind::Lib), target("cli", TargetKind::Bin)];
    assert_eq!(
        select_target(&targets, &options),
        Err(
            "Multiple targets present in package,\nplease explicitly select one via --lib or --bin flag.\n\nTargets present in package:\n- core (--lib)\n- cli (--bin cli)\n"
                .to_string()
        )
    );
}

#[test]
fn crate_name_keeps_other_characters() {
    assert_eq!(crate_name(""), "");
    assert_eq!(crate_name("plain"), "plain");
    assert_eq!(crate_name("-a--b-"), "_a__b_");
    assert_eq!(crate_name("naïve-crate"), "naïve_crate");
}

#[test]
fn display_names() {
    assert_eq!(display_name(&NamedItem::CrateRoot("my-crate".to_string())), "my_crate");
    assert_eq!(display_name(&NamedItem::Const(Some("MAX".to_string()))), "MAX");
    assert_eq!(display_name(&NamedItem::Const(None)), "_");
    assert_eq!(display_name(&NamedItem::Other("run".to_string())), "run");
    assert_eq!(name(&NamedItem::Const(None)), "_");
}

#[test]
fn paths_are_joined_with_double_colons() {
    assert_eq!(path(Some("krate"), Some("module::Item")), Some("krate::module::Item".to_string()));
    assert_eq!(path(None, Some("u32")), Some("u32".to_string()));
    assert_eq!(path(Some("krate"), None), Some("krate".to_string()));
    assert_eq!(path(None, None), None);
    assert_eq!(path(Some(""), Some("")), None);
    assert_eq!(path(Some(""), Some("x")), Some("x".to_string()));
    assert_eq!(path(Some("krate"), Some("")), Some("krate::".to_string()));
}

#[test]
fn display_path_of_missing_path() {
    assert_eq!(display_path(Some("a::b".to_string())), "a::b");
    assert_eq!(display_path(None), "<anonymous>");
}

#[test]
fn assoc_item_paths() {
    assert_eq!(assoc_item_path(Some("new"), Some("krate::Type")), Some("krate::Type::new".to_string()));
    assert_eq!(assoc_item_path(None, Some("krate::Type")), None);
    assert_eq!(assoc_item_path(Some("new"), None), None);
}

#[test]
fn has_test_cfg_looks_at_flags_only() {
    assert!(!has_test_cfg(&[]));
    let attrs = vec![
        ItemCfgAttr::KeyValue("test".to_string(), "test".to_string()),
        ItemCfgAttr::Flag("tests".to_string()),
        ItemCfgAttr::All(vec![ItemCfgAttr::Flag("test".to_string())]),
        ItemCfgAttr::Not(Box::new(ItemCfgAttr::Flag("test".to_string()))),
    ];
    assert!(!has_test_cfg(&attrs));
    let attrs = vec![
        ItemCfgAttr::Any(vec![]),
        ItemCfgAttr::Flag("unix".to_string()),
        ItemCfgAttr::Flag("test".to_string()),
    ];
    assert!(has_test_cfg(&attrs));
}

#[test]
fn test_attr_marks_test_functions() {
    assert_eq!(test_attr(true, true), Some(ItemTestAttr));
    assert_eq!(test_attr(true, false), None);
    assert_eq!(test_attr(false, true), None);
    assert_eq!(test_attr(false, false), None);
}

fn segments(path: &[&str]) -> Vec<String> {
    path.iter().map(|s| s.to_string()).collect()
}

#[test]
fn test_use_tree_matches_item_path() {
    let use_tree = segments(&["std", "collections"]);
    assert!(use_tree_matches_item_path(
        &use_tree,
        "std::collections::HashMap"
    ));
    assert!(use_tree_matches_item_path(&use_tree, "std::collections"));
    assert!(!use_tree_matches_item_path(&use_tree, "std::io"));

    let use_tree = segments(&["std"]);
    assert!(use_tree_matches_item_path(&use_tree, "std::collections"));
    assert!(!use_tree_matches_item_path(&use_tree, "core::mem"));
}

#[test]
fn use_tree_longer_than_the_path_does_not_match() {
    assert!(!use_tree_matches_item_path(&segments(&["std", "collections", "HashMap"]), "std::collections"));
    assert!(!use_tree_matches_item_path(&segments(&["std", "collections"]), "std"));
    assert!(use_tree_matches_item_path(&[], "std"));
    assert!(use_tree_matches_item_path(&[], ""));
    assert!(use_tree_matches_item_path(&segments(&[""]), ""));
    assert!(!use_tree_matches_item_path(&segments(&["std"]), "stdx::collections"));
    assert!(!use_tree_matches_item_path(&segments(&["std"]), ""));
}

#[test]
fn paths_split_at_double_colons() {
    assert_eq!(split_path("std::collections::HashMap"), segments(&["std", "collections", "HashMap"]));
    assert_eq!(split_path("std"), segments(&["std"]));
    assert_eq!(split_path(""), segments(&[""]));
    assert_eq!(split_path("::std"), segments(&["", "std"]));
    assert_eq!(split_path("std::"), segments(&["std", ""]));
    assert_eq!(split_path("a:::b"), segments(&["a", ":b"]));
    assert_eq!(split_path("a::::b"), segments(&["a", "", "b"]));
    assert_eq!(split_path("a:b"), segments(&["a:b"]));
    assert_eq!(split_path("ä::ö"), segments(&["ä", "ö"]));
    for path in ["std::collections::HashMap", "", "::", "a:::b", "x:"] {
        let expected: Vec<String> = path.split("::").map(|p| p.to_string()).collect();
        assert_eq!(split_path(path), expected);
    }
}

#[test]
fn text_helpers() {
    assert!(starts_with("https://x", "https://"));
    assert!(starts_with("abc", ""));
    assert!(starts_with("abc", "abc"));
    assert!(!starts_with("ab", "abc"));
    assert!(!starts_with("abd", "abc"));
    assert_eq!(replace_char("a.b.c", '.', '/'), "a/b/c");
    assert_eq!(last_segment_position("a.b.c", '.'), (4, 5));
    assert_eq!(last_segment_position("abc", '.'), (0, 3));
    assert_eq!(last_segment_position("abc.", '.'), (4, 4));
    assert_eq!(last_segment_position("ä.ö", '.'), (2, 3));
    assert_eq!(join_lines(&vec![]), "");
    assert_eq!(join_lines(&segments(&["one"])), "one");
    assert_eq!(join_lines(&segments(&["one", "two", "three"])), "one\ntwo\nthree");
    assert_eq!(join_lines(&segments(&["", ""])), "\n");
}

#[test]
fn module_files_are_rust_files() {
    assert_eq!(module_file(true, "/src/lib.rs"), Some("/src/lib.rs".to_string()));
    assert_eq!(module_file(true, "src/a/mod.rs"), Some("src/a/mod.rs".to_string()));
    assert_eq!(module_file(false, "/src/lib.rs"), None);
    assert_eq!(module_file(true, "/src/lib.txt"), None);
    assert_eq!(module_file(true, "/src/lib"), None);
    assert_eq!(module_file(true, "/src/.rs"), None);
    assert_eq!(module_file(true, "/src.rs/lib"), None);
    assert_eq!(module_file(true, "/src/lib.rs.bak"), None);
    assert_eq!(module_file(true, "/src/a.b.rs"), Some("/src/a.b.rs".to_string()));
    assert_eq!(module_file(false, "/src/a.b.rs"), None);
}

#[test]
fn module_files_by_extension() {
    assert_eq!(module_file_by_extension(true, Some("rs"), "/src/lib.rs"), Some("/src/lib.rs".to_string()));
    assert_eq!(module_file_by_extension(true, Some("rs"), "anything"), Some("anything".to_string()));
    assert_eq!(module_file_by_extension(false, Some("rs"), "/src/lib.rs"), None);
    assert_eq!(module_file_by_extension(true, Some("RS"), "/src/lib.RS"), None);
    assert_eq!(module_file_by_extension(true, Some(""), "/src/lib."), None);
    assert_eq!(module_file_by_extension(true, None, "/src/lib"), None);
}

fn flag(name: &str) -> CfgExpr {
    CfgExpr::Flag(name.to_string())
}

#[test]
fn cfgs_takes_conjunctions_apart() {
    assert_eq!(cfgs(None), vec![]);
    assert_eq!(cfgs(Some(CfgExpr::Invalid)), vec![]);
    assert_eq!(cfgs(Some(flag("test"))), vec![flag("test")]);
    assert_eq!(
        cfgs(Some(CfgExpr::All(vec![flag("a"), CfgExpr::Invalid, CfgExpr::All(vec![flag("b")])]))),
        vec![flag("a"), CfgExpr::Invalid, CfgExpr::All(vec![flag("b")])]
    );
    assert_eq!(cfgs(Some(CfgExpr::All(vec![]))), vec![]);
    assert_eq!(
        cfgs(Some(CfgExpr::Any(vec![flag("a"), flag("b")]))),
        vec![CfgExpr::Any(vec![flag("a"), flag("b")])]
    );
    assert_eq!(
        cfgs(Some(CfgExpr::Not(Box::new(flag("a"))))),
        vec![CfgExpr::Not(Box::new(flag("a")))]
    );
}

#[test]
fn cfg_attrs_drop_what_cannot_be_read() {
    assert_eq!(ItemCfgAttr::new(&CfgExpr::Invalid), None);
    assert_eq!(ItemCfgAttr::new(&flag("test")), Some(ItemCfgAttr::Flag("test".to_string())));
    assert_eq!(
        ItemCfgAttr::new(&CfgExpr::KeyValue("target_os".to_string(), "linux".to_string())),
        Some(ItemCfgAttr::KeyValue("target_os".to_string(), "linux".to_string()))
    );
    assert_eq!(ItemCfgAttr::new(&CfgExpr::Not(Box::new(CfgExpr::Invalid))), None);
    assert_eq!(
        ItemCfgAttr::new(&CfgExpr::Not(Box::new(flag("unix")))),
        Some(ItemCfgAttr::Not(Box::new(ItemCfgAttr::Flag("unix".to_string()))))
    );
    assert_eq!(
        ItemCfgAttr::new(&CfgExpr::Any(vec![
            CfgExpr::Invalid,
            flag("a"),
            CfgExpr::Not(Box::new(CfgExpr::Invalid)),
            CfgExpr::All(vec![CfgExpr::Invalid]),
        ])),
        Some(ItemCfgAttr::Any(vec![
            ItemCfgAttr::Flag("a".to_string()),
            ItemCfgAttr::All(vec![]),
        ]))
    );
    assert_eq!(cfg_attrs(None), vec![]);
    assert_eq!(
        cfg_attrs(Some(CfgExpr::All(vec![flag("test"), CfgExpr::Invalid, flag("unix")]))),
        vec![ItemCfgAttr::Flag("test".to_string()), ItemCfgAttr::Flag("unix".to_string())]
    );
    assert_eq!(
        cfg_attrs(Some(CfgExpr::Any(vec![flag("test")]))),
        vec![ItemCfgAttr::Any(vec![ItemCfgAttr::Flag("test".to_string())])]
    );
    assert!(has_test_cfg(&cfg_attrs(Some(CfgExpr::All(vec![flag("unix"), flag("test")])))));
    assert!(!has_test_cfg(&cfg_attrs(Some(CfgExpr::Any(vec![flag("test")])))));
}

#[test]
fn only_cargo_workspaces_are_analyzed() {
    let options = project_options();
    let packages = vec![package("app", true)];
    let targets = vec![vec![target("app", TargetKind::Lib)]];
    assert_eq!(
        select_package_and_target(WorkspaceKind::Json, &packages, &targets, &options),
        Err("Unexpected JSON workspace".to_string())
    );
    assert_eq!(
        select_package_and_target(WorkspaceKind::DetachedFile, &packages, &targets, &options),
        Err("Unexpected detached files".to_string())
    );
    assert_eq!(select_package_and_target(WorkspaceKind::Cargo, &packages, &targets, &options), Ok((0, 0)));
}

#[test]
fn package_then_target() {
    let mut options = project_options();
    options.package = Some("beta".to_string());
    let packages = vec![package("alpha", true), package("serde", false), package("beta", true)];
    let targets = vec![
        vec![target("alpha", TargetKind::Lib)],
        vec![target("serde", TargetKind::Lib)],
        vec![target("build", TargetKind::BuildScript), target("cli", TargetKind::Bin), target("beta", TargetKind::Lib)],
    ];
    assert_eq!(select_package_and_target(WorkspaceKind::Cargo, &packages, &targets, &options), Ok((2, 2)));
    options.lib = false;
    options.bin = Some("cli".to_string());
    assert_eq!(select_package_and_target(WorkspaceKind::Cargo, &packages, &targets, &options), Ok((2, 1)));
    options.package = Some("gamma".to_string());
    assert_eq!(
        select_package_and_target(WorkspaceKind::Cargo, &packages, &targets, &options),
        Err("No package found with name \"gamma\".\n\nPackages present in workspace:\n- alpha\n- beta\n".to_string())
    );
    options.package = Some("alpha".to_string());
    assert_eq!(
        select_package_and_target(WorkspaceKind::Cargo, &packages, &targets, &options),
        Err("No binary target found with name \"cli\".\n\nTargets present in package:\n- alpha (--lib)\n".to_string())
    );
    // A package for which no targets are given has none.
    options.package = Some("beta".to_string());
    assert_eq!(
        select_package_and_target(WorkspaceKind::Cargo, &packages, &targets[..2].to_vec(), &options),
        Err("no targets found".to_string())
    );
}

#[test]
fn messages_from_quoted_names() {
    assert_eq!(
        unknown_package_text("'x'", "- a\n- b"),
        "No package found with name 'x'.\n\nPackages present in workspace:\n- a\n- b\n"
    );
    assert_eq!(
        unknown_binary_text("<y>", ""),
        "No binary target found with name <y>.\n\nTargets present in package:\n\n"
    );
}

#[test]
fn crate_is_found_by_its_root() {
    let roots = segments(&["/w/a/src/lib.rs", "/w/b/src/main.rs", "/w/b/src/main.rs"]);
    assert_eq!(find_crate(&roots, "/w/b/src/main.rs"), Ok(1));
    assert_eq!(find_crate(&roots, "/w/a/src/lib.rs"), Ok(0));
    assert_eq!(find_crate(&roots, "/w/c/src/lib.rs"), Err("Crate not found".to_string()));
    assert_eq!(find_crate(&vec![], "/w/a/src/lib.rs"), Err("Crate not found".to_string()));
}
