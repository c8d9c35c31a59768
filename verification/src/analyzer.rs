//! Choices made while a crate is loaded for analysis: how cargo is
//! configured, which package and which target are analyzed, and how items
//! are named.

use vstd::prelude::*;
use vstd::string::StrSliceExecFns;
use crate::item::{attr_views, attrs_of, cfg_views, CfgExpr, ItemCfgAttr, ItemTestAttr};
use crate::options::ProjectOptions;
use crate::text::{clone_opt_string, clone_strings, count_matches, debug_text, first_match,
    format_debug, join_lines, joined_lines, opt_text, path_parts, replace_char, replaced,
    split_path, texts};

verus! {

/// How a workspace is loaded for analysis.
#[derive(Clone, Debug, PartialEq, Eq)]
pub struct LoadOptions {
    /// Analyze with `#[cfg(test)]` enabled, as `cargo test` would build.
    pub cfg_test: bool,
    /// Include the sysroot crates (`std`, `core` and the like).
    pub sysroot: bool,
}

/// The features that cargo activates.
#[derive(Debug, PartialEq, Eq)]
pub enum CargoFeatures {
    /// All of them.
    All,
    /// Those listed, and `default` unless it is switched off.
    Selected { features: Vec<String>, no_default_features: bool },
}

/// How cargo is configured for the analysis.
#[derive(Debug, PartialEq, Eq)]
pub struct CargoSettings {
    /// Whether all targets are built, not only the library and binaries.
    pub all_targets: bool,
    /// Whether the `test` cfg flag is enabled for every crate; it is
    /// disabled for every crate otherwise.
    pub enable_test_cfg: bool,
    pub features: CargoFeatures,
    /// Whether dependencies outside the workspace are skipped.
    pub no_deps: bool,
    /// Whether crates are marked as built for tests.
    pub set_test: bool,
    /// Whether the sysroot is looked up and loaded.
    pub discover_sysroot: bool,
    /// The target triple.
    pub target: Option<String>,
    /// Whether build scripts run under a rustc wrapper.
    pub wrap_rustc_in_build_scripts: bool,
}

/// The features that the project options select.
pub open spec fn selects_features(features: CargoFeatures, options: ProjectOptions) -> bool {
    if options.all_features {
        features is All
    } else {
        features matches CargoFeatures::Selected { features: listed, no_default_features }
            && texts(listed@) == texts(options.features@) && no_default_features
            == options.no_default_features
    }
}

/// The cargo configuration for a project under the given load options: the
/// `test` cfg follows `cfg_test`, the sysroot is loaded on demand, and for
/// speed and to keep the analysis from hanging, only the workspace's own
/// library and binary targets are considered, without a rustc wrapper.
pub fn cargo_config(project_options: &ProjectOptions, load_options: &LoadOptions) -> (config:
    CargoSettings)
    ensures
        !config.all_targets,
        config.enable_test_cfg == load_options.cfg_test,
        selects_features(config.features, *project_options),
        config.no_deps,
        config.set_test == load_options.cfg_test,
        config.discover_sysroot == load_options.sysroot,
        opt_text(config.target) == opt_text(project_options.target),
        !config.wrap_rustc_in_build_scripts,
{
    let features = if project_options.all_features {
        CargoFeatures::All
    } else {
        CargoFeatures::Selected {
            features: clone_strings(&project_options.features),
            no_default_features: project_options.no_default_features,
        }
    };
    CargoSettings {
        all_targets: false,
        enable_test_cfg: load_options.cfg_test,
        features,
        no_deps: true,
        set_test: load_options.cfg_test,
        discover_sysroot: load_options.sysroot,
        target: clone_opt_string(&project_options.target),
        wrap_rustc_in_build_scripts: false,
    }
}

/// Where the proc-macro server is taken from.
#[derive(Clone, Copy, Debug, PartialEq, Eq, Structural)]
pub enum ProcMacroServerChoice {
    /// From the sysroot.
    Sysroot,
    /// There is none.
    Disabled,
}

/// How a workspace is loaded.
#[derive(Clone, Copy, Debug, PartialEq, Eq, Structural)]
pub struct LoadSettings {
    /// Whether build scripts are run to find the output directories.
    pub load_out_dirs_from_check: bool,
    /// Whether the caches are filled ahead of use.
    pub prefill_caches: bool,
    pub with_proc_macro_server: ProcMacroServerChoice,
}

/// The load configuration: build scripts are not run, which is what most
/// often makes such a load hang, and no cache is filled ahead of use.
pub fn load_config() -> (config: LoadSettings)
    ensures
        config == (LoadSettings {
            load_out_dirs_from_check: false,
            prefill_caches: false,
            with_proc_macro_server: ProcMacroServerChoice::Sysroot,
        }),
{
    LoadSettings {
        load_out_dirs_from_check: false,
        prefill_caches: false,
        with_proc_macro_server: ProcMacroServerChoice::Sysroot,
    }
}

/// A package of a workspace.
#[derive(Clone, Debug, PartialEq, Eq)]
pub struct PackageInfo {
    pub name: String,
    /// Whether the package is a member of the workspace, not a dependency.
    pub is_member: bool,
}

/// For each package, whether it is a member.
pub open spec fn member_flags(packages: Seq<PackageInfo>) -> Seq<bool> {
    packages.map_values(|p: PackageInfo| p.is_member)
}

/// For each package, whether it is a member of the given name.
pub open spec fn named_member_flags(packages: Seq<PackageInfo>, name: Seq<char>) -> Seq<bool> {
    packages.map_values(|p: PackageInfo| p.is_member && p.name@ == name)
}

/// One line for each member among the first `n` packages, in order.
pub open spec fn package_lines(packages: Seq<PackageInfo>, n: nat) -> Seq<Seq<char>>
    decreases n,
{
    if n == 0 {
        Seq::empty()
    } else {
        let rest = package_lines(packages, (n - 1) as nat);
        if packages[n - 1].is_member {
            rest.push("- "@ + packages[n - 1].name@)
        } else {
            rest
        }
    }
}

/// The list of the workspace's members, as error messages show it.
pub open spec fn package_list(packages: Seq<PackageInfo>) -> Seq<char> {
    joined_lines(package_lines(packages, packages.len()))
}

/// The position of the package to analyze, or the message that says why
/// none can be chosen. Only members of the workspace count. With none
/// there is nothing to choose. A package asked for by name is the first
/// member of that name. With no name given, the one member is chosen if
/// there is just one.
pub open spec fn spec_select_package(packages: Seq<PackageInfo>, wanted: Option<Seq<char>>) -> Result<
    int,
    Seq<char>,
> {
    if count_matches(member_flags(packages), packages.len()) == 0 {
        Err("no packages found"@)
    } else {
        match wanted {
            Some(name) => match first_match(named_member_flags(packages, name), packages.len()) {
                Some(i) => Ok(i),
                None => Err(unknown_package_message(debug_text(name), package_list(packages))),
            },
            None => if count_matches(member_flags(packages), packages.len()) == 1 {
                Ok(first_match(member_flags(packages), packages.len())->0)
            } else {
                Err(
                    "Multiple packages present in workspace,\nplease explicitly select one via --package flag.\n\nPackages present in workspace:\n"@
                        + package_list(packages) + "\n"@,
                )
            },
        }
    }
}

/// The message that says no member has the name asked for, given the name
/// as it is quoted and the list of the members.
pub open spec fn unknown_package_message(quoted: Seq<char>, list: Seq<char>) -> Seq<char> {
    "No package found with name "@ + quoted + ".\n\nPackages present in workspace:\n"@ + list
        + "\n"@
}

/// The message that says no member has the name asked for.
pub fn unknown_package_text(quoted: &str, list: &str) -> (message: String)
    ensures
        message@ == unknown_package_message(quoted@, list@),
{
    let mut message = String::from_str("No package found with name ");
    message.append(quoted);
    message.append(".\n\nPackages present in workspace:\n");
    message.append(list);
    message.append("\n");
    message
}

/// The message that says no binary has the name asked for, given the name
/// as it is quoted and the list of the candidates.
pub open spec fn unknown_binary_message(quoted: Seq<char>, list: Seq<char>) -> Seq<char> {
    "No binary target found with name "@ + quoted + ".\n\nTargets present in package:\n"@ + list
        + "\n"@
}

/// The message that says no binary has the name asked for.
pub fn unknown_binary_text(quoted: &str, list: &str) -> (message: String)
    ensures
        message@ == unknown_binary_message(quoted@, list@),
{
    let mut message = String::from_str("No binary target found with name ");
    message.append(quoted);
    message.append(".\n\nTargets present in package:\n");
    message.append(list);
    message.append("\n");
    message
}

/// A result with its position as an integer and its message as characters.
pub open spec fn choice_view(r: Result<usize, String>) -> Result<int, Seq<char>> {
    match r {
        Ok(i) => Ok(i as int),
        Err(m) => Err(m@),
    }
}

/// Chooses the package to analyze among the packages of a workspace, by
/// its position in `packages`.
pub fn select_package(packages: &Vec<PackageInfo>, options: &ProjectOptions) -> (r: Result<
    usize,
    String,
>)
    ensures
        choice_view(r) == spec_select_package(packages@, opt_text(options.package)),
        r matches Ok(i) ==> i < packages.len() && packages@[i as int].is_member,
{
    let ghost flags = member_flags(packages@);
    let mut count: usize = 0;
    let mut first: Option<usize> = None;
    let mut lines: Vec<String> = Vec::new();
    let mut i: usize = 0;
    while i < packages.len()
        invariant
            i <= packages.len(),
            flags == member_flags(packages@),
            count == count_matches(flags, i as nat),
            count <= i,
            match first {
                Some(k) => first_match(flags, i as nat) == Some(k as int) && k < i
                    && packages@[k as int].is_member,
                None => first_match(flags, i as nat) is None,
            },
            texts(lines@) == package_lines(packages@, i as nat),
        decreases packages.len() - i,
    {
        if packages[i].is_member {
            count += 1;
            if first.is_none() {
                first = Some(i);
            }
            let mut line = String::from_str("- ");
            line.append(packages[i].name.as_str());
            let ghost before = texts(lines@);
            lines.push(line);
            assert(texts(lines@) =~= before.push("- "@ + packages@[i as int].name@));
        }
        i += 1;
    }
    if count < 1 {
        return Err(String::from_str("no packages found"));
    }
    let package_list = join_lines(&lines);
    match &options.package {
        Some(package_name) => {
            let ghost named = named_member_flags(packages@, package_name@);
            let mut found: Option<usize> = None;
            let mut j: usize = 0;
            while j < packages.len()
                invariant
                    j <= packages.len(),
                    named == named_member_flags(packages@, package_name@),
                    match found {
                        Some(k) => first_match(named, j as nat) == Some(k as int) && k < j
                            && packages@[k as int].is_member,
                        None => first_match(named, j as nat) is None,
                    },
                decreases packages.len() - j,
            {
                if found.is_none() && packages[j].is_member && packages[j].name.as_str().eq(
                    package_name.as_str(),
                ) {
                    found = Some(j);
                }
                j += 1;
            }
            match found {
                Some(k) => Ok(k),
                None => {
                    let quoted = format_debug(package_name.as_str());
                    Err(unknown_package_text(quoted.as_str(), package_list.as_str()))
                },
            }
        },
        None => {
            if count == 1 {
                match first {
                    Some(k) => Ok(k),
                    None => {
                        proof {
                            lemma_no_match_counts_zero(flags, packages.len() as nat);
                        }
                        Err(String::new())
                    },
                }
            } else {
                let mut message = String::from_str(
                    "Multiple packages present in workspace,\nplease explicitly select one via --package flag.\n\nPackages present in workspace:\n",
                );
                message.append(package_list.as_str());
                message.append("\n");
                Err(message)
            }
        },
    }
}

/// Where no position holds, none is counted.
proof fn lemma_no_match_counts_zero(flags: Seq<bool>, n: nat)
    requires
        first_match(flags, n) is None,
    ensures
        count_matches(flags, n) == 0,
    decreases n,
{
    if n > 0 {
        lemma_no_match_counts_zero(flags, (n - 1) as nat);
    }
}

/// The kind of a build target.
#[derive(Clone, Copy, Debug, PartialEq, Eq, Structural)]
pub enum TargetKind {
    Bin,
    Lib,
    Example,
    Test,
    Bench,
    Other,
    BuildScript,
}

/// A build target of a package.
#[derive(Clone, Debug, PartialEq, Eq)]
pub struct TargetInfo {
    pub name: String,
    pub kind: TargetKind,
}

/// Whether a target can be analyzed: libraries and binaries can.
pub open spec fn is_candidate(kind: TargetKind) -> bool {
    kind is Bin || kind is Lib
}

/// For each target, whether it can be analyzed.
pub open spec fn candidate_flags(targets: Seq<TargetInfo>) -> Seq<bool> {
    targets.map_values(|t: TargetInfo| is_candidate(t.kind))
}

/// For each target, whether it is a library.
pub open spec fn lib_flags(targets: Seq<TargetInfo>) -> Seq<bool> {
    targets.map_values(|t: TargetInfo| t.kind is Lib)
}

/// For each target, whether it is the binary of the given name.
pub open spec fn bin_flags(targets: Seq<TargetInfo>, name: Seq<char>) -> Seq<bool> {
    targets.map_values(|t: TargetInfo| t.kind is Bin && t.name@ == name)
}

/// The line that lists a target with the flag that selects it.
pub open spec fn target_line(target: TargetInfo) -> Seq<char> {
    if target.kind is Bin {
        "- "@ + target.name@ + " (--bin "@ + target.name@ + ")"@
    } else {
        "- "@ + target.name@ + " (--lib)"@
    }
}

/// One line for each candidate among the first `n` targets, in order.
pub open spec fn target_lines(targets: Seq<TargetInfo>, n: nat) -> Seq<Seq<char>>
    decreases n,
{
    if n == 0 {
        Seq::empty()
    } else {
        let rest = target_lines(targets, (n - 1) as nat);
        if is_candidate(targets[n - 1].kind) {
            rest.push(target_line(targets[n - 1]))
        } else {
            rest
        }
    }
}

/// The list of the package's candidates, as error messages show it.
pub open spec fn target_list(targets: Seq<TargetInfo>) -> Seq<char> {
    joined_lines(target_lines(targets, targets.len()))
}

/// The position of the target to analyze, or the message that says why
/// none can be chosen. Only libraries and binaries count. With none there
/// is nothing to choose. Asked for the library, the first library is
/// chosen; else, asked for a binary by name, the first binary of that
/// name; with neither asked for, the one candidate if there is just one.
pub open spec fn spec_select_target(
    targets: Seq<TargetInfo>,
    lib: bool,
    bin: Option<Seq<char>>,
) -> Result<int, Seq<char>> {
    if count_matches(candidate_flags(targets), targets.len()) == 0 {
        Err("no targets found"@)
    } else if lib {
        match first_match(lib_flags(targets), targets.len()) {
            Some(i) => Ok(i),
            None => Err(
                "No library target found.\n\nTargets present in package:\n"@ + target_list(targets)
                    + "\n"@,
            ),
        }
    } else {
        match bin {
            Some(name) => match first_match(bin_flags(targets, name), targets.len()) {
                Some(i) => Ok(i),
                None => Err(unknown_binary_message(debug_text(name), target_list(targets))),
            },
            None => if count_matches(candidate_flags(targets), targets.len()) == 1 {
                Ok(first_match(candidate_flags(targets), targets.len())->0)
            } else {
                Err(
                    "Multiple targets present in package,\nplease explicitly select one via --lib or --bin flag.\n\nTargets present in package:\n"@
                        + target_list(targets) + "\n"@,
                )
            },
        }
    }
}

fn candidate(kind: TargetKind) -> (r: bool)
    ensures
        r == is_candidate(kind),
{
    match kind {
        TargetKind::Bin => true,
        TargetKind::Lib => true,
        TargetKind::Example => false,
        TargetKind::Test => false,
        TargetKind::Bench => false,
        TargetKind::Other => false,
        TargetKind::BuildScript => false,
    }
}

/// Chooses the target to analyze among the targets of the chosen package,
/// by its position in `targets`.
pub fn select_target(targets: &Vec<TargetInfo>, options: &ProjectOptions) -> (r: Result<usize, String>)
    ensures
        choice_view(r) == spec_select_target(targets@, options.lib, opt_text(options.bin)),
        r matches Ok(i) ==> i < targets.len() && is_candidate(targets@[i as int].kind),
{
    let ghost flags = candidate_flags(targets@);
    let ghost libs = lib_flags(targets@);
    let mut count: usize = 0;
    let mut first: Option<usize> = None;
    let mut first_lib: Option<usize> = None;
    let mut lines: Vec<String> = Vec::new();
    let mut i: usize = 0;
    while i < targets.len()
        invariant
            i <= targets.len(),
            flags == candidate_flags(targets@),
            libs == lib_flags(targets@),
            count == count_matches(flags, i as nat),
            count <= i,
            match first {
                Some(k) => first_match(flags, i as nat) == Some(k as int) && k < i && is_candidate(
                    targets@[k as int].kind,
                ),
                None => first_match(flags, i as nat) is None,
            },
            match first_lib {
                Some(k) => first_match(libs, i as nat) == Some(k as int) && k < i
                    && targets@[k as int].kind is Lib,
                None => first_match(libs, i as nat) is None,
            },
            texts(lines@) == target_lines(targets@, i as nat),
        decreases targets.len() - i,
    {
        let target = &targets[i];
        if candidate(target.kind) {
            count += 1;
            if first.is_none() {
                first = Some(i);
            }
            let mut line = String::from_str("- ");
            line.append(target.name.as_str());
            match target.kind {
                TargetKind::Bin => {
                    line.append(" (--bin ");
                    line.append(target.name.as_str());
                    line.append(")");
                },
                _ => {
                    line.append(" (--lib)");
                    if first_lib.is_none() {
                        first_lib = Some(i);
                    }
                },
            }
            let ghost before = texts(lines@);
            lines.push(line);
            assert(texts(lines@) =~= before.push(target_line(targets@[i as int])));
        }
        i += 1;
    }
    if count < 1 {
        return Err(String::from_str("no targets found"));
    }
    let target_list = join_lines(&lines);
    if options.lib {
        return match first_lib {
            Some(k) => Ok(k),
            None => {
                let mut message = String::from_str(
                    "No library target found.\n\nTargets present in package:\n",
                );
                message.append(target_list.as_str());
                message.append("\n");
                Err(message)
            },
        };
    }
    match &options.bin {
        Some(bin_name) => {
            let ghost named = bin_flags(targets@, bin_name@);
            let mut found: Option<usize> = None;
            let mut j: usize = 0;
            while j < targets.len()
                invariant
                    j <= targets.len(),
                    named == bin_flags(targets@, bin_name@),
                    match found {
                        Some(k) => first_match(named, j as nat) == Some(k as int) && k < j
                            && targets@[k as int].kind is Bin,
                        None => first_match(named, j as nat) is None,
                    },
                decreases targets.len() - j,
            {
                let is_bin = match targets[j].kind {
                    TargetKind::Bin => true,
                    _ => false,
                };
                if found.is_none() && is_bin && targets[j].name.as_str().eq(bin_name.as_str()) {
                    found = Some(j);
                }
                j += 1;
            }
            match found {
                Some(k) => Ok(k),
                None => {
                    let quoted = format_debug(bin_name.as_str());
                    Err(unknown_binary_text(quoted.as_str(), target_list.as_str()))
                },
            }
        },
        None => {
            if count == 1 {
                match first {
                    Some(k) => Ok(k),
                    None => {
                        proof {
                            lemma_no_match_counts_zero(flags, targets.len() as nat);
                        }
                        Err(String::new())
                    },
                }
            } else {
                let mut message = String::from_str(
                    "Multiple targets present in package,\nplease explicitly select one via --lib or --bin flag.\n\nTargets present in package:\n",
                );
                message.append(target_list.as_str());
                message.append("\n");
                Err(message)
            }
        },
    }
}

/// How a project is laid out.
#[derive(Clone, Copy, Debug, PartialEq, Eq, Structural)]
pub enum WorkspaceKind {
    /// A cargo workspace.
    Cargo,
    /// A project described by a JSON file.
    Json,
    /// A file on its own.
    DetachedFile,
}

/// The targets of the package at a position; none where no targets are
/// given for it.
pub open spec fn targets_at(targets: Seq<Vec<TargetInfo>>, position: int) -> Seq<TargetInfo> {
    if 0 <= position < targets.len() {
        targets[position]@
    } else {
        Seq::empty()
    }
}

/// The positions of the package and of the target to analyze, or the
/// message that says why there are none: only a cargo workspace is
/// analyzed; the package is chosen among its packages, and the target among
/// the targets of that package.
pub open spec fn spec_select_package_and_target(
    kind: WorkspaceKind,
    packages: Seq<PackageInfo>,
    targets: Seq<Vec<TargetInfo>>,
    options: ProjectOptions,
) -> Result<(int, int), Seq<char>> {
    match kind {
        WorkspaceKind::Json => Err("Unexpected JSON workspace"@),
        WorkspaceKind::DetachedFile => Err("Unexpected detached files"@),
        WorkspaceKind::Cargo => match spec_select_package(packages, opt_text(options.package)) {
            Err(message) => Err(message),
            Ok(package) => match spec_select_target(
                targets_at(targets, package),
                options.lib,
                opt_text(options.bin),
            ) {
                Err(message) => Err(message),
                Ok(target) => Ok((package, target)),
            },
        },
    }
}

/// Chooses the package and the target to analyze. `targets` holds, for
/// each package of `packages`, the targets of that package.
pub fn select_package_and_target(
    kind: WorkspaceKind,
    packages: &Vec<PackageInfo>,
    targets: &Vec<Vec<TargetInfo>>,
    options: &ProjectOptions,
) -> (r: Result<(usize, usize), String>)
    ensures
        match r {
            Ok((package, target)) => spec_select_package_and_target(
                kind,
                packages@,
                targets@,
                *options,
            ) == Ok::<(int, int), Seq<char>>((package as int, target as int)),
            Err(message) => spec_select_package_and_target(kind, packages@, targets@, *options)
                == Err::<(int, int), Seq<char>>(message@),
        },
{
    match kind {
        WorkspaceKind::Json => Err(String::from_str("Unexpected JSON workspace")),
        WorkspaceKind::DetachedFile => Err(String::from_str("Unexpected detached files")),
        WorkspaceKind::Cargo => match select_package(packages, options) {
            Err(message) => Err(message),
            Ok(package) => {
                let chosen = if package < targets.len() {
                    select_target(&targets[package], options)
                } else {
                    let none: Vec<TargetInfo> = Vec::new();
                    select_target(&none, options)
                };
                match chosen {
                    Err(message) => Err(message),
                    Ok(target) => Ok((package, target)),
                }
            },
        },
    }
}

/// For each root, whether it is the given path.
pub open spec fn root_flags(roots: Seq<String>, path: Seq<char>) -> Seq<bool> {
    roots.map_values(|root: String| root@ == path)
}

/// The position of the crate to analyze among the crates that were loaded:
/// the first whose root file is the root of the chosen target.
pub fn find_crate(crate_roots: &Vec<String>, target_root: &str) -> (r: Result<usize, String>)
    ensures
        match r {
            Ok(position) => first_match(root_flags(crate_roots@, target_root@), crate_roots@.len())
                == Some(position as int) && position < crate_roots.len(),
            Err(message) => first_match(root_flags(crate_roots@, target_root@), crate_roots@.len())
                is None && message@ == "Crate not found"@,
        },
{
    let ghost flags = root_flags(crate_roots@, target_root@);
    let mut i: usize = 0;
    while i < crate_roots.len()
        invariant
            i <= crate_roots.len(),
            flags == root_flags(crate_roots@, target_root@),
            first_match(flags, i as nat) is None,
        decreases crate_roots.len() - i,
    {
        if crate_roots[i].as_str().eq(target_root) {
            proof {
                lemma_first_match_extends(flags, (i + 1) as nat, crate_roots@.len());
            }
            return Ok(i);
        }
        i += 1;
    }
    Err(String::from_str("Crate not found"))
}

/// A first match stays the first match when more positions are looked at.
proof fn lemma_first_match_extends(flags: Seq<bool>, n: nat, m: nat)
    requires
        n <= m,
        first_match(flags, n) is Some,
    ensures
        first_match(flags, m) == first_match(flags, n),
    decreases m,
{
    if n < m {
        lemma_first_match_extends(flags, n, (m - 1) as nat);
    }
}

/// The name by which a crate is referred to in paths: its declared name
/// with every `-` replaced by `_`.
pub fn crate_name(display_name: &str) -> (name: String)
    ensures
        name@ == replaced(display_name@, '-', '_'),
{
    replace_char(display_name, '-', '_')
}

/// The name that is displayed for an item. The root module of a crate goes
/// by the crate's name and a constant without a name by `_`.
pub enum NamedItem {
    /// The root module of the crate that declares itself under this name.
    CrateRoot(String),
    /// A constant, with its name if it has one.
    Const(Option<String>),
    /// Any other item, by its name.
    Other(String),
}

/// The name that is displayed for an item.
pub open spec fn spec_display_name(item: NamedItem) -> Seq<char> {
    match item {
        NamedItem::CrateRoot(declared) => replaced(declared@, '-', '_'),
        NamedItem::Const(Some(name)) => name@,
        NamedItem::Const(None) => "_"@,
        NamedItem::Other(name) => name@,
    }
}

/// The name that is displayed for an item.
pub fn display_name(item: &NamedItem) -> (name: String)
    ensures
        name@ == spec_display_name(*item),
{
    match item {
        NamedItem::CrateRoot(declared) => crate_name(declared.as_str()),
        NamedItem::Const(Some(name)) => name.clone(),
        NamedItem::Const(None) => String::from_str("_"),
        NamedItem::Other(name) => name.clone(),
    }
}

/// The name of an item; the same as `display_name`.
pub fn name(item: &NamedItem) -> (name: String)
    ensures
        name@ == spec_display_name(*item),
{
    display_name(item)
}

/// The path of an item: the name of its crate, if it has one, and its path
/// within the crate, if it has one, joined by `::`. There is no path when
/// both are missing or empty.
pub open spec fn spec_path(crate_name: Option<Seq<char>>, relative: Option<Seq<char>>) -> Option<
    Seq<char>,
> {
    let head = match crate_name {
        Some(name) => name,
        None => Seq::empty(),
    };
    let whole = match relative {
        Some(rel) => if head.len() > 0 {
            head + "::"@ + rel
        } else {
            rel
        },
        None => head,
    };
    if whole.len() == 0 {
        None
    } else {
        Some(whole)
    }
}

/// The path of an item from the name of its crate and its path within the
/// crate.
pub fn path(crate_name: Option<&str>, relative: Option<&str>) -> (r: Option<String>)
    ensures
        opt_text(r) == spec_path(crate::text::opt_str(crate_name), crate::text::opt_str(relative)),
{
    let mut path = String::new();
    match crate_name {
        Some(name) => {
            path.append(name);
            assert(path@ =~= name@);
        },
        None => {},
    }
    match relative {
        Some(rel) => {
            if path.as_str().unicode_len() > 0 {
                path.append("::");
            }
            let ghost before = path@;
            path.append(rel);
            assert(before.len() == 0 ==> path@ =~= rel@);
        },
        None => {},
    }
    if path.as_str().unicode_len() == 0 {
        None
    } else {
        Some(path)
    }
}

/// The path that is displayed for an item; an item without a path shows as
/// `<anonymous>`.
pub fn display_path(path: Option<String>) -> (shown: String)
    ensures
        shown@ == match path {
            Some(p) => p@,
            None => "<anonymous>"@,
        },
{
    match path {
        Some(p) => p,
        None => String::from_str("<anonymous>"),
    }
}

/// The path of an associated item: the path of the trait or type that
/// holds it, then `::`, then its name. There is none when either is
/// missing.
pub fn assoc_item_path(name: Option<&str>, container_path: Option<&str>) -> (r: Option<String>)
    ensures
        opt_text(r) == match (name, container_path) {
            (Some(n), Some(c)) => Some(c@ + "::"@ + n@),
            _ => None,
        },
{
    match name {
        None => None,
        Some(n) => match container_path {
            None => None,
            Some(c) => {
                let mut path = String::from_str(c);
                path.append("::");
                path.append(n);
                Some(path)
            },
        },
    }
}

/// The conditions under which an item exists, one by one: the members of
/// a conjunction, the condition itself if it is anything else, and nothing
/// where there is no condition or it could not be read.
pub open spec fn spec_cfgs(cfg: Option<CfgExpr>) -> Seq<CfgExpr> {
    match cfg {
        None => Seq::empty(),
        Some(CfgExpr::Invalid) => Seq::empty(),
        Some(CfgExpr::All(list)) => list@,
        Some(other) => seq![other],
    }
}

/// Takes the condition of an item apart into the conditions that must all
/// hold.
pub fn cfgs(cfg: Option<CfgExpr>) -> (r: Vec<CfgExpr>)
    ensures
        r@ == spec_cfgs(cfg),
{
    match cfg {
        None => Vec::new(),
        Some(CfgExpr::Invalid) => Vec::new(),
        Some(CfgExpr::All(list)) => list,
        Some(other) => {
            let mut r: Vec<CfgExpr> = Vec::new();
            r.push(other);
            assert(r@ =~= seq![other]);
            r
        },
    }
}

/// The cfg conditions of an item: what each of the conditions that must
/// all hold stands for, in order, without those that stand for nothing.
pub fn cfg_attrs(cfg: Option<CfgExpr>) -> (r: Vec<ItemCfgAttr>)
    ensures
        attr_views(r@, r@.len()) == attrs_of(
            cfg_views(spec_cfgs(cfg), spec_cfgs(cfg).len()),
            spec_cfgs(cfg).len(),
        ),
{
    let conditions = cfgs(cfg);
    ItemCfgAttr::all_of(&conditions)
}

/// Whether a list of cfg conditions holds the flag `test`.
pub open spec fn spec_has_test_cfg(attrs: Seq<ItemCfgAttr>) -> bool {
    exists|i: int| 0 <= i < attrs.len() && (#[trigger] attrs[i] matches ItemCfgAttr::Flag(flag)
        && flag@ == "test"@)
}

/// Whether a list of cfg conditions holds the flag `test`.
pub fn has_test_cfg(attrs: &[ItemCfgAttr]) -> (r: bool)
    ensures
        r == spec_has_test_cfg(attrs@),
{
    let mut i: usize = 0;
    while i < attrs.len()
        invariant
            i <= attrs.len(),
            forall|j: int|
                0 <= j < i ==> !(#[trigger] attrs@[j] matches ItemCfgAttr::Flag(flag) && flag@
                    == "test"@),
        decreases attrs.len() - i,
    {
        match &attrs[i] {
            ItemCfgAttr::Flag(flag) => {
                if flag.as_str().eq("test") {
                    return true;
                }
            },
            _ => {},
        }
        i += 1;
    }
    false
}

/// The test mark of an item: functions that carry `#[test]` have it.
pub fn test_attr(is_function: bool, is_test: bool) -> (r: Option<ItemTestAttr>)
    ensures
        r is Some <==> is_function && is_test,
{
    if is_function && is_test {
        Some(ItemTestAttr)
    } else {
        None
    }
}

/// Whether the path of a use tree leads to the item at `path` or to
/// something that holds it: the segments of the use path are the first
/// parts of the item's path.
pub fn use_tree_matches_item_path(segments: &[String], path: &str) -> (r: bool)
    ensures
        r == texts(segments@).is_prefix_of(path_parts(path@)),
{
    let parts = split_path(path);
    if segments.len() > parts.len() {
        return false;
    }
    let mut i: usize = 0;
    while i < segments.len()
        invariant
            i <= segments.len() <= parts.len(),
            texts(parts@) == path_parts(path@),
            forall|j: int| 0 <= j < i ==> segments@[j]@ == parts@[j]@,
        decreases segments.len() - i,
    {
        if !segments[i].as_str().eq(parts[i].as_str()) {
            proof {
                let a = texts(segments@);
                let b = texts(parts@);
                assert(b.subrange(0, a.len() as int)[i as int] != a[i as int]);
            }
            return false;
        }
        i += 1;
    }
    proof {
        let a = texts(segments@);
        let b = texts(parts@);
        assert(a =~= b.subrange(0, a.len() as int));
    }
    true
}

/// Calls `std::path::Path::extension` and gives the extension as text. The
/// extension is a part of the file name after a `.`, so it holds neither a
/// `.` nor a `/`; which part it is depends on how the platform reads paths.
#[verifier::external_body]
fn path_extension(path: &str) -> (r: Option<String>)
    ensures
        r matches Some(ext) ==> !ext@.contains('.') && !ext@.contains('/'),
{
    std::path::Path::new(path).extension().and_then(|ext| ext.to_str()).map(|ext| ext.to_string())
}

/// The file of a module, given the extension of its source path: the path,
/// if the module is one that is declared by a file of its own and that
/// file is a `.rs` file.
pub open spec fn spec_module_file(
    is_file_module: bool,
    extension: Option<Seq<char>>,
    path: Seq<char>,
) -> Option<Seq<char>> {
    if is_file_module && extension == Some("rs"@) {
        Some(path)
    } else {
        None
    }
}

/// The file of a module whose source lies at `path`, a path with the given
/// extension.
pub fn module_file_by_extension(is_file_module: bool, extension: Option<&str>, path: &str) -> (r:
    Option<String>)
    ensures
        opt_text(r) == spec_module_file(is_file_module, crate::text::opt_str(extension), path@),
{
    if !is_file_module {
        return None;
    }
    match extension {
        Some(ext) => {
            if ext.eq("rs") {
                Some(String::from_str(path))
            } else {
                None
            }
        },
        None => None,
    }
}

/// The file of a module, given whether the module is declared by a file of
/// its own and where its source lies. The platform's reading of the path
/// decides what its extension is; a module that is not declared by a file
/// of its own has no file, and the file of any other is its source path or
/// nothing.
pub fn module_file(is_file_module: bool, path: &str) -> (r: Option<String>)
    ensures
        !is_file_module ==> r is None,
        r matches Some(file) ==> file@ == path@,
{
    let extension = path_extension(path);
    match &extension {
        Some(ext) => module_file_by_extension(is_file_module, Some(ext.as_str()), path),
        None => module_file_by_extension(is_file_module, None, path),
    }
}

} // verus!
