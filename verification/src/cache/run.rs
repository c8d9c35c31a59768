//! One request to cache a package, as a conversation: the library says what
//! has to be done outside next, the caller does it and reports how it
//! went, until the library has its response.

use vstd::prelude::*;
use crate::cache::docgen::{Artifact, ArtifactView, GenerateRequest, GenerateRequestView,
    MemberGeneration};
use crate::cache::downloader::{extract_source_params, source_kind, source_kind_of,
    source_label, source_params, source_type_of, validate_source, validation_failure,
    AcquireRequest, AcquireRequestView, CrateSource, SourceKind};
use crate::cache::error::{member_not_found_message, member_not_found_text,
    precondition_message, precondition_text};
use crate::cache::service::{acquire_from, after_acquisition, after_generation,
    generate_request, spec_acquire_from, spec_generate_request};
use crate::cache::storage::{entry_of, fresh_entry, index_has_docs, index_has_member_docs,
    spec_backup_path, spec_crate_path, spec_source_path, CacheIndex, CacheKey, CacheStorage,
    EntryView, SourceTree};
use crate::cache::transaction::{restored, CacheTransaction, TransactionError, TransactionState};
use crate::cache::utils::{members_response, CacheResponse, CacheResponseView};
use crate::cache::workspace::{ManifestReport, WorkspaceHandler};
use crate::text::{clone_opt_string, clone_strings, join_lines, joined_lines, last_segment,
    opt_str, opt_text, opt_texts, texts};

verus! {

/// What is to be done for one member of a workspace.
#[derive(Debug, PartialEq, Eq)]
pub struct MemberPlan {
    /// The path of the member under the source tree.
    pub member_path: String,
    /// The name under which its artifact is stored.
    pub member_name: String,
    /// Set when nothing is to be done: an artifact of the member is stored
    /// already, and this says whether it can be read.
    pub settled: Option<Result<(), String>>,
    /// The acquisition to make first, when the source is not cached.
    pub acquire: Option<AcquireRequest>,
    /// The generation to make then.
    pub generate: GenerateRequest,
}

/// A `MemberPlan` with its texts as character sequences.
pub struct MemberPlanView {
    pub member_path: Seq<char>,
    pub member_name: Seq<char>,
    pub settled: Option<Result<(), Seq<char>>>,
    pub acquire: Option<AcquireRequestView>,
    pub generate: GenerateRequestView,
}

impl View for MemberPlan {
    type V = MemberPlanView;

    open spec fn view(&self) -> MemberPlanView {
        MemberPlanView {
            member_path: self.member_path@,
            member_name: self.member_name@,
            settled: match self.settled {
                Some(Ok(_)) => Some(Ok(())),
                Some(Err(m)) => Some(Err(m@)),
                None => None,
            },
            acquire: match self.acquire {
                Some(r) => Some(r@),
                None => None,
            },
            generate: self.generate@,
        }
    }
}

/// The views of a list of plans.
pub open spec fn plan_views(plans: Seq<MemberPlan>) -> Seq<MemberPlanView> {
    plans.map_values(|p: MemberPlan| p@)
}

/// How the work for one member went.
#[derive(Debug, PartialEq, Eq)]
pub struct MemberReport {
    /// The source tree, if this member's task acquired it.
    pub source: Option<SourceTree>,
    /// How generating the member's artifact went. A task whose acquisition
    /// failed reports that failure here.
    pub docs: MemberGeneration,
}

/// The files of a cache entry and the place where they are set aside.
#[derive(Clone, Debug, PartialEq, Eq)]
pub struct BackupRequest {
    pub name: String,
    pub version: String,
    /// The directory of the entry.
    pub entry: String,
    /// The directory that holds the entry while it is set aside.
    pub backup: String,
}

/// A `BackupRequest` with its texts as character sequences.
pub struct BackupRequestView {
    pub name: Seq<char>,
    pub version: Seq<char>,
    pub entry: Seq<char>,
    pub backup: Seq<char>,
}

impl View for BackupRequest {
    type V = BackupRequestView;

    open spec fn view(&self) -> BackupRequestView {
        BackupRequestView {
            name: self.name@,
            version: self.version@,
            entry: self.entry@,
            backup: self.backup@,
        }
    }
}

/// What the caller has to do next.
#[derive(Debug, PartialEq, Eq)]
pub enum CacheRequest {
    /// Move the files of the entry aside, so that the entry's directory is
    /// free and the files can be put back.
    SetAside(BackupRequest),
    /// Put the files that were set aside back in place of whatever is in
    /// the entry's directory.
    Restore(BackupRequest),
    /// Delete the files that were set aside.
    Discard(BackupRequest),
    /// Acquire the source.
    Acquire(AcquireRequest),
    /// Report on the manifest at this path.
    Inspect { manifest_path: String },
    /// Generate the package's artifact.
    Generate(GenerateRequest),
    /// Carry out every plan that is not settled, each on its own and all of
    /// them to the end, and report on each plan in order.
    Members(Vec<MemberPlan>),
}

/// A `CacheRequest` with its texts as character sequences.
pub enum CacheRequestView {
    SetAside(BackupRequestView),
    Restore(BackupRequestView),
    Discard(BackupRequestView),
    Acquire(AcquireRequestView),
    Inspect { manifest_path: Seq<char> },
    Generate(GenerateRequestView),
    Members(Seq<MemberPlanView>),
}

impl View for CacheRequest {
    type V = CacheRequestView;

    open spec fn view(&self) -> CacheRequestView {
        match *self {
            CacheRequest::SetAside(r) => CacheRequestView::SetAside(r@),
            CacheRequest::Restore(r) => CacheRequestView::Restore(r@),
            CacheRequest::Discard(r) => CacheRequestView::Discard(r@),
            CacheRequest::Acquire(r) => CacheRequestView::Acquire(r@),
            CacheRequest::Inspect { manifest_path } => CacheRequestView::Inspect {
                manifest_path: manifest_path@,
            },
            CacheRequest::Generate(r) => CacheRequestView::Generate(r@),
            CacheRequest::Members(plans) => CacheRequestView::Members(plan_views(plans@)),
        }
    }
}

/// How what was asked for went.
#[derive(Debug, PartialEq, Eq)]
pub enum CacheReply {
    SetAside(Result<(), String>),
    Restored,
    Discarded(Result<(), String>),
    Acquired(Result<SourceTree, String>),
    Inspected(ManifestReport),
    Generated(Result<Artifact, String>),
    Members(Vec<MemberReport>),
}

/// What a request in progress is waiting for.
pub enum PhaseView {
    SettingAside,
    Acquiring,
    Inspecting,
    Generating,
    Members(Seq<MemberPlanView>),
    /// The update succeeded with this response.
    Discarding(CacheResponseView),
    /// The update failed with this message.
    Restoring(Seq<char>),
}

/// A request in progress.
pub struct RunView {
    pub crate_name: Seq<char>,
    pub version: Seq<char>,
    pub members: Option<Seq<Seq<char>>>,
    pub source: Option<Seq<char>>,
    /// The backend that serves the source.
    pub kind: SourceKind,
    pub source_type: Seq<char>,
    pub phase: PhaseView,
    /// Whether the request replaces a cached entry, under a transaction
    /// that is still pending.
    pub updating: bool,
    /// The entry that the transaction holds.
    pub backup: Option<EntryView>,
}

/// The next step of a request: a request to the caller, or the response.
pub enum StepView {
    Ask(RunView, CacheRequestView),
    Done(CacheResponseView),
}

/// The cache and the step that a reply leads to.
pub struct Progress {
    pub index: CacheIndex,
    pub step: StepView,
}

/// The key that a request is about.
pub open spec fn run_key(run: RunView) -> CacheKey {
    (run.crate_name, run.version)
}

/// The files of the entry of a key and their place while set aside.
pub open spec fn backup_request(root: Seq<char>, name: Seq<char>, version: Seq<char>) -> BackupRequestView {
    BackupRequestView {
        name,
        version,
        entry: spec_crate_path(root, name, version),
        backup: spec_backup_path(root, name, version),
    }
}

/// What is reported of a reply that answers another request than the one
/// made.
pub open spec fn unexpected_reply() -> Seq<char> {
    "unexpected reply"@
}

/// The request fails for the reason `cause`. An update is rolled back
/// first: the entry that the transaction holds is put back into the cache,
/// the caller is asked to restore its files, and the response follows. The
/// response of any other request follows at once and says `prefix` and the
/// cause.
pub open spec fn fail(
    root: Seq<char>,
    index: CacheIndex,
    run: RunView,
    prefix: Seq<char>,
    cause: Seq<char>,
) -> Progress {
    if run.updating {
        Progress {
            index: restored(index, run_key(run), true, run.backup),
            step: StepView::Ask(
                RunView {
                    phase: PhaseView::Restoring("Update failed, restored from backup: "@ + cause),
                    updating: false,
                    backup: None,
                    ..run
                },
                CacheRequestView::Restore(backup_request(root, run.crate_name, run.version)),
            ),
        }
    } else {
        Progress { index, step: StepView::Done(CacheResponseView::Error { message: prefix + cause }) }
    }
}

/// The request succeeds with `response`. An update is committed first: the
/// caller is asked to discard what was set aside.
pub open spec fn succeed(root: Seq<char>, index: CacheIndex, run: RunView, response: CacheResponseView) -> Progress {
    if run.updating {
        Progress {
            index,
            step: StepView::Ask(
                RunView { phase: PhaseView::Discarding(response), ..run },
                CacheRequestView::Discard(backup_request(root, run.crate_name, run.version)),
            ),
        }
    } else {
        Progress { index, step: StepView::Done(response) }
    }
}

/// The response that says the package is cached.
pub open spec fn success_response(run: RunView) -> CacheResponseView {
    if run.updating {
        CacheResponseView::SuccessUpdated { crate_name: run.crate_name, version: run.version }
    } else {
        CacheResponseView::Success { crate_name: run.crate_name, version: run.version }
    }
}

/// The manifest at the root of the source tree of a key.
pub open spec fn manifest_path(root: Seq<char>, name: Seq<char>, version: Seq<char>) -> Seq<char> {
    spec_source_path(root, name, version) + "/Cargo.toml"@
}

/// Asks for a report on the manifest of the package.
pub open spec fn inspect(root: Seq<char>, index: CacheIndex, run: RunView) -> Progress {
    Progress {
        index,
        step: StepView::Ask(
            RunView { phase: PhaseView::Inspecting, ..run },
            CacheRequestView::Inspect {
                manifest_path: manifest_path(root, run.crate_name, run.version),
            },
        ),
    }
}

/// What is to be done for the member at `member_path`, as the cache stands.
pub open spec fn member_plan(
    root: Seq<char>,
    index: CacheIndex,
    name: Seq<char>,
    version: Seq<char>,
    source: Option<Seq<char>>,
    kind: SourceKind,
    member_path: Seq<char>,
) -> MemberPlanView {
    let member_name = last_segment(member_path, '/');
    MemberPlanView {
        member_path,
        member_name,
        settled: if index_has_member_docs(index, (name, version), member_name) {
            Some(
                match index[(name, version)].members[member_name].failure {
                    None => Ok(()),
                    Some(m) => Err(m),
                },
            )
        } else {
            None
        },
        acquire: if index.contains_key((name, version)) {
            None
        } else {
            Some(spec_acquire_from(root, name, version, source, kind))
        },
        generate: spec_generate_request(root, name, version, Some(member_path)),
    }
}

/// One plan for each member asked for, in order, all made of the cache as
/// it stands when the members are handed out.
pub open spec fn member_plans(
    root: Seq<char>,
    index: CacheIndex,
    name: Seq<char>,
    version: Seq<char>,
    source: Option<Seq<char>>,
    kind: SourceKind,
    members: Seq<Seq<char>>,
) -> Seq<MemberPlanView> {
    Seq::new(
        members.len(),
        |i: int| member_plan(root, index, name, version, source, kind, members[i]),
    )
}

/// The work itself: the members where some are asked for; else the source,
/// which is acquired unless it is cached, and then inspected.
pub open spec fn proceed(root: Seq<char>, index: CacheIndex, run: RunView) -> Progress {
    match run.members {
        Some(members) => {
            let plans = member_plans(
                root,
                index,
                run.crate_name,
                run.version,
                run.source,
                run.kind,
                members,
            );
            Progress {
                index,
                step: StepView::Ask(
                    RunView { phase: PhaseView::Members(plans), ..run },
                    CacheRequestView::Members(plans),
                ),
            }
        },
        None => if index.contains_key(run_key(run)) {
            inspect(root, index, run)
        } else {
            Progress {
                index,
                step: StepView::Ask(
                    RunView { phase: PhaseView::Acquiring, ..run },
                    CacheRequestView::Acquire(
                        spec_acquire_from(root, run.crate_name, run.version, run.source, run.kind),
                    ),
                ),
            }
        },
    }
}

/// Caches an ordinary package: an artifact that is stored is only read
/// back; else its generation is asked for.
pub open spec fn regular(root: Seq<char>, index: CacheIndex, run: RunView) -> Progress {
    if index_has_docs(index, run_key(run)) {
        match index[run_key(run)].docs->0.failure {
            None => succeed(root, index, run, success_response(run)),
            Some(m) => fail(root, index, run, "Failed to cache crate: "@, m),
        }
    } else {
        Progress {
            index,
            step: StepView::Ask(
                RunView { phase: PhaseView::Generating, ..run },
                CacheRequestView::Generate(
                    spec_generate_request(root, run.crate_name, run.version, None),
                ),
            ),
        }
    }
}

/// What follows the report on the manifest. A workspace is reported with
/// its members and nothing is generated. An ordinary package is cached. A
/// manifest that cannot be read fails an update; otherwise the package is
/// taken for an ordinary one.
pub open spec fn after_inspection(
    root: Seq<char>,
    index: CacheIndex,
    run: RunView,
    report: ManifestReport,
) -> Progress {
    match report.is_workspace {
        Ok(true) => match report.members {
            Ok(members) => succeed(
                root,
                index,
                run,
                CacheResponseView::WorkspaceDetected {
                    crate_name: run.crate_name,
                    version: run.version,
                    members: texts(members@),
                    source_type: run.source_type,
                    updated: run.updating,
                },
            ),
            Err(e) => fail(
                root,
                index,
                run,
                "Failed to cache crate: "@,
                "Failed to get workspace members: "@ + e@,
            ),
        },
        Ok(false) => regular(root, index, run),
        Err(e) => if run.updating {
            fail(root, index, run, "Failed to cache crate: "@, e@)
        } else {
            regular(root, index, run)
        },
    }
}

/// What follows the outcome of generating the package's artifact.
pub open spec fn after_generated(
    root: Seq<char>,
    index: CacheIndex,
    run: RunView,
    generated: Result<Artifact, String>,
) -> Progress {
    let stored = after_generation(index, run_key(run), generated);
    if !index.contains_key(run_key(run)) {
        fail(
            root,
            stored,
            run,
            "Failed to cache crate: "@,
            precondition_message(run.crate_name, run.version),
        )
    } else {
        match generated {
            Err(e) => fail(root, stored, run, "Failed to cache crate: "@, e@),
            Ok(artifact) => match artifact@.failure {
                None => succeed(root, stored, run, success_response(run)),
                Some(m) => fail(root, stored, run, "Failed to cache crate: "@, m),
            },
        }
    }
}

/// The report on the plan at position `i`, if there is one.
pub open spec fn report_for(reports: Seq<MemberReport>, i: int) -> Option<MemberReport> {
    if 0 <= i < reports.len() {
        Some(reports[i])
    } else {
        None
    }
}

/// Whether the source was at hand for a member's generation: cached when
/// the plan was made and still so, or acquired by the member's own task.
pub open spec fn member_source_ready(cached: bool, plan: MemberPlanView, report: MemberReport) -> bool {
    if plan.acquire is None {
        cached
    } else {
        report.source is Some
    }
}

/// The artifact that a member's report brings into the cache, if any.
pub open spec fn member_artifact(
    cached: bool,
    plan: MemberPlanView,
    report: Option<MemberReport>,
) -> Option<ArtifactView> {
    match report {
        Some(r) => match r.docs {
            MemberGeneration::Generated(artifact) => if plan.settled is None
                && member_source_ready(cached, plan, r) {
                Some(artifact@)
            } else {
                None
            },
            _ => None,
        },
        None => None,
    }
}

/// How caching one member ended: well, or with the reason why not. It is
/// decided by the member's own plan and report, and by whether the source
/// is cached; no other member has a part in it.
pub open spec fn member_outcome(
    cached: bool,
    name: Seq<char>,
    version: Seq<char>,
    plan: MemberPlanView,
    report: Option<MemberReport>,
) -> Result<(), Seq<char>> {
    match plan.settled {
        Some(settled) => settled,
        None => match report {
            None => Err("member task did not report"@),
            Some(r) => match r.docs {
                MemberGeneration::ManifestMissing => Err(
                    member_not_found_message(plan.member_path, name, version),
                ),
                MemberGeneration::Failed(e) => Err(e@),
                MemberGeneration::Generated(artifact) => if !member_source_ready(
                    cached,
                    plan,
                    r,
                ) {
                    Err(precondition_message(name, version))
                } else {
                    match artifact@.failure {
                        None => Ok(()),
                        Some(m) => Err(m),
                    }
                },
            },
        },
    }
}

/// The line that reports a member as cached.
pub open spec fn success_line(member_path: Seq<char>) -> Seq<char> {
    "Successfully cached member: "@ + member_path
}

/// The line that reports why a member was not cached.
pub open spec fn failure_line(member_path: Seq<char>, cause: Seq<char>) -> Seq<char> {
    "Failed to cache member "@ + member_path + ": "@ + cause
}

/// The success lines of the first `n` plans, in order.
pub open spec fn member_results(
    cached: bool,
    name: Seq<char>,
    version: Seq<char>,
    plans: Seq<MemberPlanView>,
    reports: Seq<MemberReport>,
    n: nat,
) -> Seq<Seq<char>>
    decreases n,
{
    if n == 0 {
        Seq::empty()
    } else {
        let rest = member_results(cached, name, version, plans, reports, (n - 1) as nat);
        match member_outcome(cached, name, version, plans[n - 1], report_for(reports, n - 1)) {
            Ok(_) => rest.push(success_line(plans[n - 1].member_path)),
            Err(_) => rest,
        }
    }
}

/// The failure lines of the first `n` plans, in order.
pub open spec fn member_errors(
    cached: bool,
    name: Seq<char>,
    version: Seq<char>,
    plans: Seq<MemberPlanView>,
    reports: Seq<MemberReport>,
    n: nat,
) -> Seq<Seq<char>>
    decreases n,
{
    if n == 0 {
        Seq::empty()
    } else {
        let rest = member_errors(cached, name, version, plans, reports, (n - 1) as nat);
        match member_outcome(cached, name, version, plans[n - 1], report_for(reports, n - 1)) {
            Ok(_) => rest,
            Err(e) => rest.push(failure_line(plans[n - 1].member_path, e)),
        }
    }
}

/// The first source tree that the reports bring.
pub open spec fn first_tree(reports: Seq<MemberReport>) -> Option<SourceTree>
    decreases reports.len(),
{
    if reports.len() == 0 {
        None
    } else {
        match first_tree(reports.drop_last()) {
            Some(tree) => Some(tree),
            None => reports.last().source,
        }
    }
}

/// The cache with the source that the members' tasks acquired, if the key
/// was not cached and any of them brought a tree.
pub open spec fn with_member_source(index: CacheIndex, key: CacheKey, reports: Seq<MemberReport>) -> CacheIndex {
    if index.contains_key(key) {
        index
    } else {
        match first_tree(reports) {
            Some(tree) => index.insert(key, fresh_entry(tree)),
            None => index,
        }
    }
}

/// `index` with an artifact stored for a member, where the key is cached.
pub open spec fn with_member_docs(
    index: CacheIndex,
    key: CacheKey,
    member: Seq<char>,
    artifact: ArtifactView,
) -> CacheIndex {
    if index.contains_key(key) {
        index.insert(
            key,
            EntryView { members: index[key].members.insert(member, artifact), ..index[key] },
        )
    } else {
        index
    }
}

/// The cache with the artifacts that the first `n` reports bring.
pub open spec fn with_member_artifacts(
    index: CacheIndex,
    key: CacheKey,
    cached: bool,
    plans: Seq<MemberPlanView>,
    reports: Seq<MemberReport>,
    n: nat,
) -> CacheIndex
    decreases n,
{
    if n == 0 {
        index
    } else {
        let rest = with_member_artifacts(index, key, cached, plans, reports, (n - 1) as nat);
        match member_artifact(cached, plans[n - 1], report_for(reports, n - 1)) {
            Some(artifact) => with_member_docs(rest, key, plans[n - 1].member_name, artifact),
            None => rest,
        }
    }
}

/// The members of a request, none where all of the package is asked for.
pub open spec fn members_asked(run: RunView) -> Seq<Seq<char>> {
    match run.members {
        Some(members) => members,
        None => Seq::empty(),
    }
}

/// What follows the reports on the members: what they bring is stored, and
/// the response lists one line for each member, successes and failures
/// apart and each in the order of the members. An update in which every
/// member failed is a failed update.
pub open spec fn after_members(
    root: Seq<char>,
    index: CacheIndex,
    run: RunView,
    plans: Seq<MemberPlanView>,
    reports: Seq<MemberReport>,
) -> Progress {
    let key = run_key(run);
    let cached = index.contains_key(key);
    let stored = with_member_artifacts(
        with_member_source(index, key, reports),
        key,
        cached,
        plans,
        reports,
        plans.len(),
    );
    let results = member_results(cached, run.crate_name, run.version, plans, reports, plans.len());
    let errors = member_errors(cached, run.crate_name, run.version, plans, reports, plans.len());
    if run.updating && errors.len() > 0 && results.len() == 0 {
        fail(
            root,
            stored,
            run,
            "Failed to cache crate: "@,
            "Failed to update any workspace members:\n"@ + joined_lines(errors),
        )
    } else {
        succeed(
            root,
            stored,
            run,
            members_response(
                run.crate_name,
                run.version,
                members_asked(run),
                results,
                errors,
                run.updating,
            ),
        )
    }
}

/// The first step of a request to cache a package. A source description
/// that is refused ends the request at once, with nothing asked and the
/// cache untouched. An update of a cached key begins with setting the entry
/// aside. Anything else goes straight to the work.
pub open spec fn spec_start(root: Seq<char>, index: CacheIndex, source: CrateSource) -> Progress {
    let p = source_params(source);
    let run = RunView {
        crate_name: p.crate_name,
        version: p.version,
        members: p.members,
        source: p.source,
        kind: source_kind(source),
        source_type: source_label(source),
        phase: PhaseView::SettingAside,
        updating: false,
        backup: None,
    };
    match validation_failure(source) {
        Some(message) => Progress {
            index,
            step: StepView::Done(CacheResponseView::Error { message }),
        },
        None => if p.update && index.contains_key((p.crate_name, p.version)) {
            Progress {
                index,
                step: StepView::Ask(
                    RunView { updating: true, ..run },
                    CacheRequestView::SetAside(backup_request(root, p.crate_name, p.version)),
                ),
            }
        } else {
            proceed(root, index, run)
        },
    }
}

/// The step that follows a reply.
pub open spec fn spec_resume(root: Seq<char>, index: CacheIndex, run: RunView, reply: CacheReply) -> Progress {
    match run.phase {
        PhaseView::SettingAside => match reply {
            CacheReply::SetAside(Ok(_)) => proceed(
                root,
                index.remove(run_key(run)),
                RunView { backup: entry_of(index, run_key(run)), ..run },
            ),
            CacheReply::SetAside(Err(e)) => Progress {
                index,
                step: StepView::Done(
                    CacheResponseView::Error {
                        message: "Failed to start update transaction: "@ + e@,
                    },
                ),
            },
            _ => Progress {
                index,
                step: StepView::Done(
                    CacheResponseView::Error {
                        message: "Failed to start update transaction: "@ + unexpected_reply(),
                    },
                ),
            },
        },
        PhaseView::Acquiring => match reply {
            CacheReply::Acquired(Ok(tree)) => inspect(
                root,
                after_acquisition(index, run_key(run), Ok(tree)),
                run,
            ),
            CacheReply::Acquired(Err(e)) => fail(root, index, run, "Failed to download crate: "@, e@),
            _ => fail(root, index, run, "Failed to download crate: "@, unexpected_reply()),
        },
        PhaseView::Inspecting => match reply {
            CacheReply::Inspected(report) => after_inspection(root, index, run, report),
            _ => fail(root, index, run, "Failed to cache crate: "@, unexpected_reply()),
        },
        PhaseView::Generating => match reply {
            CacheReply::Generated(generated) => after_generated(root, index, run, generated),
            _ => fail(root, index, run, "Failed to cache crate: "@, unexpected_reply()),
        },
        PhaseView::Members(plans) => match reply {
            CacheReply::Members(reports) => after_members(root, index, run, plans, reports@),
            _ => after_members(root, index, run, plans, Seq::empty()),
        },
        PhaseView::Discarding(response) => match reply {
            CacheReply::Discarded(Ok(_)) => Progress { index, step: StepView::Done(response) },
            CacheReply::Discarded(Err(e)) => Progress {
                index,
                step: StepView::Done(
                    CacheResponseView::Error {
                        message: "Update succeeded but failed to cleanup: "@ + e@,
                    },
                ),
            },
            _ => Progress {
                index,
                step: StepView::Done(
                    CacheResponseView::Error {
                        message: "Update succeeded but failed to cleanup: "@ + unexpected_reply(),
                    },
                ),
            },
        },
        PhaseView::Restoring(message) => Progress {
            index,
            step: StepView::Done(CacheResponseView::Error { message }),
        },
    }
}

/// The steps of a request from `progress` on, under the replies given one
/// after the other, up to the response or the end of the replies.
pub open spec fn drive(root: Seq<char>, progress: Progress, replies: Seq<CacheReply>) -> Progress
    decreases replies.len(),
{
    if replies.len() == 0 {
        progress
    } else {
        match progress.step {
            StepView::Done(_) => progress,
            StepView::Ask(run, _) => drive(
                root,
                spec_resume(root, progress.index, run, replies[0]),
                replies.drop_first(),
            ),
        }
    }
}

/// What holds of an update of `key` at every step: until the entry is set
/// aside it is in the cache as it was; from then on the transaction holds
/// it; and once the update has failed it is in the cache again.
spec fn update_holds_entry(progress: Progress, key: CacheKey, prior: Option<EntryView>) -> bool {
    match progress.step {
        StepView::Done(_) => true,
        StepView::Ask(run, _) => {
            &&& run_key(run) == key
            &&& match run.phase {
                PhaseView::SettingAside => run.updating && entry_of(progress.index, key) == prior,
                PhaseView::Restoring(_) => !run.updating && entry_of(progress.index, key)
                    == prior,
                _ => run.updating && run.backup == prior,
            }
        },
    }
}

/// One reply keeps `update_holds_entry`.
proof fn lemma_update_step(
    root: Seq<char>,
    index: CacheIndex,
    run: RunView,
    request: CacheRequestView,
    reply: CacheReply,
    prior: Option<EntryView>,
)
    requires
        update_holds_entry(Progress { index, step: StepView::Ask(run, request) }, run_key(run), prior),
    ensures
        update_holds_entry(spec_resume(root, index, run, reply), run_key(run), prior),
        run.phase is Restoring ==> spec_resume(root, index, run, reply).index == index
            && spec_resume(root, index, run, reply).step is Done,
        spec_resume(root, index, run, reply).step is Done ==> run.phase is Discarding || entry_of(
            spec_resume(root, index, run, reply).index,
            run_key(run),
        ) == prior,
{
    let key = run_key(run);
    match run.phase {
        PhaseView::SettingAside => {},
        PhaseView::Acquiring => {},
        PhaseView::Inspecting => {},
        PhaseView::Generating => {},
        PhaseView::Members(plans) => {},
        PhaseView::Discarding(_) => {},
        PhaseView::Restoring(_) => {},
    }
}

/// Atomicity of an update. Take a request that updates a cached key, and
/// any replies to it. Whenever the request comes to ask for the entry's
/// files to be restored, which it does as soon as the update has failed,
/// the entry under the key is identical to the entry before the request
/// began; the step after that ends the request and leaves the cache as it
/// is.
pub proof fn lemma_failed_update_restores_entry(
    root: Seq<char>,
    index: CacheIndex,
    source: CrateSource,
    replies: Seq<CacheReply>,
)
    requires
        validation_failure(source) is None,
        source_params(source).update,
        index.contains_key((source_params(source).crate_name, source_params(source).version)),
    ensures
        ({
            let key = (source_params(source).crate_name, source_params(source).version);
            let end = drive(root, spec_start(root, index, source), replies);
            end.step matches StepView::Ask(run, CacheRequestView::Restore(_)) ==> {
                &&& entry_of(end.index, key) == entry_of(index, key)
                &&& forall|reply: CacheReply|
                    (#[trigger] spec_resume(root, end.index, run, reply)).index == end.index
                        && spec_resume(root, end.index, run, reply).step is Done
            }
        }),
{
    let key = (source_params(source).crate_name, source_params(source).version);
    let prior = entry_of(index, key);
    let first = spec_start(root, index, source);
    assert(update_holds_entry(first, key, prior));
    lemma_update_run(root, first, replies, key, prior);
    let end = drive(root, first, replies);
    if let StepView::Ask(run, CacheRequestView::Restore(request)) = end.step {
        lemma_restore_is_asked_when_restoring(end, key, prior);
        assert forall|reply: CacheReply|
            (#[trigger] spec_resume(root, end.index, run, reply)).index == end.index && spec_resume(
                root,
                end.index,
                run,
                reply,
            ).step is Done by {
            lemma_update_step(root, end.index, run, CacheRequestView::Restore(request), reply, prior);
        }
    }
}

/// The phase in which the request was when the reply came that ended it;
/// none if the replies do not end it, or if it had ended before.
pub open spec fn final_phase(root: Seq<char>, progress: Progress, replies: Seq<CacheReply>) -> Option<
    PhaseView,
>
    decreases replies.len(),
{
    if replies.len() == 0 {
        None
    } else {
        match progress.step {
            StepView::Done(_) => None,
            StepView::Ask(run, _) => {
                let next = spec_resume(root, progress.index, run, replies[0]);
                match next.step {
                    StepView::Done(_) => Some(run.phase),
                    StepView::Ask(_, _) => final_phase(root, next, replies.drop_first()),
                }
            },
        }
    }
}

/// An update is all or nothing. Take a request that updates a cached key,
/// and any replies that end it. Either the update was committed, the
/// request ending in the phase in which what was set aside is discarded;
/// or the entry under the key is, when the request ends, identical to the
/// entry before the request began.
pub proof fn lemma_update_is_atomic(
    root: Seq<char>,
    index: CacheIndex,
    source: CrateSource,
    replies: Seq<CacheReply>,
)
    requires
        validation_failure(source) is None,
        source_params(source).update,
        index.contains_key((source_params(source).crate_name, source_params(source).version)),
    ensures
        ({
            let key = (source_params(source).crate_name, source_params(source).version);
            let first = spec_start(root, index, source);
            let end = drive(root, first, replies);
            end.step is Done ==> final_phase(root, first, replies) is Some && (final_phase(
                root,
                first,
                replies,
            )->0 is Discarding || entry_of(end.index, key) == entry_of(index, key))
        }),
{
    let key = (source_params(source).crate_name, source_params(source).version);
    let first = spec_start(root, index, source);
    assert(update_holds_entry(first, key, entry_of(index, key)));
    lemma_update_ends(root, first, replies, key, entry_of(index, key));
}

proof fn lemma_update_ends(
    root: Seq<char>,
    progress: Progress,
    replies: Seq<CacheReply>,
    key: CacheKey,
    prior: Option<EntryView>,
)
    requires
        update_holds_entry(progress, key, prior),
        progress.step is Ask,
    ensures
        drive(root, progress, replies).step is Done ==> final_phase(root, progress, replies) is Some
            && (final_phase(root, progress, replies)->0 is Discarding || entry_of(
            drive(root, progress, replies).index,
            key,
        ) == prior),
    decreases replies.len(),
{
    if replies.len() > 0 {
        match progress.step {
            StepView::Done(_) => {},
            StepView::Ask(run, request) => {
                let next = spec_resume(root, progress.index, run, replies[0]);
                lemma_update_step(root, progress.index, run, request, replies[0], prior);
                match next.step {
                    StepView::Done(_) => {
                        assert(drive(root, next, replies.drop_first()) == next);
                    },
                    StepView::Ask(_, _) => {
                        lemma_update_ends(root, next, replies.drop_first(), key, prior);
                    },
                }
            },
        }
    }
}

/// Any number of replies keep `update_holds_entry`, and a request to
/// restore is only ever asked by a run that is restoring.
proof fn lemma_update_run(
    root: Seq<char>,
    progress: Progress,
    replies: Seq<CacheReply>,
    key: CacheKey,
    prior: Option<EntryView>,
)
    requires
        update_holds_entry(progress, key, prior),
        restore_means_restoring(progress),
    ensures
        update_holds_entry(drive(root, progress, replies), key, prior),
        restore_means_restoring(drive(root, progress, replies)),
    decreases replies.len(),
{
    if replies.len() > 0 {
        match progress.step {
            StepView::Done(_) => {},
            StepView::Ask(run, request) => {
                lemma_update_step(root, progress.index, run, request, replies[0], prior);
                lemma_restore_request(root, progress.index, run, replies[0]);
                lemma_update_run(
                    root,
                    spec_resume(root, progress.index, run, replies[0]),
                    replies.drop_first(),
                    key,
                    prior,
                );
            },
        }
    }
}

/// A step that asks to restore belongs to a run that is restoring.
spec fn restore_means_restoring(progress: Progress) -> bool {
    progress.step matches StepView::Ask(run, CacheRequestView::Restore(_)) ==> run.phase
        is Restoring
}

/// Every step that asks to restore comes from a failure, and its run is
/// restoring.
proof fn lemma_restore_request(root: Seq<char>, index: CacheIndex, run: RunView, reply: CacheReply)
    ensures
        restore_means_restoring(spec_resume(root, index, run, reply)),
{
}

/// Where a run that holds the entry of an update asks to restore, the
/// entry is in the cache as it was.
proof fn lemma_restore_is_asked_when_restoring(
    progress: Progress,
    key: CacheKey,
    prior: Option<EntryView>,
)
    requires
        update_holds_entry(progress, key, prior),
        restore_means_restoring(progress),
        progress.step matches StepView::Ask(_, CacheRequestView::Restore(_)),
    ensures
        entry_of(progress.index, key) == prior,
{
}

/// A source that is not cached is acquired from the one backend of its
/// description: the registry for a registry description, the repository
/// for a repository description, the file system for a local one, whatever
/// the source hint looks like. The tree is to be put at the place of the
/// key in the cache, and for a repository the key's version is the name of
/// the branch or tag itself.
pub proof fn lemma_backend_follows_description(root: Seq<char>, index: CacheIndex, source: CrateSource)
    requires
        validation_failure(source) is None,
        source_params(source).members is None,
        !index.contains_key((source_params(source).crate_name, source_params(source).version)),
    ensures
        spec_start(root, index, source).index == index,
        spec_start(root, index, source).step matches StepView::Ask(run, CacheRequestView::Acquire(request))
            && request == spec_acquire_from(
            root,
            source_params(source).crate_name,
            source_params(source).version,
            source_params(source).source,
            source_kind(source),
        ) && run.phase is Acquiring,
        source matches CrateSource::GitHub(p) ==> source_params(source).version == match p.branch {
            Some(b) => b@,
            None => p.tag->0@,
        },
{
}

/// An update that succeeds is committed: it ends, whatever becomes of the
/// files that were set aside, without putting the old entry back.
pub proof fn lemma_commit_keeps_new_entry(
    root: Seq<char>,
    index: CacheIndex,
    run: RunView,
    reply: CacheReply,
)
    requires
        run.phase is Discarding,
    ensures
        spec_resume(root, index, run, reply).index == index,
        spec_resume(root, index, run, reply).step is Done,
        reply matches CacheReply::Discarded(Ok(_)) ==> spec_resume(root, index, run, reply).step
            == StepView::Done(run.phase->Discarding_0),
{
}

/// A source that turns out to be a workspace, cached with no member named,
/// is reported as a workspace with all the members that its manifest
/// declares, in order; nothing is asked to be generated and the cache
/// keeps no documentation that it did not hold before.
pub proof fn lemma_workspace_is_reported(
    root: Seq<char>,
    index: CacheIndex,
    run: RunView,
    report: ManifestReport,
)
    requires
        !run.updating,
        report.is_workspace == Ok::<bool, String>(true),
        report.members is Ok,
    ensures
        after_inspection(root, index, run, report) == (Progress {
            index,
            step: StepView::Done(
                CacheResponseView::WorkspaceDetected {
                    crate_name: run.crate_name,
                    version: run.version,
                    members: texts(report.members->Ok_0@),
                    source_type: run.source_type,
                    updated: false,
                },
            ),
        }),
{
}

/// A repository description with neither branch nor tag, or with both, is
/// refused before anything is attempted: the first step is the error
/// response, nothing is asked of the caller, and the cache is untouched.
pub proof fn lemma_repository_needs_one_reference(
    root: Seq<char>,
    index: CacheIndex,
    source: CrateSource,
)
    requires
        source matches CrateSource::GitHub(p) && (p.branch is Some <==> p.tag is Some),
    ensures
        spec_start(root, index, source).index == index,
        spec_start(root, index, source).step is Done,
        spec_start(root, index, source).step->Done_0 is Error,
        source->GitHub_0.branch is None ==> spec_start(root, index, source).step == StepView::Done(
            CacheResponseView::Error { message: "Either branch or tag must be specified"@ },
        ),
{
}

/// Each member asked for is reported once: with a success line if it was
/// cached, with a failure line that names the cause if not. The lines of
/// each kind come in the order of the members.
pub proof fn lemma_member_lines(
    cached: bool,
    name: Seq<char>,
    version: Seq<char>,
    plans: Seq<MemberPlanView>,
    reports: Seq<MemberReport>,
    n: nat,
)
    requires
        n <= plans.len(),
    ensures
        member_results(cached, name, version, plans, reports, n).len() + member_errors(
            cached,
            name,
            version,
            plans,
            reports,
            n,
        ).len() == n,
        forall|i: int|
            0 <= i < n ==> match #[trigger] member_outcome(
                cached,
                name,
                version,
                plans[i],
                report_for(reports, i),
            ) {
                Ok(_) => member_results(cached, name, version, plans, reports, n).contains(
                    success_line(plans[i].member_path),
                ),
                Err(e) => member_errors(cached, name, version, plans, reports, n).contains(
                    failure_line(plans[i].member_path, e),
                ),
            },
    decreases n,
{
    if n > 0 {
        let m = (n - 1) as nat;
        lemma_member_lines(cached, name, version, plans, reports, m);
        let results = member_results(cached, name, version, plans, reports, n);
        let errors = member_errors(cached, name, version, plans, reports, n);
        let before_results = member_results(cached, name, version, plans, reports, m);
        let before_errors = member_errors(cached, name, version, plans, reports, m);
        assert forall|i: int| 0 <= i < n implies match #[trigger] member_outcome(
            cached,
            name,
            version,
            plans[i],
            report_for(reports, i),
        ) {
            Ok(_) => results.contains(success_line(plans[i].member_path)),
            Err(e) => errors.contains(failure_line(plans[i].member_path, e)),
        } by {
            match member_outcome(cached, name, version, plans[i], report_for(reports, i)) {
                Ok(_) => {
                    if i < m {
                        let line = success_line(plans[i].member_path);
                        let k = choose|k: int| 0 <= k < before_results.len() && before_results[k] == line;
                        assert(results[k] == line);
                    } else {
                        assert(results.last() == success_line(plans[i].member_path));
                    }
                },
                Err(e) => {
                    if i < m {
                        let line = failure_line(plans[i].member_path, e);
                        let k = choose|k: int| 0 <= k < before_errors.len() && before_errors[k] == line;
                        assert(errors[k] == line);
                    } else {
                        assert(errors.last() == failure_line(plans[i].member_path, e));
                    }
                },
            }
        }
    }
}

/// The members are reported as a partial success exactly when some member
/// failed: there is no failure line if and only if every member was
/// cached, and no success line if and only if none was.
pub proof fn lemma_partial_success_means_failure(
    cached: bool,
    name: Seq<char>,
    version: Seq<char>,
    plans: Seq<MemberPlanView>,
    reports: Seq<MemberReport>,
    n: nat,
)
    requires
        n <= plans.len(),
    ensures
        member_errors(cached, name, version, plans, reports, n).len() == 0 <==> forall|i: int|
            0 <= i < n ==> #[trigger] member_outcome(
                cached,
                name,
                version,
                plans[i],
                report_for(reports, i),
            ) is Ok,
        member_results(cached, name, version, plans, reports, n).len() == 0 <==> forall|i: int|
            0 <= i < n ==> #[trigger] member_outcome(
                cached,
                name,
                version,
                plans[i],
                report_for(reports, i),
            ) is Err,
    decreases n,
{
    if n > 0 {
        lemma_partial_success_means_failure(cached, name, version, plans, reports, (n - 1) as nat);
        let last = member_outcome(cached, name, version, plans[n - 1], report_for(reports, n - 1));
        if member_errors(cached, name, version, plans, reports, n).len() == 0 {
            assert forall|i: int| 0 <= i < n implies #[trigger] member_outcome(
                cached,
                name,
                version,
                plans[i],
                report_for(reports, i),
            ) is Ok by {
                if i == n - 1 {
                    assert(last is Ok);
                }
            }
        }
        if member_results(cached, name, version, plans, reports, n).len() == 0 {
            assert forall|i: int| 0 <= i < n implies #[trigger] member_outcome(
                cached,
                name,
                version,
                plans[i],
                report_for(reports, i),
            ) is Err by {
                if i == n - 1 {
                    assert(last is Err);
                }
            }
        }
    }
}

/// What the members' reports do to the cache: no key but the request's own
/// is touched, and under that key only members' artifacts are added; the
/// source tree and the package's artifact stay.
pub proof fn lemma_member_artifacts_stay_within_key(
    index: CacheIndex,
    key: CacheKey,
    cached: bool,
    plans: Seq<MemberPlanView>,
    reports: Seq<MemberReport>,
    n: nat,
)
    requires
        n <= plans.len(),
    ensures
        ({
            let after = with_member_artifacts(index, key, cached, plans, reports, n);
            &&& after.dom() == index.dom()
            &&& forall|other: CacheKey| other != key ==> entry_of(after, other) == entry_of(index, other)
            &&& index.contains_key(key) ==> after[key].tree == index[key].tree && after[key].docs
                == index[key].docs
            &&& index.contains_key(key) ==> forall|member: Seq<char>|
                index[key].members.contains_key(member) ==> #[trigger] after[key].members.contains_key(
                    member,
                )
        }),
    decreases n,
{
    if n > 0 {
        lemma_member_artifacts_stay_within_key(index, key, cached, plans, reports, (n - 1) as nat);
        let rest = with_member_artifacts(index, key, cached, plans, reports, (n - 1) as nat);
        let after = with_member_artifacts(index, key, cached, plans, reports, n);
        assert(after.dom() =~= index.dom());
    }
}

/// A member whose report brings an artifact has an artifact stored under
/// its name afterwards, provided that the key is cached by then.
pub proof fn lemma_member_artifact_is_stored(
    index: CacheIndex,
    key: CacheKey,
    cached: bool,
    plans: Seq<MemberPlanView>,
    reports: Seq<MemberReport>,
    n: nat,
    i: int,
)
    requires
        n <= plans.len(),
        0 <= i < n,
        index.contains_key(key),
        member_artifact(cached, plans[i], report_for(reports, i)) is Some,
    ensures
        index_has_member_docs(
            with_member_artifacts(index, key, cached, plans, reports, n),
            key,
            plans[i].member_name,
        ),
    decreases n,
{
    lemma_member_artifacts_stay_within_key(index, key, cached, plans, reports, (n - 1) as nat);
    if i < n - 1 {
        lemma_member_artifact_is_stored(index, key, cached, plans, reports, (n - 1) as nat, i);
    }
}

/// A member that no report brings an artifact for, under its name, has
/// afterwards an artifact exactly if it had one before: a member that
/// failed without producing anything is not in the cache unless it was.
pub proof fn lemma_member_without_artifact_is_unchanged(
    index: CacheIndex,
    key: CacheKey,
    cached: bool,
    plans: Seq<MemberPlanView>,
    reports: Seq<MemberReport>,
    n: nat,
    member: Seq<char>,
)
    requires
        n <= plans.len(),
        forall|i: int|
            0 <= i < n && #[trigger] plans[i].member_name == member ==> member_artifact(
                cached,
                plans[i],
                report_for(reports, i),
            ) is None,
    ensures
        index_has_member_docs(
            with_member_artifacts(index, key, cached, plans, reports, n),
            key,
            member,
        ) == index_has_member_docs(index, key, member),
    decreases n,
{
    if n > 0 {
        lemma_member_without_artifact_is_unchanged(
            index,
            key,
            cached,
            plans,
            reports,
            (n - 1) as nat,
            member,
        );
        assert(plans[n - 1].member_name == member ==> member_artifact(
            cached,
            plans[n - 1],
            report_for(reports, n - 1),
        ) is None);
    }
}

enum Phase {
    SettingAside,
    Acquiring,
    Inspecting,
    Generating,
    Members(Vec<MemberPlan>),
    Discarding(CacheResponse),
    Restoring(String),
}

impl Phase {
    spec fn view(self) -> PhaseView {
        match self {
            Phase::SettingAside => PhaseView::SettingAside,
            Phase::Acquiring => PhaseView::Acquiring,
            Phase::Inspecting => PhaseView::Inspecting,
            Phase::Generating => PhaseView::Generating,
            Phase::Members(plans) => PhaseView::Members(plan_views(plans@)),
            Phase::Discarding(response) => PhaseView::Discarding(response@),
            Phase::Restoring(message) => PhaseView::Restoring(message@),
        }
    }
}

/// A request to cache a package that waits for a reply.
pub struct CacheRun {
    crate_name: String,
    version: String,
    members: Option<Vec<String>>,
    source: Option<String>,
    kind: SourceKind,
    source_type: String,
    phase: Phase,
    transaction: Option<CacheTransaction>,
}

impl View for CacheRun {
    type V = RunView;

    closed spec fn view(&self) -> RunView {
        RunView {
            crate_name: self.crate_name@,
            version: self.version@,
            members: opt_texts(self.members),
            source: opt_text(self.source),
            kind: self.kind,
            source_type: self.source_type@,
            phase: self.phase.view(),
            updating: self.transaction is Some,
            backup: match self.transaction {
                Some(tx) => tx.backup(),
                None => None,
            },
        }
    }
}

impl CacheRun {
    #[verifier::type_invariant]
    spec fn inv(self) -> bool {
        &&& self.phase is SettingAside ==> self.transaction is Some
        &&& self.transaction matches Some(tx) ==> {
            &&& tx.key() == (self.crate_name@, self.version@)
            &&& tx.state() == TransactionState::Pending
            &&& tx.begun() <==> !(self.phase is SettingAside)
        }
    }
}

/// The next step of a request to cache a package.
pub enum CacheStep {
    /// The caller is to carry out the request and to resume the run with
    /// the reply.
    Ask(CacheRun, CacheRequest),
    /// The request has ended with this response.
    Done(CacheResponse),
}

impl View for CacheStep {
    type V = StepView;

    open spec fn view(&self) -> StepView {
        match *self {
            CacheStep::Ask(run, request) => StepView::Ask(run@, request@),
            CacheStep::Done(response) => StepView::Done(response@),
        }
    }
}

fn backup_request_of(storage: &CacheStorage, name: &str, version: &str) -> (r: BackupRequest)
    ensures
        r@ == backup_request(storage.root(), name@, version@),
{
    BackupRequest {
        name: String::from_str(name),
        version: String::from_str(version),
        entry: storage.crate_path(name, version),
        backup: storage.backup_path(name, version),
    }
}

fn joined(prefix: &str, cause: &str) -> (s: String)
    ensures
        s@ == prefix@ + cause@,
{
    let mut s = String::from_str(prefix);
    s.append(cause);
    s
}

/// Ends the work with a failure: rolls an update back, or gives the error
/// response.
fn fail_with(storage: &mut CacheStorage, run: CacheRun, prefix: &str, cause: &str) -> (step:
    CacheStep)
    requires
        !(run@.phase is SettingAside),
    ensures
        final(storage).root() == old(storage).root(),
        final(storage)@ == fail(old(storage).root(), old(storage)@, run@, prefix@, cause@).index,
        step@ == fail(old(storage).root(), old(storage)@, run@, prefix@, cause@).step,
{
    proof {
        use_type_invariant(&run);
    }
    let CacheRun { crate_name, version, members, source, source_type, kind, phase, transaction } = run;
    match transaction {
        Some(tx) => {
            let request = CacheRequest::Restore(
                backup_request_of(storage, crate_name.as_str(), version.as_str()),
            );
            tx.release(storage);
            let message = joined("Update failed, restored from backup: ", cause);
            CacheStep::Ask(
                CacheRun {
                    crate_name,
                    version,
                    members,
                    source,
                    source_type,
                    kind,
                    phase: Phase::Restoring(message),
                    transaction: None,
                },
                request,
            )
        },
        None => CacheStep::Done(CacheResponse::error(joined(prefix, cause))),
    }
}

/// Ends the work with a response: asks for the commit of an update, or
/// gives the response.
fn succeed_with(storage: &CacheStorage, run: CacheRun, response: CacheResponse) -> (step: CacheStep)
    requires
        !(run@.phase is SettingAside),
    ensures
        step@ == succeed(storage.root(), storage@, run@, response@).step,
{
    proof {
        use_type_invariant(&run);
    }
    let CacheRun { crate_name, version, members, source, source_type, kind, phase, transaction } = run;
    match transaction {
        Some(tx) => {
            let request = CacheRequest::Discard(
                backup_request_of(storage, crate_name.as_str(), version.as_str()),
            );
            CacheStep::Ask(
                CacheRun {
                    crate_name,
                    version,
                    members,
                    source,
                    source_type,
                    kind,
                    phase: Phase::Discarding(response),
                    transaction: Some(tx),
                },
                request,
            )
        },
        None => CacheStep::Done(response),
    }
}

fn success_of(run: &CacheRun) -> (response: CacheResponse)
    ensures
        response@ == success_response(run@),
{
    if run.transaction.is_some() {
        CacheResponse::success_updated(run.crate_name.as_str(), run.version.as_str())
    } else {
        CacheResponse::success(run.crate_name.as_str(), run.version.as_str())
    }
}

fn ask_inspection(storage: &CacheStorage, run: CacheRun) -> (step: CacheStep)
    requires
        !(run@.phase is SettingAside),
    ensures
        step@ == inspect(storage.root(), storage@, run@).step,
{
    proof {
        use_type_invariant(&run);
    }
    let CacheRun { crate_name, version, members, source, source_type, kind, phase, transaction } = run;
    let mut manifest_path = storage.source_path(crate_name.as_str(), version.as_str());
    manifest_path.append("/Cargo.toml");
    CacheStep::Ask(
        CacheRun {
            crate_name,
            version,
            members,
            source,
            source_type,
            kind,
            phase: Phase::Inspecting,
            transaction,
        },
        CacheRequest::Inspect { manifest_path },
    )
}

fn as_str_opt(item: &Option<String>) -> (r: Option<&str>)
    ensures
        opt_str(r) == opt_text(*item),
{
    match item {
        Some(s) => Some(s.as_str()),
        None => None,
    }
}

/// Makes the plan for each member asked for.
fn plan_members(
    storage: &CacheStorage,
    name: &str,
    version: &str,
    source: &Option<String>,
    kind: SourceKind,
    members: &Vec<String>,
) -> (plans: Vec<MemberPlan>)
    ensures
        plan_views(plans@) == member_plans(
            storage.root(),
            storage@,
            name@,
            version@,
            opt_text(*source),
            kind,
            texts(members@),
        ),
{
    let mut plans: Vec<MemberPlan> = Vec::new();
    let cached = storage.is_cached(name, version);
    let mut i: usize = 0;
    while i < members.len()
        invariant
            i <= members.len(),
            cached == storage@.contains_key((name@, version@)),
            plans.len() == i,
            forall|j: int|
                0 <= j < i ==> (#[trigger] plans@[j])@ == member_plan(
                    storage.root(),
                    storage@,
                    name@,
                    version@,
                    opt_text(*source),
                    kind,
                    members@[j]@,
                ),
        decreases members.len() - i,
    {
        let member_path = members[i].as_str();
        let member_name = WorkspaceHandler::extract_member_name(member_path);
        let settled = match storage.member_docs(name, version, member_name) {
            Some(artifact) => Some(
                match artifact.failure() {
                    None => Ok(()),
                    Some(message) => Err(String::from_str(message)),
                },
            ),
            None => None,
        };
        let acquire = if cached {
            None
        } else {
            Some(acquire_from(storage, name, version, as_str_opt(source), kind))
        };
        let plan = MemberPlan {
            member_path: String::from_str(member_path),
            member_name: String::from_str(member_name),
            settled,
            acquire,
            generate: generate_request(storage, name, version, Some(member_path)),
        };
        plans.push(plan);
        i += 1;
    }
    assert(plan_views(plans@) =~= member_plans(
        storage.root(),
        storage@,
        name@,
        version@,
        opt_text(*source),
        kind,
        texts(members@),
    ));
    plans
}

fn copy_plan(plan: &MemberPlan) -> (out: MemberPlan)
    ensures
        out@ == plan@,
{
    MemberPlan {
        member_path: plan.member_path.clone(),
        member_name: plan.member_name.clone(),
        settled: match &plan.settled {
            Some(Ok(_)) => Some(Ok(())),
            Some(Err(m)) => Some(Err(m.clone())),
            None => None,
        },
        acquire: match &plan.acquire {
            Some(r) => Some(
                AcquireRequest {
                    name: r.name.clone(),
                    version: r.version.clone(),
                    source: clone_opt_string(&r.source),
                    kind: r.kind,
                    destination: r.destination.clone(),
                },
            ),
            None => None,
        },
        generate: GenerateRequest {
            name: plan.generate.name.clone(),
            version: plan.generate.version.clone(),
            source_dir: plan.generate.source_dir.clone(),
            member: clone_opt_string(&plan.generate.member),
            output: plan.generate.output.clone(),
        },
    }
}

fn copy_plans(plans: &Vec<MemberPlan>) -> (out: Vec<MemberPlan>)
    ensures
        plan_views(out@) == plan_views(plans@),
{
    let mut out: Vec<MemberPlan> = Vec::new();
    let mut i: usize = 0;
    while i < plans.len()
        invariant
            i <= plans.len(),
            out.len() == i,
            forall|j: int| 0 <= j < i ==> (#[trigger] out@[j])@ == plans@[j]@,
        decreases plans.len() - i,
    {
        out.push(copy_plan(&plans[i]));
        i += 1;
    }
    assert(plan_views(out@) =~= plan_views(plans@));
    out
}

/// Begins the work: hands the members out, or asks for the source.
fn begin_work(storage: &CacheStorage, run: CacheRun) -> (step: CacheStep)
    requires
        !(run@.phase is SettingAside),
    ensures
        step@ == proceed(storage.root(), storage@, run@).step,
{
    proof {
        use_type_invariant(&run);
    }
    let CacheRun { crate_name, version, members, source, source_type, kind, phase, transaction } = run;
    match members {
        Some(asked) => {
            let plans = plan_members(
                storage,
                crate_name.as_str(),
                version.as_str(),
                &source,
                kind,
                &asked,
            );
            let handed = copy_plans(&plans);
            CacheStep::Ask(
                CacheRun {
                    crate_name,
                    version,
                    members: Some(asked),
                    source,
                    source_type,
                    kind,
                    phase: Phase::Members(plans),
                    transaction,
                },
                CacheRequest::Members(handed),
            )
        },
        None => {
            if storage.is_cached(crate_name.as_str(), version.as_str()) {
                ask_inspection(
                    storage,
                    CacheRun {
                        crate_name,
                        version,
                        members: None,
                        source,
                        source_type,
                        kind,
                        phase: Phase::Inspecting,
                        transaction,
                    },
                )
            } else {
                let request = acquire_from(
                    storage,
                    crate_name.as_str(),
                    version.as_str(),
                    as_str_opt(&source),
                    kind,
                );
                CacheStep::Ask(
                    CacheRun {
                        crate_name,
                        version,
                        members: None,
                        source,
                        source_type,
                        kind,
                        phase: Phase::Acquiring,
                        transaction,
                    },
                    CacheRequest::Acquire(request),
                )
            }
        },
    }
}

/// Caches an ordinary package: reads a stored artifact back, or asks for
/// its generation.
fn cache_regular_crate(storage: &mut CacheStorage, run: CacheRun) -> (step: CacheStep)
    requires
        !(run@.phase is SettingAside),
    ensures
        final(storage).root() == old(storage).root(),
        final(storage)@ == regular(old(storage).root(), old(storage)@, run@).index,
        step@ == regular(old(storage).root(), old(storage)@, run@).step,
{
    proof {
        use_type_invariant(&run);
    }
    let reading = match storage.docs(run.crate_name.as_str(), run.version.as_str()) {
        Some(artifact) => Some(
            match artifact.failure() {
                None => Ok(()),
                Some(message) => Err(String::from_str(message)),
            },
        ),
        None => None,
    };
    match reading {
        Some(Ok(_)) => {
            let response = success_of(&run);
            succeed_with(storage, run, response)
        },
        Some(Err(message)) => fail_with(storage, run, "Failed to cache crate: ", message.as_str()),
        None => {
            let CacheRun { crate_name, version, members, source, source_type, kind, phase, transaction } =
                run;
            let request = generate_request(storage, crate_name.as_str(), version.as_str(), None);
            CacheStep::Ask(
                CacheRun {
                    crate_name,
                    version,
                    members,
                    source,
                    source_type,
                    kind,
                    phase: Phase::Generating,
                    transaction,
                },
                CacheRequest::Generate(request),
            )
        },
    }
}

/// Decides what a package is from the report on its manifest, and goes on
/// accordingly.
fn detect_and_handle_workspace(storage: &mut CacheStorage, run: CacheRun, report: ManifestReport) -> (step:
    CacheStep)
    requires
        !(run@.phase is SettingAside),
    ensures
        final(storage).root() == old(storage).root(),
        final(storage)@ == after_inspection(old(storage).root(), old(storage)@, run@, report).index,
        step@ == after_inspection(old(storage).root(), old(storage)@, run@, report).step,
{
    proof {
        use_type_invariant(&run);
    }
    let ManifestReport { exists, is_workspace, members } = report;
    match is_workspace {
        Ok(true) => match members {
            Ok(listed) => {
                let response = CacheResponse::workspace_detected(
                    run.crate_name.as_str(),
                    run.version.as_str(),
                    listed,
                    run.source_type.as_str(),
                    run.transaction.is_some(),
                );
                succeed_with(storage, run, response)
            },
            Err(e) => {
                let cause = joined("Failed to get workspace members: ", e.as_str());
                fail_with(storage, run, "Failed to cache crate: ", cause.as_str())
            },
        },
        Ok(false) => cache_regular_crate(storage, run),
        Err(e) => {
            if run.transaction.is_some() {
                fail_with(storage, run, "Failed to cache crate: ", e.as_str())
            } else {
                cache_regular_crate(storage, run)
            }
        },
    }
}

/// Records the outcome of generating the package's artifact and ends the
/// work accordingly.
fn handle_generated(storage: &mut CacheStorage, run: CacheRun, generated: Result<Artifact, String>) -> (step:
    CacheStep)
    requires
        !(run@.phase is SettingAside),
    ensures
        final(storage).root() == old(storage).root(),
        final(storage)@ == after_generated(old(storage).root(), old(storage)@, run@, generated).index,
        step@ == after_generated(old(storage).root(), old(storage)@, run@, generated).step,
{
    proof {
        use_type_invariant(&run);
    }
    if !storage.is_cached(run.crate_name.as_str(), run.version.as_str()) {
        let cause = precondition_text(run.crate_name.as_str(), run.version.as_str());
        return fail_with(storage, run, "Failed to cache crate: ", cause.as_str());
    }
    match generated {
        Err(e) => {
            storage.store_docs(run.crate_name.as_str(), run.version.as_str(), None);
            fail_with(storage, run, "Failed to cache crate: ", e.as_str())
        },
        Ok(artifact) => {
            let failure = match artifact.failure() {
                Some(message) => Some(String::from_str(message)),
                None => None,
            };
            storage.store_docs(run.crate_name.as_str(), run.version.as_str(), Some(artifact));
            match failure {
                None => {
                    let response = success_of(&run);
                    succeed_with(storage, run, response)
                },
                Some(message) => fail_with(storage, run, "Failed to cache crate: ", message.as_str()),
            }
        },
    }
}

fn first_tree_of(reports: &Vec<MemberReport>) -> (tree: Option<SourceTree>)
    ensures
        tree == first_tree(reports@),
{
    let mut tree: Option<SourceTree> = None;
    let mut i: usize = 0;
    while i < reports.len()
        invariant
            i <= reports.len(),
            tree == first_tree(reports@.take(i as int)),
        decreases reports.len() - i,
    {
        proof {
            let next = reports@.take(i as int + 1);
            assert(next.drop_last() =~= reports@.take(i as int));
            assert(next.last() == reports@[i as int]);
        }
        if tree.is_none() {
            tree = reports[i].source;
        }
        i += 1;
    }
    assert(reports@.take(reports.len() as int) =~= reports@);
    tree
}

/// Settles one member: stores the artifact that its report brings and says
/// how caching the member ended.
fn settle_member(
    storage: &mut CacheStorage,
    cached: bool,
    name: &str,
    version: &str,
    plan: &MemberPlan,
    report: Option<&MemberReport>,
) -> (r: Result<(), String>)
    ensures
        final(storage).root() == old(storage).root(),
        final(storage)@ == match member_artifact(
            cached,
            plan@,
            match report {
                Some(r) => Some(*r),
                None => None,
            },
        ) {
            Some(artifact) => with_member_docs(
                old(storage)@,
                (name@, version@),
                plan@.member_name,
                artifact,
            ),
            None => old(storage)@,
        },
        match r {
            Ok(_) => member_outcome(
                cached,
                name@,
                version@,
                plan@,
                match report {
                    Some(r) => Some(*r),
                    None => None,
                },
            ) == Ok::<(), Seq<char>>(()),
            Err(e) => member_outcome(
                cached,
                name@,
                version@,
                plan@,
                match report {
                    Some(r) => Some(*r),
                    None => None,
                },
            ) == Err::<(), Seq<char>>(e@),
        },
{
    match &plan.settled {
        Some(Ok(_)) => {
            return Ok(());
        },
        Some(Err(m)) => {
            return Err(m.clone());
        },
        None => {},
    }
    let r = match report {
        None => {
            return Err(String::from_str("member task did not report"));
        },
        Some(r) => r,
    };
    match &r.docs {
        MemberGeneration::ManifestMissing => Err(
            member_not_found_text(plan.member_path.as_str(), name, version),
        ),
        MemberGeneration::Failed(e) => Err(e.clone()),
        MemberGeneration::Generated(artifact) => {
            let ready = if plan.acquire.is_none() {
                cached
            } else {
                r.source.is_some()
            };
            if !ready {
                return Err(precondition_text(name, version));
            }
            storage.store_member_docs(
                name,
                version,
                plan.member_name.as_str(),
                Some(artifact.copy()),
            );
            match artifact.failure() {
                None => Ok(()),
                Some(message) => Err(String::from_str(message)),
            }
        },
    }
}

/// Stores what the members' tasks brought and lists how each member ended:
/// the success lines and the failure lines, each in the order of the
/// members.
fn cache_workspace_members(
    storage: &mut CacheStorage,
    name: &str,
    version: &str,
    plans: &Vec<MemberPlan>,
    reports: &Vec<MemberReport>,
) -> (lines: (Vec<String>, Vec<String>))
    ensures
        final(storage).root() == old(storage).root(),
        final(storage)@ == with_member_artifacts(
            with_member_source(old(storage)@, (name@, version@), reports@),
            (name@, version@),
            old(storage)@.contains_key((name@, version@)),
            plan_views(plans@),
            reports@,
            plans.len() as nat,
        ),
        texts(lines.0@) == member_results(
            old(storage)@.contains_key((name@, version@)),
            name@,
            version@,
            plan_views(plans@),
            reports@,
            plans.len() as nat,
        ),
        texts(lines.1@) == member_errors(
            old(storage)@.contains_key((name@, version@)),
            name@,
            version@,
            plan_views(plans@),
            reports@,
            plans.len() as nat,
        ),
{
    let cached = storage.is_cached(name, version);
    if !cached {
        match first_tree_of(reports) {
            Some(tree) => {
                storage.store_source(name, version, tree);
            },
            None => {},
        }
    }
    let ghost base = storage@;
    let ghost views = plan_views(plans@);
    let mut results: Vec<String> = Vec::new();
    let mut errors: Vec<String> = Vec::new();
    let mut i: usize = 0;
    while i < plans.len()
        invariant
            i <= plans.len(),
            views == plan_views(plans@),
            storage.root() == old(storage).root(),
            base == with_member_source(old(storage)@, (name@, version@), reports@),
            cached == old(storage)@.contains_key((name@, version@)),
            storage@ == with_member_artifacts(
                base,
                (name@, version@),
                cached,
                views,
                reports@,
                i as nat,
            ),
            texts(results@) == member_results(cached, name@, version@, views, reports@, i as nat),
            texts(errors@) == member_errors(cached, name@, version@, views, reports@, i as nat),
        decreases plans.len() - i,
    {
        let report = if i < reports.len() {
            Some(&reports[i])
        } else {
            None
        };
        assert(views[i as int] == plans@[i as int]@);
        let ghost before_results = texts(results@);
        let ghost before_errors = texts(errors@);
        match settle_member(storage, cached, name, version, &plans[i], report) {
            Ok(_) => {
                let mut line = String::from_str("Successfully cached member: ");
                line.append(plans[i].member_path.as_str());
                results.push(line);
                assert(texts(results@) =~= before_results.push(
                    success_line(plans@[i as int].member_path@),
                ));
            },
            Err(e) => {
                let mut line = String::from_str("Failed to cache member ");
                line.append(plans[i].member_path.as_str());
                line.append(": ");
                line.append(e.as_str());
                errors.push(line);
                assert(texts(errors@) =~= before_errors.push(
                    failure_line(plans@[i as int].member_path@, e@),
                ));
            },
        }
        i += 1;
    }
    (results, errors)
}

/// Ends the work on the members of a workspace with the reports on them.
fn handle_workspace_members(
    storage: &mut CacheStorage,
    run: CacheRun,
    plans: Vec<MemberPlan>,
    reports: Vec<MemberReport>,
) -> (step: CacheStep)
    requires
        !(run@.phase is SettingAside),
    ensures
        final(storage).root() == old(storage).root(),
        final(storage)@ == after_members(
            old(storage).root(),
            old(storage)@,
            run@,
            plan_views(plans@),
            reports@,
        ).index,
        step@ == after_members(
            old(storage).root(),
            old(storage)@,
            run@,
            plan_views(plans@),
            reports@,
        ).step,
{
    proof {
        use_type_invariant(&run);
    }
    let (results, errors) = cache_workspace_members(
        storage,
        run.crate_name.as_str(),
        run.version.as_str(),
        &plans,
        &reports,
    );
    let updating = run.transaction.is_some();
    if updating && errors.len() > 0 && results.len() == 0 {
        let listed = join_lines(&errors);
        let cause = joined("Failed to update any workspace members:\n", listed.as_str());
        return fail_with(storage, run, "Failed to cache crate: ", cause.as_str());
    }
    let asked = match &run.members {
        Some(members) => clone_strings(members),
        None => Vec::new(),
    };
    assert(texts(asked@) =~= members_asked(run@));
    let response = if errors.len() == 0 {
        CacheResponse::members_success(
            run.crate_name.as_str(),
            run.version.as_str(),
            asked,
            results,
            updating,
        )
    } else {
        CacheResponse::members_partial(
            run.crate_name.as_str(),
            run.version.as_str(),
            asked,
            results,
            errors,
            updating,
        )
    };
    succeed_with(storage, run, response)
}

/// Begins the update of a cached entry: asks for the entry to be set
/// aside.
fn handle_crate_update(
    storage: &CacheStorage,
    crate_name: String,
    version: String,
    members: Option<Vec<String>>,
    source: Option<String>,
    kind: SourceKind,
    source_type: String,
) -> (step: CacheStep)
    ensures
        step@ == StepView::Ask(
            RunView {
                crate_name: crate_name@,
                version: version@,
                members: opt_texts(members),
                source: opt_text(source),
                kind,
                source_type: source_type@,
                phase: PhaseView::SettingAside,
                updating: true,
                backup: None,
            },
            CacheRequestView::SetAside(backup_request(storage.root(), crate_name@, version@)),
        ),
{
    let transaction = CacheTransaction::new(crate_name.as_str(), version.as_str());
    let request = CacheRequest::SetAside(
        backup_request_of(storage, crate_name.as_str(), version.as_str()),
    );
    CacheStep::Ask(
        CacheRun {
            crate_name,
            version,
            members,
            source,
            source_type,
            kind,
            phase: Phase::SettingAside,
            transaction: Some(transaction),
        },
        request,
    )
}

/// The work of an update, once the entry is set aside.
fn cache_crate_with_update_impl(storage: &CacheStorage, run: CacheRun) -> (step: CacheStep)
    requires
        !(run@.phase is SettingAside),
    ensures
        step@ == proceed(storage.root(), storage@, run@).step,
{
    begin_work(storage, run)
}

/// The first step of a request to cache the package that `source`
/// describes.
pub(crate) fn start(storage: &mut CacheStorage, source: CrateSource) -> (step: CacheStep)
    ensures
        final(storage).root() == old(storage).root(),
        final(storage)@ == spec_start(old(storage).root(), old(storage)@, source).index,
        step@ == spec_start(old(storage).root(), old(storage)@, source).step,
{
    match validate_source(&source) {
        Err(e) => {
            return CacheStep::Done(CacheResponse::error(e.message()));
        },
        Ok(_) => {},
    }
    let (crate_name, version, members, source_hint, update) = extract_source_params(&source);
    let kind = source_kind_of(&source);
    let source_type = String::from_str(source_type_of(&source));
    if update && storage.is_cached(crate_name.as_str(), version.as_str()) {
        return handle_crate_update(
            storage,
            crate_name,
            version,
            members,
            source_hint,
            kind,
            source_type,
        );
    }
    begin_work(
        storage,
        CacheRun {
            crate_name,
            version,
            members,
            source: source_hint,
            source_type,
            kind,
            phase: Phase::Acquiring,
            transaction: None,
        },
    )
}

fn unexpected() -> (s: String)
    ensures
        s@ == unexpected_reply(),
{
    String::from_str("unexpected reply")
}

/// The step that follows a reply.
pub(crate) fn resume(storage: &mut CacheStorage, run: CacheRun, reply: CacheReply) -> (step:
    CacheStep)
    ensures
        final(storage).root() == old(storage).root(),
        final(storage)@ == spec_resume(old(storage).root(), old(storage)@, run@, reply).index,
        step@ == spec_resume(old(storage).root(), old(storage)@, run@, reply).step,
{
    proof {
        use_type_invariant(&run);
    }
    let CacheRun { crate_name, version, members, source, source_type, kind, phase, transaction } = run;
    match phase {
        Phase::SettingAside => {
            let set_aside = match reply {
                CacheReply::SetAside(r) => r,
                _ => Err(unexpected()),
            };
            let mut tx = match transaction {
                Some(tx) => tx,
                None => CacheTransaction::new(crate_name.as_str(), version.as_str()),
            };
            match tx.begin(storage, set_aside) {
                Ok(_) => cache_crate_with_update_impl(
                    storage,
                    CacheRun {
                        crate_name,
                        version,
                        members,
                        source,
                        source_type,
                        kind,
                        phase: Phase::Acquiring,
                        transaction: Some(tx),
                    },
                ),
                Err(e) => {
                    let cause = match e {
                        TransactionError::Backup(m) => m,
                        TransactionError::Cleanup(m) => m,
                        TransactionError::InvalidState => unexpected(),
                    };
                    CacheStep::Done(
                        CacheResponse::error(
                            joined("Failed to start update transaction: ", cause.as_str()),
                        ),
                    )
                },
            }
        },
        Phase::Acquiring => {
            let run = CacheRun {
                crate_name,
                version,
                members,
                source,
                source_type,
                kind,
                phase: Phase::Acquiring,
                transaction,
            };
            match reply {
                CacheReply::Acquired(Ok(tree)) => {
                    storage.store_source(run.crate_name.as_str(), run.version.as_str(), tree);
                    ask_inspection(storage, run)
                },
                CacheReply::Acquired(Err(e)) => fail_with(
                    storage,
                    run,
                    "Failed to download crate: ",
                    e.as_str(),
                ),
                _ => fail_with(storage, run, "Failed to download crate: ", "unexpected reply"),
            }
        },
        Phase::Inspecting => {
            let run = CacheRun {
                crate_name,
                version,
                members,
                source,
                source_type,
                kind,
                phase: Phase::Inspecting,
                transaction,
            };
            match reply {
                CacheReply::Inspected(report) => detect_and_handle_workspace(storage, run, report),
                _ => fail_with(storage, run, "Failed to cache crate: ", "unexpected reply"),
            }
        },
        Phase::Generating => {
            let run = CacheRun {
                crate_name,
                version,
                members,
                source,
                source_type,
                kind,
                phase: Phase::Generating,
                transaction,
            };
            match reply {
                CacheReply::Generated(generated) => handle_generated(storage, run, generated),
                _ => fail_with(storage, run, "Failed to cache crate: ", "unexpected reply"),
            }
        },
        Phase::Members(plans) => {
            let run = CacheRun {
                crate_name,
                version,
                members,
                source,
                source_type,
                kind,
                phase: Phase::Acquiring,
                transaction,
            };
            match reply {
                CacheReply::Members(reports) => handle_workspace_members(
                    storage,
                    run,
                    plans,
                    reports,
                ),
                _ => handle_workspace_members(storage, run, plans, Vec::new()),
            }
        },
        Phase::Discarding(response) => {
            let discarded = match reply {
                CacheReply::Discarded(r) => r,
                _ => Err(unexpected()),
            };
            let failure = match &discarded {
                Ok(_) => None,
                Err(e) => Some(joined("Update succeeded but failed to cleanup: ", e.as_str())),
            };
            match transaction {
                Some(tx) => {
                    let mut tx = tx;
                    let _ = tx.commit(discarded);
                },
                None => {},
            }
            match failure {
                Some(message) => CacheStep::Done(CacheResponse::error(message)),
                None => CacheStep::Done(response),
            }
        },
        Phase::Restoring(message) => CacheStep::Done(CacheResponse::error(message)),
    }
}

} // verus!
