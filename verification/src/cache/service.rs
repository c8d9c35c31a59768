//! The cache itself: what is asked of the outside world to make a
//! package's source and documentation available, and what becomes of the
//! cache when the outside world has answered.

use vstd::prelude::*;
use crate::cache::docgen::{Artifact, GenerateRequest, GenerateRequestView, MemberGeneration};
use crate::cache::downloader::{source_label, source_params, source_type_of, spec_source_kind,
    AcquireRequest, AcquireRequestView, CrateSource, SourceKind};
use crate::cache::run::{spec_resume, spec_start, CacheReply, CacheRun, CacheStep};
use crate::cache::utils::{CacheResponse, CacheResponseView};
use crate::cache::error::{result_view, CacheError, CacheErrorView};
use crate::cache::storage::{fresh_entry, index_has_docs, index_has_member_docs, listing,
    spec_docs_path, spec_member_docs_path, spec_source_path, CacheIndex, CacheKey, CacheStorage,
    CrateMetadata, EntryView, SourceTree};
use crate::cache::workspace::{ManifestReport, WorkspaceHandler};
use crate::assoc::{as_map, unique_keys};
use crate::text::{clone_strings, last_segment, opt_str, opt_text, opt_texts, own_opt_str, texts};

verus! {

/// The cache of package sources and documentation artifacts.
pub struct CrateCache {
    storage: CacheStorage,
}

/// The storage root for a given cache directory, or else under a given
/// home directory; none when neither is known.
pub open spec fn spec_cache_root(cache_dir: Option<String>, home: Option<String>) -> Option<Seq<char>> {
    match cache_dir {
        Some(dir) => Some(dir@),
        None => match home {
            Some(h) => Some(h@ + "/.rust-docs-mcp/cache"@),
            None => None,
        },
    }
}

/// The request to acquire the source of a package version into its place
/// in the cache, from the given backend.
pub open spec fn spec_acquire_from(
    root: Seq<char>,
    name: Seq<char>,
    version: Seq<char>,
    source: Option<Seq<char>>,
    kind: SourceKind,
) -> AcquireRequestView {
    AcquireRequestView {
        name,
        version,
        source,
        kind,
        destination: spec_source_path(root, name, version),
    }
}

/// The request to acquire the source of a package version into its place
/// in the cache, from the one backend that serves the source hint.
pub open spec fn spec_acquire_request(
    root: Seq<char>,
    name: Seq<char>,
    version: Seq<char>,
    source: Option<Seq<char>>,
) -> AcquireRequestView {
    spec_acquire_from(root, name, version, source, spec_source_kind(source))
}

/// The request to generate the artifact of a cached package version, or of
/// the member at `member`, into its place in the cache.
pub open spec fn spec_generate_request(
    root: Seq<char>,
    name: Seq<char>,
    version: Seq<char>,
    member: Option<Seq<char>>,
) -> GenerateRequestView {
    GenerateRequestView {
        name,
        version,
        source_dir: spec_source_path(root, name, version),
        member,
        output: match member {
            None => spec_docs_path(root, name, version),
            Some(path) => spec_member_docs_path(root, name, version, last_segment(path, '/')),
        },
    }
}

/// Whether the package artifact of a key can be loaded, and the failure if
/// it cannot: `NotFound` where none is stored, `Deserialization` where the
/// stored one cannot be read.
pub open spec fn spec_load_docs(index: CacheIndex, name: Seq<char>, version: Seq<char>) -> Result<
    (),
    CacheErrorView,
> {
    if !index_has_docs(index, (name, version)) {
        Err(CacheErrorView::NotFound { name, version })
    } else {
        match index[(name, version)].docs->0.failure {
            None => Ok(()),
            Some(message) => Err(CacheErrorView::Deserialization(message)),
        }
    }
}

/// Whether the artifact of a member can be loaded, and the failure if it
/// cannot.
pub open spec fn spec_load_member_docs(
    index: CacheIndex,
    name: Seq<char>,
    version: Seq<char>,
    member: Seq<char>,
) -> Result<(), CacheErrorView> {
    if !index_has_member_docs(index, (name, version), member) {
        Err(CacheErrorView::NotFound { name, version })
    } else {
        match index[(name, version)].members[member].failure {
            None => Ok(()),
            Some(message) => Err(CacheErrorView::Deserialization(message)),
        }
    }
}

/// How a load ended, without the documentation that it gave.
pub open spec fn load_view(r: Result<rustdoc_types::Crate, CacheError>) -> Result<(), CacheErrorView> {
    match r {
        Ok(_) => Ok(()),
        Err(e) => Err(e@),
    }
}

/// The next step towards the documentation of a package.
#[derive(Debug, PartialEq)]
pub enum DocsStep {
    /// The documentation is at hand.
    Ready(rustdoc_types::Crate),
    /// It cannot be had.
    Failed(CacheError),
    /// The source must be acquired first.
    Acquire(AcquireRequest),
    /// The artifact must be generated first.
    Generate(GenerateRequest),
}

/// A `DocsStep` with its texts as character sequences, and without the
/// documentation that a ready step carries.
pub enum DocsStepView {
    Ready,
    Failed(CacheErrorView),
    Acquire(AcquireRequestView),
    Generate(GenerateRequestView),
}

impl View for DocsStep {
    type V = DocsStepView;

    open spec fn view(&self) -> DocsStepView {
        match *self {
            DocsStep::Ready(_) => DocsStepView::Ready,
            DocsStep::Failed(e) => DocsStepView::Failed(e@),
            DocsStep::Acquire(r) => DocsStepView::Acquire(r@),
            DocsStep::Generate(r) => DocsStepView::Generate(r@),
        }
    }
}

/// The step that a load settles: the documentation, or the failure.
pub open spec fn loaded(r: Result<(), CacheErrorView>) -> DocsStepView {
    match r {
        Ok(_) => DocsStepView::Ready,
        Err(e) => DocsStepView::Failed(e),
    }
}

/// The next step towards the documentation of a package version: load it
/// if an artifact is stored; else acquire the source if it is not cached;
/// else generate the artifact.
pub open spec fn spec_ensure_crate_docs(
    root: Seq<char>,
    index: CacheIndex,
    name: Seq<char>,
    version: Seq<char>,
    source: Option<Seq<char>>,
) -> DocsStepView {
    if index_has_docs(index, (name, version)) {
        loaded(spec_load_docs(index, name, version))
    } else if !index.contains_key((name, version)) {
        DocsStepView::Acquire(spec_acquire_request(root, name, version, source))
    } else {
        DocsStepView::Generate(spec_generate_request(root, name, version, None))
    }
}

/// The next step towards the documentation of the member at
/// `member_path`, by the same rule.
pub open spec fn spec_ensure_workspace_member_docs(
    root: Seq<char>,
    index: CacheIndex,
    name: Seq<char>,
    version: Seq<char>,
    source: Option<Seq<char>>,
    member_path: Seq<char>,
) -> DocsStepView {
    let member = last_segment(member_path, '/');
    if index_has_member_docs(index, (name, version), member) {
        loaded(spec_load_member_docs(index, name, version, member))
    } else if !index.contains_key((name, version)) {
        DocsStepView::Acquire(spec_acquire_request(root, name, version, source))
    } else {
        DocsStepView::Generate(spec_generate_request(root, name, version, Some(member_path)))
    }
}

/// What a manifest report says of a cached package for which no member was
/// named: an error if the manifest cannot be read or declares a workspace,
/// nothing if it is an ordinary package or does not exist.
pub open spec fn workspace_objection(manifest: ManifestReport) -> Option<CacheErrorView> {
    if !manifest.exists {
        None
    } else {
        match manifest.is_workspace {
            Err(e) => Some(CacheErrorView::Parse(e@)),
            Ok(false) => None,
            Ok(true) => match manifest.members {
                Err(e) => Some(CacheErrorView::Parse(e@)),
                Ok(members) => Some(CacheErrorView::AmbiguousWorkspace { members: texts(members@) }),
            },
        }
    }
}

/// The next step towards the documentation of a package version or, where
/// a member is named, of that member. With no member named, a cached
/// package that turns out to be a workspace is refused rather than guessed
/// at.
pub open spec fn spec_ensure_crate_or_member_docs(
    root: Seq<char>,
    index: CacheIndex,
    name: Seq<char>,
    version: Seq<char>,
    member: Option<Seq<char>>,
    manifest: ManifestReport,
) -> DocsStepView {
    match member {
        Some(path) => spec_ensure_workspace_member_docs(root, index, name, version, None, path),
        None => if index.contains_key((name, version)) && workspace_objection(manifest) is Some {
            DocsStepView::Failed(workspace_objection(manifest)->0)
        } else {
            spec_ensure_crate_docs(root, index, name, version, None)
        },
    }
}

/// A stored artifact is answered from the cache: the step is what reading
/// the stored artifact gives, its documentation or the failure to read it,
/// never a request to acquire or to generate, and the source hint plays no
/// part in it. As asking does not change the cache, asking twice reads the
/// same artifact twice.
pub proof fn lemma_cache_hit(
    root: Seq<char>,
    index: CacheIndex,
    name: Seq<char>,
    version: Seq<char>,
    source: Option<Seq<char>>,
    other_source: Option<Seq<char>>,
)
    requires
        index_has_docs(index, (name, version)),
    ensures
        spec_ensure_crate_docs(root, index, name, version, source) == loaded(
            spec_load_docs(index, name, version),
        ),
        !(spec_ensure_crate_docs(root, index, name, version, source) is Acquire),
        !(spec_ensure_crate_docs(root, index, name, version, source) is Generate),
        spec_ensure_crate_docs(root, index, name, version, source) == spec_ensure_crate_docs(
            root,
            index,
            name,
            version,
            other_source,
        ),
        spec_ensure_crate_docs(root, index, name, version, source) is Ready <==> index[(
            name,
            version,
        )].docs->0.failure is None,
{
}

/// Making the documentation of a package available takes at most an
/// acquisition and a generation, and then it is settled for good. From any
/// cache: once the outcome of a successful acquisition is recorded, the
/// next step is not an acquisition; once a generated artifact is recorded
/// under the cached key, the next step is the documentation that the
/// artifact holds, or the failure to read it, with no further request.
pub proof fn lemma_ensure_docs_settles(
    root: Seq<char>,
    index: CacheIndex,
    name: Seq<char>,
    version: Seq<char>,
    source: Option<Seq<char>>,
    tree: SourceTree,
    artifact: Artifact,
)
    ensures
        ({
            let key = (name, version);
            let acquired = after_acquisition(index, key, Ok(tree));
            let generated = after_generation(acquired, key, Ok(artifact));
            &&& acquired.contains_key(key)
            &&& !(spec_ensure_crate_docs(root, acquired, name, version, source) is Acquire)
            &&& index_has_docs(generated, key)
            &&& generated[key].docs == Some(artifact@)
            &&& spec_ensure_crate_docs(root, generated, name, version, source)
                == match artifact@.failure {
                None => DocsStepView::Ready,
                Some(message) => DocsStepView::Failed(CacheErrorView::Deserialization(message)),
            }
        }),
{
}

/// The same holds of a member: a stored artifact of the member is answered
/// from the cache, with no request, whatever the source hint.
pub proof fn lemma_member_cache_hit(
    root: Seq<char>,
    index: CacheIndex,
    name: Seq<char>,
    version: Seq<char>,
    source: Option<Seq<char>>,
    member_path: Seq<char>,
)
    requires
        index_has_member_docs(index, (name, version), last_segment(member_path, '/')),
    ensures
        spec_ensure_workspace_member_docs(root, index, name, version, source, member_path)
            == loaded(
            spec_load_member_docs(index, name, version, last_segment(member_path, '/')),
        ),
        !(spec_ensure_workspace_member_docs(root, index, name, version, source, member_path)
            is Acquire),
        !(spec_ensure_workspace_member_docs(root, index, name, version, source, member_path)
            is Generate),
{
}

/// The next step towards the source of a package.
#[derive(Clone, Debug, PartialEq)]
pub enum SourceStep {
    /// The source is cached at this path.
    Ready(String),
    /// It cannot be had.
    Failed(CacheError),
    /// The source must be acquired first.
    Acquire(AcquireRequest),
}

/// A `SourceStep` with its texts as character sequences.
pub enum SourceStepView {
    Ready(Seq<char>),
    Failed(CacheErrorView),
    Acquire(AcquireRequestView),
}

impl View for SourceStep {
    type V = SourceStepView;

    open spec fn view(&self) -> SourceStepView {
        match *self {
            SourceStep::Ready(path) => SourceStepView::Ready(path@),
            SourceStep::Failed(e) => SourceStepView::Failed(e@),
            SourceStep::Acquire(r) => SourceStepView::Acquire(r@),
        }
    }
}

/// The next step towards the source of a package version.
pub open spec fn spec_ensure_crate_source(
    root: Seq<char>,
    index: CacheIndex,
    name: Seq<char>,
    version: Seq<char>,
    source: Option<Seq<char>>,
) -> SourceStepView {
    if index.contains_key((name, version)) {
        SourceStepView::Ready(spec_source_path(root, name, version))
    } else {
        SourceStepView::Acquire(spec_acquire_request(root, name, version, source))
    }
}

/// The next step towards the source of a package version or, where a
/// member is named, of that member. A member must have its manifest under
/// the source tree; with no member named, a workspace is refused.
pub open spec fn spec_ensure_crate_or_member_source(
    root: Seq<char>,
    index: CacheIndex,
    name: Seq<char>,
    version: Seq<char>,
    member: Option<Seq<char>>,
    source: Option<Seq<char>>,
    manifest: ManifestReport,
    member_manifest_exists: bool,
) -> SourceStepView {
    if !index.contains_key((name, version)) {
        SourceStepView::Acquire(spec_acquire_request(root, name, version, source))
    } else {
        match member {
            Some(path) => if member_manifest_exists {
                SourceStepView::Ready(spec_source_path(root, name, version) + "/"@ + path)
            } else {
                SourceStepView::Failed(
                    CacheErrorView::MemberNotFound { member: path, name, version },
                )
            },
            None => match workspace_objection(manifest) {
                Some(e) => SourceStepView::Failed(e),
                None => SourceStepView::Ready(spec_source_path(root, name, version)),
            },
        }
    }
}

/// The cache after the outcome of an acquisition is recorded: a key that is
/// cached already stays as it is, a fetched tree becomes a fresh entry, a
/// failure changes nothing.
pub open spec fn after_acquisition(
    index: CacheIndex,
    key: CacheKey,
    fetched: Result<SourceTree, String>,
) -> CacheIndex {
    if index.contains_key(key) {
        index
    } else {
        match fetched {
            Ok(tree) => index.insert(key, fresh_entry(tree)),
            Err(_) => index,
        }
    }
}

/// The cache after the outcome of a generation is recorded: the artifact is
/// stored under a cached key, and a failure leaves no artifact there.
pub open spec fn after_generation(
    index: CacheIndex,
    key: CacheKey,
    generated: Result<Artifact, String>,
) -> CacheIndex {
    if index.contains_key(key) {
        index.insert(
            key,
            EntryView {
                docs: match generated {
                    Ok(artifact) => Some(artifact@),
                    Err(_) => None,
                },
                ..index[key]
            },
        )
    } else {
        index
    }
}

/// The cache after the outcome of generating a member's artifact is
/// recorded: the artifact is stored under a cached key, a failure of the
/// tool leaves no artifact of the member, and a missing manifest changes
/// nothing.
pub open spec fn after_member_generation(
    index: CacheIndex,
    key: CacheKey,
    member: Seq<char>,
    generated: MemberGeneration,
) -> CacheIndex {
    if index.contains_key(key) {
        match generated {
            MemberGeneration::ManifestMissing => index,
            MemberGeneration::Failed(_) => index.insert(
                key,
                EntryView { members: index[key].members.remove(member), ..index[key] },
            ),
            MemberGeneration::Generated(artifact) => index.insert(
                key,
                EntryView { members: index[key].members.insert(member, artifact@), ..index[key] },
            ),
        }
    } else {
        index
    }
}

/// Builds the request to acquire the source of a package version from the
/// given backend.
pub(crate) fn acquire_from(
    storage: &CacheStorage,
    name: &str,
    version: &str,
    source: Option<&str>,
    kind: SourceKind,
) -> (r: AcquireRequest)
    ensures
        r@ == spec_acquire_from(storage.root(), name@, version@, opt_str(source), kind),
{
    AcquireRequest {
        name: String::from_str(name),
        version: String::from_str(version),
        source: own_opt_str(source),
        kind,
        destination: storage.source_path(name, version),
    }
}

/// Builds the request to acquire the source of a package version from the
/// backend that serves the source hint.
pub(crate) fn acquire_request(
    storage: &CacheStorage,
    name: &str,
    version: &str,
    source: Option<&str>,
) -> (r: AcquireRequest)
    ensures
        r@ == spec_acquire_request(storage.root(), name@, version@, opt_str(source)),
{
    acquire_from(storage, name, version, source, SourceKind::detect(source))
}

/// Builds the request to generate the artifact of a package version, or of
/// the member at `member`.
pub(crate) fn generate_request(
    storage: &CacheStorage,
    name: &str,
    version: &str,
    member: Option<&str>,
) -> (r: GenerateRequest)
    ensures
        r@ == spec_generate_request(storage.root(), name@, version@, opt_str(member)),
{
    let output = match member {
        None => storage.docs_path(name, version),
        Some(path) => storage.member_docs_path(
            name,
            version,
            WorkspaceHandler::extract_member_name(path),
        ),
    };
    GenerateRequest {
        name: String::from_str(name),
        version: String::from_str(version),
        source_dir: storage.source_path(name, version),
        member: own_opt_str(member),
        output,
    }
}

impl CrateCache {
    /// What the cache holds.
    pub closed spec fn index(self) -> CacheIndex {
        self.storage@
    }

    /// The storage root.
    pub closed spec fn root(self) -> Seq<char> {
        self.storage.root()
    }

    /// An empty cache rooted at `cache_dir` or, when none is given, at the
    /// default place under the home directory `home`.
    pub fn new(cache_dir: Option<String>, home: Option<String>) -> (r: Result<CrateCache, CacheError>)
        ensures
            match r {
                Ok(cache) => spec_cache_root(cache_dir, home) == Some(cache.root()) && cache.index()
                    == Map::<CacheKey, EntryView>::empty(),
                Err(e) => spec_cache_root(cache_dir, home) is None && e@
                    == CacheErrorView::NoCacheDir,
            },
    {
        match cache_dir {
            Some(dir) => Ok(CrateCache { storage: CacheStorage::new(dir) }),
            None => match home {
                Some(h) => {
                    let mut dir = h;
                    dir.append("/.rust-docs-mcp/cache");
                    Ok(CrateCache { storage: CacheStorage::new(dir) })
                },
                None => Err(CacheError::NoCacheDir),
            },
        }
    }

    /// The index and the layout of the cache.
    pub fn storage(&self) -> (storage: &CacheStorage)
        ensures
            storage@ == self.index(),
            storage.root() == self.root(),
    {
        &self.storage
    }

    /// Where the source of a package version lies, cached or not.
    pub fn get_source_path(&self, name: &str, version: &str) -> (path: String)
        ensures
            path@ == spec_source_path(self.root(), name@, version@),
    {
        self.storage.source_path(name, version)
    }

    /// Everything that is cached: one item for each cached key and no
    /// other, in no particular order.
    pub fn list_all_cached_crates(&self) -> (out: Vec<CrateMetadata>)
        ensures
            unique_keys(listing(out@)),
            as_map(listing(out@)) == self.index().map_values(|e: EntryView| e.tree),
    {
        self.storage.list_cached_crates()
    }

    /// Removes a package version from the cache with all that was generated
    /// from it. Fails, and changes nothing, when it is not cached.
    pub fn remove_crate(&mut self, name: &str, version: &str) -> (r: Result<(), CacheError>)
        ensures
            final(self).root() == old(self).root(),
            final(self).index() == old(self).index().remove((name@, version@)),
            result_view(r) == if old(self).index().contains_key((name@, version@)) {
                Ok::<(), CacheErrorView>(())
            } else {
                Err::<(), CacheErrorView>(CacheErrorView::NotFound { name: name@, version: version@ })
            },
    {
        self.storage.remove_crate(name, version)
    }

    /// Loads the package artifact of a package version. Fails with
    /// `NotFound` if none was generated, with `Deserialization` if the
    /// stored artifact cannot be read.
    pub fn load_docs(&self, name: &str, version: &str) -> (r: Result<
        rustdoc_types::Crate,
        CacheError,
    >)
        ensures
            load_view(r) == spec_load_docs(self.index(), name@, version@),
    {
        match self.storage.docs(name, version) {
            None => Err(
                CacheError::NotFound {
                    name: String::from_str(name),
                    version: String::from_str(version),
                },
            ),
            Some(artifact) => match artifact.load() {
                Ok(docs) => Ok(docs),
                Err(message) => Err(CacheError::Deserialization(message)),
            },
        }
    }

    /// Loads the artifact of the member named `member_name`. Fails with
    /// `NotFound` if none was generated, with `Deserialization` if the
    /// stored artifact cannot be read.
    pub fn load_member_docs(&self, name: &str, version: &str, member_name: &str) -> (r: Result<
        rustdoc_types::Crate,
        CacheError,
    >)
        ensures
            load_view(r) == spec_load_member_docs(self.index(), name@, version@, member_name@),
    {
        match self.storage.member_docs(name, version, member_name) {
            None => Err(
                CacheError::NotFound {
                    name: String::from_str(name),
                    version: String::from_str(version),
                },
            ),
            Some(artifact) => match artifact.load() {
                Ok(docs) => Ok(docs),
                Err(message) => Err(CacheError::Deserialization(message)),
            },
        }
    }

    /// The next step towards the documentation of a package version. The
    /// cache is not changed; a stored artifact is answered from the cache
    /// with no request at all.
    pub fn ensure_crate_docs(&self, name: &str, version: &str, source: Option<&str>) -> (step:
        DocsStep)
        ensures
            step@ == spec_ensure_crate_docs(
                self.root(),
                self.index(),
                name@,
                version@,
                opt_str(source),
            ),
    {
        if self.storage.has_docs(name, version) {
            match self.load_docs(name, version) {
                Ok(docs) => DocsStep::Ready(docs),
                Err(e) => DocsStep::Failed(e),
            }
        } else if !self.storage.is_cached(name, version) {
            DocsStep::Acquire(acquire_request(&self.storage, name, version, source))
        } else {
            DocsStep::Generate(generate_request(&self.storage, name, version, None))
        }
    }

    /// The next step towards the documentation of the workspace member at
    /// `member_path`. The cache is not changed.
    pub fn ensure_workspace_member_docs(
        &self,
        name: &str,
        version: &str,
        source: Option<&str>,
        member_path: &str,
    ) -> (step: DocsStep)
        ensures
            step@ == spec_ensure_workspace_member_docs(
                self.root(),
                self.index(),
                name@,
                version@,
                opt_str(source),
                member_path@,
            ),
    {
        let member_name = WorkspaceHandler::extract_member_name(member_path);
        if self.storage.has_member_docs(name, version, member_name) {
            match self.load_member_docs(name, version, member_name) {
                Ok(docs) => DocsStep::Ready(docs),
                Err(e) => DocsStep::Failed(e),
            }
        } else if !self.storage.is_cached(name, version) {
            DocsStep::Acquire(acquire_request(&self.storage, name, version, source))
        } else {
            DocsStep::Generate(generate_request(&self.storage, name, version, Some(member_path)))
        }
    }

    fn objection(manifest: &ManifestReport) -> (r: Option<CacheError>)
        ensures
            match r {
                Some(e) => workspace_objection(*manifest) == Some(e@),
                None => workspace_objection(*manifest) is None,
            },
    {
        if !manifest.exists {
            return None;
        }
        match &manifest.is_workspace {
            Err(e) => Some(CacheError::Parse(e.clone())),
            Ok(false) => None,
            Ok(true) => match &manifest.members {
                Err(e) => Some(CacheError::Parse(e.clone())),
                Ok(members) => Some(
                    CacheError::AmbiguousWorkspace { members: clone_strings(members) },
                ),
            },
        }
    }

    /// The next step towards the documentation of a package version or of
    /// the member named. `manifest` reports on the manifest at the root of
    /// the cached source.
    pub fn ensure_crate_or_member_docs(
        &self,
        name: &str,
        version: &str,
        member: Option<&str>,
        manifest: &ManifestReport,
    ) -> (step: DocsStep)
        ensures
            step@ == spec_ensure_crate_or_member_docs(
                self.root(),
                self.index(),
                name@,
                version@,
                opt_str(member),
                *manifest,
            ),
    {
        match member {
            Some(path) => self.ensure_workspace_member_docs(name, version, None, path),
            None => {
                if self.storage.is_cached(name, version) {
                    match Self::objection(manifest) {
                        Some(e) => {
                            return DocsStep::Failed(e);
                        },
                        None => {},
                    }
                }
                self.ensure_crate_docs(name, version, None)
            },
        }
    }

    /// The next step towards the source of a package version.
    pub fn ensure_crate_source(&self, name: &str, version: &str, source: Option<&str>) -> (step:
        SourceStep)
        ensures
            step@ == spec_ensure_crate_source(
                self.root(),
                self.index(),
                name@,
                version@,
                opt_str(source),
            ),
    {
        if !self.storage.is_cached(name, version) {
            SourceStep::Acquire(acquire_request(&self.storage, name, version, source))
        } else {
            SourceStep::Ready(self.storage.source_path(name, version))
        }
    }

    /// The next step towards the source of a package version or of the
    /// member named. `manifest` reports on the manifest at the root of the
    /// cached source, `member_manifest_exists` on that of the member.
    pub fn ensure_crate_or_member_source(
        &self,
        name: &str,
        version: &str,
        member: Option<&str>,
        source: Option<&str>,
        manifest: &ManifestReport,
        member_manifest_exists: bool,
    ) -> (step: SourceStep)
        ensures
            step@ == spec_ensure_crate_or_member_source(
                self.root(),
                self.index(),
                name@,
                version@,
                opt_str(member),
                opt_str(source),
                *manifest,
                member_manifest_exists,
            ),
    {
        if !self.storage.is_cached(name, version) {
            return SourceStep::Acquire(acquire_request(&self.storage, name, version, source));
        }
        let source_path = self.storage.source_path(name, version);
        match member {
            Some(path) => {
                if !member_manifest_exists {
                    return SourceStep::Failed(
                        CacheError::MemberNotFound {
                            member: String::from_str(path),
                            name: String::from_str(name),
                            version: String::from_str(version),
                        },
                    );
                }
                let mut member_source_path = source_path;
                member_source_path.append("/");
                member_source_path.append(path);
                SourceStep::Ready(member_source_path)
            },
            None => match Self::objection(manifest) {
                Some(e) => SourceStep::Failed(e),
                None => SourceStep::Ready(source_path),
            },
        }
    }

    /// Records how acquiring the source of a package version went, and
    /// gives the path of the cached source. A key that is cached already
    /// is left alone and succeeds whatever `fetched` says; otherwise a
    /// fetched tree is cached, and a failure is returned as
    /// `Acquisition`, with the cache unchanged.
    pub fn download_or_copy_crate(
        &mut self,
        name: &str,
        version: &str,
        fetched: Result<SourceTree, String>,
    ) -> (r: Result<String, CacheError>)
        ensures
            final(self).root() == old(self).root(),
            final(self).index() == after_acquisition(old(self).index(), (name@, version@), fetched),
            match r {
                Ok(path) => (old(self).index().contains_key((name@, version@)) || fetched is Ok)
                    && path@ == spec_source_path(old(self).root(), name@, version@),
                Err(e) => !old(self).index().contains_key((name@, version@)) && fetched is Err
                    && e@ == CacheErrorView::Acquisition(fetched->Err_0@),
            },
    {
        if self.storage.is_cached(name, version) {
            return Ok(self.storage.source_path(name, version));
        }
        match fetched {
            Ok(tree) => {
                self.storage.store_source(name, version, tree);
                Ok(self.storage.source_path(name, version))
            },
            Err(e) => Err(CacheError::Acquisition(e)),
        }
    }

    /// Records how generating the artifact of a package version went, and
    /// gives the path of the artifact. Fails with `Precondition`, changing
    /// nothing, when the source is not cached; with `Generation` when the
    /// tool failed, and then no artifact is stored under the key.
    pub fn generate_docs(&mut self, name: &str, version: &str, generated: Result<Artifact, String>) -> (r:
        Result<String, CacheError>)
        ensures
            final(self).root() == old(self).root(),
            final(self).index() == after_generation(old(self).index(), (name@, version@), generated),
            match r {
                Ok(path) => old(self).index().contains_key((name@, version@)) && generated is Ok
                    && path@ == spec_docs_path(old(self).root(), name@, version@),
                Err(e) => e@ == if !old(self).index().contains_key((name@, version@)) {
                    CacheErrorView::Precondition { name: name@, version: version@ }
                } else {
                    CacheErrorView::Generation(generated->Err_0@)
                } && (old(self).index().contains_key((name@, version@)) ==> generated is Err),
            },
    {
        if !self.storage.is_cached(name, version) {
            return Err(
                CacheError::Precondition {
                    name: String::from_str(name),
                    version: String::from_str(version),
                },
            );
        }
        match generated {
            Ok(artifact) => {
                self.storage.store_docs(name, version, Some(artifact));
                Ok(self.storage.docs_path(name, version))
            },
            Err(e) => {
                self.storage.store_docs(name, version, None);
                Err(CacheError::Generation(e))
            },
        }
    }

    /// Records how generating the artifact of the member at `member_path`
    /// went, and gives the path of the artifact. Fails with `Precondition`
    /// when the source is not cached, with `MemberNotFound` when the member
    /// has no manifest under the source, with `Generation` when the tool
    /// failed; after a failure no artifact of the member that this call
    /// would have replaced is left.
    pub fn generate_workspace_member_docs(
        &mut self,
        name: &str,
        version: &str,
        member_path: &str,
        generated: MemberGeneration,
    ) -> (r: Result<String, CacheError>)
        ensures
            final(self).root() == old(self).root(),
            final(self).index() == after_member_generation(
                old(self).index(),
                (name@, version@),
                last_segment(member_path@, '/'),
                generated,
            ),
            match r {
                Ok(path) => old(self).index().contains_key((name@, version@))
                    && generated is Generated && path@ == spec_member_docs_path(
                    old(self).root(),
                    name@,
                    version@,
                    last_segment(member_path@, '/'),
                ),
                Err(e) => e@ == if !old(self).index().contains_key((name@, version@)) {
                    CacheErrorView::Precondition { name: name@, version: version@ }
                } else {
                    match generated {
                        MemberGeneration::Failed(m) => CacheErrorView::Generation(m@),
                        _ => CacheErrorView::MemberNotFound {
                            member: member_path@,
                            name: name@,
                            version: version@,
                        },
                    }
                } && (old(self).index().contains_key((name@, version@)) ==> !(generated
                    is Generated)),
            },
    {
        if !self.storage.is_cached(name, version) {
            return Err(
                CacheError::Precondition {
                    name: String::from_str(name),
                    version: String::from_str(version),
                },
            );
        }
        let member_name = WorkspaceHandler::extract_member_name(member_path);
        match generated {
            MemberGeneration::ManifestMissing => {
                proof {
                    let key = (name@, version@);
                    assert(self.index() =~= self.index().insert(key, self.index()[key]));
                }
                Err(
                    CacheError::MemberNotFound {
                        member: String::from_str(member_path),
                        name: String::from_str(name),
                        version: String::from_str(version),
                    },
                )
            },
            MemberGeneration::Failed(e) => {
                self.storage.store_member_docs(name, version, member_name, None);
                Err(CacheError::Generation(e))
            },
            MemberGeneration::Generated(artifact) => {
                self.storage.store_member_docs(name, version, member_name, Some(artifact));
                Ok(self.storage.member_docs_path(name, version, member_name))
            },
        }
    }

    /// The versions of a package that are cached: each cached version of
    /// `name` once, and nothing else.
    pub fn get_cached_versions(&self, name: &str) -> (versions: Vec<String>)
        ensures
            texts(versions@).no_duplicates(),
            forall|v: Seq<char>|
                texts(versions@).contains(v) <==> self.index().contains_key((name@, v)),
    {
        let cached = self.storage.list_cached_crates();
        let mut versions: Vec<String> = Vec::new();
        let mut i: usize = 0;
        let ghost l = listing(cached@);
        proof {
            assert(l.len() == cached@.len());
        }
        while i < cached.len()
            invariant
                i <= cached.len(),
                l == listing(cached@),
                unique_keys(l),
                as_map(l) == self.index().map_values(|e: EntryView| e.tree),
                texts(versions@).no_duplicates(),
                forall|v: Seq<char>|
                    texts(versions@).contains(v) <==> exists|j: int|
                        0 <= j < i && #[trigger] l[j].0 == (name@, v),
            decreases cached.len() - i,
        {
            let ghost before = texts(versions@);
            if cached[i].name.as_str().eq(name) {
                let version = cached[i].version.clone();
                versions.push(version);
                proof {
                    let v = cached@[i as int].version@;
                    assert(l[i as int].0 == (name@, v));
                    assert(texts(versions@) =~= before.push(v));
                    if before.contains(v) {
                        let j = choose|j: int| 0 <= j < i && #[trigger] l[j].0 == (name@, v);
                        assert(l[j].0 != l[i as int].0);
                    }
                    assert forall|w: Seq<char>|
                        texts(versions@).contains(w) <==> exists|j: int|
                            0 <= j < i + 1 && #[trigger] l[j].0 == (name@, w) by {
                        if texts(versions@).contains(w) {
                            let k = choose|k: int|
                                0 <= k < texts(versions@).len() && texts(versions@)[k] == w;
                            if k < before.len() {
                                assert(before[k] == w);
                                assert(before.contains(w));
                            } else {
                                assert(w == v);
                            }
                        }
                        if exists|j: int| 0 <= j < i + 1 && #[trigger] l[j].0 == (name@, w) {
                            let j = choose|j: int| 0 <= j < i + 1 && #[trigger] l[j].0 == (name@, w);
                            if j < i {
                                assert(before.contains(w));
                                let k = choose|k: int| 0 <= k < before.len() && before[k] == w;
                                assert(texts(versions@)[k] == w);
                            } else {
                                assert(texts(versions@)[before.len() as int] == w);
                            }
                        }
                    }
                }
            } else {
                proof {
                    assert(l[i as int].0.0 == cached@[i as int].name@);
                    assert forall|w: Seq<char>|
                        texts(versions@).contains(w) <==> exists|j: int|
                            0 <= j < i + 1 && #[trigger] l[j].0 == (name@, w) by {
                        if exists|j: int| 0 <= j < i + 1 && #[trigger] l[j].0 == (name@, w) {
                            let j = choose|j: int| 0 <= j < i + 1 && #[trigger] l[j].0 == (name@, w);
                            assert(j < i);
                        }
                    }
                }
            }
            i += 1;
        }
        proof {
            assert forall|v: Seq<char>|
                texts(versions@).contains(v) <==> self.index().contains_key((name@, v)) by {
                if texts(versions@).contains(v) {
                    let j = choose|j: int| 0 <= j < l.len() && #[trigger] l[j].0 == (name@, v);
                    crate::assoc::lemma_lookup(l, j);
                }
                if self.index().contains_key((name@, v)) {
                    assert(as_map(l).contains_key((name@, v)));
                    let j = crate::assoc::position(l, (name@, v));
                    assert(l[j].0 == (name@, v));
                }
            }
        }
        versions
    }

    /// Takes a source description apart: the package name, the version to
    /// cache under (for a repository, the name of the branch or tag
    /// itself), the members asked for, the source hint for the acquirer,
    /// and whether an update is wanted.
    pub fn extract_source_params(&self, source: &CrateSource) -> (r: (
        String,
        String,
        Option<Vec<String>>,
        Option<String>,
        bool,
    ))
        ensures
            r.0@ == source_params(*source).crate_name,
            r.1@ == source_params(*source).version,
            opt_texts(r.2) == source_params(*source).members,
            opt_text(r.3) == source_params(*source).source,
            r.4 == source_params(*source).update,
    {
        crate::cache::downloader::extract_source_params(source)
    }

    /// The response that reports a workspace: its members as listed, the
    /// kind of the source, and whether the entry was replaced.
    pub fn generate_workspace_response(
        &self,
        crate_name: &str,
        version: &str,
        members: Vec<String>,
        source: &CrateSource,
        updated: bool,
    ) -> (response: CacheResponse)
        ensures
            response@ == (CacheResponseView::WorkspaceDetected {
                crate_name: crate_name@,
                version: version@,
                members: texts(members@),
                source_type: source_label(*source),
                updated,
            }),
    {
        CacheResponse::workspace_detected(
            crate_name,
            version,
            members,
            source_type_of(source),
            updated,
        )
    }

    /// Begins a request to cache the package that `source` describes, and
    /// gives its first step. A refused description ends the request at
    /// once with an error response, with nothing asked and the cache
    /// untouched.
    pub fn cache_crate_with_source(&mut self, source: CrateSource) -> (step: CacheStep)
        ensures
            final(self).root() == old(self).root(),
            final(self).index() == spec_start(old(self).root(), old(self).index(), source).index,
            step@ == spec_start(old(self).root(), old(self).index(), source).step,
    {
        crate::cache::run::start(&mut self.storage, source)
    }

    /// Takes the reply to the request that a step asked, and gives the
    /// step that follows. Every failure ends the request with an error
    /// response; a failed update first puts the entry back as it was.
    pub fn resume(&mut self, run: CacheRun, reply: CacheReply) -> (step: CacheStep)
        ensures
            final(self).root() == old(self).root(),
            final(self).index() == spec_resume(
                old(self).root(),
                old(self).index(),
                run@,
                reply,
            ).index,
            step@ == spec_resume(old(self).root(), old(self).index(), run@, reply).step,
    {
        crate::cache::run::resume(&mut self.storage, run, reply)
    }
}

} // verus!
