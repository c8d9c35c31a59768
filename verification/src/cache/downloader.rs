//! Where a package's source comes from, and the request to acquire it.

use vstd::prelude::*;
use vstd::string::StrSliceExecFns;
use crate::cache::error::{result_view, CacheError, CacheErrorView};
use crate::cache::tools::{CacheCrateFromCratesIOParams, CacheCrateFromGitHubParams,
    CacheCrateFromLocalParams};
use crate::text::{chars_of, clone_opt_strings, first_match, lemma_first_match, opt_text, opt_texts,
    starts_with, string_of};

verus! {

/// A description of where to obtain a package's source.
#[derive(Clone, Debug, PartialEq, Eq)]
pub enum CrateSource {
    CratesIO(CacheCrateFromCratesIOParams),
    GitHub(CacheCrateFromGitHubParams),
    LocalPath(CacheCrateFromLocalParams),
}

/// The backend that acquires a source.
#[derive(Clone, Copy, Debug, PartialEq, Eq, Structural)]
pub enum SourceKind {
    /// The package registry.
    Registry,
    /// A version-control repository.
    Repository,
    /// A directory of the local file system.
    Local,
}

/// The backend for a source hint: the registry when there is no hint, a
/// repository when the hint is a URL, the local file system otherwise.
pub open spec fn spec_source_kind(source: Option<Seq<char>>) -> SourceKind {
    match source {
        None => SourceKind::Registry,
        Some(s) => if "http://"@.is_prefix_of(s) || "https://"@.is_prefix_of(s) {
            SourceKind::Repository
        } else {
            SourceKind::Local
        },
    }
}

impl SourceKind {
    /// Picks the one backend that serves a source hint.
    pub fn detect(source: Option<&str>) -> (kind: SourceKind)
        ensures
            kind == spec_source_kind(
                match source {
                    Some(s) => Some(s@),
                    None => None,
                },
            ),
    {
        match source {
            None => SourceKind::Registry,
            Some(s) => if starts_with(s, "http://") || starts_with(s, "https://") {
                SourceKind::Repository
            } else {
                SourceKind::Local
            },
        }
    }
}

/// What a source description says, taken apart.
pub struct SourceParams {
    pub crate_name: Seq<char>,
    /// The version to cache under. For a repository it is the name of the
    /// branch or tag itself; empty when neither is given.
    pub version: Seq<char>,
    pub members: Option<Seq<Seq<char>>>,
    /// The hint handed to the acquirer: nothing for the registry, the URL
    /// with its branch or tag for a repository, the path for a directory.
    pub source: Option<Seq<char>>,
    pub update: bool,
}

/// The branch of a repository description if it has one, else its tag.
pub open spec fn reference_of(p: CacheCrateFromGitHubParams) -> Option<Seq<char>> {
    match p.branch {
        Some(b) => Some(b@),
        None => opt_text(p.tag),
    }
}

/// The source hint of a repository description.
pub open spec fn repository_hint(p: CacheCrateFromGitHubParams) -> Seq<char> {
    match p.branch {
        Some(b) => p.github_url@ + "#branch:"@ + b@,
        None => match p.tag {
            Some(t) => p.github_url@ + "#tag:"@ + t@,
            None => p.github_url@,
        },
    }
}

/// Whether an update was asked for; not asking means no.
pub open spec fn wants_update(update: Option<bool>) -> bool {
    match update {
        Some(u) => u,
        None => false,
    }
}

/// The parameters that a source description carries.
pub open spec fn source_params(source: CrateSource) -> SourceParams {
    match source {
        CrateSource::CratesIO(p) => SourceParams {
            crate_name: p.crate_name@,
            version: p.version@,
            members: opt_texts(p.members),
            source: None,
            update: wants_update(p.update),
        },
        CrateSource::GitHub(p) => SourceParams {
            crate_name: p.crate_name@,
            version: match reference_of(p) {
                Some(r) => r,
                None => Seq::empty(),
            },
            members: opt_texts(p.members),
            source: Some(repository_hint(p)),
            update: wants_update(p.update),
        },
        CrateSource::LocalPath(p) => SourceParams {
            crate_name: p.crate_name@,
            version: p.version@,
            members: opt_texts(p.members),
            source: Some(p.path@),
            update: wants_update(p.update),
        },
    }
}

/// The name under which responses mention the kind of a source.
pub open spec fn source_label(source: CrateSource) -> Seq<char> {
    match source {
        CrateSource::CratesIO(_) => "cratesio"@,
        CrateSource::GitHub(_) => "github"@,
        CrateSource::LocalPath(_) => "local"@,
    }
}

/// The backend that serves a source description: each kind of description
/// has its own.
pub open spec fn source_kind(source: CrateSource) -> SourceKind {
    match source {
        CrateSource::CratesIO(_) => SourceKind::Registry,
        CrateSource::GitHub(_) => SourceKind::Repository,
        CrateSource::LocalPath(_) => SourceKind::Local,
    }
}

/// Why a source description is refused before anything is attempted, if it
/// is: a repository needs exactly one of branch and tag, and a name for it.
pub open spec fn validation_failure(source: CrateSource) -> Option<Seq<char>> {
    match source {
        CrateSource::GitHub(p) => if p.branch is Some && p.tag is Some {
            Some("Only one of branch or tag can be specified"@)
        } else if source_params(source).version.len() == 0 {
            Some("Either branch or tag must be specified"@)
        } else {
            None
        },
        _ => None,
    }
}

/// A request to acquire the source of a package version.
#[derive(Clone, Debug, PartialEq, Eq)]
pub struct AcquireRequest {
    pub name: String,
    pub version: String,
    /// The source hint, as the caller gave it.
    pub source: Option<String>,
    /// The backend to use.
    pub kind: SourceKind,
    /// Where the source tree is to be put.
    pub destination: String,
}

/// An `AcquireRequest` with its texts as character sequences.
pub struct AcquireRequestView {
    pub name: Seq<char>,
    pub version: Seq<char>,
    pub source: Option<Seq<char>>,
    pub kind: SourceKind,
    pub destination: Seq<char>,
}

impl View for AcquireRequest {
    type V = AcquireRequestView;

    open spec fn view(&self) -> AcquireRequestView {
        AcquireRequestView {
            name: self.name@,
            version: self.version@,
            source: opt_text(self.source),
            kind: self.kind,
            destination: self.destination@,
        }
    }
}

fn flag(update: &Option<bool>) -> (r: bool)
    ensures
        r == wants_update(*update),
{
    match update {
        Some(u) => *u,
        None => false,
    }
}

/// Takes a source description apart: the package name, the version to
/// cache under, the members asked for, the source hint and whether an
/// update is wanted.
pub fn extract_source_params(source: &CrateSource) -> (r: (
    String,
    String,
    Option<Vec<String>>,
    Option<String>,
    bool,
))
    ensures
        r.0@ == source_params(*source).crate_name,
        r.1@ == source_params(*source).version,
        opt_texts(r.2) == source_params(*source).members,
        opt_text(r.3) == source_params(*source).source,
        r.4 == source_params(*source).update,
{
    match source {
        CrateSource::CratesIO(params) => (
            params.crate_name.clone(),
            params.version.clone(),
            clone_opt_strings(&params.members),
            None,
            flag(&params.update),
        ),
        CrateSource::GitHub(params) => {
            let version = match &params.branch {
                Some(branch) => branch.clone(),
                None => match &params.tag {
                    Some(tag) => tag.clone(),
                    None => String::new(),
                },
            };
            let mut hint = params.github_url.clone();
            match &params.branch {
                Some(branch) => {
                    hint.append("#branch:");
                    hint.append(branch.as_str());
                },
                None => match &params.tag {
                    Some(tag) => {
                        hint.append("#tag:");
                        hint.append(tag.as_str());
                    },
                    None => {},
                },
            }
            (
                params.crate_name.clone(),
                version,
                clone_opt_strings(&params.members),
                Some(hint),
                flag(&params.update),
            )
        },
        CrateSource::LocalPath(params) => (
            params.crate_name.clone(),
            params.version.clone(),
            clone_opt_strings(&params.members),
            Some(params.path.clone()),
            flag(&params.update),
        ),
    }
}

/// Validates a source description before anything is attempted. A repository
/// description needs exactly one of branch and tag, and that one not
/// empty; every other description passes.
pub fn validate_source(source: &CrateSource) -> (r: Result<(), CacheError>)
    ensures
        result_view(r) == match validation_failure(*source) {
            Some(message) => Err::<(), CacheErrorView>(CacheErrorView::Validation(message)),
            None => Ok::<(), CacheErrorView>(()),
        },
{
    match source {
        CrateSource::GitHub(params) => {
            if params.branch.is_some() && params.tag.is_some() {
                return Err(
                    CacheError::Validation(
                        String::from_str("Only one of branch or tag can be specified"),
                    ),
                );
            }
            let empty = match &params.branch {
                Some(branch) => branch.as_str().unicode_len() == 0,
                None => match &params.tag {
                    Some(tag) => tag.as_str().unicode_len() == 0,
                    None => true,
                },
            };
            if empty {
                Err(CacheError::Validation(String::from_str("Either branch or tag must be specified")))
            } else {
                Ok(())
            }
        },
        _ => Ok(()),
    }
}

/// The backend that serves a source description.
pub fn source_kind_of(source: &CrateSource) -> (kind: SourceKind)
    ensures
        kind == source_kind(*source),
{
    match source {
        CrateSource::CratesIO(_) => SourceKind::Registry,
        CrateSource::GitHub(_) => SourceKind::Repository,
        CrateSource::LocalPath(_) => SourceKind::Local,
    }
}

/// The name under which responses mention the kind of a source.
pub fn source_type_of(source: &CrateSource) -> (label: &'static str)
    ensures
        label@ == source_label(*source),
{
    match source {
        CrateSource::CratesIO(_) => "cratesio",
        CrateSource::GitHub(_) => "github",
        CrateSource::LocalPath(_) => "local",
    }
}

/// The branch or the tag at which a repository is taken.
#[derive(Clone, Debug, PartialEq, Eq)]
pub enum RepositoryRef {
    Branch(String),
    Tag(String),
}

/// A repository and what to take of it.
#[derive(Clone, Debug, PartialEq, Eq)]
pub struct RepositoryLocation {
    pub url: String,
    pub reference: Option<RepositoryRef>,
}

/// A `RepositoryRef` with its text as a character sequence.
pub enum RepositoryRefView {
    Branch(Seq<char>),
    Tag(Seq<char>),
}

/// The view of an optional reference.
pub open spec fn reference_view(reference: Option<RepositoryRef>) -> Option<RepositoryRefView> {
    match reference {
        Some(RepositoryRef::Branch(b)) => Some(RepositoryRefView::Branch(b@)),
        Some(RepositoryRef::Tag(t)) => Some(RepositoryRefView::Tag(t@)),
        None => None,
    }
}

/// For each character, whether it is `#`.
pub open spec fn hash_flags(s: Seq<char>) -> Seq<bool> {
    s.map_values(|c: char| c == '#')
}

/// The URL that a repository hint names: what stands before the first `#`
/// if `branch:` or `tag:` follows it, else the whole hint.
pub open spec fn hint_url(hint: Seq<char>) -> Seq<char> {
    match first_match(hash_flags(hint), hint.len()) {
        Some(i) => if "branch:"@.is_prefix_of(hint.skip(i + 1)) || "tag:"@.is_prefix_of(
            hint.skip(i + 1),
        ) {
            hint.take(i)
        } else {
            hint
        },
        None => hint,
    }
}

/// The branch or tag that a repository hint names after its first `#`, if
/// it names one.
pub open spec fn hint_reference(hint: Seq<char>) -> Option<RepositoryRefView> {
    match first_match(hash_flags(hint), hint.len()) {
        Some(i) => if "branch:"@.is_prefix_of(hint.skip(i + 1)) {
            Some(RepositoryRefView::Branch(hint.skip(i + 1 + 7)))
        } else if "tag:"@.is_prefix_of(hint.skip(i + 1)) {
            Some(RepositoryRefView::Tag(hint.skip(i + 1 + 4)))
        } else {
            None
        },
        None => None,
    }
}

/// Reads a repository hint: the URL, and the branch or tag if one is named.
pub fn parse_repository_hint(hint: &str) -> (location: RepositoryLocation)
    ensures
        location.url@ == hint_url(hint@),
        reference_view(location.reference) == hint_reference(hint@),
{
    let chars = chars_of(hint);
    let ghost flags = hash_flags(chars@);
    let mut found: Option<usize> = None;
    let mut i: usize = 0;
    while i < chars.len()
        invariant
            i <= chars.len(),
            flags == hash_flags(chars@),
            match found {
                Some(k) => first_match(flags, i as nat) == Some(k as int) && k < i,
                None => first_match(flags, i as nat) is None,
            },
        decreases chars.len() - i,
    {
        if found.is_none() && chars[i] == '#' {
            found = Some(i);
        }
        i += 1;
    }
    match found {
        None => RepositoryLocation { url: String::from_str(hint), reference: None },
        Some(k) => {
            let rest = string_of(&chars, k + 1, chars.len());
            assert(chars@.subrange(k as int + 1, chars.len() as int) =~= hint@.skip(k as int + 1));
            proof {
                reveal_strlit("branch:");
                reveal_strlit("tag:");
            }
            if starts_with(rest.as_str(), "branch:") {
                let name = string_of(&chars, k + 8, chars.len());
                assert(chars@.subrange(k as int + 8, chars.len() as int) =~= hint@.skip(
                    k as int + 1 + 7,
                ));
                let url = string_of(&chars, 0, k);
                assert(chars@.subrange(0, k as int) =~= hint@.take(k as int));
                RepositoryLocation { url, reference: Some(RepositoryRef::Branch(name)) }
            } else if starts_with(rest.as_str(), "tag:") {
                let name = string_of(&chars, k + 5, chars.len());
                assert(chars@.subrange(k as int + 5, chars.len() as int) =~= hint@.skip(
                    k as int + 1 + 4,
                ));
                let url = string_of(&chars, 0, k);
                assert(chars@.subrange(0, k as int) =~= hint@.take(k as int));
                RepositoryLocation { url, reference: Some(RepositoryRef::Tag(name)) }
            } else {
                RepositoryLocation { url: String::from_str(hint), reference: None }
            }
        },
    }
}

/// The hint that a repository description gives is read back as what the
/// description says: its URL, and its branch if it has one, else its tag,
/// provided that the URL holds no `#`.
pub proof fn lemma_hint_round_trip(p: CacheCrateFromGitHubParams)
    requires
        !p.github_url@.contains('#'),
    ensures
        hint_url(repository_hint(p)) == p.github_url@,
        hint_reference(repository_hint(p)) == match p.branch {
            Some(b) => Some(RepositoryRefView::Branch(b@)),
            None => match p.tag {
                Some(t) => Some(RepositoryRefView::Tag(t@)),
                None => None,
            },
        },
{
    reveal_strlit("#branch:");
    reveal_strlit("#tag:");
    reveal_strlit("branch:");
    reveal_strlit("tag:");
    let url = p.github_url@;
    let hint = repository_hint(p);
    let flags = hash_flags(hint);
    lemma_first_match(flags, hint.len());
    assert forall|j: int| 0 <= j < url.len() implies !flags[j] by {
        assert(hint[j] == url[j]);
        assert(url.contains(url[j]));
    }
    match p.branch {
        Some(b) => {
            assert(hint[url.len() as int] == '#');
            assert(flags[url.len() as int]);
            let i = first_match(flags, hint.len())->0;
            assert(i == url.len());
            assert(hint.skip(i + 1) =~= "branch:"@ + b@);
            assert(("branch:"@ + b@).subrange(0, 7) =~= "branch:"@);
            assert(hint.skip(i + 1 + 7) =~= b@);
            assert(hint.take(i) =~= url);
        },
        None => match p.tag {
            Some(t) => {
                assert(hint[url.len() as int] == '#');
                assert(flags[url.len() as int]);
                let i = first_match(flags, hint.len())->0;
                assert(i == url.len());
                assert(hint.skip(i + 1) =~= "tag:"@ + t@);
                assert(("tag:"@ + t@).subrange(0, 4) =~= "tag:"@);
                assert(("tag:"@ + t@)[0] == 't');
                assert(!"branch:"@.is_prefix_of(hint.skip(i + 1))) by {
                    if "branch:"@.is_prefix_of(hint.skip(i + 1)) {
                        assert(hint.skip(i + 1).subrange(0, 7)[0] == 'b');
                    }
                }
                assert(hint.skip(i + 1 + 4) =~= t@);
                assert(hint.take(i) =~= url);
            },
            None => {},
        },
    }
}

/// A local path with a leading `~` replaced by the home directory: `~`
/// alone and `~/..` are expanded, every other path is left as it is.
pub open spec fn expanded_home(path: Seq<char>, home: Seq<char>) -> Seq<char> {
    if path == "~"@ {
        home
    } else if "~/"@.is_prefix_of(path) {
        home + path.skip(1)
    } else {
        path
    }
}

/// Expands a leading `~` of a local path to the home directory.
pub fn expand_home(path: &str, home: &str) -> (out: String)
    ensures
        out@ == expanded_home(path@, home@),
{
    if path.eq("~") {
        String::from_str(home)
    } else if starts_with(path, "~/") {
        let chars = chars_of(path);
        proof {
            reveal_strlit("~/");
        }
        let rest = string_of(&chars, 1, chars.len());
        assert(chars@.subrange(1, chars.len() as int) =~= path@.skip(1));
        let mut out = String::from_str(home);
        out.append(rest.as_str());
        out
    } else {
        String::from_str(path)
    }
}

} // verus!
