//! The index of what the cache holds, and where each thing lies on disk.

use vstd::prelude::*;
use crate::assoc::{as_map, lemma_absent, lemma_empty, lemma_lookup, lemma_push, lemma_remove,
    lemma_update, unique_keys};
use crate::cache::docgen::{Artifact, ArtifactView};
use crate::cache::error::{CacheError, CacheErrorView};

verus! {

/// What is known of an acquired source tree.
#[derive(Clone, Copy, Debug, PartialEq, Eq, Structural)]
pub struct SourceTree {
    /// Its size on disk, in bytes.
    pub size_bytes: u64,
    /// When it was acquired, in seconds since the epoch.
    pub cached_at: u64,
}

/// One cached package version: its source tree and the artifacts generated
/// from it.
pub struct EntryView {
    pub tree: SourceTree,
    /// The package's documentation artifact, once generated.
    pub docs: Option<ArtifactView>,
    /// The documentation artifact of each member, by member name.
    pub members: Map<Seq<char>, ArtifactView>,
}

/// A package name and a version.
pub type CacheKey = (Seq<char>, Seq<char>);

/// The cache as a map from keys to entries. A key is cached exactly when it
/// is in the map, so no key has two source trees or two package artifacts,
/// and an artifact exists only under a key whose source is cached.
pub type CacheIndex = Map<CacheKey, EntryView>;

/// The entry that a freshly acquired source tree starts with.
pub open spec fn fresh_entry(tree: SourceTree) -> EntryView {
    EntryView { tree, docs: None, members: Map::empty() }
}

/// The entry under `key`, if it is cached.
pub open spec fn entry_of(index: CacheIndex, key: CacheKey) -> Option<EntryView> {
    if index.contains_key(key) {
        Some(index[key])
    } else {
        None
    }
}

/// Whether a package artifact is stored under `key`.
pub open spec fn index_has_docs(index: CacheIndex, key: CacheKey) -> bool {
    index.contains_key(key) && index[key].docs is Some
}

/// Whether an artifact of the member is stored under `key`.
pub open spec fn index_has_member_docs(index: CacheIndex, key: CacheKey, member: Seq<char>) -> bool {
    index.contains_key(key) && index[key].members.contains_key(member)
}

/// `index` with `entry` put under `key`, or with `key` removed when `entry`
/// is `None`.
pub open spec fn with_entry(index: CacheIndex, key: CacheKey, entry: Option<EntryView>) -> CacheIndex {
    match entry {
        Some(e) => index.insert(key, e),
        None => index.remove(key),
    }
}

/// An artifact, the package's or a member's, is stored only under a key
/// whose source is cached; and a key has one entry: one source tree, at
/// most one package artifact, and at most one artifact for each member.
pub proof fn lemma_artifacts_need_source(index: CacheIndex, key: CacheKey, member: Seq<char>)
    ensures
        index_has_docs(index, key) ==> index.contains_key(key),
        index_has_member_docs(index, key, member) ==> index.contains_key(key),
        index.contains_key(key) ==> entry_of(index, key) == Some(index[key]),
{
}

/// Once a key is removed, its source is no longer cached and no artifact is
/// stored under it, neither the package's nor any member's. Every other
/// key is as before.
pub proof fn lemma_removed_key_is_gone(index: CacheIndex, key: CacheKey)
    ensures
        !index.remove(key).contains_key(key),
        !index_has_docs(index.remove(key), key),
        forall|member: Seq<char>| !index_has_member_docs(index.remove(key), key, member),
        forall|other: CacheKey| other != key ==> entry_of(index.remove(key), other) == entry_of(index, other),
{
}

/// The directory of a package version under the storage root.
pub open spec fn spec_crate_path(root: Seq<char>, name: Seq<char>, version: Seq<char>) -> Seq<char> {
    root + "/crates/"@ + name + "/"@ + version
}

/// Where the source tree of a package version lies.
pub open spec fn spec_source_path(root: Seq<char>, name: Seq<char>, version: Seq<char>) -> Seq<char> {
    spec_crate_path(root, name, version) + "/source"@
}

/// Where the package artifact of a package version lies.
pub open spec fn spec_docs_path(root: Seq<char>, name: Seq<char>, version: Seq<char>) -> Seq<char> {
    spec_crate_path(root, name, version) + "/docs.json"@
}

/// Where the artifact of a member lies.
pub open spec fn spec_member_docs_path(
    root: Seq<char>,
    name: Seq<char>,
    version: Seq<char>,
    member: Seq<char>,
) -> Seq<char> {
    spec_crate_path(root, name, version) + "/members/"@ + member + "/docs.json"@
}

/// Where an entry is set aside while it is being replaced.
pub open spec fn spec_backup_path(root: Seq<char>, name: Seq<char>, version: Seq<char>) -> Seq<char> {
    root + "/backups/"@ + name + "/"@ + version
}

struct MemberDocs {
    name: String,
    docs: Artifact,
}

/// A cached package version, as the storage holds it.
pub struct CacheEntry {
    name: String,
    version: String,
    tree: SourceTree,
    docs: Option<Artifact>,
    members: Vec<MemberDocs>,
}

impl CacheEntry {
    spec fn member_pairs(self) -> Seq<(Seq<char>, ArtifactView)> {
        self.members@.map_values(|m: MemberDocs| (m.name@, m.docs@))
    }

    #[verifier::type_invariant]
    spec fn inv(self) -> bool {
        unique_keys(self.member_pairs())
    }

    /// The key that the entry is stored under.
    pub closed spec fn key(self) -> CacheKey {
        (self.name@, self.version@)
    }

    fn find_member(&self, member: &str) -> (r: Option<usize>)
        ensures
            match r {
                Some(i) => i < self.members.len() && self.members[i as int].name@ == member@,
                None => forall|i: int| 0 <= i < self.members.len() ==> self.members[i].name@ != member@,
            },
    {
        let mut i: usize = 0;
        while i < self.members.len()
            invariant
                i <= self.members.len(),
                forall|j: int| 0 <= j < i ==> self.members[j].name@ != member@,
            decreases self.members.len() - i,
        {
            if self.members[i].name.as_str().eq(member) {
                return Some(i);
            }
            i += 1;
        }
        None
    }

    fn new(name: &str, version: &str, tree: SourceTree) -> (e: CacheEntry)
        ensures
            e.key() == (name@, version@),
            e@ == fresh_entry(tree),
    {
        let e = CacheEntry {
            name: String::from_str(name),
            version: String::from_str(version),
            tree,
            docs: None,
            members: Vec::new(),
        };
        proof {
            lemma_empty::<Seq<char>, ArtifactView>();
            assert(e.member_pairs() =~= Seq::<(Seq<char>, ArtifactView)>::empty());
        }
        e
    }

    fn member_text(&self, member: &str) -> (r: Option<&Artifact>)
        ensures
            match r {
                Some(artifact) => self@.members.contains_key(member@) && self@.members[member@]
                    == artifact@,
                None => !self@.members.contains_key(member@),
            },
    {
        proof {
            use_type_invariant(self);
        }
        match self.find_member(member) {
            Some(i) => {
                proof {
                    lemma_lookup(self.member_pairs(), i as int);
                }
                Some(&self.members[i].docs)
            },
            None => {
                proof {
                    lemma_absent(self.member_pairs(), member@);
                }
                None
            },
        }
    }

    /// Stores, replaces or (with `None`) drops the artifact of a member.
    fn set_member(&mut self, member: &str, docs: Option<Artifact>)
        ensures
            final(self).key() == old(self).key(),
            final(self)@.tree == old(self)@.tree,
            final(self)@.docs == old(self)@.docs,
            final(self)@.members == match docs {
                Some(artifact) => old(self)@.members.insert(member@, artifact@),
                None => old(self)@.members.remove(member@),
            },
    {
        proof {
            use_type_invariant(&*self);
        }
        let found = self.find_member(member);
        let ghost before = self.member_pairs();
        let mut members: Vec<MemberDocs> = Vec::new();
        proof {
            lemma_empty::<Seq<char>, ArtifactView>();
            assert(self.members@.map_values(|m: MemberDocs| (m.name@, m.docs@)) == before);
        }
        core::mem::swap(&mut self.members, &mut members);
        assert(members@.map_values(|m: MemberDocs| (m.name@, m.docs@)) == before);
        match (found, docs) {
            (Some(i), Some(artifact)) => {
                proof {
                    lemma_update(before, i as int, artifact@);
                }
                let name = String::from_str(member);
                members.set(i, MemberDocs { name, docs: artifact });
                assert(members@.map_values(|m: MemberDocs| (m.name@, m.docs@)) =~= before.update(
                    i as int,
                    (before[i as int].0, artifact@),
                ));
            },
            (Some(i), None) => {
                proof {
                    lemma_remove(before, i as int);
                }
                members.remove(i);
                assert(members@.map_values(|m: MemberDocs| (m.name@, m.docs@)) =~= before.remove(
                    i as int,
                ));
            },
            (None, Some(artifact)) => {
                proof {
                    lemma_absent(before, member@);
                    lemma_push(before, member@, artifact@);
                }
                let name = String::from_str(member);
                members.push(MemberDocs { name, docs: artifact });
                assert(members@.map_values(|m: MemberDocs| (m.name@, m.docs@)) =~= before.push(
                    (member@, artifact@),
                ));
            },
            (None, None) => {
                proof {
                    lemma_absent(before, member@);
                    assert(as_map(before).remove(member@) =~= as_map(before));
                }
            },
        }
        self.members = members;
    }
}

impl View for CacheEntry {
    type V = EntryView;

    closed spec fn view(&self) -> EntryView {
        EntryView {
            tree: self.tree,
            docs: match self.docs {
                Some(artifact) => Some(artifact@),
                None => None,
            },
            members: as_map(self.member_pairs()),
        }
    }
}

/// What a listing tells of one cached package version.
#[derive(Clone, Debug, PartialEq, Eq)]
pub struct CrateMetadata {
    pub name: String,
    pub version: String,
    /// The size of the source tree on disk, in bytes.
    pub size_bytes: u64,
    /// When the source was acquired, in seconds since the epoch.
    pub cached_at: u64,
}

impl CrateMetadata {
    /// The key that the listed entry is stored under.
    pub open spec fn key(self) -> CacheKey {
        (self.name@, self.version@)
    }

    /// The source tree that the listing reports.
    pub open spec fn tree(self) -> SourceTree {
        SourceTree { size_bytes: self.size_bytes, cached_at: self.cached_at }
    }
}

/// A listing as pairs of key and reported source tree.
pub open spec fn listing(items: Seq<CrateMetadata>) -> Seq<(CacheKey, SourceTree)> {
    items.map_values(|m: CrateMetadata| (m.key(), m.tree()))
}

/// The index of the cache: which package versions are cached, and which
/// artifacts were generated for each.
pub struct CacheStorage {
    cache_dir: String,
    entries: Vec<CacheEntry>,
}

impl View for CacheStorage {
    type V = CacheIndex;

    closed spec fn view(&self) -> CacheIndex {
        as_map(self.pairs())
    }
}

impl CacheStorage {
    spec fn pairs(self) -> Seq<(CacheKey, EntryView)> {
        self.entries@.map_values(|e: CacheEntry| (e.key(), e@))
    }

    #[verifier::type_invariant]
    spec fn inv(self) -> bool {
        unique_keys(self.pairs())
    }

    /// The storage root.
    pub closed spec fn root(self) -> Seq<char> {
        self.cache_dir@
    }

    /// An empty cache rooted at `cache_dir`.
    pub fn new(cache_dir: String) -> (storage: CacheStorage)
        ensures
            storage.root() == cache_dir@,
            storage@ == Map::<CacheKey, EntryView>::empty(),
    {
        let storage = CacheStorage { cache_dir, entries: Vec::new() };
        proof {
            lemma_empty::<CacheKey, EntryView>();
            assert(storage.pairs() =~= Seq::<(CacheKey, EntryView)>::empty());
        }
        storage
    }

    /// The storage root.
    pub fn cache_dir(&self) -> (dir: String)
        ensures
            dir@ == self.root(),
    {
        self.cache_dir.clone()
    }

    /// The directory of a package version. The path is a function of the
    /// root and the key alone; nothing is implied about what exists there.
    pub fn crate_path(&self, name: &str, version: &str) -> (path: String)
        ensures
            path@ == spec_crate_path(self.root(), name@, version@),
    {
        let mut path = self.cache_dir.clone();
        path.append("/crates/");
        path.append(name);
        path.append("/");
        path.append(version);
        path
    }

    /// Where the source tree of a package version lies, cached or not.
    pub fn source_path(&self, name: &str, version: &str) -> (path: String)
        ensures
            path@ == spec_source_path(self.root(), name@, version@),
    {
        let mut path = self.crate_path(name, version);
        path.append("/source");
        path
    }

    /// Where the package artifact of a package version lies, generated or
    /// not.
    pub fn docs_path(&self, name: &str, version: &str) -> (path: String)
        ensures
            path@ == spec_docs_path(self.root(), name@, version@),
    {
        let mut path = self.crate_path(name, version);
        path.append("/docs.json");
        path
    }

    /// Where the artifact of a member lies, generated or not.
    pub fn member_docs_path(&self, name: &str, version: &str, member: &str) -> (path: String)
        ensures
            path@ == spec_member_docs_path(self.root(), name@, version@, member@),
    {
        let mut path = self.crate_path(name, version);
        path.append("/members/");
        path.append(member);
        path.append("/docs.json");
        path
    }

    /// Where the entry of a package version is set aside during an update.
    pub fn backup_path(&self, name: &str, version: &str) -> (path: String)
        ensures
            path@ == spec_backup_path(self.root(), name@, version@),
    {
        let mut path = self.cache_dir.clone();
        path.append("/backups/");
        path.append(name);
        path.append("/");
        path.append(version);
        path
    }

    fn find(&self, name: &str, version: &str) -> (r: Option<usize>)
        ensures
            match r {
                Some(i) => i < self.entries.len() && self.entries[i as int].key() == (name@, version@),
                None => forall|i: int|
                    0 <= i < self.entries.len() ==> self.entries[i].key() != (name@, version@),
            },
    {
        let mut i: usize = 0;
        while i < self.entries.len()
            invariant
                i <= self.entries.len(),
                forall|j: int| 0 <= j < i ==> self.entries[j].key() != (name@, version@),
            decreases self.entries.len() - i,
        {
            if self.entries[i].name.as_str().eq(name) && self.entries[i].version.as_str().eq(
                version,
            ) {
                return Some(i);
            }
            i += 1;
        }
        None
    }

    fn entry(&self, name: &str, version: &str) -> (r: Option<&CacheEntry>)
        ensures
            match r {
                Some(e) => self@.contains_key((name@, version@)) && self@[(name@, version@)] == e@,
                None => !self@.contains_key((name@, version@)),
            },
    {
        proof {
            use_type_invariant(self);
        }
        match self.find(name, version) {
            Some(i) => {
                proof {
                    lemma_lookup(self.pairs(), i as int);
                }
                Some(&self.entries[i])
            },
            None => {
                proof {
                    lemma_absent(self.pairs(), (name@, version@));
                }
                None
            },
        }
    }

    /// Whether the source of the package version is cached.
    pub fn is_cached(&self, name: &str, version: &str) -> (r: bool)
        ensures
            r == self@.contains_key((name@, version@)),
    {
        self.entry(name, version).is_some()
    }

    /// Whether a package artifact is stored for the package version.
    pub fn has_docs(&self, name: &str, version: &str) -> (r: bool)
        ensures
            r == index_has_docs(self@, (name@, version@)),
    {
        match self.entry(name, version) {
            Some(e) => e.docs.is_some(),
            None => false,
        }
    }

    /// Whether an artifact of the member is stored for the package version.
    pub fn has_member_docs(&self, name: &str, version: &str, member: &str) -> (r: bool)
        ensures
            r == index_has_member_docs(self@, (name@, version@), member@),
    {
        match self.entry(name, version) {
            Some(e) => e.member_text(member).is_some(),
            None => false,
        }
    }

    /// The stored package artifact, if there is one.
    pub fn docs(&self, name: &str, version: &str) -> (r: Option<&Artifact>)
        ensures
            match r {
                Some(artifact) => index_has_docs(self@, (name@, version@)) && self@[(
                    name@,
                    version@,
                )].docs == Some(artifact@),
                None => !index_has_docs(self@, (name@, version@)),
            },
    {
        match self.entry(name, version) {
            Some(e) => match &e.docs {
                Some(artifact) => Some(artifact),
                None => None,
            },
            None => None,
        }
    }

    /// The stored artifact of a member, if there is one.
    pub fn member_docs(&self, name: &str, version: &str, member: &str) -> (r: Option<&Artifact>)
        ensures
            match r {
                Some(artifact) => index_has_member_docs(self@, (name@, version@), member@)
                    && self@[(name@, version@)].members[member@] == artifact@,
                None => !index_has_member_docs(self@, (name@, version@), member@),
            },
    {
        match self.entry(name, version) {
            Some(e) => e.member_text(member),
            None => None,
        }
    }

    /// Lists what is cached: one item for each cached key and no other, in
    /// no particular order, each with the source tree of its entry.
    pub fn list_cached_crates(&self) -> (out: Vec<CrateMetadata>)
        ensures
            unique_keys(listing(out@)),
            as_map(listing(out@)) == self@.map_values(|e: EntryView| e.tree),
    {
        proof {
            use_type_invariant(self);
        }
        let mut out: Vec<CrateMetadata> = Vec::new();
        let mut i: usize = 0;
        while i < self.entries.len()
            invariant
                i <= self.entries.len(),
                out.len() == i,
                forall|j: int|
                    0 <= j < i ==> (#[trigger] out@[j]).key() == self.entries[j].key() && out@[j].tree()
                        == self.entries[j]@.tree,
            decreases self.entries.len() - i,
        {
            let e = &self.entries[i];
            out.push(
                CrateMetadata {
                    name: e.name.clone(),
                    version: e.version.clone(),
                    size_bytes: e.tree.size_bytes,
                    cached_at: e.tree.cached_at,
                },
            );
            i += 1;
        }
        proof {
            let l = listing(out@);
            let p = self.pairs();
            assert(l.len() == p.len());
            assert forall|j: int| 0 <= j < l.len() implies #[trigger] l[j].0 == p[j].0 && l[j].1
                == p[j].1.tree by {
                assert(out@[j].key() == self.entries[j].key());
            }
            assert forall|a: int, b: int| 0 <= a < b < l.len() implies l[a].0 != l[b].0 by {
                assert(p[a].0 != p[b].0);
            }
            let target = self@.map_values(|e: EntryView| e.tree);
            assert forall|k: CacheKey| #[trigger] as_map(l).contains_key(k) <==> target.contains_key(
                k,
            ) by {
                if as_map(l).contains_key(k) {
                    let j = crate::assoc::position(l, k);
                    assert(p[j].0 == k);
                }
                if self@.contains_key(k) {
                    let j = crate::assoc::position(p, k);
                    assert(l[j].0 == k);
                }
            }
            assert forall|k: CacheKey| as_map(l).contains_key(k) implies #[trigger] as_map(l)[k]
                == target[k] by {
                let j = crate::assoc::position(l, k);
                lemma_lookup(l, j);
                lemma_lookup(p, j);
            }
            assert(as_map(l) =~= target);
        }
        out
    }

    /// Takes the entry of a package version out of the cache and hands it
    /// over; `None` when nothing is cached under the key.
    pub fn take(&mut self, name: &str, version: &str) -> (taken: Option<CacheEntry>)
        ensures
            final(self).root() == old(self).root(),
            final(self)@ == old(self)@.remove((name@, version@)),
            match taken {
                Some(e) => e.key() == (name@, version@) && entry_of(old(self)@, (name@, version@))
                    == Some(e@),
                None => entry_of(old(self)@, (name@, version@)) is None,
            },
    {
        proof {
            use_type_invariant(&*self);
        }
        let ghost before = self.pairs();
        match self.find(name, version) {
            Some(i) => {
                proof {
                    lemma_lookup(before, i as int);
                    lemma_remove(before, i as int);
                    lemma_empty::<CacheKey, EntryView>();
                }
                let mut entries: Vec<CacheEntry> = Vec::new();
                assert(entries@.map_values(|e: CacheEntry| (e.key(), e@)) =~= Seq::<
                    (CacheKey, EntryView),
                >::empty());
                core::mem::swap(&mut self.entries, &mut entries);
                let e = entries.remove(i);
                assert(entries@.map_values(|e: CacheEntry| (e.key(), e@)) =~= before.remove(
                    i as int,
                ));
                self.entries = entries;
                Some(e)
            },
            None => {
                proof {
                    lemma_absent(before, (name@, version@));
                    assert(self@.remove((name@, version@)) =~= self@);
                }
                None
            },
        }
    }

    /// Puts an entry into the cache under its own key, in place of whatever
    /// was there.
    pub fn put(&mut self, entry: CacheEntry)
        ensures
            final(self).root() == old(self).root(),
            final(self)@ == old(self)@.insert(entry.key(), entry@),
    {
        proof {
            use_type_invariant(&*self);
        }
        let ghost before = self.pairs();
        let found = self.find(entry.name.as_str(), entry.version.as_str());
        let mut entries: Vec<CacheEntry> = Vec::new();
        proof {
            lemma_empty::<CacheKey, EntryView>();
            assert(entries@.map_values(|e: CacheEntry| (e.key(), e@)) =~= Seq::<
                (CacheKey, EntryView),
            >::empty());
        }
        core::mem::swap(&mut self.entries, &mut entries);
        match found {
            Some(i) => {
                proof {
                    lemma_update(before, i as int, entry@);
                }
                entries.set(i, entry);
                assert(entries@.map_values(|e: CacheEntry| (e.key(), e@)) =~= before.update(
                    i as int,
                    (before[i as int].0, entry@),
                ));
            },
            None => {
                proof {
                    lemma_absent(before, entry.key());
                    lemma_push(before, entry.key(), entry@);
                }
                entries.push(entry);
                assert(entries@.map_values(|e: CacheEntry| (e.key(), e@)) =~= before.push(
                    (entry.key(), entry@),
                ));
            },
        }
        self.entries = entries;
    }

    /// Removes a package version from the cache, with its source and every
    /// artifact generated from it. Fails, and changes nothing, when nothing
    /// is cached under the key.
    pub fn remove_crate(&mut self, name: &str, version: &str) -> (r: Result<(), CacheError>)
        ensures
            final(self).root() == old(self).root(),
            final(self)@ == old(self)@.remove((name@, version@)),
            r is Ok <==> old(self)@.contains_key((name@, version@)),
            r matches Err(e) ==> e@ == (CacheErrorView::NotFound { name: name@, version: version@ }),
    {
        match self.take(name, version) {
            Some(_) => Ok(()),
            None => Err(
                CacheError::NotFound {
                    name: String::from_str(name),
                    version: String::from_str(version),
                },
            ),
        }
    }

    /// Records a freshly acquired source tree. An entry that is already
    /// cached under the key is left as it is.
    pub fn store_source(&mut self, name: &str, version: &str, tree: SourceTree)
        ensures
            final(self).root() == old(self).root(),
            final(self)@ == if old(self)@.contains_key((name@, version@)) {
                old(self)@
            } else {
                old(self)@.insert((name@, version@), fresh_entry(tree))
            },
    {
        if !self.is_cached(name, version) {
            self.put(CacheEntry::new(name, version, tree));
        }
    }

    /// Stores, replaces or (with `None`) drops the package artifact of a
    /// cached package version. Nothing changes when the key is not cached.
    pub fn store_docs(&mut self, name: &str, version: &str, docs: Option<Artifact>)
        ensures
            final(self).root() == old(self).root(),
            final(self)@ == if old(self)@.contains_key((name@, version@)) {
                old(self)@.insert(
                    (name@, version@),
                    EntryView {
                        docs: match docs {
                            Some(artifact) => Some(artifact@),
                            None => None,
                        },
                        ..old(self)@[(name@, version@)]
                    },
                )
            } else {
                old(self)@
            },
    {
        match self.take(name, version) {
            Some(e) => {
                let mut e = e;
                proof {
                    use_type_invariant(&e);
                }
                e.docs = docs;
                self.put(e);
                assert(old(self)@.remove((name@, version@)).insert((name@, version@), e@) =~= old(
                    self,
                )@.insert((name@, version@), e@));
            },
            None => {
                assert(old(self)@.remove((name@, version@)) =~= old(self)@);
            },
        }
    }

    /// Stores, replaces or (with `None`) drops the artifact of a member of
    /// a cached package version. Nothing changes when the key is not
    /// cached.
    pub fn store_member_docs(
        &mut self,
        name: &str,
        version: &str,
        member: &str,
        docs: Option<Artifact>,
    )
        ensures
            final(self).root() == old(self).root(),
            final(self)@ == if old(self)@.contains_key((name@, version@)) {
                old(self)@.insert(
                    (name@, version@),
                    EntryView {
                        members: match docs {
                            Some(artifact) => old(self)@[(name@, version@)].members.insert(
                                member@,
                                artifact@,
                            ),
                            None => old(self)@[(name@, version@)].members.remove(member@),
                        },
                        ..old(self)@[(name@, version@)]
                    },
                )
            } else {
                old(self)@
            },
    {
        match self.take(name, version) {
            Some(e) => {
                let mut e = e;
                e.set_member(member, docs);
                self.put(e);
                assert(old(self)@.remove((name@, version@)).insert((name@, version@), e@) =~= old(
                    self,
                )@.insert((name@, version@), e@));
            },
            None => {
                assert(old(self)@.remove((name@, version@)) =~= old(self)@);
            },
        }
    }
}

} // verus!
