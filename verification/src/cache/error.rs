//! What can go wrong in the cache.

use vstd::prelude::*;
use crate::text::{debug_list, format_debug_list, texts};

verus! {

/// A failure of a cache operation.
#[derive(Clone, Debug, PartialEq, Eq)]
pub enum CacheError {
    /// The source description is malformed; nothing was attempted.
    Validation(String),
    /// The source could not be fetched, cloned or copied.
    Acquisition(String),
    /// A manifest could not be read.
    Parse(String),
    /// Documentation was asked for a package whose source is not cached.
    Precondition { name: String, version: String },
    /// The member has no manifest under the cached source.
    MemberNotFound { member: String, name: String, version: String },
    /// The documentation tool failed.
    Generation(String),
    /// A stored artifact cannot be read back.
    Deserialization(String),
    /// Nothing is cached under the key, or no artifact was generated for it.
    NotFound { name: String, version: String },
    /// The package is a workspace and no member was named.
    AmbiguousWorkspace { members: Vec<String> },
    /// No cache directory was given and no home directory is known.
    NoCacheDir,
}

/// A `CacheError` with its texts as character sequences.
pub enum CacheErrorView {
    Validation(Seq<char>),
    Acquisition(Seq<char>),
    Parse(Seq<char>),
    Precondition { name: Seq<char>, version: Seq<char> },
    MemberNotFound { member: Seq<char>, name: Seq<char>, version: Seq<char> },
    Generation(Seq<char>),
    Deserialization(Seq<char>),
    NotFound { name: Seq<char>, version: Seq<char> },
    AmbiguousWorkspace { members: Seq<Seq<char>> },
    NoCacheDir,
}

impl View for CacheError {
    type V = CacheErrorView;

    open spec fn view(&self) -> CacheErrorView {
        match *self {
            CacheError::Validation(m) => CacheErrorView::Validation(m@),
            CacheError::Acquisition(m) => CacheErrorView::Acquisition(m@),
            CacheError::Parse(m) => CacheErrorView::Parse(m@),
            CacheError::Precondition { name, version } => CacheErrorView::Precondition {
                name: name@,
                version: version@,
            },
            CacheError::MemberNotFound { member, name, version } => CacheErrorView::MemberNotFound {
                member: member@,
                name: name@,
                version: version@,
            },
            CacheError::Generation(m) => CacheErrorView::Generation(m@),
            CacheError::Deserialization(m) => CacheErrorView::Deserialization(m@),
            CacheError::NotFound { name, version } => CacheErrorView::NotFound {
                name: name@,
                version: version@,
            },
            CacheError::AmbiguousWorkspace { members } => CacheErrorView::AmbiguousWorkspace {
                members: texts(members@),
            },
            CacheError::NoCacheDir => CacheErrorView::NoCacheDir,
        }
    }
}

/// The member that an ambiguity message proposes as an example.
pub open spec fn example_member(members: Seq<Seq<char>>) -> Seq<char> {
    if members.len() > 0 {
        members[0]
    } else {
        "crates/example"@
    }
}

/// The text that says a package is a workspace, given its members and how
/// they are listed.
pub open spec fn ambiguity_message_with(listed: Seq<char>, members: Seq<Seq<char>>) -> Seq<char> {
    "This is a workspace crate. Please specify a member using the 'member' parameter.\nAvailable members: "@
        + listed + "\nExample: specify member=\""@ + example_member(members) + "\""@
}

/// The text that says a package is a workspace and which members it has.
pub open spec fn ambiguity_message(members: Seq<Seq<char>>) -> Seq<char> {
    ambiguity_message_with(debug_list(members), members)
}

/// The text that says a member has no manifest under the cached source.
pub open spec fn member_not_found_message(
    member: Seq<char>,
    name: Seq<char>,
    version: Seq<char>,
) -> Seq<char> {
    "Workspace member '"@ + member + "' not found in "@ + name + "-"@ + version
        + ". Make sure the member path is correct."@
}

/// The text that says the source of a package version is not cached.
pub open spec fn precondition_message(name: Seq<char>, version: Seq<char>) -> Seq<char> {
    "Source of "@ + name + "-"@ + version + " is not cached"@
}

/// The text that says nothing is stored under a key.
pub open spec fn not_found_message(name: Seq<char>, version: Seq<char>) -> Seq<char> {
    "Nothing is cached for "@ + name + "-"@ + version
}

/// The human-readable text of an error.
pub open spec fn message_of(error: CacheErrorView) -> Seq<char> {
    match error {
        CacheErrorView::Validation(m) => m,
        CacheErrorView::Acquisition(m) => m,
        CacheErrorView::Parse(m) => m,
        CacheErrorView::Precondition { name, version } => precondition_message(name, version),
        CacheErrorView::MemberNotFound { member, name, version } => member_not_found_message(
            member,
            name,
            version,
        ),
        CacheErrorView::Generation(m) => m,
        CacheErrorView::Deserialization(m) => m,
        CacheErrorView::NotFound { name, version } => not_found_message(name, version),
        CacheErrorView::AmbiguousWorkspace { members } => ambiguity_message(members),
        CacheErrorView::NoCacheDir => "Could not determine the cache directory"@,
    }
}

/// A result with its error as character sequences.
pub open spec fn result_view<T>(r: Result<T, CacheError>) -> Result<T, CacheErrorView> {
    match r {
        Ok(v) => Ok(v),
        Err(e) => Err(e@),
    }
}

/// The text that says a package is a workspace, given its members and how
/// they are listed.
pub fn ambiguity_text(listed: &str, members: &Vec<String>) -> (s: String)
    ensures
        s@ == ambiguity_message_with(listed@, texts(members@)),
{
    let mut s = String::from_str(
        "This is a workspace crate. Please specify a member using the 'member' parameter.\nAvailable members: ",
    );
    s.append(listed);
    s.append("\nExample: specify member=\"");
    if members.len() > 0 {
        assert(texts(members@)[0] == members@[0]@);
        s.append(members[0].as_str());
    } else {
        s.append("crates/example");
    }
    s.append("\"");
    s
}

/// The text that says a member has no manifest under the cached source.
pub fn member_not_found_text(member: &str, name: &str, version: &str) -> (s: String)
    ensures
        s@ == member_not_found_message(member@, name@, version@),
{
    let mut s = String::from_str("Workspace member '");
    s.append(member);
    s.append("' not found in ");
    s.append(name);
    s.append("-");
    s.append(version);
    s.append(". Make sure the member path is correct.");
    s
}

/// The text that says the source of a package version is not cached.
pub fn precondition_text(name: &str, version: &str) -> (s: String)
    ensures
        s@ == precondition_message(name@, version@),
{
    let mut s = String::from_str("Source of ");
    s.append(name);
    s.append("-");
    s.append(version);
    s.append(" is not cached");
    s
}

impl CacheError {
    /// The human-readable text of the error.
    pub fn message(&self) -> (s: String)
        ensures
            s@ == message_of(self@),
    {
        match self {
            CacheError::Validation(m) => m.clone(),
            CacheError::Acquisition(m) => m.clone(),
            CacheError::Parse(m) => m.clone(),
            CacheError::Precondition { name, version } => precondition_text(
                name.as_str(),
                version.as_str(),
            ),
            CacheError::MemberNotFound { member, name, version } => member_not_found_text(
                member.as_str(),
                name.as_str(),
                version.as_str(),
            ),
            CacheError::Generation(m) => m.clone(),
            CacheError::Deserialization(m) => m.clone(),
            CacheError::NotFound { name, version } => {
                let mut s = String::from_str("Nothing is cached for ");
                s.append(name.as_str());
                s.append("-");
                s.append(version.as_str());
                s
            },
            CacheError::AmbiguousWorkspace { members } => {
                let listed = format_debug_list(members);
                ambiguity_text(listed.as_str(), members)
            },
            CacheError::NoCacheDir => String::from_str("Could not determine the cache directory"),
        }
    }
}

} // verus!
