//! Workspaces: packages whose source tree declares several members.

use vstd::prelude::*;
use vstd::string::StrSliceExecFns;
use crate::text::{last_segment, last_segment_position, last_segment_start, lemma_last_segment};

verus! {

/// What an inspection of a manifest found.
#[derive(Debug, PartialEq, Eq)]
pub struct ManifestReport {
    /// Whether the manifest file exists.
    pub exists: bool,
    /// Whether the manifest declares a workspace, or why it cannot be told.
    pub is_workspace: Result<bool, String>,
    /// The member paths that the manifest declares, in order, or why they
    /// cannot be listed. An empty list says nothing about whether the
    /// manifest is a workspace: `is_workspace` does.
    pub members: Result<Vec<String>, String>,
}

/// Rules on workspace members.
pub struct WorkspaceHandler;

impl WorkspaceHandler {
    /// The name of a member: the last component of its path.
    pub fn extract_member_name(member_path: &str) -> (name: &str)
        ensures
            name@ == last_segment(member_path@, '/'),
    {
        let (start, end) = last_segment_position(member_path, '/');
        let name = member_path.substring_char(start, end);
        assert(member_path@.subrange(start as int, end as int) =~= member_path@.skip(start as int));
        name
    }
}

/// A member name is the end of its path, holds no `/`, and is all of the
/// path when the path holds none.
pub proof fn lemma_member_name(member_path: Seq<char>)
    ensures
        last_segment(member_path, '/').len() <= member_path.len(),
        !last_segment(member_path, '/').contains('/'),
        !member_path.contains('/') ==> last_segment(member_path, '/') == member_path,
{
    lemma_last_segment(member_path, '/');
    let k = last_segment_start(member_path, '/');
    if !member_path.contains('/') {
        if k > 0 {
            assert(member_path.contains(member_path[k - 1]));
        }
        assert(member_path.skip(0) =~= member_path);
    }
}

} // verus!
