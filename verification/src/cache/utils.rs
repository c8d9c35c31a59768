//! The outcome of a request to cache a package.

use vstd::prelude::*;
use crate::text::texts;

verus! {

/// How a request to cache a package ended. Every request ends in exactly
/// one of these.
#[derive(Clone, Debug, PartialEq, Eq)]
pub enum CacheResponse {
    /// The package is cached, with its documentation.
    Success { crate_name: String, version: String },
    /// The cached package was replaced by a fresh copy, with its
    /// documentation.
    SuccessUpdated { crate_name: String, version: String },
    /// The source is a workspace and no member was asked for: the members
    /// are listed and no documentation was generated.
    WorkspaceDetected {
        crate_name: String,
        version: String,
        members: Vec<String>,
        source_type: String,
        updated: bool,
    },
    /// Every member asked for is cached.
    MembersSuccess {
        crate_name: String,
        version: String,
        members: Vec<String>,
        results: Vec<String>,
        updated: bool,
    },
    /// Some member asked for could not be cached.
    PartialSuccess {
        crate_name: String,
        version: String,
        members: Vec<String>,
        results: Vec<String>,
        errors: Vec<String>,
        updated: bool,
    },
    /// The request failed.
    Error { message: String },
}

/// A `CacheResponse` with its texts as character sequences.
pub enum CacheResponseView {
    Success { crate_name: Seq<char>, version: Seq<char> },
    SuccessUpdated { crate_name: Seq<char>, version: Seq<char> },
    WorkspaceDetected {
        crate_name: Seq<char>,
        version: Seq<char>,
        members: Seq<Seq<char>>,
        source_type: Seq<char>,
        updated: bool,
    },
    MembersSuccess {
        crate_name: Seq<char>,
        version: Seq<char>,
        members: Seq<Seq<char>>,
        results: Seq<Seq<char>>,
        updated: bool,
    },
    PartialSuccess {
        crate_name: Seq<char>,
        version: Seq<char>,
        members: Seq<Seq<char>>,
        results: Seq<Seq<char>>,
        errors: Seq<Seq<char>>,
        updated: bool,
    },
    Error { message: Seq<char> },
}

impl View for CacheResponse {
    type V = CacheResponseView;

    open spec fn view(&self) -> CacheResponseView {
        match *self {
            CacheResponse::Success { crate_name, version } => CacheResponseView::Success {
                crate_name: crate_name@,
                version: version@,
            },
            CacheResponse::SuccessUpdated { crate_name, version } => CacheResponseView::SuccessUpdated {
                crate_name: crate_name@,
                version: version@,
            },
            CacheResponse::WorkspaceDetected {
                crate_name,
                version,
                members,
                source_type,
                updated,
            } => CacheResponseView::WorkspaceDetected {
                crate_name: crate_name@,
                version: version@,
                members: texts(members@),
                source_type: source_type@,
                updated,
            },
            CacheResponse::MembersSuccess {
                crate_name,
                version,
                members,
                results,
                updated,
            } => CacheResponseView::MembersSuccess {
                crate_name: crate_name@,
                version: version@,
                members: texts(members@),
                results: texts(results@),
                updated,
            },
            CacheResponse::PartialSuccess {
                crate_name,
                version,
                members,
                results,
                errors,
                updated,
            } => CacheResponseView::PartialSuccess {
                crate_name: crate_name@,
                version: version@,
                members: texts(members@),
                results: texts(results@),
                errors: texts(errors@),
                updated,
            },
            CacheResponse::Error { message } => CacheResponseView::Error { message: message@ },
        }
    }
}

/// The response to a request that cached the given members: success when
/// no member failed, partial success otherwise.
pub open spec fn members_response(
    crate_name: Seq<char>,
    version: Seq<char>,
    members: Seq<Seq<char>>,
    results: Seq<Seq<char>>,
    errors: Seq<Seq<char>>,
    updated: bool,
) -> CacheResponseView {
    if errors.len() == 0 {
        CacheResponseView::MembersSuccess { crate_name, version, members, results, updated }
    } else {
        CacheResponseView::PartialSuccess { crate_name, version, members, results, errors, updated }
    }
}

/// The status tag under which a response is reported.
pub open spec fn status_tag(response: CacheResponseView) -> Seq<char> {
    match response {
        CacheResponseView::Success { .. } => "success"@,
        CacheResponseView::SuccessUpdated { .. } => "success"@,
        CacheResponseView::WorkspaceDetected { .. } => "workspace_detected"@,
        CacheResponseView::MembersSuccess { .. } => "success"@,
        CacheResponseView::PartialSuccess { .. } => "partial_success"@,
        CacheResponseView::Error { .. } => "error"@,
    }
}

impl CacheResponse {
    /// The package was cached.
    pub fn success(crate_name: &str, version: &str) -> (r: CacheResponse)
        ensures
            r@ == (CacheResponseView::Success { crate_name: crate_name@, version: version@ }),
    {
        CacheResponse::Success {
            crate_name: String::from_str(crate_name),
            version: String::from_str(version),
        }
    }

    /// The cached package was replaced.
    pub fn success_updated(crate_name: &str, version: &str) -> (r: CacheResponse)
        ensures
            r@ == (CacheResponseView::SuccessUpdated { crate_name: crate_name@, version: version@ }),
    {
        CacheResponse::SuccessUpdated {
            crate_name: String::from_str(crate_name),
            version: String::from_str(version),
        }
    }

    /// The source is a workspace with the given members.
    pub fn workspace_detected(
        crate_name: &str,
        version: &str,
        members: Vec<String>,
        source_type: &str,
        updated: bool,
    ) -> (r: CacheResponse)
        ensures
            r@ == (CacheResponseView::WorkspaceDetected {
                crate_name: crate_name@,
                version: version@,
                members: texts(members@),
                source_type: source_type@,
                updated,
            }),
    {
        CacheResponse::WorkspaceDetected {
            crate_name: String::from_str(crate_name),
            version: String::from_str(version),
            members,
            source_type: String::from_str(source_type),
            updated,
        }
    }

    /// Every member asked for was cached.
    pub fn members_success(
        crate_name: &str,
        version: &str,
        members: Vec<String>,
        results: Vec<String>,
        updated: bool,
    ) -> (r: CacheResponse)
        ensures
            r@ == (CacheResponseView::MembersSuccess {
                crate_name: crate_name@,
                version: version@,
                members: texts(members@),
                results: texts(results@),
                updated,
            }),
    {
        CacheResponse::MembersSuccess {
            crate_name: String::from_str(crate_name),
            version: String::from_str(version),
            members,
            results,
            updated,
        }
    }

    /// Some member asked for could not be cached.
    pub fn members_partial(
        crate_name: &str,
        version: &str,
        members: Vec<String>,
        results: Vec<String>,
        errors: Vec<String>,
        updated: bool,
    ) -> (r: CacheResponse)
        ensures
            r@ == (CacheResponseView::PartialSuccess {
                crate_name: crate_name@,
                version: version@,
                members: texts(members@),
                results: texts(results@),
                errors: texts(errors@),
                updated,
            }),
    {
        CacheResponse::PartialSuccess {
            crate_name: String::from_str(crate_name),
            version: String::from_str(version),
            members,
            results,
            errors,
            updated,
        }
    }

    /// The request failed, for the reason that `message` gives.
    pub fn error(message: String) -> (r: CacheResponse)
        ensures
            r@ == (CacheResponseView::Error { message: message@ }),
    {
        CacheResponse::Error { message }
    }

    /// The status tag under which the response is reported.
    pub fn status(&self) -> (tag: &'static str)
        ensures
            tag@ == status_tag(self@),
    {
        match self {
            CacheResponse::Success { .. } => "success",
            CacheResponse::SuccessUpdated { .. } => "success",
            CacheResponse::WorkspaceDetected { .. } => "workspace_detected",
            CacheResponse::MembersSuccess { .. } => "success",
            CacheResponse::PartialSuccess { .. } => "partial_success",
            CacheResponse::Error { .. } => "error",
        }
    }
}

} // verus!
