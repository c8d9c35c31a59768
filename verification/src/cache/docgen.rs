//! Documentation artifacts: the request to generate one, and reading one
//! back.

use vstd::prelude::*;
use crate::text::{opt_str, opt_text};

verus! {

/// `serde_json::Value`: a parsed JSON document.
#[verifier::external_type_specification]
#[verifier::external_body]
pub struct ExJsonValue(serde_json::Value);

/// `serde_json::Error`: why a JSON text or value was refused.
#[verifier::external_type_specification]
#[verifier::external_body]
pub struct ExJsonError(serde_json::Error);

/// `rustdoc_types::Crate`: the documented items of a package.
#[verifier::external_type_specification]
#[verifier::external_body]
pub struct ExCrateDocs(rustdoc_types::Crate);

/// What `serde_json::from_str` makes of a text as a JSON document.
pub uninterp spec fn json_of(text: Seq<char>) -> Result<serde_json::Value, serde_json::Error>;

/// The error with which `serde_json::from_value` refuses a JSON document
/// as the documentation of a package; none where it accepts the document.
pub uninterp spec fn docs_refusal(value: serde_json::Value) -> Option<serde_json::Error>;

/// The message that a `serde_json::Error` displays.
pub uninterp spec fn json_error_text(error: serde_json::Error) -> Seq<char>;

/// Calls `serde_json::from_str` for a `serde_json::Value`. The result
/// depends on the text alone: the document it spells, or the error that
/// says where it is not JSON.
#[verifier::external_body]
fn parse_json(text: &str) -> (r: Result<serde_json::Value, serde_json::Error>)
    ensures
        r == json_of(text@),
{
    serde_json::from_str::<serde_json::Value>(text)
}

/// Calls `serde_json::from_value` for a `rustdoc_types::Crate`. Whether
/// the document is accepted, and the error that says what is missing or of
/// the wrong type if it is not, depend on the document alone. Nothing is
/// claimed of the documentation that comes out: its maps are hashed under
/// seeds of their own.
#[verifier::external_body]
fn docs_from_value(value: serde_json::Value) -> (r: Result<rustdoc_types::Crate, serde_json::Error>)
    ensures
        match r {
            Ok(_) => docs_refusal(value) is None,
            Err(e) => docs_refusal(value) == Some(e),
        },
{
    serde_json::from_value::<rustdoc_types::Crate>(value)
}

/// Calls `to_string` on a `serde_json::Error`, which gives the message that
/// the error displays.
#[verifier::external_body]
fn error_text(error: &serde_json::Error) -> (s: String)
    ensures
        s@ == json_error_text(*error),
{
    error.to_string()
}

/// The message that says an artifact cannot be read, for the reason that
/// `detail` gives.
pub open spec fn unreadable_message(detail: Seq<char>) -> Seq<char> {
    "Failed to parse documentation JSON: "@ + detail
}

/// Why an artifact cannot be read back, if it cannot: the message that
/// says where its text is not JSON, or how the JSON is not the
/// documentation of a package.
pub open spec fn unreadable(text: Seq<char>) -> Option<Seq<char>> {
    match json_of(text) {
        Err(e) => Some(unreadable_message(json_error_text(e))),
        Ok(value) => match docs_refusal(value) {
            Some(e) => Some(unreadable_message(json_error_text(e))),
            None => None,
        },
    }
}

/// The message that says an artifact cannot be read, for the reason that
/// `detail` gives.
pub fn unreadable_text(detail: &str) -> (message: String)
    ensures
        message@ == unreadable_message(detail@),
{
    let mut message = String::from_str("Failed to parse documentation JSON: ");
    message.append(detail);
    message
}

/// Reads an artifact: parses its text as JSON and the JSON as the
/// documentation of a package. The artifact is read exactly when it is not
/// `unreadable`, and the failure carries the message that says why.
pub fn parse_docs(text: &str) -> (r: Result<rustdoc_types::Crate, String>)
    ensures
        match r {
            Ok(_) => unreadable(text@) is None,
            Err(message) => unreadable(text@) == Some(message@),
        },
{
    match parse_json(text) {
        Err(e) => {
            let detail = error_text(&e);
            Err(unreadable_text(detail.as_str()))
        },
        Ok(value) => match docs_from_value(value) {
            Err(e) => {
                let detail = error_text(&e);
                Err(unreadable_text(detail.as_str()))
            },
            Ok(docs) => Ok(docs),
        },
    }
}

/// A documentation artifact: the text that the generator produced, kept
/// with what reading it back gives. An artifact is read once, when it is
/// taken in; from then on whether it can be read is a matter of record.
#[derive(Debug, PartialEq, Eq)]
pub struct Artifact {
    text: String,
    failure: Option<String>,
}

/// An artifact as plain values.
pub struct ArtifactView {
    /// The text of the artifact.
    pub text: Seq<char>,
    /// Why the artifact cannot be read back; none if it can.
    pub failure: Option<Seq<char>>,
}

impl View for Artifact {
    type V = ArtifactView;

    closed spec fn view(&self) -> ArtifactView {
        ArtifactView { text: self.text@, failure: opt_text(self.failure) }
    }
}

impl Artifact {
    #[verifier::type_invariant]
    spec fn inv(self) -> bool {
        opt_text(self.failure) == unreadable(self.text@)
    }

    /// Takes an artifact in: keeps its text, and reads it to record whether
    /// it can be read back.
    pub fn read(text: String) -> (artifact: Artifact)
        ensures
            artifact@ == (ArtifactView { text: text@, failure: unreadable(text@) }),
    {
        let failure = match parse_docs(text.as_str()) {
            Ok(_) => None,
            Err(message) => Some(message),
        };
        Artifact { text, failure }
    }

    /// The text of the artifact.
    pub fn text(&self) -> (text: &str)
        ensures
            text@ == self@.text,
    {
        self.text.as_str()
    }

    /// Why the artifact cannot be read back; none if it can.
    pub fn failure(&self) -> (failure: Option<&str>)
        ensures
            opt_str(failure) == self@.failure,
    {
        match &self.failure {
            Some(message) => Some(message.as_str()),
            None => None,
        }
    }

    /// Whether the artifact can be read back.
    pub fn is_readable(&self) -> (r: bool)
        ensures
            r == (self@.failure is None),
    {
        self.failure.is_none()
    }

    /// A copy of the artifact.
    pub fn copy(&self) -> (artifact: Artifact)
        ensures
            artifact@ == self@,
    {
        proof {
            use_type_invariant(self);
        }
        Artifact {
            text: self.text.clone(),
            failure: match &self.failure {
                Some(message) => Some(message.clone()),
                None => None,
            },
        }
    }

    /// Reads the artifact back: the documentation that it holds, or the
    /// recorded reason why it cannot be read.
    pub fn load(&self) -> (r: Result<rustdoc_types::Crate, String>)
        ensures
            match r {
                Ok(_) => self@.failure is None,
                Err(message) => self@.failure == Some(message@),
            },
    {
        proof {
            use_type_invariant(self);
        }
        parse_docs(self.text.as_str())
    }
}

/// A request to generate the documentation artifact of a cached package
/// version, or of one member of it.
#[derive(Clone, Debug, PartialEq, Eq)]
pub struct GenerateRequest {
    pub name: String,
    pub version: String,
    /// The cached source tree to document.
    pub source_dir: String,
    /// The path of the member to document, where only one is wanted.
    pub member: Option<String>,
    /// Where the artifact is to be put.
    pub output: String,
}

/// A `GenerateRequest` with its texts as character sequences.
pub struct GenerateRequestView {
    pub name: Seq<char>,
    pub version: Seq<char>,
    pub source_dir: Seq<char>,
    pub member: Option<Seq<char>>,
    pub output: Seq<char>,
}

impl View for GenerateRequest {
    type V = GenerateRequestView;

    open spec fn view(&self) -> GenerateRequestView {
        GenerateRequestView {
            name: self.name@,
            version: self.version@,
            source_dir: self.source_dir@,
            member: opt_text(self.member),
            output: self.output@,
        }
    }
}

/// How generating the artifact of one member ended.
#[derive(Debug, PartialEq, Eq)]
pub enum MemberGeneration {
    /// The member has no manifest under the source tree.
    ManifestMissing,
    /// The documentation tool failed.
    Failed(String),
    /// The tool produced this artifact.
    Generated(Artifact),
}

} // verus!
