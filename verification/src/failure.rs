//! The closed set of failures a request can end in, and their rendering.

use vstd::prelude::*;
use vstd::string::*;

verus! {

/// What a collaborator reported when its operation failed. Only the text of
/// the report is kept; what the collaborator's error was made of stays
/// behind.
#[derive(Debug)]
pub struct Cause {
    rendering: String,
}

impl View for Cause {
    type V = Seq<char>;

    closed spec fn view(&self) -> Seq<char> {
        self.rendering@
    }
}

impl Clone for Cause {
    fn clone(&self) -> (copy: Cause)
        ensures
            copy == *self,
    {
        Cause { rendering: self.rendering.clone() }
    }
}

impl Cause {
    /// A cause whose report reads `rendering`.
    pub fn new(rendering: String) -> (cause: Cause)
        ensures
            cause@ == rendering@,
    {
        Cause { rendering }
    }

    /// The text of the report.
    pub fn rendering(&self) -> (text: &str)
        ensures
            text@ == self@,
    {
        self.rendering.as_str()
    }
}

/// The ways a request can fail. Two kinds wrap what a collaborator
/// reported; three are outcomes of the service's own policy.
#[derive(Debug)]
pub enum FailureKind {
    /// A persistent-storage operation failed.
    StoreFailure(Cause),
    /// A cache operation failed.
    CacheFailure(Cause),
    /// The caller lacks permission.
    Forbidden,
    /// The requested resource does not exist.
    NotFound,
    /// The caller is not authenticated.
    Unauthorized,
}

/// A `FailureKind` as a mathematical value: each wrapped cause is the text
/// of its report.
pub enum FailureModel {
    StoreFailure(Seq<char>),
    CacheFailure(Seq<char>),
    Forbidden,
    NotFound,
    Unauthorized,
}

impl View for FailureKind {
    type V = FailureModel;

    open spec fn view(&self) -> FailureModel {
        match self {
            FailureKind::StoreFailure(cause) => FailureModel::StoreFailure(cause@),
            FailureKind::CacheFailure(cause) => FailureModel::CacheFailure(cause@),
            FailureKind::Forbidden => FailureModel::Forbidden,
            FailureKind::NotFound => FailureModel::NotFound,
            FailureKind::Unauthorized => FailureModel::Unauthorized,
        }
    }
}

impl Clone for FailureKind {
    fn clone(&self) -> (copy: FailureKind)
        ensures
            copy == *self,
    {
        match self {
            FailureKind::StoreFailure(cause) => FailureKind::StoreFailure(cause.clone()),
            FailureKind::CacheFailure(cause) => FailureKind::CacheFailure(cause.clone()),
            FailureKind::Forbidden => FailureKind::Forbidden,
            FailureKind::NotFound => FailureKind::NotFound,
            FailureKind::Unauthorized => FailureKind::Unauthorized,
        }
    }
}

/// The text of the cause that a failure wraps, if it wraps one.
pub open spec fn wrapped_cause(kind: FailureModel) -> Option<Seq<char>> {
    match kind {
        FailureModel::StoreFailure(cause) => Some(cause),
        FailureModel::CacheFailure(cause) => Some(cause),
        FailureModel::Forbidden => None,
        FailureModel::NotFound => None,
        FailureModel::Unauthorized => None,
    }
}

/// The human-readable text of a failure: a fixed prefix and the cause's own
/// text for the wrapping kinds, a fixed literal for the others.
pub open spec fn rendering(kind: FailureModel) -> Seq<char> {
    match kind {
        FailureModel::StoreFailure(cause) => "Store error: "@ + cause,
        FailureModel::CacheFailure(cause) => "Cache error: "@ + cause,
        FailureModel::Forbidden => "Forbidden"@,
        FailureModel::NotFound => "Not Found"@,
        FailureModel::Unauthorized => "Unauthorized"@,
    }
}

impl FailureKind {
    /// The failure of a storage operation that reported `cause`.
    pub fn store_failure(cause: Cause) -> (kind: FailureKind)
        ensures
            kind@ == FailureModel::StoreFailure(cause@),
    {
        FailureKind::StoreFailure(cause)
    }

    /// The failure of a cache operation that reported `cause`.
    pub fn cache_failure(cause: Cause) -> (kind: FailureKind)
        ensures
            kind@ == FailureModel::CacheFailure(cause@),
    {
        FailureKind::CacheFailure(cause)
    }

    /// The human-readable text of the failure.
    pub fn render(&self) -> (text: String)
        ensures
            text@ == rendering(self@),
    {
        match self {
            FailureKind::StoreFailure(cause) => {
                String::from_str("Store error: ").concat(cause.rendering())
            },
            FailureKind::CacheFailure(cause) => {
                String::from_str("Cache error: ").concat(cause.rendering())
            },
            FailureKind::Forbidden => String::from_str("Forbidden"),
            FailureKind::NotFound => String::from_str("Not Found"),
            FailureKind::Unauthorized => String::from_str("Unauthorized"),
        }
    }

    /// The cause that the failure wraps, if it wraps one.
    pub open spec fn spec_cause(&self) -> Option<&Cause> {
        match self {
            FailureKind::StoreFailure(cause) => Some(cause),
            FailureKind::CacheFailure(cause) => Some(cause),
            FailureKind::Forbidden => None,
            FailureKind::NotFound => None,
            FailureKind::Unauthorized => None,
        }
    }

    /// The cause that the failure wraps, for a caller that chains or
    /// inspects it: present for the two wrapping kinds, absent for the
    /// policy outcomes.
    pub fn cause(&self) -> (cause: Option<&Cause>)
        ensures
            cause == self.spec_cause(),
            match cause {
                Some(c) => wrapped_cause(self@) == Some(c@),
                None => wrapped_cause(self@) is None,
            },
    {
        match self {
            FailureKind::StoreFailure(cause) => Some(cause),
            FailureKind::CacheFailure(cause) => Some(cause),
            FailureKind::Forbidden => None,
            FailureKind::NotFound => None,
            FailureKind::Unauthorized => None,
        }
    }
}

/// The rendering of a failure that wraps a cause holds the cause's own
/// text, letter for letter, as its last part.
pub proof fn lemma_rendering_holds_cause(kind: FailureModel)
    requires
        wrapped_cause(kind) is Some,
    ensures
        wrapped_cause(kind)->0.len() <= rendering(kind).len(),
        rendering(kind).subrange(
            rendering(kind).len() - wrapped_cause(kind)->0.len(),
            rendering(kind).len() as int,
        ) == wrapped_cause(kind)->0,
{
    let cause = wrapped_cause(kind)->0;
    let text = rendering(kind);
    assert(text.subrange(text.len() - cause.len(), text.len() as int) =~= cause);
}

} // verus!
