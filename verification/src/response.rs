//! The mapping from a failure to what the serving layer sends: a status
//! code and a body.

use vstd::prelude::*;
use vstd::string::*;
use crate::failure::{rendering, FailureKind, FailureModel};

verus! {

/// The status of a failure on the server's side.
pub const STATUS_SERVER_FAULT: u16 = 500;

/// The status of a request that the caller is not permitted to make.
pub const STATUS_FORBIDDEN: u16 = 403;

/// The status of a request for something that does not exist.
pub const STATUS_NOT_FOUND: u16 = 404;

/// The status of a request from a caller who is not authenticated.
pub const STATUS_UNAUTHORIZED: u16 = 401;

/// How much a response tells. Made once at startup and passed to
/// `FailureKind::to_response` by value.
#[derive(Clone, Copy, Debug, PartialEq, Eq, Structural)]
pub struct ResponseConfig {
    /// Whether the body of a server fault carries the text of its cause.
    pub include_cause: bool,
}

/// What the serving layer sends for a failure.
#[derive(Debug)]
pub struct ResponseDescriptor {
    pub status: u16,
    pub body: String,
}

impl Clone for ResponseDescriptor {
    fn clone(&self) -> (copy: ResponseDescriptor)
        ensures
            copy == *self,
    {
        ResponseDescriptor { status: self.status, body: self.body.clone() }
    }
}

/// The status code of a failure.
pub open spec fn status_of(kind: FailureModel) -> u16 {
    match kind {
        FailureModel::StoreFailure(_) => STATUS_SERVER_FAULT,
        FailureModel::CacheFailure(_) => STATUS_SERVER_FAULT,
        FailureModel::Forbidden => STATUS_FORBIDDEN,
        FailureModel::NotFound => STATUS_NOT_FOUND,
        FailureModel::Unauthorized => STATUS_UNAUTHORIZED,
    }
}

/// The body of the response to a failure. A server fault shows its
/// rendering where the cause may be told and a fixed text where it may not;
/// every other failure shows its rendering.
pub open spec fn body_of(kind: FailureModel, include_cause: bool) -> Seq<char> {
    match kind {
        FailureModel::StoreFailure(_) => if include_cause {
            rendering(kind)
        } else {
            "Internal Server Error"@
        },
        FailureModel::CacheFailure(_) => if include_cause {
            rendering(kind)
        } else {
            "Internal Server Error"@
        },
        FailureModel::Forbidden => rendering(kind),
        FailureModel::NotFound => rendering(kind),
        FailureModel::Unauthorized => rendering(kind),
    }
}

impl FailureKind {
    /// The status code that the failure is answered with.
    pub fn status(&self) -> (status: u16)
        ensures
            status == status_of(self@),
    {
        match self {
            FailureKind::StoreFailure(_) => STATUS_SERVER_FAULT,
            FailureKind::CacheFailure(_) => STATUS_SERVER_FAULT,
            FailureKind::Forbidden => STATUS_FORBIDDEN,
            FailureKind::NotFound => STATUS_NOT_FOUND,
            FailureKind::Unauthorized => STATUS_UNAUTHORIZED,
        }
    }

    /// The status and body that the failure is answered with under
    /// `config`.
    pub fn to_response(&self, config: ResponseConfig) -> (response: ResponseDescriptor)
        ensures
            response.status == status_of(self@),
            response.body@ == body_of(self@, config.include_cause),
    {
        let body = match self {
            FailureKind::StoreFailure(_) => if config.include_cause {
                self.render()
            } else {
                String::from_str("Internal Server Error")
            },
            FailureKind::CacheFailure(_) => if config.include_cause {
                self.render()
            } else {
                String::from_str("Internal Server Error")
            },
            FailureKind::Forbidden => self.render(),
            FailureKind::NotFound => self.render(),
            FailureKind::Unauthorized => self.render(),
        };
        ResponseDescriptor { status: self.status(), body }
    }
}

/// The response table, row by row, for every cause and configuration.
pub proof fn lemma_response_table(cause: Seq<char>, include_cause: bool)
    ensures
        status_of(FailureModel::StoreFailure(cause)) == 500,
        body_of(FailureModel::StoreFailure(cause), true) == "Store error: "@ + cause,
        body_of(FailureModel::StoreFailure(cause), false) == "Internal Server Error"@,
        status_of(FailureModel::CacheFailure(cause)) == 500,
        body_of(FailureModel::CacheFailure(cause), true) == "Cache error: "@ + cause,
        body_of(FailureModel::CacheFailure(cause), false) == "Internal Server Error"@,
        status_of(FailureModel::Forbidden) == 403,
        body_of(FailureModel::Forbidden, include_cause) == "Forbidden"@,
        status_of(FailureModel::NotFound) == 404,
        body_of(FailureModel::NotFound, include_cause) == "Not Found"@,
        status_of(FailureModel::Unauthorized) == 401,
        body_of(FailureModel::Unauthorized, include_cause) == "Unauthorized"@,
{
}

/// The answer to a policy outcome does not depend on the configuration:
/// under any two configurations its body is the same.
pub proof fn lemma_policy_outcome_ignores_config(kind: FailureModel, first: bool, second: bool)
    requires
        kind is Forbidden || kind is NotFound || kind is Unauthorized,
    ensures
        body_of(kind, first) == body_of(kind, second),
        body_of(kind, first) == rendering(kind),
{
}

/// Where the cause may not be told, the answer to a server fault is the
/// same whatever the cause was: nothing of its text reaches the body.
pub proof fn lemma_hidden_cause_is_not_told(first: FailureModel, second: FailureModel)
    requires
        first is StoreFailure || first is CacheFailure,
        second is StoreFailure || second is CacheFailure,
    ensures
        status_of(first) == status_of(second),
        body_of(first, false) == body_of(second, false),
{
}

} // verus!
