//! Judging the check of a record's URL.

use vstd::prelude::*;
use crate::reply::{is_success_status, success_status, CallReply};

verus! {

/// What the check of a URL found.
#[derive(Clone, Debug, PartialEq, Eq)]
pub enum Validation {
    /// The page answered with a status of success.
    Reachable,
    /// The page answered with a status that is no success.
    Unreachable { status: u16 },
    /// The check could not be carried out.
    ValidationError { detail: String },
}

/// The values of a `Validation`.
pub enum ValidationView {
    Reachable,
    Unreachable { status: u16 },
    ValidationError { detail: Seq<char> },
}

impl View for Validation {
    type V = ValidationView;

    open spec fn view(&self) -> ValidationView {
        match *self {
            Validation::Reachable => ValidationView::Reachable,
            Validation::Unreachable { status } => ValidationView::Unreachable { status },
            Validation::ValidationError { detail } => ValidationView::ValidationError {
                detail: detail@,
            },
        }
    }
}

/// The detail of a check that could not be carried out.
pub open spec fn validation_detail(url: Seq<char>, cause: Seq<char>) -> Seq<char> {
    "URL could not be validated "@ + url + ": "@ + cause
}

/// What the reply to the fetch of a URL says of the URL: reachable exactly
/// for a status of success, unreachable for any other status, and a
/// validation error, with the cause kept, where no answer arrived in time.
pub open spec fn validation_of(url: Seq<char>, reply: CallReply) -> ValidationView {
    match reply {
        CallReply::Response { status, body } => if success_status(status) {
            ValidationView::Reachable
        } else {
            ValidationView::Unreachable { status }
        },
        CallReply::TransportError { detail } => ValidationView::ValidationError {
            detail: validation_detail(url, detail@),
        },
        CallReply::TimedOut { detail } => ValidationView::ValidationError {
            detail: validation_detail(url, detail@),
        },
    }
}

fn failed_check(url: &str, cause: &str) -> (r: Validation)
    ensures
        r@ == (ValidationView::ValidationError { detail: validation_detail(url@, cause@) }),
{
    let mut detail = String::from_str("URL could not be validated ");
    detail.append(url);
    detail.append(": ");
    detail.append(cause);
    assert(detail@ =~= validation_detail(url@, cause@));
    Validation::ValidationError { detail }
}

/// Judges the reply to the fetch of `url`. No reply makes this fail: what
/// went wrong with the fetch comes back as a value.
pub fn check_valid_url(url: &str, reply: &CallReply) -> (r: Validation)
    ensures
        r@ == validation_of(url@, *reply),
{
    match reply {
        CallReply::Response { status, body } => {
            if is_success_status(*status) {
                Validation::Reachable
            } else {
                Validation::Unreachable { status: *status }
            }
        },
        CallReply::TransportError { detail } => failed_check(url, detail.as_str()),
        CallReply::TimedOut { detail } => failed_check(url, detail.as_str()),
    }
}

} // verus!
