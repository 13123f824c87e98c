//! The terminal outcome of one record.

use vstd::prelude::*;

verus! {

/// The three kinds of outcome. Every outcome has exactly one of them.
#[derive(Clone, Copy, Debug, PartialEq, Eq, Structural)]
pub enum OutcomeKind {
    /// The record was saved, and archived where it had to be.
    Success,
    /// The page could not be reached; nothing was sent to the remote service.
    InvalidUrl,
    /// A call to the remote service was made and did not succeed.
    Failed,
}

/// The kinds of error that a record can run into.
#[derive(Clone, Copy, Debug, PartialEq, Eq, Structural)]
pub enum ErrorKind {
    /// The check of the URL could not be carried out.
    Validation,
    /// The check of the URL was answered with a status that is no success.
    InvalidUrl,
    /// A call to the remote service got no answer.
    RemoteTransport,
    /// A call to the remote service exceeded its bound.
    RemoteTimeout,
    /// The remote service answered with a status that is no success, or with
    /// an error payload.
    RemoteApplication,
}

impl ErrorKind {
    /// Whether the error is one of the check of the URL, and not one of a
    /// call to the remote service.
    pub open spec fn of_validation(self) -> bool {
        self is Validation || self is InvalidUrl
    }
}

/// What became of one record.
#[derive(Clone, Debug, PartialEq, Eq)]
pub struct ImportResult {
    /// The record's URL, as it was given.
    pub url: String,
    pub successful: bool,
    pub is_invalid_url: bool,
    /// Human-readable detail of what went wrong.
    pub error: Option<String>,
    /// The kind of error that the record ran into.
    pub error_kind: Option<ErrorKind>,
    /// The identifier the remote service gave the saved record.
    pub remote_id: Option<String>,
}

/// The values of an `ImportResult`.
pub struct ImportResultView {
    pub url: Seq<char>,
    pub successful: bool,
    pub is_invalid_url: bool,
    pub error: Option<Seq<char>>,
    pub error_kind: Option<ErrorKind>,
    pub remote_id: Option<Seq<char>>,
}

impl View for ImportResult {
    type V = ImportResultView;

    open spec fn view(&self) -> ImportResultView {
        ImportResultView {
            url: self.url@,
            successful: self.successful,
            is_invalid_url: self.is_invalid_url,
            error: match self.error {
                Some(detail) => Some(detail@),
                None => None,
            },
            error_kind: self.error_kind,
            remote_id: match self.remote_id {
                Some(id) => Some(id@),
                None => None,
            },
        }
    }
}

/// The outcome of a record that was saved.
pub open spec fn success_outcome(url: Seq<char>, remote_id: Option<Seq<char>>) -> ImportResultView {
    ImportResultView {
        url,
        successful: true,
        is_invalid_url: false,
        error: None,
        error_kind: None,
        remote_id,
    }
}

/// The outcome of a record whose page could not be reached.
pub open spec fn invalid_url_outcome(
    url: Seq<char>,
    kind: ErrorKind,
    detail: Option<Seq<char>>,
) -> ImportResultView {
    ImportResultView {
        url,
        successful: false,
        is_invalid_url: true,
        error: detail,
        error_kind: Some(kind),
        remote_id: None,
    }
}

/// The outcome of a record for which a remote call did not succeed.
pub open spec fn failed_outcome(url: Seq<char>, kind: ErrorKind, detail: Seq<char>) -> ImportResultView {
    ImportResultView {
        url,
        successful: false,
        is_invalid_url: false,
        error: Some(detail),
        error_kind: Some(kind),
        remote_id: None,
    }
}

/// The kind that the two flags of an outcome stand for: success wins, then
/// an invalid URL, and what is neither has failed.
pub open spec fn kind_of_flags(successful: bool, is_invalid_url: bool) -> OutcomeKind {
    if successful {
        OutcomeKind::Success
    } else if is_invalid_url {
        OutcomeKind::InvalidUrl
    } else {
        OutcomeKind::Failed
    }
}

impl ImportResult {
    /// The kind of this outcome.
    pub open spec fn spec_kind(&self) -> OutcomeKind {
        kind_of_flags(self.successful, self.is_invalid_url)
    }

    /// An outcome as the pipeline makes it: the flags do not contradict each
    /// other, only a success carries a remote identifier, a success carries
    /// no error, and the kind of an error fits the kind of the outcome.
    pub open spec fn well_formed(&self) -> bool {
        &&& !(self.successful && self.is_invalid_url)
        &&& self.remote_id is Some ==> self.successful
        &&& self.successful ==> self.error is None && self.error_kind is None
        &&& self.error_kind matches Some(kind) ==> (kind.of_validation() <==> self.is_invalid_url)
    }

    /// The kind of this outcome.
    #[verifier::when_used_as_spec(spec_kind)]
    pub fn kind(&self) -> (k: OutcomeKind)
        ensures
            k == self.spec_kind(),
    {
        if self.successful {
            OutcomeKind::Success
        } else if self.is_invalid_url {
            OutcomeKind::InvalidUrl
        } else {
            OutcomeKind::Failed
        }
    }

    /// The outcome of a record that was saved under `remote_id`.
    pub fn success(url: String, remote_id: Option<String>) -> (r: ImportResult)
        ensures
            r == (ImportResult {
                url,
                successful: true,
                is_invalid_url: false,
                error: None,
                error_kind: None,
                remote_id,
            }),
            r@ == success_outcome(url@, r@.remote_id),
            r.well_formed(),
            r.kind() == OutcomeKind::Success,
    {
        ImportResult {
            url,
            successful: true,
            is_invalid_url: false,
            error: None,
            error_kind: None,
            remote_id,
        }
    }

    /// The outcome of a record whose page could not be reached.
    pub fn invalid_url(url: String, kind: ErrorKind, detail: Option<String>) -> (r: ImportResult)
        requires
            kind.of_validation(),
        ensures
            r == (ImportResult {
                url,
                successful: false,
                is_invalid_url: true,
                error: detail,
                error_kind: Some(kind),
                remote_id: None,
            }),
            r@ == invalid_url_outcome(url@, kind, r@.error),
            r.well_formed(),
            r.kind() == OutcomeKind::InvalidUrl,
    {
        ImportResult {
            url,
            successful: false,
            is_invalid_url: true,
            error: detail,
            error_kind: Some(kind),
            remote_id: None,
        }
    }

    /// The outcome of a record for which a remote call did not succeed.
    pub fn failed(url: String, kind: ErrorKind, detail: String) -> (r: ImportResult)
        requires
            !kind.of_validation(),
        ensures
            r == (ImportResult {
                url,
                successful: false,
                is_invalid_url: false,
                error: Some(detail),
                error_kind: Some(kind),
                remote_id: None,
            }),
            r@ == failed_outcome(url@, kind, detail@),
            r.well_formed(),
            r.kind() == OutcomeKind::Failed,
    {
        ImportResult {
            url,
            successful: false,
            is_invalid_url: false,
            error: Some(detail),
            error_kind: Some(kind),
            remote_id: None,
        }
    }

    /// A copy of the outcome.
    pub fn duplicate(&self) -> (r: ImportResult)
        ensures
            r == *self,
    {
        let error = match &self.error {
            Some(detail) => Some(detail.clone()),
            None => None,
        };
        let remote_id = match &self.remote_id {
            Some(id) => Some(id.clone()),
            None => None,
        };
        ImportResult {
            url: self.url.clone(),
            successful: self.successful,
            is_invalid_url: self.is_invalid_url,
            error,
            error_kind: self.error_kind,
            remote_id,
        }
    }
}

/// An outcome with the given flags and detail, without the kind of the
/// error and without a remote identifier.
pub fn create_import_result(
    url: String,
    successful: bool,
    is_invalid_url: bool,
    error: Option<String>,
) -> (r: ImportResult)
    ensures
        r == (ImportResult {
            url,
            successful,
            is_invalid_url,
            error,
            error_kind: None,
            remote_id: None,
        }),
        r.kind() == kind_of_flags(successful, is_invalid_url),
{
    ImportResult { url, successful, is_invalid_url, error, error_kind: None, remote_id: None }
}

} // verus!
