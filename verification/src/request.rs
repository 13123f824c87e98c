//! The requests that are sent to the remote service.

use vstd::prelude::*;
use crate::article::Article;

verus! {

/// How long one call to the remote service may take, in seconds.
pub const CALL_TIMEOUT_SECS: u64 = 30;

/// The variables of the save mutation.
#[derive(Clone, Debug, PartialEq, Eq)]
pub struct SaveInput {
    /// A token made for this call alone, by which the remote service tells
    /// calls apart.
    pub client_request_id: String,
    pub source: String,
    pub url: String,
    /// The names of the labels that the saved record gets.
    pub labels: Vec<String>,
    /// When the record was saved in the exporting service.
    pub saved_at: Option<String>,
    /// `ARCHIVED` for a record that was archived in the exporting service.
    pub state: Option<String>,
}

/// The variables of the archive mutation.
#[derive(Clone, Debug, PartialEq, Eq)]
pub struct ArchiveInput {
    /// The identifier under which the remote service keeps the record.
    pub link_id: String,
    pub archived: bool,
}

/// The values of a `SaveInput`.
pub struct SaveInputView {
    pub client_request_id: Seq<char>,
    pub source: Seq<char>,
    pub url: Seq<char>,
    pub labels: Seq<Seq<char>>,
    pub saved_at: Option<Seq<char>>,
    pub state: Option<Seq<char>>,
}

impl View for SaveInput {
    type V = SaveInputView;

    open spec fn view(&self) -> SaveInputView {
        SaveInputView {
            client_request_id: self.client_request_id@,
            source: self.source@,
            url: self.url@,
            labels: Seq::new(self.labels@.len(), |i: int| self.labels@[i]@),
            saved_at: match self.saved_at {
                Some(t) => Some(t@),
                None => None,
            },
            state: match self.state {
                Some(t) => Some(t@),
                None => None,
            },
        }
    }
}

/// Whether a character is a decimal digit or one of `a` to `f`.
pub open spec fn is_lower_hex(c: char) -> bool {
    ('0' <= c && c <= '9') || ('a' <= c && c <= 'f')
}

/// The shape of a request id: 36 characters, hyphens at the positions 8, 13,
/// 18 and 23, and lower-case hexadecimal digits everywhere else.
pub open spec fn is_request_id(id: Seq<char>) -> bool {
    &&& id.len() == 36
    &&& forall|i: int|
        0 <= i < 36 ==> if i == 8 || i == 13 || i == 18 || i == 23 {
            #[trigger] id[i] == '-'
        } else {
            is_lower_hex(id[i])
        }
}

/// The variables of the save mutation for a record, under a given request
/// id: the source is `api`, the one label is `imported`, the saved date goes
/// along where the record has one, and the state is `ARCHIVED` exactly for a
/// record in the archive.
pub open spec fn save_input_of(article: Article, id: Seq<char>) -> SaveInputView {
    SaveInputView {
        client_request_id: id,
        source: "api"@,
        url: article.url@,
        labels: seq!["imported"@],
        saved_at: if article.saved_date@.len() == 0 {
            None
        } else {
            Some(article.saved_date@)
        },
        state: if article.needs_archive() {
            Some("ARCHIVED"@)
        } else {
            None
        },
    }
}

/// A random id from `uuid::Uuid::new_v4`, as its `Display` writes it:
/// hyphenated, in lower case. Nothing is claimed of which id comes back,
/// only this shape.
#[verifier::external_body]
pub(crate) fn fresh_request_id() -> (id: String)
    ensures
        is_request_id(id@),
{
    uuid::Uuid::new_v4().to_string()
}

/// The variables of the save mutation for a record, under the request id
/// `id`.
pub fn create_input_with_id(article: &Article, id: String) -> (r: SaveInput)
    ensures
        r@ == save_input_of(*article, id@),
{
    let mut labels: Vec<String> = Vec::new();
    labels.push(String::from_str("imported"));
    let saved_at = if article.saved_date.as_str().unicode_len() == 0 {
        None
    } else {
        Some(article.saved_date.clone())
    };
    let state = if article.is_archived() {
        Some(String::from_str("ARCHIVED"))
    } else {
        None
    };
    let r = SaveInput {
        client_request_id: id,
        source: String::from_str("api"),
        url: article.url.clone(),
        labels,
        saved_at,
        state,
    };
    assert(r@.labels =~= seq!["imported"@]);
    r
}

/// The variables of the save mutation for a record, under a request id that
/// is made for this call. Which id that is cannot be said before the call;
/// everything else is fixed by the record.
pub fn create_input(article: &Article) -> (r: SaveInput)
    ensures
        r@ == save_input_of(*article, r.client_request_id@),
        is_request_id(r.client_request_id@),
{
    create_input_with_id(article, fresh_request_id())
}

/// The variables of the archive mutation for the record that the remote
/// service keeps under `remote_id`.
pub fn create_archive_input(remote_id: String) -> (r: ArchiveInput)
    ensures
        r.link_id == remote_id,
        r.archived,
{
    ArchiveInput { link_id: remote_id, archived: true }
}

/// Where the remote service takes its mutations.
pub fn endpoint() -> (r: &'static str)
    ensures
        r@ == "https://api-prod.omnivore.app/api/graphql"@,
{
    "https://api-prod.omnivore.app/api/graphql"
}

/// The text of the save mutation.
pub fn save_query() -> (r: &'static str)
    ensures
        r@ == "mutation SaveUrl($input: SaveUrlInput!) { saveUrl(input: $input) { ... on SaveSuccess { url clientRequestId } ... on SaveError { errorCodes message } } }"@,
{
    "mutation SaveUrl($input: SaveUrlInput!) { saveUrl(input: $input) { ... on SaveSuccess { url clientRequestId } ... on SaveError { errorCodes message } } }"
}

/// The text of the archive mutation.
pub fn archive_query() -> (r: &'static str)
    ensures
        r@ == "mutation SetLinkArchived($input: ArchiveLinkInput!) { setLinkArchived(input: $input) { ... on ArchiveLinkSuccess { linkId message } ... on ArchiveLinkError { errorCodes message } } }"@,
{
    "mutation SetLinkArchived($input: ArchiveLinkInput!) { setLinkArchived(input: $input) { ... on ArchiveLinkSuccess { linkId message } ... on ArchiveLinkError { errorCodes message } } }"
}

} // verus!
