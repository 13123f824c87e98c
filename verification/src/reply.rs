//! What came back from a network call, and how a response of the remote
//! service is judged.

use vstd::prelude::*;
use crate::outcome::ErrorKind;
use crate::json::{json_member_string, json_member_text, member_string, member_text, text_of};
use crate::text::{decimal, decimal_text};

verus! {

/// The result of one network call, as plain values.
#[derive(Clone, Debug, PartialEq, Eq)]
pub enum CallReply {
    /// The server answered.
    Response { status: u16, body: String },
    /// No answer arrived: the connection, the name lookup or the like failed.
    TransportError { detail: String },
    /// The call took longer than its bound and was given up.
    TimedOut { detail: String },
}

/// An error of a call to the remote service: its kind is never one of the
/// check of a URL.
#[derive(Clone, Debug, PartialEq, Eq)]
pub struct RemoteError {
    pub kind: ErrorKind,
    pub message: String,
}

/// The two mutations of the remote service.
#[derive(Clone, Copy, Debug, PartialEq, Eq, Structural)]
pub enum Operation {
    Save,
    Archive,
}

/// What a response holds that the judgement depends on.
#[derive(Clone, Debug, PartialEq, Eq)]
pub struct ResponseFields {
    /// The error codes of an error payload, as JSON text.
    pub error_codes: Option<String>,
    /// The message of an error payload.
    pub message: Option<String>,
    /// The identifier under which the remote service keeps the record.
    pub identifier: Option<String>,
}

/// How a call to the remote service ended.
pub enum Verdict {
    /// The mutation was carried out.
    Accepted { identifier: Option<Seq<char>> },
    /// The mutation was not carried out.
    Rejected { kind: ErrorKind, detail: Seq<char> },
}

/// The verdict that a result stands for.
pub open spec fn verdict_of(r: Result<Option<String>, RemoteError>) -> Verdict {
    match r {
        Ok(identifier) => Verdict::Accepted { identifier: text_of(identifier) },
        Err(e) => Verdict::Rejected { kind: e.kind, detail: e.message@ },
    }
}

/// Whether a status code is one of success: 200 to 299.
pub open spec fn success_status(status: u16) -> bool {
    200 <= status < 300
}

/// Whether a status code is one of success.
pub fn is_success_status(status: u16) -> (r: bool)
    ensures
        r == success_status(status),
{
    200 <= status && status < 300
}

/// The word for a mutation in an error detail.
pub open spec fn noun(op: Operation) -> Seq<char> {
    match op {
        Operation::Save => "saving"@,
        Operation::Archive => "archiving"@,
    }
}

/// Where a response holds the error codes of a mutation.
pub open spec fn error_codes_pointer(op: Operation) -> Seq<char> {
    match op {
        Operation::Save => "/data/saveUrl/errorCodes"@,
        Operation::Archive => "/data/setLinkArchived/errorCodes"@,
    }
}

/// Where a response holds the message of a mutation.
pub open spec fn message_pointer(op: Operation) -> Seq<char> {
    match op {
        Operation::Save => "/data/saveUrl/message"@,
        Operation::Archive => "/data/setLinkArchived/message"@,
    }
}

/// Where a response holds the identifier of the record.
pub open spec fn identifier_pointer(op: Operation) -> Seq<char> {
    match op {
        Operation::Save => "/data/saveUrl/clientRequestId"@,
        Operation::Archive => "/data/setLinkArchived/linkId"@,
    }
}

/// The detail of a response with a status that is no success: it names the
/// URL and holds the status code and the body as the server sent them.
pub open spec fn status_detail(op: Operation, url: Seq<char>, status: u16, body: Seq<char>) -> Seq<
    char,
> {
    "Error occurred during the "@ + noun(op) + " of the URL "@ + url + ". Server returned \""@
        + decimal(status as nat) + "\" and the message "@ + body
}

/// The detail of an error payload in a response with a status of success.
pub open spec fn payload_detail(
    op: Operation,
    url: Seq<char>,
    codes: Seq<char>,
    message: Option<Seq<char>>,
) -> Seq<char> {
    "Error occurred during the "@ + noun(op) + " of the URL "@ + url
        + ". Server returned the error codes "@ + codes + " and the message "@ + match message {
        Some(m) => m,
        None => Seq::<char>::empty(),
    }
}

/// The detail of a call that got no answer.
pub open spec fn transport_detail(op: Operation, url: Seq<char>, cause: Seq<char>) -> Seq<char> {
    "Error occurred during the "@ + noun(op) + " of the URL "@ + url + ": "@ + cause
}

/// The detail of a call that exceeded its bound.
pub open spec fn timeout_detail(op: Operation, url: Seq<char>, cause: Seq<char>) -> Seq<char> {
    "Timeout occurred for the "@ + noun(op) + " of the URL "@ + url + ": "@ + cause
}

/// The verdict on a response, given what its body holds. A status that is no
/// success rejects, whatever the body holds. With a status of success, error
/// codes in the body reject, and without them the mutation is accepted.
pub open spec fn judged_response(
    op: Operation,
    url: Seq<char>,
    status: u16,
    body: Seq<char>,
    error_codes: Option<Seq<char>>,
    message: Option<Seq<char>>,
    identifier: Option<Seq<char>>,
) -> Verdict {
    if !success_status(status) {
        Verdict::Rejected {
            kind: ErrorKind::RemoteApplication,
            detail: status_detail(op, url, status, body),
        }
    } else {
        match error_codes {
            Some(codes) => Verdict::Rejected {
                kind: ErrorKind::RemoteApplication,
                detail: payload_detail(op, url, codes, message),
            },
            None => Verdict::Accepted { identifier },
        }
    }
}

/// The verdict on a reply.
pub open spec fn judged(op: Operation, url: Seq<char>, reply: CallReply) -> Verdict {
    match reply {
        CallReply::Response { status, body } => judged_response(
            op,
            url,
            status,
            body@,
            json_member_text(body@, error_codes_pointer(op)),
            json_member_string(body@, message_pointer(op)),
            json_member_string(body@, identifier_pointer(op)),
        ),
        CallReply::TransportError { detail } => Verdict::Rejected {
            kind: ErrorKind::RemoteTransport,
            detail: transport_detail(op, url, detail@),
        },
        CallReply::TimedOut { detail } => Verdict::Rejected {
            kind: ErrorKind::RemoteTimeout,
            detail: timeout_detail(op, url, detail@),
        },
    }
}

fn noun_text(op: Operation) -> (r: &'static str)
    ensures
        r@ == noun(op),
{
    match op {
        Operation::Save => "saving",
        Operation::Archive => "archiving",
    }
}

fn error_codes_path(op: Operation) -> (r: &'static str)
    ensures
        r@ == error_codes_pointer(op),
{
    match op {
        Operation::Save => "/data/saveUrl/errorCodes",
        Operation::Archive => "/data/setLinkArchived/errorCodes",
    }
}

fn message_path(op: Operation) -> (r: &'static str)
    ensures
        r@ == message_pointer(op),
{
    match op {
        Operation::Save => "/data/saveUrl/message",
        Operation::Archive => "/data/setLinkArchived/message",
    }
}

fn identifier_path(op: Operation) -> (r: &'static str)
    ensures
        r@ == identifier_pointer(op),
{
    match op {
        Operation::Save => "/data/saveUrl/clientRequestId",
        Operation::Archive => "/data/setLinkArchived/linkId",
    }
}

/// The start of every detail: `head`, the mutation's word and the URL.
fn detail_head(head: &str, op: Operation, url: &str) -> (r: String)
    ensures
        r@ == head@ + noun(op) + " of the URL "@ + url@,
{
    let mut text = String::from_str(head);
    text.append(noun_text(op));
    text.append(" of the URL ");
    text.append(url);
    text
}

/// Judges a response from what its body holds.
pub fn judge_response(
    op: Operation,
    url: &str,
    status: u16,
    body: &str,
    fields: ResponseFields,
) -> (r: Result<Option<String>, RemoteError>)
    ensures
        verdict_of(r) == judged_response(
            op,
            url@,
            status,
            body@,
            text_of(fields.error_codes),
            text_of(fields.message),
            text_of(fields.identifier),
        ),
        r matches Err(e) ==> !e.kind.of_validation(),
{
    if !is_success_status(status) {
        let mut message = detail_head("Error occurred during the ", op, url);
        message.append(". Server returned \"");
        let code = decimal_text(status);
        message.append(code.as_str());
        message.append("\" and the message ");
        message.append(body);
        assert(message@ =~= status_detail(op, url@, status, body@));
        Err(RemoteError { kind: ErrorKind::RemoteApplication, message })
    } else {
        match fields.error_codes {
            Some(codes) => {
                let mut message = detail_head("Error occurred during the ", op, url);
                message.append(". Server returned the error codes ");
                message.append(codes.as_str());
                message.append(" and the message ");
                match &fields.message {
                    Some(m) => message.append(m.as_str()),
                    None => {},
                }
                assert(message@ =~= payload_detail(op, url@, codes@, text_of(fields.message)));
                Err(RemoteError { kind: ErrorKind::RemoteApplication, message })
            },
            None => Ok(fields.identifier),
        }
    }
}

/// Reads from a body what the judgement of a response depends on.
pub fn read_fields(op: Operation, body: &str) -> (r: ResponseFields)
    ensures
        text_of(r.error_codes) == json_member_text(body@, error_codes_pointer(op)),
        text_of(r.message) == json_member_string(body@, message_pointer(op)),
        text_of(r.identifier) == json_member_string(body@, identifier_pointer(op)),
{
    ResponseFields {
        error_codes: member_text(body, error_codes_path(op)),
        message: member_string(body, message_path(op)),
        identifier: member_string(body, identifier_path(op)),
    }
}

/// Judges the reply to a mutation for the record with the given URL: `Ok`
/// with the identifier that the response holds where the mutation was
/// carried out, and else the error, with its kind and a detail.
pub fn judge_reply(op: Operation, url: &str, reply: &CallReply) -> (r: Result<
    Option<String>,
    RemoteError,
>)
    ensures
        verdict_of(r) == judged(op, url@, *reply),
        r matches Err(e) ==> !e.kind.of_validation(),
{
    match reply {
        CallReply::Response { status, body } => {
            let fields = read_fields(op, body.as_str());
            judge_response(op, url, *status, body.as_str(), fields)
        },
        CallReply::TransportError { detail } => {
            let mut message = detail_head("Error occurred during the ", op, url);
            message.append(": ");
            message.append(detail.as_str());
            assert(message@ =~= transport_detail(op, url@, detail@));
            Err(RemoteError { kind: ErrorKind::RemoteTransport, message })
        },
        CallReply::TimedOut { detail } => {
            let mut message = detail_head("Timeout occurred for the ", op, url);
            message.append(": ");
            message.append(detail.as_str());
            assert(message@ =~= timeout_detail(op, url@, detail@));
            Err(RemoteError { kind: ErrorKind::RemoteTimeout, message })
        },
    }
}

} // verus!
