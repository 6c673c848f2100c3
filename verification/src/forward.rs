//! Announcing a stored dataset to the downstream service.
//!
//! One announcement is one request: the body is built here, the request is
//! sent by the caller, and what came back is judged here. Nothing is retried.

use crate::json::{json_string, quote};
use crate::text::text_model;
use vstd::prelude::*;
use vstd::string::StringExecFns;

verus! {

/// Why an announcement did not reach the downstream service.
#[derive(Debug, Clone, Copy, PartialEq, Eq, Structural)]
pub enum ForwardError {
    /// No request could be made, or no response was obtained.
    Transport,
    /// The service answered with a status outside the success range.
    Rejected { status: u16 },
}

/// What came back from the single request made for one announcement.
#[derive(Debug, Clone, Copy, PartialEq, Eq, Structural)]
pub enum Delivery {
    /// The request could not be sent or no response arrived.
    Unreachable,
    /// The service answered with this status code.
    Responded { status: u16 },
}

/// The success range of response statuses.
pub open spec fn is_success(status: u16) -> bool {
    200 <= status <= 299
}

/// The verdict on one delivery.
pub open spec fn verdict(delivery: Delivery) -> Result<(), ForwardError> {
    match delivery {
        Delivery::Unreachable => Err(ForwardError::Transport),
        Delivery::Responded { status } => if is_success(status) {
            Ok(())
        } else {
            Err(ForwardError::Rejected { status })
        },
    }
}

/// Judges the outcome of the one request made for an announcement.
pub fn judge(delivery: Delivery) -> (outcome: Result<(), ForwardError>)
    ensures
        outcome == verdict(delivery),
{
    match delivery {
        Delivery::Unreachable => Err(ForwardError::Transport),
        Delivery::Responded { status } => {
            if 200 <= status && status <= 299 {
                Ok(())
            } else {
                Err(ForwardError::Rejected { status })
            }
        },
    }
}

/// The description of one stored dataset that is sent downstream.
#[derive(Debug, Clone)]
pub struct IngestEvent {
    /// Where the dataset was stored.
    pub file_path: String,
    /// The application title of the sender.
    pub calling_aet: String,
    /// The network address of the sender.
    pub remote_host: String,
}

/// An `IngestEvent` as plain texts.
pub struct IngestEventModel {
    pub file_path: Seq<char>,
    pub calling_aet: Seq<char>,
    pub remote_host: Seq<char>,
}

impl View for IngestEvent {
    type V = IngestEventModel;

    open spec fn view(&self) -> IngestEventModel {
        IngestEventModel {
            file_path: self.file_path@,
            calling_aet: self.calling_aet@,
            remote_host: self.remote_host@,
        }
    }
}

/// The body of an announcement: one JSON object with the three members
/// `file_path`, `calling_aet` and `remote_host`, in this order, whose values
/// are the given JSON texts.
pub open spec fn body_text(file_path: Seq<char>, calling_aet: Seq<char>, remote_host: Seq<char>) -> Seq<
    char,
> {
    "{\"file_path\":"@ + file_path + ",\"calling_aet\":"@ + calling_aet + ",\"remote_host\":"@
        + remote_host + "}"@
}

/// The body that announces an event, its three texts written as JSON string
/// literals; `None` where one of them cannot be written.
pub open spec fn body_of(event: IngestEventModel) -> Option<Seq<char>> {
    match (
        json_string(event.file_path),
        json_string(event.calling_aet),
        json_string(event.remote_host),
    ) {
        (Some(file_path), Some(calling_aet), Some(remote_host)) => Some(
            body_text(file_path, calling_aet, remote_host),
        ),
        _ => None,
    }
}

/// Builds the body of an announcement from the JSON texts of its three
/// values.
pub fn frame_body(file_path: &str, calling_aet: &str, remote_host: &str) -> (body: String)
    ensures
        body@ == body_text(file_path@, calling_aet@, remote_host@),
{
    let mut body = String::from_str("{\"file_path\":");
    body.append(file_path);
    body.append(",\"calling_aet\":");
    body.append(calling_aet);
    body.append(",\"remote_host\":");
    body.append(remote_host);
    body.append("}");
    body
}

impl IngestEvent {
    /// The body that announces this event.
    pub fn body(&self) -> (body: Option<String>)
        ensures
            text_model(body) == body_of(self@),
    {
        let file_path = quote(self.file_path.as_str());
        let calling_aet = quote(self.calling_aet.as_str());
        let remote_host = quote(self.remote_host.as_str());
        match (file_path, calling_aet, remote_host) {
            (Some(file_path), Some(calling_aet), Some(remote_host)) => Some(
                frame_body(file_path.as_str(), calling_aet.as_str(), remote_host.as_str()),
            ),
            _ => None,
        }
    }
}

/// One request to the downstream service.
#[derive(Debug, Clone)]
pub struct ForwardRequest {
    /// The address that the request goes to.
    pub endpoint: String,
    /// The JSON text that is sent.
    pub body: String,
}

/// A `ForwardRequest` as plain texts.
pub struct ForwardRequestModel {
    pub endpoint: Seq<char>,
    pub body: Seq<char>,
}

impl View for ForwardRequest {
    type V = ForwardRequestModel;

    open spec fn view(&self) -> ForwardRequestModel {
        ForwardRequestModel { endpoint: self.endpoint@, body: self.body@ }
    }
}

/// The request that announces an event to the service at `endpoint`, or the
/// error with which the announcement fails before anything is sent.
pub open spec fn request_of(endpoint: Seq<char>, event: IngestEventModel) -> Result<
    ForwardRequestModel,
    ForwardError,
> {
    match body_of(event) {
        Some(body) => Ok(ForwardRequestModel { endpoint, body }),
        None => Err(ForwardError::Transport),
    }
}

/// Announces stored datasets to the downstream service at one endpoint.
#[derive(Debug, Clone)]
pub struct IngestForwarder {
    /// The address that announcements go to.
    pub endpoint: String,
}

impl IngestForwarder {
    /// A forwarder for the service at `endpoint`.
    pub fn new(endpoint: String) -> (forwarder: IngestForwarder)
        ensures
            forwarder.endpoint == endpoint,
    {
        IngestForwarder { endpoint }
    }

    /// The one request that announces `event`. Where the body cannot be
    /// written, no request is made and the announcement fails as it does
    /// when the service cannot be reached.
    pub fn forward(&self, event: &IngestEvent) -> (request: Result<ForwardRequest, ForwardError>)
        ensures
            match request_of(self.endpoint@, event@) {
                Ok(expected) => request matches Ok(made) && made@ == expected,
                Err(error) => request == Err::<ForwardRequest, ForwardError>(error),
            },
    {
        match event.body() {
            Some(body) => Ok(ForwardRequest { endpoint: self.endpoint.clone(), body }),
            None => Err(ForwardError::Transport),
        }
    }
}

} // verus!
