//! The decisions taken for one connection.
//!
//! A connection is negotiated, delivers fragments and ends. Control fragments
//! are dropped. Each payload fragment starts an `Ingest`, which stores the
//! payload and then announces it. What becomes of an ingest does not reach
//! the connection: after a dataset that was lost it goes on with the next
//! fragment.
//!
//! Nothing here reads a socket, touches a file or sends a request.
//! `ReceiverOrchestrator::handle` and `ReceiverOrchestrator::advance` say what
//! is to be done; the caller does it and comes back with what happened.

use crate::forward::IngestForwarder;
use crate::ingest::{
    Effect,
    EffectModel,
    Feedback,
    FeedbackModel,
    Ingest,
    IngestModel,
    StageModel,
    progressed,
    started,
};
use crate::persist::{
    DatasetPersister,
    JobModel,
    PersistRequest,
    ReportModel,
    StepModel,
    sender_directory_of,
};
use crate::text::{text_model, trim, trimmed};
use vstd::prelude::*;

verus! {

/// What a fragment carries.
#[derive(Debug, Clone, Copy, PartialEq, Eq, Structural)]
pub enum FragmentKind {
    /// Bookkeeping of the transfer protocol.
    Control,
    /// Bytes of a dataset.
    Payload,
}

/// One unit of data received on a connection.
#[derive(Debug)]
pub struct Fragment {
    /// What the bytes are.
    pub kind: FragmentKind,
    /// The bytes.
    pub bytes: Vec<u8>,
}

/// A `Fragment` as plain values.
pub struct FragmentModel {
    pub kind: FragmentKind,
    pub bytes: Seq<u8>,
}

impl View for Fragment {
    type V = FragmentModel;

    open spec fn view(&self) -> FragmentModel {
        FragmentModel { kind: self.kind, bytes: self.bytes@ }
    }
}

/// What the transport reports of a connection.
#[derive(Debug)]
pub enum Event {
    /// The connection was negotiated. The calling application title and the
    /// address of the peer are given as far as the transport knows them.
    Negotiated { calling_title: Option<String>, peer_address: Option<String> },
    /// A fragment arrived.
    Fragment(Fragment),
    /// The connection has ended.
    Ended,
}

/// What is to be done about an event.
#[derive(Debug)]
pub enum Action {
    /// Nothing.
    Nothing,
    /// Carry this ingest through, beginning with `effect`.
    Ingest { ingest: Ingest, effect: Effect },
}

/// The state of one connection.
#[derive(Debug)]
pub enum Connection {
    /// Nothing is known of the peer yet.
    Negotiating,
    /// Fragments are taken from this sender.
    Receiving { sender_id: String, remote_host: String },
    /// The connection has ended.
    Closed,
}

/// An `Event` as plain values.
pub enum EventModel {
    Negotiated { calling_title: Option<Seq<char>>, peer_address: Option<Seq<char>> },
    Fragment(FragmentModel),
    Ended,
}

/// An `Action` as plain values.
pub enum ActionModel {
    Nothing,
    Ingest { ingest: IngestModel, effect: EffectModel },
}

/// A `Connection` as plain values.
pub enum ConnectionModel {
    Negotiating,
    Receiving { sender_id: Seq<char>, remote_host: Seq<char> },
    Closed,
}

impl View for Event {
    type V = EventModel;

    open spec fn view(&self) -> EventModel {
        match *self {
            Event::Negotiated { calling_title, peer_address } => EventModel::Negotiated {
                calling_title: text_model(calling_title),
                peer_address: text_model(peer_address),
            },
            Event::Fragment(fragment) => EventModel::Fragment(fragment@),
            Event::Ended => EventModel::Ended,
        }
    }
}

impl View for Action {
    type V = ActionModel;

    open spec fn view(&self) -> ActionModel {
        match *self {
            Action::Nothing => ActionModel::Nothing,
            Action::Ingest { ingest, effect } => ActionModel::Ingest {
                ingest: ingest@,
                effect: effect@,
            },
        }
    }
}

impl View for Connection {
    type V = ConnectionModel;

    open spec fn view(&self) -> ConnectionModel {
        match *self {
            Connection::Negotiating => ConnectionModel::Negotiating,
            Connection::Receiving { sender_id, remote_host } => ConnectionModel::Receiving {
                sender_id: sender_id@,
                remote_host: remote_host@,
            },
            Connection::Closed => ConnectionModel::Closed,
        }
    }
}

/// The name under which a sender is known: its calling application title
/// without the white space around it, or `UNKNOWN` where the transport has
/// no title.
pub open spec fn sender_of(calling_title: Option<Seq<char>>) -> Seq<char> {
    match calling_title {
        Some(title) => trimmed(title),
        None => trimmed("UNKNOWN"@),
    }
}

/// The host that a sender is recorded with: the address of the peer, or
/// `unknown` where the transport has none.
pub open spec fn host_of(peer_address: Option<Seq<char>>) -> Seq<char> {
    match peer_address {
        Some(address) => address,
        None => "unknown"@,
    }
}

/// What is done about a fragment that arrives from `sender_id` at
/// `remote_host`: a payload is ingested, to be stored under `root`; anything
/// else is dropped.
pub open spec fn response(
    root: Seq<char>,
    sender_id: Seq<char>,
    remote_host: Seq<char>,
    fragment: FragmentModel,
) -> ActionModel {
    match fragment.kind {
        FragmentKind::Payload => {
            let (ingest, effect) = started(root, sender_id, remote_host, fragment.bytes);
            ActionModel::Ingest { ingest, effect }
        },
        FragmentKind::Control => ActionModel::Nothing,
    }
}

/// The connection after an event, and what is done about the event.
/// Datasets are stored under `root`.
pub open spec fn reaction(root: Seq<char>, connection: ConnectionModel, event: EventModel) -> (
    ConnectionModel,
    ActionModel,
) {
    match connection {
        ConnectionModel::Closed => (ConnectionModel::Closed, ActionModel::Nothing),
        _ => match event {
            EventModel::Negotiated { calling_title, peer_address } => (
                ConnectionModel::Receiving {
                    sender_id: sender_of(calling_title),
                    remote_host: host_of(peer_address),
                },
                ActionModel::Nothing,
            ),
            EventModel::Fragment(fragment) => match connection {
                ConnectionModel::Receiving { sender_id, remote_host } => (
                    connection,
                    response(root, sender_id, remote_host, fragment),
                ),
                _ => (connection, ActionModel::Nothing),
            },
            EventModel::Ended => (ConnectionModel::Closed, ActionModel::Nothing),
        },
    }
}

/// The name under which a sender is known.
pub fn sender_identifier(calling_title: Option<String>) -> (sender_id: String)
    ensures
        sender_id@ == sender_of(text_model(calling_title)),
{
    match calling_title {
        Some(title) => trim(title.as_str()),
        None => trim("UNKNOWN"),
    }
}

/// The host that a sender is recorded with.
pub fn host_label(peer_address: Option<String>) -> (remote_host: String)
    ensures
        remote_host@ == host_of(text_model(peer_address)),
{
    match peer_address {
        Some(address) => address,
        None => "unknown".to_owned(),
    }
}

impl Connection {
    /// A connection on which nothing has happened yet.
    pub fn new() -> (connection: Connection)
        ensures
            connection@ == ConnectionModel::Negotiating,
    {
        Connection::Negotiating
    }
}

/// What the receiver is set up with once, before any connection is taken:
/// where datasets go and whom they are announced to. Connections share it
/// and never change it.
#[derive(Debug)]
pub struct ReceiverOrchestrator {
    /// Stores the datasets.
    pub persister: DatasetPersister,
    /// Announces the stored datasets.
    pub forwarder: IngestForwarder,
}

impl ReceiverOrchestrator {
    /// An orchestrator that stores with `persister` and announces with
    /// `forwarder`.
    pub fn new(persister: DatasetPersister, forwarder: IngestForwarder) -> (orchestrator:
        ReceiverOrchestrator)
        ensures
            orchestrator.persister == persister,
            orchestrator.forwarder == forwarder,
    {
        ReceiverOrchestrator { persister, forwarder }
    }

    /// Takes one event of a connection and says what is to be done about it.
    pub fn handle(&self, connection: Connection, event: Event) -> (next: (Connection, Action))
        ensures
            (next.0@, next.1@) == reaction(self.persister.root@, connection@, event@),
    {
        match connection {
            Connection::Closed => (Connection::Closed, Action::Nothing),
            connection => match event {
                Event::Negotiated { calling_title, peer_address } => (
                    Connection::Receiving {
                        sender_id: sender_identifier(calling_title),
                        remote_host: host_label(peer_address),
                    },
                    Action::Nothing,
                ),
                Event::Fragment(fragment) => match connection {
                    Connection::Receiving { sender_id, remote_host } => match fragment.kind {
                        FragmentKind::Payload => {
                            let request = PersistRequest {
                                sender_id: sender_id.clone(),
                                payload: fragment.bytes,
                            };
                            let (ingest, effect) = Ingest::start(
                                &self.persister,
                                request,
                                remote_host.clone(),
                            );
                            (
                                Connection::Receiving { sender_id, remote_host },
                                Action::Ingest { ingest, effect },
                            )
                        },
                        FragmentKind::Control => (
                            Connection::Receiving { sender_id, remote_host },
                            Action::Nothing,
                        ),
                    },
                    connection => (connection, Action::Nothing),
                },
                Event::Ended => (Connection::Closed, Action::Nothing),
            },
        }
    }

    /// Takes the feedback on what an ingest asked for last and says what it
    /// asks for next.
    pub fn advance(&self, ingest: Ingest, feedback: Feedback) -> (next: (Ingest, Effect))
        ensures
            (next.0@, next.1@) == progressed(self.forwarder.endpoint@, ingest@, feedback@),
    {
        ingest.advance(&self.forwarder, feedback)
    }
}

/// The connection after a run of events.
pub open spec fn after(
    root: Seq<char>,
    connection: ConnectionModel,
    events: Seq<EventModel>,
) -> ConnectionModel
    decreases events.len(),
{
    if events.len() == 0 {
        connection
    } else {
        reaction(root, after(root, connection, events.drop_last()), events.last()).0
    }
}

/// What is done about each event of a run, in the order of the events.
pub open spec fn actions(
    root: Seq<char>,
    connection: ConnectionModel,
    events: Seq<EventModel>,
) -> Seq<ActionModel>
    decreases events.len(),
{
    if events.len() == 0 {
        Seq::empty()
    } else {
        actions(root, connection, events.drop_last()).push(
            reaction(root, after(root, connection, events.drop_last()), events.last()).1,
        )
    }
}

/// The payload that an action begins to store, if it begins an ingest.
pub open spec fn payload_of(action: ActionModel) -> Option<Seq<u8>> {
    match action {
        ActionModel::Ingest { ingest, .. } => match ingest.stage {
            StageModel::Storing(JobModel::CreatingDirectory { payload, .. }) => Some(payload),
            _ => None,
        },
        ActionModel::Nothing => None,
    }
}

/// The payloads that a run of actions begins to store, in their order.
pub open spec fn stored(actions: Seq<ActionModel>) -> Seq<Seq<u8>> {
    actions.filter_map(|action: ActionModel| payload_of(action))
}

/// The payloads among a run of fragments, in their order.
pub open spec fn payloads(fragments: Seq<FragmentModel>) -> Seq<Seq<u8>> {
    fragments.filter_map(
        |fragment: FragmentModel|
            match fragment.kind {
                FragmentKind::Payload => Some(fragment.bytes),
                FragmentKind::Control => None,
            },
    )
}

/// How far a connection has come.
pub open spec fn phase(connection: ConnectionModel) -> nat {
    match connection {
        ConnectionModel::Negotiating => 0,
        ConnectionModel::Receiving { .. } => 1,
        ConnectionModel::Closed => 2,
    }
}

/// Fragments are handled one by one in the order of their arrival: for each
/// payload fragment an ingest of exactly its bytes is started, each control
/// fragment is dropped, and the connection stays as it is.
pub proof fn lemma_fragments_in_arrival_order(
    root: Seq<char>,
    sender_id: Seq<char>,
    remote_host: Seq<char>,
    fragments: Seq<FragmentModel>,
)
    ensures
        ({
            let connection = ConnectionModel::Receiving { sender_id, remote_host };
            let events = fragments.map_values(|f: FragmentModel| EventModel::Fragment(f));
            &&& after(root, connection, events) == connection
            &&& actions(root, connection, events) == fragments.map_values(
                |f: FragmentModel| response(root, sender_id, remote_host, f),
            )
            &&& stored(actions(root, connection, events)) == payloads(fragments)
        }),
    decreases fragments.len(),
{
    if fragments.len() > 0 {
        // What holds of all fragments but the last is carried over to all.
        let connection = ConnectionModel::Receiving { sender_id, remote_host };
        let events = fragments.map_values(|f: FragmentModel| EventModel::Fragment(f));
        let earlier = fragments.drop_last();
        lemma_fragments_in_arrival_order(root, sender_id, remote_host, earlier);
        assert(events.drop_last() =~= earlier.map_values(
            |f: FragmentModel| EventModel::Fragment(f),
        ));
        assert(actions(root, connection, events).drop_last() =~= actions(
            root,
            connection,
            events.drop_last(),
        ));
    }
}

/// The bytes of a payload fragment are handed to the disk as they came: the
/// ingest that the fragment starts first asks for the sender's directory and,
/// once that exists, for exactly these bytes to be written into it.
pub proof fn lemma_payload_is_written_unchanged(
    root: Seq<char>,
    endpoint: Seq<char>,
    sender_id: Seq<char>,
    remote_host: Seq<char>,
    bytes: Seq<u8>,
)
    ensures
        ({
            let connection = ConnectionModel::Receiving { sender_id, remote_host };
            let fragment = FragmentModel { kind: FragmentKind::Payload, bytes };
            let directory = sender_directory_of(root, sender_id);
            &&& reaction(root, connection, EventModel::Fragment(fragment)).1 matches ActionModel::Ingest {
                ingest,
                effect,
            } && effect == EffectModel::Store(StepModel::CreateDirectory { path: directory })
                && progressed(
                endpoint,
                ingest,
                FeedbackModel::Storage(ReportModel::DirectoryCreated),
            ).1 == EffectModel::Store(StepModel::WriteTemporary { directory, payload: bytes })
        }),
{
}

/// What becomes of an ingest does not reach the connection that started it:
/// the connection is after a fragment what it was before, so the fragment
/// that comes next is handled as if it were the first, whether the dataset
/// before it was stored or lost.
pub proof fn lemma_failure_does_not_stop_the_connection(
    root: Seq<char>,
    sender_id: Seq<char>,
    remote_host: Seq<char>,
    first: FragmentModel,
    next: FragmentModel,
)
    ensures
        ({
            let connection = ConnectionModel::Receiving { sender_id, remote_host };
            let later = reaction(root, connection, EventModel::Fragment(first)).0;
            &&& later == connection
            &&& reaction(root, later, EventModel::Fragment(next)).1 == response(
                root,
                sender_id,
                remote_host,
                next,
            )
            &&& next.kind == FragmentKind::Payload ==> reaction(
                root,
                later,
                EventModel::Fragment(next),
            ).1 is Ingest
        }),
{
}

/// A connection goes from negotiating to receiving to closed and never
/// back. Fragments are ingested only while it is receiving; once it is
/// closed, nothing is done about any event.
pub proof fn lemma_phases_move_forward(
    root: Seq<char>,
    connection: ConnectionModel,
    event: EventModel,
)
    ensures
        phase(reaction(root, connection, event).0) >= phase(connection),
        event is Ended ==> reaction(root, connection, event).0 is Closed,
        connection is Closed ==> reaction(root, connection, event) == (
            ConnectionModel::Closed,
            ActionModel::Nothing,
        ),
        reaction(root, connection, event).1 is Ingest ==> connection is Receiving && event
            is Fragment,
{
}

} // verus!
