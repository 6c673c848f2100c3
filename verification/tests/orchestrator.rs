use noctis_dicom::forward::{Delivery, ForwardError, IngestForwarder};
use noctis_dicom::ingest::{Effect, Failure, Feedback, Ingest, IngestStage};
use noctis_dicom::orchestrator::{
    host_label, sender_identifier, Action, Connection, Event, Fragment, FragmentKind,
    ReceiverOrchestrator,
};
use noctis_dicom::persist::{
    DatasetPersister, PersistError, PersistRequest, PersistStep, Report,
};

fn receiver() -> ReceiverOrchestrator {
    ReceiverOrchestrator::new(
        DatasetPersister::new("/var/dicom".to_string()),
        IngestForwarder::new("http://127.0.0.1:9000/dicom/ingest".to_string()),
    )
}

fn negotiated(title: &str, address: &str) -> Event {
    Event::Negotiated {
        calling_title: Some(title.to_string()),
        peer_address: Some(address.to_string()),
    }
}

fn data(bytes: &[u8]) -> Event {
    Event::Fragment(Fragment { kind: FragmentKind::Payload, bytes: bytes.to_vec() })
}

fn control(bytes: &[u8]) -> Event {
    Event::Fragment(Fragment { kind: FragmentKind::Control, bytes: bytes.to_vec() })
}

fn receiving(receiver: &ReceiverOrchestrator, title: &str, address: &str) -> Connection {
    let (connection, action) = receiver.handle(Connection::new(), negotiated(title, address));
    assert!(matches!(action, Action::Nothing));
    connection
}

fn begin(kept: &ReceiverOrchestrator, sender_id: &str, remote_host: &str, payload: &[u8]) -> Ingest {
    let request = PersistRequest { sender_id: sender_id.to_string(), payload: payload.to_vec() };
    Ingest::start(&kept.persister, request, remote_host.to_string()).0
}

fn stored(kept: &ReceiverOrchestrator, sender_id: &str, remote_host: &str) -> (Ingest, Effect) {
    let ingest = begin(kept, sender_id, remote_host, b"abc");
    let (ingest, _) = kept.advance(ingest, Feedback::Storage(Report::DirectoryCreated));
    let (ingest, _) =
        kept.advance(ingest, Feedback::Storage(Report::Written { name: "t1".to_string() }));
    kept.advance(ingest, Feedback::Storage(Report::Published))
}

fn failure_of(effect: Effect) -> (String, String, Failure) {
    match effect {
        Effect::Finish(Err(report)) => (report.sender_id, report.remote_host, report.failure),
        other => panic!("no failure: {:?}", other),
    }
}

#[test]
fn sender_is_the_trimmed_title() {
    assert_eq!(sender_identifier(Some("STORE_SCU       ".to_string())), "STORE_SCU");
    assert_eq!(sender_identifier(Some("  A B ".to_string())), "A B");
    assert_eq!(sender_identifier(Some("".to_string())), "");
    assert_eq!(sender_identifier(Some("   ".to_string())), "");
}

#[test]
fn sender_without_a_title_is_unknown() {
    assert_eq!(sender_identifier(None), "UNKNOWN");
}

#[test]
fn host_is_the_address_or_unknown() {
    assert_eq!(host_label(Some("10.0.0.7".to_string())), "10.0.0.7");
    assert_eq!(host_label(Some(" ::1 ".to_string())), " ::1 ");
    assert_eq!(host_label(None), "unknown");
}

#[test]
fn connection_starts_negotiating() {
    assert!(matches!(Connection::new(), Connection::Negotiating));
}

#[test]
fn negotiation_records_the_sender() {
    let kept = receiver();
    let (connection, action) =
        kept.handle(Connection::new(), negotiated("  MODALITY1  ", "10.0.0.7"));
    assert!(matches!(action, Action::Nothing));
    match connection {
        Connection::Receiving { sender_id, remote_host } => {
            assert_eq!(sender_id, "MODALITY1");
            assert_eq!(remote_host, "10.0.0.7");
        }
        other => panic!("unexpected state {:?}", other),
    }
}

#[test]
fn negotiation_without_a_peer_uses_the_defaults() {
    let kept = receiver();
    let event = Event::Negotiated { calling_title: None, peer_address: None };
    let (connection, _) = kept.handle(Connection::new(), event);
    match connection {
        Connection::Receiving { sender_id, remote_host } => {
            assert_eq!(sender_id, "UNKNOWN");
            assert_eq!(remote_host, "unknown");
        }
        other => panic!("unexpected state {:?}", other),
    }
}

#[test]
fn fragment_before_negotiation_is_dropped() {
    let kept = receiver();
    let (connection, action) = kept.handle(Connection::new(), data(b"abc"));
    assert!(matches!(action, Action::Nothing));
    assert!(matches!(connection, Connection::Negotiating));
}

#[test]
fn control_fragment_is_dropped() {
    let kept = receiver();
    let connection = receiving(&kept, "A", "h");
    let (connection, action) = kept.handle(connection, control(b"\x00\x01"));
    assert!(matches!(action, Action::Nothing));
    assert!(matches!(connection, Connection::Receiving { .. }));
}

#[test]
fn payload_fragment_starts_an_ingest() {
    let kept = receiver();
    let connection = receiving(&kept, "MODALITY1", "10.0.0.7");
    let (connection, action) = kept.handle(connection, data(b"pixels"));
    assert!(matches!(connection, Connection::Receiving { .. }));
    match action {
        Action::Ingest { ingest, effect } => {
            assert_eq!(ingest.sender_id, "MODALITY1");
            assert_eq!(ingest.remote_host, "10.0.0.7");
            match effect {
                Effect::Store(PersistStep::CreateDirectory { path }) => {
                    assert_eq!(path, "/var/dicom/MODALITY1")
                }
                other => panic!("unexpected effect {:?}", other),
            }
            let (_, effect) = kept.advance(ingest, Feedback::Storage(Report::DirectoryCreated));
            match effect {
                Effect::Store(PersistStep::WriteTemporary { directory, payload }) => {
                    assert_eq!(directory, "/var/dicom/MODALITY1");
                    assert_eq!(payload, b"pixels");
                }
                other => panic!("unexpected effect {:?}", other),
            }
        }
        other => panic!("unexpected action {:?}", other),
    }
}

#[test]
fn data_data_control_data_gives_three_ingests_in_order() {
    let kept = receiver();
    let mut connection = receiving(&kept, "MODALITY1", "10.0.0.7");
    let fragments = vec![data(b"first"), data(b"second"), control(b"ctl"), data(b"third")];
    let mut payloads: Vec<Vec<u8>> = Vec::new();
    let mut dropped = 0;
    for fragment in fragments {
        let (next, action) = kept.handle(connection, fragment);
        connection = next;
        match action {
            Action::Nothing => dropped += 1,
            Action::Ingest { ingest, .. } => {
                let (_, effect) =
                    kept.advance(ingest, Feedback::Storage(Report::DirectoryCreated));
                match effect {
                    Effect::Store(PersistStep::WriteTemporary { payload, .. }) => {
                        payloads.push(payload)
                    }
                    other => panic!("unexpected effect {:?}", other),
                }
            }
        }
    }
    assert_eq!(dropped, 1);
    assert_eq!(payloads, vec![b"first".to_vec(), b"second".to_vec(), b"third".to_vec()]);
}

#[test]
fn end_closes_the_connection() {
    let kept = receiver();
    let (connection, action) = kept.handle(Connection::new(), Event::Ended);
    assert!(matches!(action, Action::Nothing));
    assert!(matches!(connection, Connection::Closed));

    let connection = receiving(&kept, "A", "h");
    let (connection, action) = kept.handle(connection, Event::Ended);
    assert!(matches!(action, Action::Nothing));
    assert!(matches!(connection, Connection::Closed));
}

#[test]
fn closed_connection_does_nothing() {
    let kept = receiver();
    let (mut connection, _) = kept.handle(receiving(&kept, "A", "h"), Event::Ended);
    for event in [data(b"late"), control(b"c"), negotiated("B", "h2"), Event::Ended] {
        let (next, action) = kept.handle(connection, event);
        assert!(matches!(action, Action::Nothing));
        assert!(matches!(next, Connection::Closed));
        connection = next;
    }
}

#[test]
fn ingest_announces_after_the_third_step() {
    let kept = receiver();
    let (ingest, effect) = stored(&kept, "MODALITY1", "10.0.0.7");
    assert!(matches!(ingest.stage, IngestStage::Announcing));
    match effect {
        Effect::Send(request) => {
            assert_eq!(request.endpoint, "http://127.0.0.1:9000/dicom/ingest");
            assert_eq!(
                request.body,
                "{\"file_path\":\"/var/dicom/MODALITY1/t1.dcm\",\"calling_aet\":\"MODALITY1\",\"remote_host\":\"10.0.0.7\"}"
            );
        }
        other => panic!("unexpected effect {:?}", other),
    }
}

#[test]
fn accepted_announcement_ends_the_ingest() {
    let kept = receiver();
    let (ingest, _) = stored(&kept, "A", "h");
    let (ingest, effect) =
        kept.advance(ingest, Feedback::Delivery(Delivery::Responded { status: 200 }));
    assert!(matches!(effect, Effect::Finish(Ok(()))));
    assert!(matches!(ingest.stage, IngestStage::Finished(Ok(()))));
}

#[test]
fn rejected_announcement_is_reported_once() {
    let kept = receiver();
    let (ingest, _) = stored(&kept, "MODALITY1", "10.0.0.7");
    let (ingest, effect) =
        kept.advance(ingest, Feedback::Delivery(Delivery::Responded { status: 500 }));
    assert_eq!(
        failure_of(effect),
        (
            "MODALITY1".to_string(),
            "10.0.0.7".to_string(),
            Failure::Forward(ForwardError::Rejected { status: 500 })
        )
    );
    let (_, effect) =
        kept.advance(ingest, Feedback::Delivery(Delivery::Responded { status: 200 }));
    assert!(matches!(
        effect,
        Effect::Finish(Err(ref report))
            if report.failure == Failure::Forward(ForwardError::Rejected { status: 500 })
    ));
}

#[test]
fn unreachable_service_is_a_transport_failure() {
    let kept = receiver();
    let (ingest, _) = stored(&kept, "A", "h");
    let (_, effect) = kept.advance(ingest, Feedback::Delivery(Delivery::Unreachable));
    assert_eq!(failure_of(effect).2, Failure::Forward(ForwardError::Transport));
}

#[test]
fn storing_failures_are_reported_with_the_sender() {
    let kept = receiver();
    let ingest = begin(&kept, "MODALITY1", "10.0.0.7", b"abc");
    let (_, effect) = kept.advance(ingest, Feedback::Storage(Report::Failed));
    assert_eq!(
        failure_of(effect),
        (
            "MODALITY1".to_string(),
            "10.0.0.7".to_string(),
            Failure::Persist(PersistError::DirectoryUnavailable)
        )
    );

    let ingest = begin(&kept, "MODALITY1", "10.0.0.7", b"abc");
    let (ingest, _) = kept.advance(ingest, Feedback::Storage(Report::DirectoryCreated));
    let (_, effect) = kept.advance(ingest, Feedback::Storage(Report::Failed));
    assert_eq!(failure_of(effect).2, Failure::Persist(PersistError::WriteFailed));

    let ingest = begin(&kept, "MODALITY1", "10.0.0.7", b"abc");
    let (ingest, _) = kept.advance(ingest, Feedback::Storage(Report::DirectoryCreated));
    let (ingest, _) =
        kept.advance(ingest, Feedback::Storage(Report::Written { name: "t".to_string() }));
    let (_, effect) = kept.advance(ingest, Feedback::Storage(Report::Failed));
    assert_eq!(failure_of(effect).2, Failure::Persist(PersistError::WriteFailed));
}

#[test]
fn nothing_is_sent_for_a_dataset_that_was_not_stored() {
    let kept = receiver();
    let feedbacks = [
        vec![Report::Failed],
        vec![Report::DirectoryCreated, Report::Failed],
        vec![Report::DirectoryCreated, Report::Written { name: "t".to_string() }, Report::Failed],
    ];
    for reports in feedbacks {
        let mut ingest = begin(&kept, "A", "h", b"abc");
        for report in reports {
            let (next, effect) = kept.advance(ingest, Feedback::Storage(report));
            assert!(!matches!(effect, Effect::Send(_)));
            ingest = next;
        }
        assert!(matches!(ingest.stage, IngestStage::Finished(Err(Failure::Persist(_)))));
    }
}

#[test]
fn feedback_of_the_wrong_kind_counts_as_failure() {
    let kept = receiver();
    let ingest = begin(&kept, "A", "h", b"abc");
    let (_, effect) =
        kept.advance(ingest, Feedback::Delivery(Delivery::Responded { status: 200 }));
    assert_eq!(failure_of(effect).2, Failure::Persist(PersistError::DirectoryUnavailable));

    let (ingest, _) = stored(&kept, "A", "h");
    let (_, effect) = kept.advance(ingest, Feedback::Storage(Report::Published));
    assert_eq!(failure_of(effect).2, Failure::Forward(ForwardError::Transport));
}

#[test]
fn failed_ingest_does_not_stop_the_connection() {
    let kept = receiver();
    let connection = receiving(&kept, "MODALITY1", "10.0.0.7");
    let (connection, action) = kept.handle(connection, data(b"lost"));
    match action {
        Action::Ingest { ingest, .. } => {
            let (_, effect) = kept.advance(ingest, Feedback::Storage(Report::Failed));
            assert_eq!(
                failure_of(effect).2,
                Failure::Persist(PersistError::DirectoryUnavailable)
            );
        }
        other => panic!("unexpected action {:?}", other),
    }
    let (connection, action) = kept.handle(connection, data(b"kept"));
    assert!(matches!(connection, Connection::Receiving { .. }));
    match action {
        Action::Ingest { ingest, effect } => {
            assert!(matches!(effect, Effect::Store(PersistStep::CreateDirectory { .. })));
            let (_, effect) = kept.advance(ingest, Feedback::Storage(Report::DirectoryCreated));
            match effect {
                Effect::Store(PersistStep::WriteTemporary { payload, .. }) => {
                    assert_eq!(payload, b"kept")
                }
                other => panic!("unexpected effect {:?}", other),
            }
        }
        other => panic!("unexpected action {:?}", other),
    }
}

#[test]
fn second_negotiation_replaces_the_sender() {
    let kept = receiver();
    let connection = receiving(&kept, "A", "h1");
    let (connection, _) = kept.handle(connection, negotiated("B", "h2"));
    let (_, action) = kept.handle(connection, data(b"x"));
    match action {
        Action::Ingest { ingest, .. } => {
            assert_eq!(ingest.sender_id, "B");
            assert_eq!(ingest.remote_host, "h2");
        }
        other => panic!("unexpected action {:?}", other),
    }
}

#[test]
fn receiver_keeps_what_it_was_given() {
    let kept = receiver();
    assert_eq!(kept.persister.root, "/var/dicom");
    assert_eq!(kept.forwarder.endpoint, "http://127.0.0.1:9000/dicom/ingest");
}
