//! One payload on its way to the disk and to the downstream service.
//!
//! An `Ingest` stores a payload and, once it is stored, announces it. It asks
//! for one thing at a time: a step of the storing, or the one request that
//! announces the dataset. Whatever fails ends the ingest with a report of the
//! failure; nothing is asked for twice.

use crate::forward::{
    Delivery,
    ForwardError,
    ForwardRequest,
    ForwardRequestModel,
    IngestEvent,
    IngestEventModel,
    IngestForwarder,
    judge,
    request_of,
    verdict,
};
use crate::persist::{
    DatasetPersister,
    JobModel,
    PersistError,
    PersistJob,
    PersistRequest,
    PersistStep,
    Report,
    ReportModel,
    StepModel,
    advanced,
    begun,
    final_name,
    joined,
    progress,
    sender_directory_of,
};
use vstd::prelude::*;

verus! {

/// The step that failed for a dataset.
#[derive(Debug, Clone, Copy, PartialEq, Eq, Structural)]
pub enum Failure {
    /// The dataset was not stored.
    Persist(PersistError),
    /// The dataset was stored and not announced.
    Forward(ForwardError),
}

/// A failure, with the sender whose dataset it concerns.
#[derive(Debug)]
pub struct FailureReport {
    /// The application title of the sender.
    pub sender_id: String,
    /// The network address of the sender.
    pub remote_host: String,
    /// What failed.
    pub failure: Failure,
}

/// A `FailureReport` as plain values.
pub struct FailureModel {
    pub sender_id: Seq<char>,
    pub remote_host: Seq<char>,
    pub failure: Failure,
}

impl View for FailureReport {
    type V = FailureModel;

    open spec fn view(&self) -> FailureModel {
        FailureModel {
            sender_id: self.sender_id@,
            remote_host: self.remote_host@,
            failure: self.failure,
        }
    }
}

/// What the caller reports after carrying out what an ingest asked for.
#[derive(Debug)]
pub enum Feedback {
    /// How a step of the storing went.
    Storage(Report),
    /// What came back from the request.
    Delivery(Delivery),
}

/// What the caller has to do next for an ingest.
#[derive(Debug)]
pub enum Effect {
    /// Carry out this step of the storing and report on it.
    Store(PersistStep),
    /// Send this request, once, and report what came back.
    Send(ForwardRequest),
    /// Nothing more: the ingest has ended. A failure is to be recorded.
    Finish(Result<(), FailureReport>),
}

/// How far the ingest of one payload has come.
#[derive(Debug)]
pub enum IngestStage {
    /// The payload is being stored.
    Storing(PersistJob),
    /// The dataset is stored and the request that announces it is under way.
    Announcing,
    /// The ingest has ended.
    Finished(Result<(), Failure>),
}

/// One payload on its way to the disk and to the downstream service.
#[derive(Debug)]
pub struct Ingest {
    /// The application title of the sender.
    pub sender_id: String,
    /// The network address of the sender.
    pub remote_host: String,
    /// How far the ingest has come.
    pub stage: IngestStage,
}

/// A `Feedback` as plain values.
pub enum FeedbackModel {
    Storage(ReportModel),
    Delivery(Delivery),
}

/// An `Effect` as plain values.
pub enum EffectModel {
    Store(StepModel),
    Send(ForwardRequestModel),
    Finish(Result<(), FailureModel>),
}

/// An `IngestStage` as plain values.
pub enum StageModel {
    Storing(JobModel),
    Announcing,
    Finished(Result<(), Failure>),
}

/// An `Ingest` as plain values.
pub struct IngestModel {
    pub sender_id: Seq<char>,
    pub remote_host: Seq<char>,
    pub stage: StageModel,
}

impl View for Feedback {
    type V = FeedbackModel;

    open spec fn view(&self) -> FeedbackModel {
        match *self {
            Feedback::Storage(report) => FeedbackModel::Storage(report@),
            Feedback::Delivery(delivery) => FeedbackModel::Delivery(delivery),
        }
    }
}

impl View for Effect {
    type V = EffectModel;

    open spec fn view(&self) -> EffectModel {
        match *self {
            Effect::Store(step) => EffectModel::Store(step@),
            Effect::Send(request) => EffectModel::Send(request@),
            Effect::Finish(Ok(())) => EffectModel::Finish(Ok(())),
            Effect::Finish(Err(report)) => EffectModel::Finish(Err(report@)),
        }
    }
}

impl View for IngestStage {
    type V = StageModel;

    open spec fn view(&self) -> StageModel {
        match *self {
            IngestStage::Storing(job) => StageModel::Storing(job@),
            IngestStage::Announcing => StageModel::Announcing,
            IngestStage::Finished(result) => StageModel::Finished(result),
        }
    }
}

impl View for Ingest {
    type V = IngestModel;

    open spec fn view(&self) -> IngestModel {
        IngestModel {
            sender_id: self.sender_id@,
            remote_host: self.remote_host@,
            stage: self.stage@,
        }
    }
}

/// The ingest of `payload`, received from `sender_id` at `remote_host` and to
/// be stored under `root`, and what it asks for first: the first step of the
/// storing.
pub open spec fn started(
    root: Seq<char>,
    sender_id: Seq<char>,
    remote_host: Seq<char>,
    payload: Seq<u8>,
) -> (IngestModel, EffectModel) {
    let (job, step) = begun(root, sender_id, payload);
    (
        IngestModel { sender_id, remote_host, stage: StageModel::Storing(job) },
        EffectModel::Store(step),
    )
}

/// An ingest that has ended, and the effect that says so.
pub open spec fn concluded(ingest: IngestModel, result: Result<(), Failure>) -> (
    IngestModel,
    EffectModel,
) {
    (
        IngestModel { stage: StageModel::Finished(result), ..ingest },
        EffectModel::Finish(
            match result {
                Ok(()) => Ok(()),
                Err(failure) => Err(
                    FailureModel {
                        sender_id: ingest.sender_id,
                        remote_host: ingest.remote_host,
                        failure,
                    },
                ),
            },
        ),
    )
}

/// The event that announces the dataset that an ingest has stored at
/// `file_path`.
pub open spec fn announcement(ingest: IngestModel, file_path: Seq<char>) -> IngestEventModel {
    IngestEventModel {
        file_path,
        calling_aet: ingest.sender_id,
        remote_host: ingest.remote_host,
    }
}

/// An ingest whose dataset is stored at `file_path`: the request that
/// announces it at `endpoint` is asked for, or the ingest ends where none can
/// be made.
pub open spec fn announced(endpoint: Seq<char>, ingest: IngestModel, file_path: Seq<char>) -> (
    IngestModel,
    EffectModel,
) {
    match request_of(endpoint, announcement(ingest, file_path)) {
        Ok(request) => (
            IngestModel { stage: StageModel::Announcing, ..ingest },
            EffectModel::Send(request),
        ),
        Err(error) => concluded(ingest, Err(Failure::Forward(error))),
    }
}

/// The verdict on a delivery, as the result of an ingest.
pub open spec fn conclusion(delivery: Delivery) -> Result<(), Failure> {
    match verdict(delivery) {
        Ok(()) => Ok(()),
        Err(error) => Err(Failure::Forward(error)),
    }
}

/// The ingest after a feedback, and what it asks for next; announcements go
/// to `endpoint`. Feedback of the wrong kind counts as the failure of what
/// was asked for.
pub open spec fn progressed(endpoint: Seq<char>, ingest: IngestModel, feedback: FeedbackModel) -> (
    IngestModel,
    EffectModel,
) {
    match ingest.stage {
        StageModel::Storing(job) => {
            let report = match feedback {
                FeedbackModel::Storage(report) => report,
                FeedbackModel::Delivery(_) => ReportModel::Failed,
            };
            let (job, step) = advanced(job, report);
            match step {
                StepModel::Done { outcome: Ok(file_path) } => announced(
                    endpoint,
                    ingest,
                    file_path,
                ),
                StepModel::Done { outcome: Err(error) } => concluded(
                    ingest,
                    Err(Failure::Persist(error)),
                ),
                _ => (
                    IngestModel { stage: StageModel::Storing(job), ..ingest },
                    EffectModel::Store(step),
                ),
            }
        },
        StageModel::Announcing => {
            let delivery = match feedback {
                FeedbackModel::Delivery(delivery) => delivery,
                FeedbackModel::Storage(_) => Delivery::Unreachable,
            };
            concluded(ingest, conclusion(delivery))
        },
        StageModel::Finished(result) => concluded(ingest, result),
    }
}

fn conclude(sender_id: String, remote_host: String, result: Result<(), Failure>) -> (next: (
    Ingest,
    Effect,
))
    ensures
        (next.0@, next.1@) == concluded(
            IngestModel {
                sender_id: sender_id@,
                remote_host: remote_host@,
                stage: StageModel::Announcing,
            },
            result,
        ),
{
    let effect = match result {
        Ok(()) => Effect::Finish(Ok(())),
        Err(failure) => Effect::Finish(
            Err(
                FailureReport {
                    sender_id: sender_id.clone(),
                    remote_host: remote_host.clone(),
                    failure,
                },
            ),
        ),
    };
    (Ingest { sender_id, remote_host, stage: IngestStage::Finished(result) }, effect)
}

fn announce(
    forwarder: &IngestForwarder,
    sender_id: String,
    remote_host: String,
    file_path: String,
) -> (next: (Ingest, Effect))
    ensures
        (next.0@, next.1@) == announced(
            forwarder.endpoint@,
            IngestModel {
                sender_id: sender_id@,
                remote_host: remote_host@,
                stage: StageModel::Announcing,
            },
            file_path@,
        ),
{
    let event = IngestEvent {
        file_path,
        calling_aet: sender_id.clone(),
        remote_host: remote_host.clone(),
    };
    match forwarder.forward(&event) {
        Ok(request) => (
            Ingest { sender_id, remote_host, stage: IngestStage::Announcing },
            Effect::Send(request),
        ),
        Err(error) => conclude(sender_id, remote_host, Err(Failure::Forward(error))),
    }
}

impl Ingest {
    /// Starts the ingest of a payload received from `remote_host`. The first
    /// thing asked for is the first step of the storing.
    pub fn start(persister: &DatasetPersister, request: PersistRequest, remote_host: String) -> (next:
        (Ingest, Effect))
        ensures
            (next.0@, next.1@) == started(
                persister.root@,
                request.sender_id@,
                remote_host@,
                request.payload@,
            ),
    {
        let sender_id = request.sender_id.clone();
        let (job, step) = persister.persist(request);
        (Ingest { sender_id, remote_host, stage: IngestStage::Storing(job) }, Effect::Store(step))
    }

    /// Takes the feedback on what was asked for last and decides what is
    /// asked for next.
    pub fn advance(self, forwarder: &IngestForwarder, feedback: Feedback) -> (next: (
        Ingest,
        Effect,
    ))
        ensures
            (next.0@, next.1@) == progressed(forwarder.endpoint@, self@, feedback@),
    {
        let Ingest { sender_id, remote_host, stage } = self;
        match stage {
            IngestStage::Storing(job) => {
                let report = match feedback {
                    Feedback::Storage(report) => report,
                    Feedback::Delivery(_) => Report::Failed,
                };
                let (job, step) = job.advance(report);
                match step {
                    PersistStep::Done { outcome: Ok(file_path) } => announce(
                        forwarder,
                        sender_id,
                        remote_host,
                        file_path,
                    ),
                    PersistStep::Done { outcome: Err(error) } => conclude(
                        sender_id,
                        remote_host,
                        Err(Failure::Persist(error)),
                    ),
                    step => (
                        Ingest { sender_id, remote_host, stage: IngestStage::Storing(job) },
                        Effect::Store(step),
                    ),
                }
            },
            IngestStage::Announcing => {
                let delivery = match feedback {
                    Feedback::Delivery(delivery) => delivery,
                    Feedback::Storage(_) => Delivery::Unreachable,
                };
                let result = match judge(delivery) {
                    Ok(()) => Ok(()),
                    Err(error) => Err(Failure::Forward(error)),
                };
                conclude(sender_id, remote_host, result)
            },
            IngestStage::Finished(result) => conclude(sender_id, remote_host, result),
        }
    }
}

/// The ingest after a run of feedback, each answered as `progressed` says.
pub open spec fn ingest_after(
    endpoint: Seq<char>,
    ingest: IngestModel,
    feedback: Seq<FeedbackModel>,
) -> IngestModel
    decreases feedback.len(),
{
    if feedback.len() == 0 {
        ingest
    } else {
        ingest_after(
            endpoint,
            progressed(endpoint, ingest, feedback.first()).0,
            feedback.drop_first(),
        )
    }
}

/// How far an ingest has come.
pub open spec fn advancement(ingest: IngestModel) -> nat {
    match ingest.stage {
        StageModel::Storing(job) => progress(job),
        StageModel::Announcing => 4,
        StageModel::Finished(_) => 5,
    }
}

/// The error with which the storing ends when the step that a job waits for
/// fails.
pub open spec fn error_at(job: JobModel) -> PersistError {
    match job {
        JobModel::CreatingDirectory { .. } => PersistError::DirectoryUnavailable,
        _ => PersistError::WriteFailed,
    }
}

/// A dataset that cannot be stored is given up at once: the ingest ends with
/// a report that names the sender and the error of the step that failed, and
/// nothing is announced.
pub proof fn lemma_failed_storing_is_reported(
    endpoint: Seq<char>,
    ingest: IngestModel,
    job: JobModel,
)
    requires
        ingest.stage == StageModel::Storing(job),
        !(job is Finished),
    ensures
        ({
            let (next, effect) = progressed(
                endpoint,
                ingest,
                FeedbackModel::Storage(ReportModel::Failed),
            );
            &&& next.stage == StageModel::Finished(Err(Failure::Persist(error_at(job))))
            &&& effect == EffectModel::Finish(
                Err(
                    FailureModel {
                        sender_id: ingest.sender_id,
                        remote_host: ingest.remote_host,
                        failure: Failure::Persist(error_at(job)),
                    },
                ),
            )
        }),
{
}

/// An ingest never goes back, so nothing is asked for twice: each feedback
/// takes it further or ends it, and an ingest that has ended stays as it is.
/// Whatever comes back from the one request ends the ingest.
pub proof fn lemma_ingest_moves_forward(
    endpoint: Seq<char>,
    ingest: IngestModel,
    feedback: FeedbackModel,
)
    ensures
        ({
            let (next, effect) = progressed(endpoint, ingest, feedback);
            &&& ingest.stage is Finished ==> next == ingest
            &&& !(ingest.stage is Finished) ==> advancement(next) > advancement(ingest)
            &&& effect is Finish <==> next.stage is Finished
            &&& effect is Send <==> next.stage is Announcing
            &&& effect matches EffectModel::Store(step) ==> !(step is Done)
            &&& ingest.stage is Announcing ==> effect is Finish
            &&& next.sender_id == ingest.sender_id && next.remote_host == ingest.remote_host
        }),
{
}

/// Once an ingest has ended, no run of feedback changes how it ended.
pub proof fn lemma_ended_ingest_stays(
    endpoint: Seq<char>,
    ingest: IngestModel,
    feedback: Seq<FeedbackModel>,
)
    requires
        ingest.stage is Finished,
    ensures
        ingest_after(endpoint, ingest, feedback) == ingest,
    decreases feedback.len(),
{
    if feedback.len() > 0 {
        lemma_ended_ingest_stays(endpoint, ingest, feedback.drop_first());
    }
}

/// A response outside the success range ends the ingest with exactly that
/// rejection, and a failed request with a transport error; a response in the
/// success range ends it without a failure.
pub proof fn lemma_delivery_decides(endpoint: Seq<char>, ingest: IngestModel, delivery: Delivery)
    requires
        ingest.stage is Announcing,
    ensures
        ({
            let (next, effect) = progressed(endpoint, ingest, FeedbackModel::Delivery(delivery));
            let failed = |error: ForwardError|
                EffectModel::Finish(
                    Err(
                        FailureModel {
                            sender_id: ingest.sender_id,
                            remote_host: ingest.remote_host,
                            failure: Failure::Forward(error),
                        },
                    ),
                );
            match delivery {
                Delivery::Unreachable => effect == failed(ForwardError::Transport),
                Delivery::Responded { status } => if 200 <= status <= 299 {
                    effect == EffectModel::Finish(Ok(()))
                } else {
                    effect == failed(ForwardError::Rejected { status })
                },
            }
        }),
{
}

/// A dataset is announced only after it was stored: the request is asked for
/// in answer to the last of the three steps of the storing, each of which
/// has succeeded, and it announces the path under which the dataset was
/// stored, with the sender that the payload came from.
pub proof fn lemma_announced_only_when_stored(
    root: Seq<char>,
    endpoint: Seq<char>,
    sender_id: Seq<char>,
    remote_host: Seq<char>,
    payload: Seq<u8>,
    earlier: Seq<FeedbackModel>,
    feedback: FeedbackModel,
    request: ForwardRequestModel,
)
    requires
        progressed(
            endpoint,
            ingest_after(
                endpoint,
                started(root, sender_id, remote_host, payload).0,
                earlier,
            ),
            feedback,
        ).1 == EffectModel::Send(request),
    ensures
        earlier.len() == 2,
        earlier[0] == FeedbackModel::Storage(ReportModel::DirectoryCreated),
        earlier[1] matches FeedbackModel::Storage(ReportModel::Written { name }) && request_of(
            endpoint,
            IngestEventModel {
                file_path: joined(sender_directory_of(root, sender_id), final_name(name)),
                calling_aet: sender_id,
                remote_host,
            },
        ) == Ok::<ForwardRequestModel, ForwardError>(request),
        feedback == FeedbackModel::Storage(ReportModel::Published),
{
    // The run is followed feedback by feedback. An ingest that has ended
    // stays as it is, and one that is announcing ends with the next feedback,
    // so the request can only be the answer to the third feedback.
    let start = started(root, sender_id, remote_host, payload).0;
    if earlier.len() > 0 {
        let second = progressed(endpoint, start, earlier[0]).0;
        let rest = earlier.drop_first();
        if second.stage is Finished {
            lemma_ended_ingest_stays(endpoint, second, rest);
        } else if rest.len() > 0 {
            let third = progressed(endpoint, second, rest[0]).0;
            let tail = rest.drop_first();
            assert(ingest_after(endpoint, second, rest) == ingest_after(endpoint, third, tail));
            if third.stage is Finished {
                lemma_ended_ingest_stays(endpoint, third, tail);
            } else if tail.len() > 0 {
                let fourth = progressed(endpoint, third, tail[0]).0;
                let last = tail.drop_first();
                assert(ingest_after(endpoint, third, tail) == ingest_after(
                    endpoint,
                    fourth,
                    last,
                ));
                if fourth.stage is Finished {
                    lemma_ended_ingest_stays(endpoint, fourth, last);
                } else if last.len() > 0 {
                    let fifth = progressed(endpoint, fourth, last[0]).0;
                    assert(ingest_after(endpoint, fourth, last) == ingest_after(
                        endpoint,
                        fifth,
                        last.drop_first(),
                    ));
                    lemma_ended_ingest_stays(endpoint, fifth, last.drop_first());
                }
            }
        }
    }
}

} // verus!
