//! Storing a dataset: where it goes, and in which order the file system is
//! touched.
//!
//! A dataset is stored in three steps: its sender's directory is created, the
//! bytes are written to a new file there, and that file is given its final
//! name. `PersistJob` decides the next step from what the previous one
//! reported; the caller carries the steps out. A step that fails ends the job:
//! nothing is tried twice.

use vstd::prelude::*;
use vstd::string::StringExecFns;

verus! {

/// Why a dataset was not stored.
#[derive(Debug, Clone, Copy, PartialEq, Eq, Structural)]
pub enum PersistError {
    /// The sender's directory could not be created.
    DirectoryUnavailable,
    /// The bytes could not be written, or the file could not be given its
    /// final name.
    WriteFailed,
}

/// The character that separates the components of a path.
pub const SEPARATOR: char = '/';

/// A path one component below `base`.
pub open spec fn joined(base: Seq<char>, name: Seq<char>) -> Seq<char> {
    if base.len() == 0 {
        name
    } else if base.last() == SEPARATOR {
        base + name
    } else {
        base + seq![SEPARATOR] + name
    }
}

/// Whether a text can stand as one component of a path: it is not empty and
/// holds no separator.
pub open spec fn is_component(name: Seq<char>) -> bool {
    &&& name.len() > 0
    &&& forall|i: int| 0 <= i < name.len() ==> #[trigger] name[i] != SEPARATOR
}

/// The name under which a dataset is kept, given the name of the file that
/// its bytes were written to.
pub open spec fn final_name(temporary: Seq<char>) -> Seq<char> {
    temporary + ".dcm"@
}

/// The directory that holds the datasets of one sender.
pub open spec fn sender_directory_of(root: Seq<char>, sender_id: Seq<char>) -> Seq<char> {
    joined(root, sender_id)
}

/// Puts `name` one component below `base`.
pub fn join(base: &str, name: &str) -> (path: String)
    ensures
        path@ == joined(base@, name@),
{
    let len = base.unicode_len();
    if len == 0 {
        return name.to_owned();
    }
    let mut path = base.to_owned();
    if base.get_char(len - 1) != SEPARATOR {
        proof {
            reveal_strlit("/");
        }
        path.append("/");
    }
    path.append(name);
    path
}

/// Stores datasets under one root directory, each in the directory of its
/// sender.
#[derive(Debug, Clone)]
pub struct DatasetPersister {
    /// The path of the root directory.
    pub root: String,
}

impl DatasetPersister {
    /// A persister that stores under `root`.
    pub fn new(root: String) -> (persister: DatasetPersister)
        ensures
            persister.root == root,
    {
        DatasetPersister { root }
    }

    /// The directory that holds the datasets of `sender_id`.
    pub fn sender_directory(&self, sender_id: &str) -> (directory: String)
        ensures
            directory@ == sender_directory_of(self.root@, sender_id@),
    {
        join(self.root.as_str(), sender_id)
    }
}

/// The payload of one fragment, to be stored for its sender.
#[derive(Debug)]
pub struct PersistRequest {
    /// The application title of the sender.
    pub sender_id: String,
    /// The bytes of the dataset.
    pub payload: Vec<u8>,
}

/// A `PersistRequest` as plain values.
pub struct PersistRequestModel {
    pub sender_id: Seq<char>,
    pub payload: Seq<u8>,
}

impl View for PersistRequest {
    type V = PersistRequestModel;

    open spec fn view(&self) -> PersistRequestModel {
        PersistRequestModel { sender_id: self.sender_id@, payload: self.payload@ }
    }
}

/// What the caller reports after carrying out a step.
#[derive(Debug)]
pub enum Report {
    /// The directory exists now.
    DirectoryCreated,
    /// All bytes were written to a new file of this name in the directory.
    Written { name: String },
    /// The file has its final name.
    Published,
    /// The step could not be carried out.
    Failed,
}

/// What the caller has to do next.
#[derive(Debug)]
pub enum PersistStep {
    /// Create this directory and the directories above it, where absent.
    CreateDirectory { path: String },
    /// Create a file with a name that is new in this directory and write all
    /// the bytes to it.
    WriteTemporary { directory: String, payload: Vec<u8> },
    /// Give the file at `temporary` the name `destination`, in one step and
    /// without replacing a file that has it.
    Publish { temporary: String, destination: String },
    /// Nothing: the job has ended, with the path of the dataset or the reason
    /// why there is none.
    Done { outcome: Result<String, PersistError> },
}

/// A dataset on its way to the disk.
#[derive(Debug)]
pub enum PersistJob {
    /// The sender's directory is being created.
    CreatingDirectory { directory: String, payload: Vec<u8> },
    /// The bytes are being written.
    Writing { directory: String },
    /// The file is being given its final name.
    Publishing { destination: String },
    /// The job has ended.
    Finished { outcome: Result<String, PersistError> },
}

/// How a job ended, as plain text.
pub type OutcomeModel = Result<Seq<char>, PersistError>;

/// A `Report` as plain values.
pub enum ReportModel {
    DirectoryCreated,
    Written { name: Seq<char> },
    Published,
    Failed,
}

/// A `PersistStep` as plain values.
pub enum StepModel {
    CreateDirectory { path: Seq<char> },
    WriteTemporary { directory: Seq<char>, payload: Seq<u8> },
    Publish { temporary: Seq<char>, destination: Seq<char> },
    Done { outcome: OutcomeModel },
}

/// A `PersistJob` as plain values.
pub enum JobModel {
    CreatingDirectory { directory: Seq<char>, payload: Seq<u8> },
    Writing { directory: Seq<char> },
    Publishing { destination: Seq<char> },
    Finished { outcome: OutcomeModel },
}

/// The outcome of a job as plain text.
pub open spec fn outcome_model(outcome: Result<String, PersistError>) -> OutcomeModel {
    match outcome {
        Ok(path) => Ok(path@),
        Err(error) => Err(error),
    }
}

impl View for Report {
    type V = ReportModel;

    open spec fn view(&self) -> ReportModel {
        match *self {
            Report::DirectoryCreated => ReportModel::DirectoryCreated,
            Report::Written { name } => ReportModel::Written { name: name@ },
            Report::Published => ReportModel::Published,
            Report::Failed => ReportModel::Failed,
        }
    }
}

impl View for PersistStep {
    type V = StepModel;

    open spec fn view(&self) -> StepModel {
        match *self {
            PersistStep::CreateDirectory { path } => StepModel::CreateDirectory { path: path@ },
            PersistStep::WriteTemporary { directory, payload } => StepModel::WriteTemporary {
                directory: directory@,
                payload: payload@,
            },
            PersistStep::Publish { temporary, destination } => StepModel::Publish {
                temporary: temporary@,
                destination: destination@,
            },
            PersistStep::Done { outcome } => StepModel::Done { outcome: outcome_model(outcome) },
        }
    }
}

impl View for PersistJob {
    type V = JobModel;

    open spec fn view(&self) -> JobModel {
        match *self {
            PersistJob::CreatingDirectory { directory, payload } => JobModel::CreatingDirectory {
                directory: directory@,
                payload: payload@,
            },
            PersistJob::Writing { directory } => JobModel::Writing { directory: directory@ },
            PersistJob::Publishing { destination } => JobModel::Publishing {
                destination: destination@,
            },
            PersistJob::Finished { outcome } => JobModel::Finished {
                outcome: outcome_model(outcome),
            },
        }
    }
}

/// The job that stores `payload` for `sender_id` under `root`, and its first
/// step.
pub open spec fn begun(root: Seq<char>, sender_id: Seq<char>, payload: Seq<u8>) -> (
    JobModel,
    StepModel,
) {
    let directory = sender_directory_of(root, sender_id);
    (
        JobModel::CreatingDirectory { directory, payload },
        StepModel::CreateDirectory { path: directory },
    )
}

/// The job after a report, and the step that follows. A report other than the
/// success of the step that was asked for ends the job with an error.
pub open spec fn advanced(job: JobModel, report: ReportModel) -> (JobModel, StepModel) {
    match job {
        JobModel::CreatingDirectory { directory, payload } => match report {
            ReportModel::DirectoryCreated => (
                JobModel::Writing { directory },
                StepModel::WriteTemporary { directory, payload },
            ),
            _ => ended(Err(PersistError::DirectoryUnavailable)),
        },
        JobModel::Writing { directory } => match report {
            ReportModel::Written { name } => {
                let destination = joined(directory, final_name(name));
                (
                    JobModel::Publishing { destination },
                    StepModel::Publish { temporary: joined(directory, name), destination },
                )
            },
            _ => ended(Err(PersistError::WriteFailed)),
        },
        JobModel::Publishing { destination } => match report {
            ReportModel::Published => ended(Ok(destination)),
            _ => ended(Err(PersistError::WriteFailed)),
        },
        JobModel::Finished { outcome } => ended(outcome),
    }
}

/// A job that has ended, and the step that says so.
pub open spec fn ended(outcome: OutcomeModel) -> (JobModel, StepModel) {
    (JobModel::Finished { outcome }, StepModel::Done { outcome })
}

fn finish(outcome: Result<String, PersistError>) -> (next: (PersistJob, PersistStep))
    ensures
        (next.0@, next.1@) == ended(outcome_model(outcome)),
{
    match outcome {
        Ok(path) => (
            PersistJob::Finished { outcome: Ok(path.clone()) },
            PersistStep::Done { outcome: Ok(path) },
        ),
        Err(error) => (
            PersistJob::Finished { outcome: Err(error) },
            PersistStep::Done { outcome: Err(error) },
        ),
    }
}

impl DatasetPersister {
    /// Starts to store a payload for its sender. The first step creates the
    /// sender's directory.
    pub fn persist(&self, request: PersistRequest) -> (next: (PersistJob, PersistStep))
        ensures
            (next.0@, next.1@) == begun(self.root@, request.sender_id@, request.payload@),
    {
        let directory = self.sender_directory(request.sender_id.as_str());
        (
            PersistJob::CreatingDirectory {
                directory: directory.clone(),
                payload: request.payload,
            },
            PersistStep::CreateDirectory { path: directory },
        )
    }
}

impl PersistJob {
    /// Takes the report on the step that was asked for last and decides the
    /// next one.
    pub fn advance(self, report: Report) -> (next: (PersistJob, PersistStep))
        ensures
            (next.0@, next.1@) == advanced(self@, report@),
    {
        match self {
            PersistJob::CreatingDirectory { directory, payload } => match report {
                Report::DirectoryCreated => (
                    PersistJob::Writing { directory: directory.clone() },
                    PersistStep::WriteTemporary { directory, payload },
                ),
                _ => finish(Err(PersistError::DirectoryUnavailable)),
            },
            PersistJob::Writing { directory } => match report {
                Report::Written { name } => {
                    let temporary = join(directory.as_str(), name.as_str());
                    let mut kept = name;
                    kept.append(".dcm");
                    let destination = join(directory.as_str(), kept.as_str());
                    (
                        PersistJob::Publishing { destination: destination.clone() },
                        PersistStep::Publish { temporary, destination },
                    )
                },
                _ => finish(Err(PersistError::WriteFailed)),
            },
            PersistJob::Publishing { destination } => match report {
                Report::Published => finish(Ok(destination)),
                _ => finish(Err(PersistError::WriteFailed)),
            },
            PersistJob::Finished { outcome } => finish(outcome),
        }
    }
}

/// The job after a run of reports, each answered as `advanced` says.
pub open spec fn after(job: JobModel, reports: Seq<ReportModel>) -> JobModel
    decreases reports.len(),
{
    if reports.len() == 0 {
        job
    } else {
        after(advanced(job, reports.first()).0, reports.drop_first())
    }
}

/// How far a job has come.
pub open spec fn progress(job: JobModel) -> nat {
    match job {
        JobModel::CreatingDirectory { .. } => 0,
        JobModel::Writing { .. } => 1,
        JobModel::Publishing { .. } => 2,
        JobModel::Finished { .. } => 3,
    }
}

/// `base`, ready to take one more component.
pub open spec fn opened(base: Seq<char>) -> Seq<char> {
    if base.len() == 0 || base.last() == SEPARATOR {
        base
    } else {
        base + seq![SEPARATOR]
    }
}

/// Under one base, different names give different paths.
pub proof fn lemma_join_injective(base: Seq<char>, a: Seq<char>, b: Seq<char>)
    requires
        joined(base, a) == joined(base, b),
    ensures
        a == b,
{
    // Both paths begin with the same text, after which the names follow.
    let prefix = opened(base);
    assert(joined(base, a) == prefix + a);
    assert(joined(base, b) == prefix + b);
    assert(a.len() == b.len()) by {
        assert((prefix + a).len() == prefix.len() + a.len());
        assert((prefix + b).len() == prefix.len() + b.len());
    }
    assert forall|i: int| 0 <= i < a.len() implies a[i] == b[i] by {
        assert((prefix + a)[prefix.len() + i] == a[i]);
        assert((prefix + b)[prefix.len() + i] == b[i]);
    }
    assert(a =~= b);
}

/// Whatever is stored for one sender goes to one and the same directory,
/// and that directory lies directly under the root: the sender's name is its
/// last component.
pub proof fn lemma_one_directory_per_sender(
    root: Seq<char>,
    sender_id: Seq<char>,
    first: Seq<u8>,
    second: Seq<u8>,
)
    ensures
        begun(root, sender_id, first).1 == begun(root, sender_id, second).1,
        begun(root, sender_id, first).1 == (StepModel::CreateDirectory {
            path: sender_directory_of(root, sender_id),
        }),
        is_component(sender_id) ==> sender_directory_of(root, sender_id) == opened(root)
            + sender_id,
{
}

/// Two senders never share a directory, nor a file: whatever the files are
/// called, a path in the directory of one sender is no path in the directory
/// of another.
pub proof fn lemma_senders_kept_apart(
    root: Seq<char>,
    a: Seq<char>,
    b: Seq<char>,
    name_a: Seq<char>,
    name_b: Seq<char>,
)
    requires
        is_component(a),
        is_component(b),
        a != b,
    ensures
        sender_directory_of(root, a) != sender_directory_of(root, b),
        joined(sender_directory_of(root, a), name_a) != joined(
            sender_directory_of(root, b),
            name_b,
        ),
{
    let prefix = opened(root);
    let dir_a = sender_directory_of(root, a);
    let dir_b = sender_directory_of(root, b);
    if dir_a == dir_b {
        lemma_join_injective(root, a, b);
    }
    // A sender's name holds no separator, so the first separator after the
    // root is the one that ends the name.
    let path_a = joined(dir_a, name_a);
    let path_b = joined(dir_b, name_b);
    assert(path_a == prefix + a + seq![SEPARATOR] + name_a);
    assert(path_b == prefix + b + seq![SEPARATOR] + name_b);
    if path_a == path_b {
        let n = prefix.len() as int;
        if a.len() < b.len() {
            assert(path_a[n + a.len()] == SEPARATOR);
            assert(path_b[n + a.len()] == b[a.len() as int]);
        } else if b.len() < a.len() {
            assert(path_b[n + b.len()] == SEPARATOR);
            assert(path_a[n + b.len()] == a[b.len() as int]);
        } else {
            assert forall|i: int| 0 <= i < a.len() implies a[i] == b[i] by {
                assert(path_a[n + i] == a[i]);
                assert(path_b[n + i] == b[i]);
            }
            assert(a =~= b);
        }
    }
}

/// Directories that are different places hold different files: a file name
/// put under one of them is no path under the other. Two directories are the
/// same place where they differ by a separator at the end only.
pub proof fn lemma_directories_kept_apart(
    first: Seq<char>,
    second: Seq<char>,
    name_first: Seq<char>,
    name_second: Seq<char>,
)
    requires
        opened(first) != opened(second),
        is_component(name_first),
        is_component(name_second),
    ensures
        joined(first, name_first) != joined(second, name_second),
{
    // A file name holds no separator, so the last separator of a path is the
    // one that ends its directory.
    let p = opened(first);
    let q = opened(second);
    let path_first = joined(first, name_first);
    let path_second = joined(second, name_second);
    assert(path_first == p + name_first);
    assert(path_second == q + name_second);
    if path_first == path_second {
        if p.len() < q.len() {
            assert(path_second[q.len() - 1] == SEPARATOR);
            assert(path_first[q.len() - 1] == name_first[q.len() - 1 - p.len()]);
        } else if q.len() < p.len() {
            assert(path_first[p.len() - 1] == SEPARATOR);
            assert(path_second[p.len() - 1] == name_second[p.len() - 1 - q.len()]);
        } else {
            assert forall|i: int| 0 <= i < p.len() implies p[i] == q[i] by {
                assert(path_first[i] == p[i]);
                assert(path_second[i] == q[i]);
            }
            assert(p =~= q);
        }
    }
}

/// Files that were written under different names are kept under different
/// names.
pub proof fn lemma_final_name_injective(a: Seq<char>, b: Seq<char>)
    requires
        final_name(a) == final_name(b),
    ensures
        a == b,
{
    let suffix = ".dcm"@;
    assert(a.len() == b.len()) by {
        assert((a + suffix).len() == a.len() + suffix.len());
        assert((b + suffix).len() == b.len() + suffix.len());
    }
    assert forall|i: int| 0 <= i < a.len() implies a[i] == b[i] by {
        assert((a + suffix)[i] == a[i]);
        assert((b + suffix)[i] == b[i]);
    }
    assert(a =~= b);
}

/// The name under which a dataset is kept is a file name as the name it was
/// written under is, and it is another name: while its bytes are written, a
/// file is not seen where it is kept.
pub proof fn lemma_final_name_is_new(directory: Seq<char>, temporary: Seq<char>)
    ensures
        is_component(temporary) ==> is_component(final_name(temporary)),
        final_name(temporary) != temporary,
        joined(directory, final_name(temporary)) != joined(directory, temporary),
{
    reveal_strlit(".dcm");
    let suffix = ".dcm"@;
    assert(final_name(temporary).len() == temporary.len() + 4);
    if is_component(temporary) {
        assert forall|i: int| 0 <= i < final_name(temporary).len() implies #[trigger] final_name(
            temporary,
        )[i] != SEPARATOR by {
            if i >= temporary.len() {
                assert(final_name(temporary)[i] == suffix[i - temporary.len()]);
            }
        }
    }
    if joined(directory, final_name(temporary)) == joined(directory, temporary) {
        lemma_join_injective(directory, final_name(temporary), temporary);
    }
}

/// A job never goes back: each report takes it one stage further or ends
/// it, and a job that has ended stays as it is. So no step is asked for
/// twice.
pub proof fn lemma_job_moves_forward(job: JobModel, report: ReportModel)
    ensures
        job is Finished ==> advanced(job, report).0 == job,
        !(job is Finished) ==> progress(advanced(job, report).0) > progress(job),
        advanced(job, report).1 is Done <==> advanced(job, report).0 is Finished,
{
}

/// Once a job has ended, no run of reports changes how it ended.
pub proof fn lemma_ended_job_stays(outcome: OutcomeModel, reports: Seq<ReportModel>)
    ensures
        after(JobModel::Finished { outcome }, reports) == (JobModel::Finished { outcome }),
    decreases reports.len(),
{
    if reports.len() > 0 {
        lemma_ended_job_stays(outcome, reports.drop_first());
    }
}

/// Each step is asked for only after the one before it has succeeded: bytes
/// are written only into a directory that was created, into the sender's
/// directory, and they are the bytes of the request; a file is given its
/// final name only after all its bytes were written.
pub proof fn lemma_steps_in_order(
    root: Seq<char>,
    sender_id: Seq<char>,
    payload: Seq<u8>,
    reports: Seq<ReportModel>,
    report: ReportModel,
)
    ensures
        ({
            let job = after(begun(root, sender_id, payload).0, reports);
            let directory = sender_directory_of(root, sender_id);
            match advanced(job, report).1 {
                StepModel::CreateDirectory { .. } => false,
                StepModel::WriteTemporary { directory: target, payload: bytes } => {
                    &&& reports.len() == 0
                    &&& report is DirectoryCreated
                    &&& target == directory
                    &&& bytes == payload
                },
                StepModel::Publish { temporary, destination } => {
                    &&& reports == seq![ReportModel::DirectoryCreated]
                    &&& report matches ReportModel::Written { name }
                    &&& temporary == joined(directory, name)
                    &&& destination == joined(directory, final_name(name))
                },
                StepModel::Done { .. } => true,
            }
        }),
{
    // The run is followed report by report until the job is known.
    let start = begun(root, sender_id, payload).0;
    if reports.len() > 0 {
        let second = advanced(start, reports[0]).0;
        let rest = reports.drop_first();
        if second is Finished {
            lemma_ended_job_stays(second->outcome, rest);
        } else if rest.len() > 0 {
            let third = advanced(second, rest[0]).0;
            let tail = rest.drop_first();
            if third is Finished {
                lemma_ended_job_stays(third->outcome, tail);
            } else if tail.len() > 0 {
                let fourth = advanced(third, tail[0]).0;
                lemma_ended_job_stays(fourth->outcome, tail.drop_first());
            } else {
                assert(after(third, tail) == third);
            }
        } else {
            assert(after(second, rest) == second);
        }
    }
}

/// A dataset counts as stored only when all three steps have succeeded, one
/// after the other; its path then lies in the sender's directory, under the
/// final name of the file that was written.
pub proof fn lemma_stored_after_all_steps(
    root: Seq<char>,
    sender_id: Seq<char>,
    payload: Seq<u8>,
    reports: Seq<ReportModel>,
    path: Seq<char>,
)
    requires
        after(begun(root, sender_id, payload).0, reports) == (JobModel::Finished {
            outcome: Ok(path),
        }),
    ensures
        reports.len() >= 3,
        reports[0] is DirectoryCreated,
        reports[1] matches ReportModel::Written { name } && path == joined(
            sender_directory_of(root, sender_id),
            final_name(name),
        ),
        reports[2] is Published,
{
    // The run is followed report by report. A job that has ended stays as it
    // is, so each of the first three reports must have been a success.
    let start = begun(root, sender_id, payload).0;
    if reports.len() > 0 {
        let second = advanced(start, reports[0]).0;
        let rest = reports.drop_first();
        if second is Finished {
            lemma_ended_job_stays(second->outcome, rest);
        } else if rest.len() > 0 {
            let third = advanced(second, rest[0]).0;
            let tail = rest.drop_first();
            assert(after(second, rest) == after(third, tail));
            if third is Finished {
                lemma_ended_job_stays(third->outcome, tail);
            } else if tail.len() > 0 {
                let fourth = advanced(third, tail[0]).0;
                lemma_ended_job_stays(fourth->outcome, tail.drop_first());
            }
        }
    }
}

} // verus!
