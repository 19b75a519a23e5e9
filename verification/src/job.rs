//! One download job, from the first status message to the delivered file or
//! the reported failure.
//!
//! The job decides; whoever drives it acts. [`DownloadJob::begin`] returns
//! the first [`Action`]. The driver performs it, reports the result as an
//! [`Event`] to [`DownloadJob::step`], and gets the next action, until the
//! action is [`Action::Finish`].

use vstd::prelude::*;
use crate::plan::{
    format_selector, id_numbered, job_path, output_path, selector, JobId, JobIds,
};
use crate::quality::QualityPreference;
use crate::settings::ConversationId;

verus! {

/// A request to download one item for one conversation.
#[derive(Clone, Debug, PartialEq, Eq)]
pub struct DownloadRequest {
    /// Where the status and the file go.
    pub conversation: ConversationId,
    /// What to download.
    pub url: String,
    /// Whether only the audio track is wanted.
    pub audio_only: bool,
    /// The quality the conversation prefers.
    pub quality: QualityPreference,
}

/// A [`DownloadRequest`] as contracts see it.
pub struct DownloadRequestView {
    pub conversation: ConversationId,
    pub url: Seq<char>,
    pub audio_only: bool,
    pub quality: QualityPreference,
}

impl View for DownloadRequest {
    type V = DownloadRequestView;

    open spec fn view(&self) -> DownloadRequestView {
        DownloadRequestView {
            conversation: self.conversation,
            url: self.url@,
            audio_only: self.audio_only,
            quality: self.quality,
        }
    }
}

/// Names the status message of a job, so that it can be edited or deleted.
#[derive(Clone, Copy, Debug, PartialEq, Eq, Hash, Structural)]
pub struct StatusHandle(pub i32);

/// What the status message of a job says.
#[derive(Clone, Copy, Debug, PartialEq, Eq, Hash, Structural)]
pub enum Notice {
    /// The download is starting.
    Starting,
    /// The downloader is not installed.
    ToolMissing,
    /// The download failed: check the address or try again later.
    DownloadFailed,
    /// The downloader reported success but produced no file.
    OutputMissing,
}

/// What can go wrong with a download in a way that the conversation is
/// told about.
#[derive(Clone, Copy, Debug, PartialEq, Eq, Hash, Structural)]
pub enum Fault {
    /// The downloader is not installed.
    ToolMissing,
    /// The downloader ran and failed, or was cut short.
    DownloadFailed,
    /// The downloader reported success but produced no file.
    OutputMissing,
}

/// How a job ended.
#[derive(Clone, Copy, Debug, PartialEq, Eq, Hash, Structural)]
pub enum Outcome {
    /// The file was delivered; its copy on storage and the status message
    /// were cleared away.
    Delivered,
    /// The downloader is not installed. The status message says so.
    ToolMissing,
    /// The downloader ran and failed, or was cut short. The status message
    /// says so.
    DownloadFailed,
    /// The downloader reported success without producing the file. The
    /// status message says so.
    OutputMissing,
    /// The downloader could not be started. The request may be retried.
    SpawnFailed,
    /// A message or the file could not be sent, edited or deleted.
    TransportFailed,
}

impl Fault {
    /// The notice that tells the conversation of the fault.
    pub open spec fn notice(self) -> Notice {
        match self {
            Fault::ToolMissing => Notice::ToolMissing,
            Fault::DownloadFailed => Notice::DownloadFailed,
            Fault::OutputMissing => Notice::OutputMissing,
        }
    }

    /// The outcome of a job that met the fault and reported it.
    pub open spec fn outcome(self) -> Outcome {
        match self {
            Fault::ToolMissing => Outcome::ToolMissing,
            Fault::DownloadFailed => Outcome::DownloadFailed,
            Fault::OutputMissing => Outcome::OutputMissing,
        }
    }

    /// Whether the downloader may have left its output file behind.
    pub open spec fn leaves_output(self) -> bool {
        self == Fault::DownloadFailed
    }

    /// The notice that tells the conversation of the fault.
    pub fn as_notice(self) -> (notice: Notice)
        ensures
            notice == self.notice(),
    {
        match self {
            Fault::ToolMissing => Notice::ToolMissing,
            Fault::DownloadFailed => Notice::DownloadFailed,
            Fault::OutputMissing => Notice::OutputMissing,
        }
    }

    /// The outcome of a job that met the fault and reported it.
    pub fn as_outcome(self) -> (outcome: Outcome)
        ensures
            outcome == self.outcome(),
    {
        match self {
            Fault::ToolMissing => Outcome::ToolMissing,
            Fault::DownloadFailed => Outcome::DownloadFailed,
            Fault::OutputMissing => Outcome::OutputMissing,
        }
    }
}

impl Outcome {
    /// After how many seconds the request may be tried again, for an outcome
    /// that is worth retrying.
    pub open spec fn retry_delay(self) -> Option<u64> {
        match self {
            Outcome::SpawnFailed => Some(5),
            _ => None,
        }
    }

    /// After how many seconds the request may be tried again: `Some` for a
    /// downloader that could not be started, `None` for every other outcome.
    pub fn retry_after_secs(self) -> (delay: Option<u64>)
        ensures
            delay == self.retry_delay(),
    {
        match self {
            Outcome::SpawnFailed => Some(5),
            _ => None,
        }
    }
}

/// Where a job stands: what it waits for.
#[derive(Clone, Copy, Debug, PartialEq, Eq, Hash, Structural)]
pub enum Phase {
    /// The starting notice is being sent.
    Announcing,
    /// The downloader is being looked for.
    LocatingTool { status: StatusHandle },
    /// The downloader is running.
    Running { status: StatusHandle },
    /// The output file is being looked for.
    Probing { status: StatusHandle },
    /// The file is being sent to the conversation.
    Delivering { status: StatusHandle },
    /// The status message is being edited to report `fault`.
    Revising { status: StatusHandle, fault: Fault },
    /// The output file is being removed; the job then ends with `outcome`.
    Cleaning { status: StatusHandle, outcome: Outcome },
    /// The status message is being deleted after a delivery.
    Retracting { status: StatusHandle },
    /// The job is over.
    Finished { outcome: Outcome },
}

impl Phase {
    /// The handle of the status message, in the phases that have one.
    pub open spec fn status(self) -> Option<StatusHandle> {
        match self {
            Phase::Announcing => None,
            Phase::LocatingTool { status } => Some(status),
            Phase::Running { status } => Some(status),
            Phase::Probing { status } => Some(status),
            Phase::Delivering { status } => Some(status),
            Phase::Revising { status, .. } => Some(status),
            Phase::Cleaning { status, .. } => Some(status),
            Phase::Retracting { status } => Some(status),
            Phase::Finished { .. } => None,
        }
    }

    /// The handle of the status message: `None` before the message is sent
    /// and after the job has ended.
    pub fn status_handle(self) -> (status: Option<StatusHandle>)
        ensures
            status == self.status(),
    {
        match self {
            Phase::Announcing => None,
            Phase::LocatingTool { status } => Some(status),
            Phase::Running { status } => Some(status),
            Phase::Probing { status } => Some(status),
            Phase::Delivering { status } => Some(status),
            Phase::Revising { status, .. } => Some(status),
            Phase::Cleaning { status, .. } => Some(status),
            Phase::Retracting { status } => Some(status),
            Phase::Finished { .. } => None,
        }
    }
}

/// What the driver reports back to a job.
#[derive(Clone, Copy, Debug, PartialEq, Eq, Hash, Structural)]
pub enum Event {
    /// The status message was sent and can be referred to by `status`.
    StatusSent { status: StatusHandle },
    /// The downloader was looked for.
    ToolLocated { found: bool },
    /// The downloader ran to its end; `success` tells a zero exit status.
    ToolExited { success: bool },
    /// The downloader could not be started.
    ToolNotStarted,
    /// The downloader was cut short, by a time limit or a shutdown, and is
    /// no longer running.
    ToolAborted,
    /// The output file was looked for.
    OutputProbed { present: bool },
    /// The file was sent to the conversation.
    Delivered,
    /// The removal of the output file was attempted; `removed` tells whether
    /// it succeeded.
    OutputRemoved { removed: bool },
    /// The status message was edited.
    StatusRevised,
    /// The status message was deleted.
    StatusRetracted,
    /// The message or file of the last action could not be sent, edited or
    /// deleted.
    TransportFailed,
}

/// What a job asks its driver to do next.
#[derive(Clone, Debug, PartialEq, Eq)]
pub enum Action {
    /// Send a status message that says `notice`.
    Announce { conversation: ConversationId, notice: Notice },
    /// Look for the downloader.
    LocateTool,
    /// Run the downloader on `url`, selecting `format`, writing to `output`.
    RunTool { format: String, output: String, url: String },
    /// Look for the file at `path`.
    ProbeOutput { path: String },
    /// Send the file at `path`, as audio or as video.
    Deliver { conversation: ConversationId, path: String, audio_only: bool },
    /// Remove the file at `path`.
    RemoveOutput { path: String },
    /// Edit the status message so that it says `notice`.
    Revise { conversation: ConversationId, status: StatusHandle, notice: Notice },
    /// Delete the status message.
    Retract { conversation: ConversationId, status: StatusHandle },
    /// Nothing more: the job ended with `outcome`.
    Finish { outcome: Outcome },
}

/// An [`Action`] as contracts see it.
pub enum ActionView {
    Announce { conversation: ConversationId, notice: Notice },
    LocateTool,
    RunTool { format: Seq<char>, output: Seq<char>, url: Seq<char> },
    ProbeOutput { path: Seq<char> },
    Deliver { conversation: ConversationId, path: Seq<char>, audio_only: bool },
    RemoveOutput { path: Seq<char> },
    Revise { conversation: ConversationId, status: StatusHandle, notice: Notice },
    Retract { conversation: ConversationId, status: StatusHandle },
    Finish { outcome: Outcome },
}

impl View for Action {
    type V = ActionView;

    open spec fn view(&self) -> ActionView {
        match *self {
            Action::Announce { conversation, notice } => ActionView::Announce {
                conversation,
                notice,
            },
            Action::LocateTool => ActionView::LocateTool,
            Action::RunTool { format, output, url } => ActionView::RunTool {
                format: format@,
                output: output@,
                url: url@,
            },
            Action::ProbeOutput { path } => ActionView::ProbeOutput { path: path@ },
            Action::Deliver { conversation, path, audio_only } => ActionView::Deliver {
                conversation,
                path: path@,
                audio_only,
            },
            Action::RemoveOutput { path } => ActionView::RemoveOutput { path: path@ },
            Action::Revise { conversation, status, notice } => ActionView::Revise {
                conversation,
                status,
                notice,
            },
            Action::Retract { conversation, status } => ActionView::Retract {
                conversation,
                status,
            },
            Action::Finish { outcome } => ActionView::Finish { outcome },
        }
    }
}

/// A job as contracts see it.
pub struct JobView {
    pub id: JobId,
    pub request: DownloadRequestView,
    pub phase: Phase,
}

impl JobView {
    /// The job's own output file.
    pub open spec fn path(self) -> Seq<char> {
        job_path(self.id, self.request.audio_only)
    }

    /// The job in another phase.
    pub open spec fn in_phase(self, phase: Phase) -> JobView {
        JobView { phase, ..self }
    }

    /// The job ends with `outcome`.
    pub open spec fn finish(self, outcome: Outcome) -> (Phase, ActionView) {
        (Phase::Finished { outcome }, ActionView::Finish { outcome })
    }

    /// The job reports `fault` in its status message.
    pub open spec fn revise(self, status: StatusHandle, fault: Fault) -> (Phase, ActionView) {
        (
            Phase::Revising { status, fault },
            ActionView::Revise {
                conversation: self.request.conversation,
                status,
                notice: fault.notice(),
            },
        )
    }

    /// The job removes its output file and will then end with `outcome`.
    pub open spec fn clean(self, status: StatusHandle, outcome: Outcome) -> (Phase, ActionView) {
        (Phase::Cleaning { status, outcome }, ActionView::RemoveOutput { path: self.path() })
    }

    /// The phase that `event` moves the job to and the action it then asks
    /// for, or `None` if the job is not waiting for `event`.
    pub open spec fn transition(self, event: Event) -> Option<(Phase, ActionView)> {
        match (self.phase, event) {
            (Phase::Announcing, Event::StatusSent { status }) => Some(
                (Phase::LocatingTool { status }, ActionView::LocateTool),
            ),
            (Phase::Announcing, Event::TransportFailed) => Some(
                self.finish(Outcome::TransportFailed),
            ),
            (Phase::LocatingTool { status }, Event::ToolLocated { found }) => if found {
                Some(
                    (
                        Phase::Running { status },
                        ActionView::RunTool {
                            format: selector(self.request.audio_only, self.request.quality),
                            output: self.path(),
                            url: self.request.url,
                        },
                    ),
                )
            } else {
                Some(self.revise(status, Fault::ToolMissing))
            },
            (Phase::Running { status }, Event::ToolExited { success }) => if success {
                Some((Phase::Probing { status }, ActionView::ProbeOutput { path: self.path() }))
            } else {
                Some(self.revise(status, Fault::DownloadFailed))
            },
            (Phase::Running { status }, Event::ToolAborted) => Some(
                self.revise(status, Fault::DownloadFailed),
            ),
            (Phase::Running { status }, Event::ToolNotStarted) => Some(
                self.finish(Outcome::SpawnFailed),
            ),
            (Phase::Probing { status }, Event::OutputProbed { present }) => if present {
                Some(
                    (
                        Phase::Delivering { status },
                        ActionView::Deliver {
                            conversation: self.request.conversation,
                            path: self.path(),
                            audio_only: self.request.audio_only,
                        },
                    ),
                )
            } else {
                Some(self.revise(status, Fault::OutputMissing))
            },
            (Phase::Delivering { status }, Event::Delivered) => Some(
                self.clean(status, Outcome::Delivered),
            ),
            (Phase::Delivering { status }, Event::TransportFailed) => Some(
                self.clean(status, Outcome::TransportFailed),
            ),
            (Phase::Revising { status, fault }, Event::StatusRevised) => if fault.leaves_output() {
                Some(self.clean(status, fault.outcome()))
            } else {
                Some(self.finish(fault.outcome()))
            },
            (Phase::Revising { status, fault }, Event::TransportFailed) => if fault.leaves_output() {
                Some(self.clean(status, Outcome::TransportFailed))
            } else {
                Some(self.finish(Outcome::TransportFailed))
            },
            (Phase::Cleaning { status, outcome }, Event::OutputRemoved { removed }) => if outcome
                == Outcome::Delivered {
                Some(
                    (
                        Phase::Retracting { status },
                        ActionView::Retract { conversation: self.request.conversation, status },
                    ),
                )
            } else {
                Some(self.finish(outcome))
            },
            (Phase::Retracting { status }, Event::StatusRetracted) => Some(
                self.finish(Outcome::Delivered),
            ),
            (Phase::Retracting { status }, Event::TransportFailed) => Some(
                self.finish(Outcome::TransportFailed),
            ),
            _ => None,
        }
    }
}

/// A download job: the request, the identifier that scopes its output file,
/// and the phase it is in.
#[derive(Debug)]
pub struct DownloadJob {
    id: JobId,
    request: DownloadRequest,
    phase: Phase,
}

impl View for DownloadJob {
    type V = JobView;

    closed spec fn view(&self) -> JobView {
        JobView { id: self.id, request: self.request@, phase: self.phase }
    }
}

impl DownloadJob {
    /// Starts a job for `request` under the next identifier of `ids`, so
    /// that no two jobs of one allocator share an identifier or an output
    /// file. The first action is to announce the start in the conversation.
    ///
    /// Returns `None`, and leaves `ids` as it is, when `ids` has no
    /// identifier left.
    pub fn begin(ids: &mut JobIds, request: DownloadRequest) -> (started: Option<
        (DownloadJob, Action),
    >)
        ensures
            match id_numbered(old(ids).upcoming()) {
                Some(id) => {
                    &&& started is Some
                    &&& started.unwrap().0@ == (JobView {
                        id,
                        request: request@,
                        phase: Phase::Announcing,
                    })
                    &&& started.unwrap().1@ == (ActionView::Announce {
                        conversation: request.conversation,
                        notice: Notice::Starting,
                    })
                    &&& final(ids).upcoming() == old(ids).upcoming() + 1
                },
                None => started is None && final(ids).upcoming() == old(ids).upcoming(),
            },
    {
        match ids.allocate() {
            Some(id) => {
                let conversation = request.conversation;
                let job = DownloadJob { id, request, phase: Phase::Announcing };
                Some((job, Action::Announce { conversation, notice: Notice::Starting }))
            },
            None => None,
        }
    }

    /// The identifier of the job.
    pub fn id(&self) -> (id: JobId)
        ensures
            id == self@.id,
    {
        self.id
    }

    /// The phase the job is in.
    pub fn phase(&self) -> (phase: Phase)
        ensures
            phase == self@.phase,
    {
        self.phase
    }

    /// The request the job works on.
    pub fn request(&self) -> (request: &DownloadRequest)
        ensures
            request@ == self@.request,
    {
        &self.request
    }

    /// The format selector the job gives the downloader.
    pub fn format(&self) -> (format: String)
        ensures
            format@ == selector(self@.request.audio_only, self@.request.quality),
    {
        format_selector(self.request.audio_only, self.request.quality)
    }

    /// The job's own output file.
    pub fn output(&self) -> (path: String)
        ensures
            path@ == self@.path(),
    {
        output_path(self.id, self.request.audio_only)
    }

    /// How the job ended, once it has.
    pub fn outcome(&self) -> (outcome: Option<Outcome>)
        ensures
            outcome == match self@.phase {
                Phase::Finished { outcome } => Some(outcome),
                _ => None,
            },
    {
        match self.phase {
            Phase::Finished { outcome } => Some(outcome),
            _ => None,
        }
    }

    fn finish(&mut self, outcome: Outcome) -> (action: Action)
        ensures
            (final(self)@.phase, action@) == old(self)@.finish(outcome),
            final(self)@ == old(self)@.in_phase(final(self)@.phase),
    {
        self.phase = Phase::Finished { outcome };
        Action::Finish { outcome }
    }

    fn revise(&mut self, status: StatusHandle, fault: Fault) -> (action: Action)
        ensures
            (final(self)@.phase, action@) == old(self)@.revise(status, fault),
            final(self)@ == old(self)@.in_phase(final(self)@.phase),
    {
        self.phase = Phase::Revising { status, fault };
        Action::Revise {
            conversation: self.request.conversation,
            status,
            notice: fault.as_notice(),
        }
    }

    fn clean(&mut self, status: StatusHandle, outcome: Outcome) -> (action: Action)
        ensures
            (final(self)@.phase, action@) == old(self)@.clean(status, outcome),
            final(self)@ == old(self)@.in_phase(final(self)@.phase),
    {
        self.phase = Phase::Cleaning { status, outcome };
        Action::RemoveOutput { path: output_path(self.id, self.request.audio_only) }
    }

    /// Takes in what the driver reports and says what to do next.
    ///
    /// Returns `None`, and leaves the job as it is, when the job is not
    /// waiting for `event`: each phase accepts only the reports of the
    /// action that led to it, and a finished job accepts none.
    pub fn step(&mut self, event: Event) -> (next: Option<Action>)
        ensures
            match old(self)@.transition(event) {
                Some((phase, action)) => next is Some && next.unwrap()@ == action && final(self)@
                    == old(self)@.in_phase(phase),
                None => next is None && final(self)@ == old(self)@,
            },
    {
        match (self.phase, event) {
            (Phase::Announcing, Event::StatusSent { status }) => {
                self.phase = Phase::LocatingTool { status };
                Some(Action::LocateTool)
            },
            (Phase::Announcing, Event::TransportFailed) => {
                Some(self.finish(Outcome::TransportFailed))
            },
            (Phase::LocatingTool { status }, Event::ToolLocated { found }) => {
                if found {
                    self.phase = Phase::Running { status };
                    Some(
                        Action::RunTool {
                            format: format_selector(self.request.audio_only, self.request.quality),
                            output: output_path(self.id, self.request.audio_only),
                            url: self.request.url.clone(),
                        },
                    )
                } else {
                    Some(self.revise(status, Fault::ToolMissing))
                }
            },
            (Phase::Running { status }, Event::ToolExited { success }) => {
                if success {
                    self.phase = Phase::Probing { status };
                    Some(
                        Action::ProbeOutput {
                            path: output_path(self.id, self.request.audio_only),
                        },
                    )
                } else {
                    Some(self.revise(status, Fault::DownloadFailed))
                }
            },
            (Phase::Running { status }, Event::ToolAborted) => {
                Some(self.revise(status, Fault::DownloadFailed))
            },
            (Phase::Running { status }, Event::ToolNotStarted) => {
                Some(self.finish(Outcome::SpawnFailed))
            },
            (Phase::Probing { status }, Event::OutputProbed { present }) => {
                if present {
                    self.phase = Phase::Delivering { status };
                    Some(
                        Action::Deliver {
                            conversation: self.request.conversation,
                            path: output_path(self.id, self.request.audio_only),
                            audio_only: self.request.audio_only,
                        },
                    )
                } else {
                    Some(self.revise(status, Fault::OutputMissing))
                }
            },
            (Phase::Delivering { status }, Event::Delivered) => {
                Some(self.clean(status, Outcome::Delivered))
            },
            (Phase::Delivering { status }, Event::TransportFailed) => {
                Some(self.clean(status, Outcome::TransportFailed))
            },
            (Phase::Revising { status, fault }, Event::StatusRevised) => {
                if fault == Fault::DownloadFailed {
                    Some(self.clean(status, fault.as_outcome()))
                } else {
                    Some(self.finish(fault.as_outcome()))
                }
            },
            (Phase::Revising { status, fault }, Event::TransportFailed) => {
                if fault == Fault::DownloadFailed {
                    Some(self.clean(status, Outcome::TransportFailed))
                } else {
                    Some(self.finish(Outcome::TransportFailed))
                }
            },
            (Phase::Cleaning { status, outcome }, Event::OutputRemoved { removed }) => {
                if outcome == Outcome::Delivered {
                    self.phase = Phase::Retracting { status };
                    Some(Action::Retract { conversation: self.request.conversation, status })
                } else {
                    Some(self.finish(outcome))
                }
            },
            (Phase::Retracting { status }, Event::StatusRetracted) => {
                Some(self.finish(Outcome::Delivered))
            },
            (Phase::Retracting { status }, Event::TransportFailed) => {
                Some(self.finish(Outcome::TransportFailed))
            },
            _ => None,
        }
    }
}

} // verus!
