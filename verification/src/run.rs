//! Runs of a download job: the actions it asks for while its driver reports
//! events, and what holds of them whatever the driver reports.

use vstd::prelude::*;
use crate::job::{ActionView, Event, Fault, JobView, Notice, Outcome, Phase, StatusHandle};
use crate::plan::{id_numbered, lemma_ids_never_repeat, lemma_job_paths_isolated, selector};
use crate::settings::ConversationId;

verus! {

/// The actions that `job` asks for, in order, while `events` are reported
/// to it. A report that the job is not waiting for is passed over.
pub open spec fn actions_of(job: JobView, events: Seq<Event>) -> Seq<ActionView>
    decreases events.len(),
{
    if events.len() == 0 {
        Seq::empty()
    } else {
        match job.transition(events.first()) {
            Some((phase, action)) => seq![action] + actions_of(
                job.in_phase(phase),
                events.drop_first(),
            ),
            None => actions_of(job, events.drop_first()),
        }
    }
}

/// The file that an action touches, if it touches one.
pub open spec fn file_of(action: ActionView) -> Option<Seq<char>> {
    match action {
        ActionView::RunTool { output, .. } => Some(output),
        ActionView::ProbeOutput { path } => Some(path),
        ActionView::Deliver { path, .. } => Some(path),
        ActionView::RemoveOutput { path } => Some(path),
        _ => None,
    }
}

/// The conversation that an action writes to, if it writes to one.
pub open spec fn addressee(action: ActionView) -> Option<ConversationId> {
    match action {
        ActionView::Announce { conversation, .. } => Some(conversation),
        ActionView::Deliver { conversation, .. } => Some(conversation),
        ActionView::Revise { conversation, .. } => Some(conversation),
        ActionView::Retract { conversation, .. } => Some(conversation),
        _ => None,
    }
}

/// Whether the action ends the job with one of two outcomes.
pub open spec fn finishes_with(action: ActionView, first: Outcome, second: Outcome) -> bool {
    action == (ActionView::Finish { outcome: first }) || action == (ActionView::Finish {
        outcome: second,
    })
}

proof fn lemma_first_report(job: JobView, first: Event, rest: Seq<Event>)
    ensures
        actions_of(job, seq![first] + rest) == match job.transition(first) {
            Some((phase, action)) => seq![action] + actions_of(job.in_phase(phase), rest),
            None => actions_of(job, rest),
        },
{
    let events = seq![first] + rest;
    assert(events.drop_first() =~= rest);
}

/// Whether `event` is a report that a driver can give after performing
/// `action`.
pub open spec fn answers(action: ActionView, event: Event) -> bool {
    match action {
        ActionView::Announce { .. } => event is StatusSent || event == Event::TransportFailed,
        ActionView::LocateTool => event is ToolLocated,
        ActionView::RunTool { .. } => event is ToolExited || event == Event::ToolNotStarted
            || event == Event::ToolAborted,
        ActionView::ProbeOutput { .. } => event is OutputProbed,
        ActionView::Deliver { .. } => event == Event::Delivered || event
            == Event::TransportFailed,
        ActionView::RemoveOutput { .. } => event is OutputRemoved,
        ActionView::Revise { .. } => event == Event::StatusRevised || event
            == Event::TransportFailed,
        ActionView::Retract { .. } => event == Event::StatusRetracted || event
            == Event::TransportFailed,
        ActionView::Finish { .. } => false,
    }
}

/// A job and its driver never fall out of step: after the job has asked for
/// an action, the reports it accepts are exactly the answers to that
/// action. A freshly begun job accepts exactly the answers to its
/// announcement.
pub proof fn lemma_job_accepts_the_answers(job: JobView, event: Event, answer: Event)
    ensures
        job.phase is Announcing ==> (job.transition(answer) is Some <==> answers(
            ActionView::Announce {
                conversation: job.request.conversation,
                notice: Notice::Starting,
            },
            answer,
        )),
        job.transition(event) is Some ==> (job.in_phase(
            job.transition(event).unwrap().0,
        ).transition(answer) is Some <==> answers(job.transition(event).unwrap().1, answer)),
{
}

/// Each step of the pipeline has one cause: the downloader is run only when
/// it was located, its output is looked for only after it exited with
/// success, the file is delivered only when it was found, the status
/// message is deleted only after a delivery, and only a deleted status
/// message ends the job as delivered.
pub proof fn lemma_each_step_has_its_cause(job: JobView, event: Event)
    requires
        job.transition(event) is Some,
    ensures
        ({
            let action = job.transition(event).unwrap().1;
            &&& action is RunTool ==> job.phase is LocatingTool && event
                == (Event::ToolLocated { found: true })
            &&& action is ProbeOutput ==> job.phase is Running && event
                == (Event::ToolExited { success: true })
            &&& action is Deliver ==> job.phase is Probing && event
                == (Event::OutputProbed { present: true })
            &&& action is Retract ==> (job.phase matches Phase::Cleaning { outcome, .. }
                && outcome == Outcome::Delivered) && event is OutputRemoved
            &&& action == (ActionView::Finish { outcome: Outcome::Delivered })
                ==> job.phase is Retracting && event == Event::StatusRetracted
            &&& action is RemoveOutput ==> output_may_remain(job.phase)
        }),
{
}

/// A finished job asks for nothing more.
pub proof fn lemma_finished_job_is_silent(job: JobView, events: Seq<Event>)
    requires
        job.phase is Finished,
    ensures
        actions_of(job, events).len() == 0,
    decreases events.len(),
{
    if events.len() > 0 {
        lemma_finished_job_is_silent(job, events.drop_first());
    }
}

proof fn lemma_after_retract(job: JobView, status: StatusHandle, events: Seq<Event>)
    requires
        job.phase == (Phase::Retracting { status }),
    ensures
        actions_of(job, events).len() <= 1,
        actions_of(job, events).len() == 1 ==> finishes_with(
            actions_of(job, events)[0],
            Outcome::Delivered,
            Outcome::TransportFailed,
        ),
    decreases events.len(),
{
    if events.len() > 0 {
        match job.transition(events.first()) {
            Some((phase, action)) => {
                lemma_finished_job_is_silent(job.in_phase(phase), events.drop_first());
            },
            None => {
                lemma_after_retract(job, status, events.drop_first());
            },
        }
    }
}

proof fn lemma_after_removal(
    job: JobView,
    status: StatusHandle,
    outcome: Outcome,
    events: Seq<Event>,
)
    requires
        job.phase == (Phase::Cleaning { status, outcome }),
    ensures
        outcome == Outcome::Delivered ==> {
            &&& actions_of(job, events).len() <= 2
            &&& actions_of(job, events).len() >= 1 ==> actions_of(job, events)[0]
                == (ActionView::Retract { conversation: job.request.conversation, status })
            &&& actions_of(job, events).len() == 2 ==> finishes_with(
                actions_of(job, events)[1],
                Outcome::Delivered,
                Outcome::TransportFailed,
            )
        },
        outcome != Outcome::Delivered ==> {
            &&& actions_of(job, events).len() <= 1
            &&& actions_of(job, events).len() == 1 ==> actions_of(job, events)[0]
                == (ActionView::Finish { outcome })
        },
    decreases events.len(),
{
    if events.len() > 0 {
        match job.transition(events.first()) {
            Some((phase, action)) => {
                let next = job.in_phase(phase);
                if outcome == Outcome::Delivered {
                    lemma_after_retract(next, status, events.drop_first());
                } else {
                    lemma_finished_job_is_silent(next, events.drop_first());
                }
            },
            None => {
                lemma_after_removal(job, status, outcome, events.drop_first());
            },
        }
    }
}

proof fn lemma_after_revision(
    job: JobView,
    status: StatusHandle,
    fault: Fault,
    events: Seq<Event>,
)
    requires
        job.phase == (Phase::Revising { status, fault }),
    ensures
        fault.leaves_output() ==> {
            &&& actions_of(job, events).len() <= 2
            &&& actions_of(job, events).len() >= 1 ==> actions_of(job, events)[0]
                == (ActionView::RemoveOutput { path: job.path() })
            &&& actions_of(job, events).len() == 2 ==> finishes_with(
                actions_of(job, events)[1],
                fault.outcome(),
                Outcome::TransportFailed,
            )
        },
        !fault.leaves_output() ==> {
            &&& actions_of(job, events).len() <= 1
            &&& actions_of(job, events).len() == 1 ==> finishes_with(
                actions_of(job, events)[0],
                fault.outcome(),
                Outcome::TransportFailed,
            )
        },
    decreases events.len(),
{
    if events.len() > 0 {
        match job.transition(events.first()) {
            Some((phase, action)) => {
                let next = job.in_phase(phase);
                if fault.leaves_output() {
                    match phase {
                        Phase::Cleaning { status: s, outcome: o } => {
                            lemma_after_removal(next, s, o, events.drop_first());
                        },
                        _ => {},
                    }
                } else {
                    lemma_finished_job_is_silent(next, events.drop_first());
                }
            },
            None => {
                lemma_after_revision(job, status, fault, events.drop_first());
            },
        }
    }
}

/// If the downloader cannot be located, the job never runs it: the status
/// message is edited to the tool-missing notice, and all that can follow is
/// the end of the job.
pub proof fn lemma_missing_tool_is_never_run(
    job: JobView,
    status: StatusHandle,
    rest: Seq<Event>,
)
    requires
        job.phase == (Phase::LocatingTool { status }),
    ensures
        ({
            let trace = actions_of(job, seq![Event::ToolLocated { found: false }] + rest);
            &&& 1 <= trace.len() <= 2
            &&& trace[0] == (ActionView::Revise {
                conversation: job.request.conversation,
                status,
                notice: Notice::ToolMissing,
            })
            &&& trace.len() == 2 ==> finishes_with(
                trace[1],
                Outcome::ToolMissing,
                Outcome::TransportFailed,
            )
            &&& forall|i: int| 0 <= i < trace.len() ==> !(#[trigger] trace[i] is RunTool)
        }),
{
    let first = Event::ToolLocated { found: false };
    lemma_first_report(job, first, rest);
    let next = job.in_phase(Phase::Revising { status, fault: Fault::ToolMissing });
    lemma_after_revision(next, status, Fault::ToolMissing, rest);
}

/// If the downloader exits with a failure, or is cut short, nothing is
/// delivered: the status message is edited to the generic failure notice,
/// then the job's output file is removed, then the job ends.
pub proof fn lemma_failed_download_is_not_delivered(
    job: JobView,
    status: StatusHandle,
    report: Event,
    rest: Seq<Event>,
)
    requires
        job.phase == (Phase::Running { status }),
        report == (Event::ToolExited { success: false }) || report == Event::ToolAborted,
    ensures
        ({
            let trace = actions_of(job, seq![report] + rest);
            &&& 1 <= trace.len() <= 3
            &&& trace[0] == (ActionView::Revise {
                conversation: job.request.conversation,
                status,
                notice: Notice::DownloadFailed,
            })
            &&& trace.len() >= 2 ==> trace[1] == (ActionView::RemoveOutput { path: job.path() })
            &&& trace.len() == 3 ==> finishes_with(
                trace[2],
                Outcome::DownloadFailed,
                Outcome::TransportFailed,
            )
            &&& forall|i: int| 0 <= i < trace.len() ==> !(#[trigger] trace[i] is Deliver)
        }),
{
    lemma_first_report(job, report, rest);
    let next = job.in_phase(Phase::Revising { status, fault: Fault::DownloadFailed });
    lemma_after_revision(next, status, Fault::DownloadFailed, rest);
}

/// If the downloader reports success but its output file is not there,
/// nothing is delivered: the status message is edited to the not-produced
/// notice, and all that can follow is the end of the job.
pub proof fn lemma_missing_output_is_not_delivered(
    job: JobView,
    status: StatusHandle,
    rest: Seq<Event>,
)
    requires
        job.phase == (Phase::Probing { status }),
    ensures
        ({
            let trace = actions_of(job, seq![Event::OutputProbed { present: false }] + rest);
            &&& 1 <= trace.len() <= 2
            &&& trace[0] == (ActionView::Revise {
                conversation: job.request.conversation,
                status,
                notice: Notice::OutputMissing,
            })
            &&& trace.len() == 2 ==> finishes_with(
                trace[1],
                Outcome::OutputMissing,
                Outcome::TransportFailed,
            )
            &&& forall|i: int| 0 <= i < trace.len() ==> !(#[trigger] trace[i] is Deliver)
        }),
{
    let first = Event::OutputProbed { present: false };
    lemma_first_report(job, first, rest);
    let next = job.in_phase(Phase::Revising { status, fault: Fault::OutputMissing });
    lemma_after_revision(next, status, Fault::OutputMissing, rest);
}

/// After a delivery the job removes its output file, then deletes the
/// status message, then ends; it never edits the status message. Whether
/// the removal succeeded makes no difference.
pub proof fn lemma_delivery_is_cleared_away(
    job: JobView,
    status: StatusHandle,
    rest: Seq<Event>,
)
    requires
        job.phase == (Phase::Delivering { status }),
    ensures
        ({
            let trace = actions_of(job, seq![Event::Delivered] + rest);
            &&& 1 <= trace.len() <= 3
            &&& trace[0] == (ActionView::RemoveOutput { path: job.path() })
            &&& trace.len() >= 2 ==> trace[1] == (ActionView::Retract {
                conversation: job.request.conversation,
                status,
            })
            &&& trace.len() == 3 ==> finishes_with(
                trace[2],
                Outcome::Delivered,
                Outcome::TransportFailed,
            )
            &&& forall|i: int| 0 <= i < trace.len() ==> !(#[trigger] trace[i] is Revise)
        }),
{
    lemma_first_report(job, Event::Delivered, rest);
    let next = job.in_phase(Phase::Cleaning { status, outcome: Outcome::Delivered });
    lemma_after_removal(next, status, Outcome::Delivered, rest);
}

/// A delivery that fails still clears the file away: the job removes its
/// output file and then ends with a transport failure.
pub proof fn lemma_failed_delivery_is_cleaned_up(
    job: JobView,
    status: StatusHandle,
    rest: Seq<Event>,
)
    requires
        job.phase == (Phase::Delivering { status }),
    ensures
        ({
            let trace = actions_of(job, seq![Event::TransportFailed] + rest);
            &&& 1 <= trace.len() <= 2
            &&& trace[0] == (ActionView::RemoveOutput { path: job.path() })
            &&& trace.len() == 2 ==> trace[1] == (ActionView::Finish {
                outcome: Outcome::TransportFailed,
            })
        }),
{
    lemma_first_report(job, Event::TransportFailed, rest);
    let next = job.in_phase(Phase::Cleaning { status, outcome: Outcome::TransportFailed });
    lemma_after_removal(next, status, Outcome::TransportFailed, rest);
}

/// Whether a job in `phase` may have an output file on storage that it has
/// not yet asked to remove: the downloader failed or was cut short, or its
/// output was found.
pub open spec fn output_may_remain(phase: Phase) -> bool {
    phase is Delivering || (phase matches Phase::Revising { fault, .. } && fault.leaves_output())
}

/// No job ends with its output file left behind: while the file may remain,
/// whatever is reported, the next thing the job asks for is its removal.
pub proof fn lemma_output_is_removed_before_the_end(job: JobView, events: Seq<Event>)
    requires
        output_may_remain(job.phase),
    ensures
        actions_of(job, events).len() >= 1 ==> actions_of(job, events)[0]
            == (ActionView::RemoveOutput { path: job.path() }),
        forall|i: int|
            0 <= i < actions_of(job, events).len() && #[trigger] actions_of(job, events)[i]
                is Finish ==> i >= 1,
    decreases events.len(),
{
    if events.len() > 0 && job.transition(events.first()) is None {
        lemma_output_is_removed_before_the_end(job, events.drop_first());
    }
}

/// The reports of a successful run, in order, lead to exactly these
/// actions: remove the output file, delete the status message, end with a
/// delivery.
pub proof fn lemma_successful_run_ends_delivered(
    job: JobView,
    status: StatusHandle,
    removed: bool,
)
    requires
        job.phase == (Phase::Delivering { status }),
    ensures
        actions_of(
            job,
            seq![Event::Delivered, Event::OutputRemoved { removed }, Event::StatusRetracted],
        ) == seq![
            ActionView::RemoveOutput { path: job.path() },
            ActionView::Retract { conversation: job.request.conversation, status },
            ActionView::Finish { outcome: Outcome::Delivered },
        ],
{
    let cleaning = job.in_phase(Phase::Cleaning { status, outcome: Outcome::Delivered });
    let retracting = job.in_phase(Phase::Retracting { status });
    let third = seq![Event::StatusRetracted];
    let second = seq![Event::OutputRemoved { removed }] + third;
    let all = seq![Event::Delivered] + second;
    assert(all =~= seq![
        Event::Delivered,
        Event::OutputRemoved { removed },
        Event::StatusRetracted,
    ]);
    lemma_first_report(job, Event::Delivered, second);
    lemma_first_report(cleaning, Event::OutputRemoved { removed }, third);
    lemma_first_report(retracting, Event::StatusRetracted, Seq::<Event>::empty());
}

/// A run in which every step succeeds is the whole pipeline, in order:
/// locate the downloader, run it with the request's selector on the job's
/// own file, look for the file, deliver it, remove it, delete the status
/// message, end as delivered.
pub proof fn lemma_whole_successful_run(job: JobView, status: StatusHandle, removed: bool)
    requires
        job.phase == Phase::Announcing,
    ensures
        actions_of(
            job,
            seq![
                Event::StatusSent { status },
                Event::ToolLocated { found: true },
                Event::ToolExited { success: true },
                Event::OutputProbed { present: true },
                Event::Delivered,
                Event::OutputRemoved { removed },
                Event::StatusRetracted,
            ],
        ) == seq![
            ActionView::LocateTool,
            ActionView::RunTool {
                format: selector(job.request.audio_only, job.request.quality),
                output: job.path(),
                url: job.request.url,
            },
            ActionView::ProbeOutput { path: job.path() },
            ActionView::Deliver {
                conversation: job.request.conversation,
                path: job.path(),
                audio_only: job.request.audio_only,
            },
            ActionView::RemoveOutput { path: job.path() },
            ActionView::Retract { conversation: job.request.conversation, status },
            ActionView::Finish { outcome: Outcome::Delivered },
        ],
{
    let tail = seq![Event::Delivered, Event::OutputRemoved { removed }, Event::StatusRetracted];
    let e4 = seq![Event::OutputProbed { present: true }] + tail;
    let e3 = seq![Event::ToolExited { success: true }] + e4;
    let e2 = seq![Event::ToolLocated { found: true }] + e3;
    let e1 = seq![Event::StatusSent { status }] + e2;
    assert(e1 =~= seq![
        Event::StatusSent { status },
        Event::ToolLocated { found: true },
        Event::ToolExited { success: true },
        Event::OutputProbed { present: true },
        Event::Delivered,
        Event::OutputRemoved { removed },
        Event::StatusRetracted,
    ]);
    let locating = job.in_phase(Phase::LocatingTool { status });
    let running = job.in_phase(Phase::Running { status });
    let probing = job.in_phase(Phase::Probing { status });
    let delivering = job.in_phase(Phase::Delivering { status });
    lemma_first_report(job, Event::StatusSent { status }, e2);
    lemma_first_report(locating, Event::ToolLocated { found: true }, e3);
    lemma_first_report(running, Event::ToolExited { success: true }, e4);
    lemma_first_report(probing, Event::OutputProbed { present: true }, tail);
    lemma_successful_run_ends_delivered(delivering, status, removed);
}

/// How many actions a job in `phase` can still ask for at most.
pub open spec fn steps_left(phase: Phase) -> nat {
    match phase {
        Phase::Announcing => 7,
        Phase::LocatingTool { .. } => 6,
        Phase::Running { .. } => 5,
        Phase::Probing { .. } => 4,
        Phase::Delivering { .. } => 3,
        Phase::Revising { fault, .. } => if fault.leaves_output() {
            2
        } else {
            1
        },
        Phase::Cleaning { outcome, .. } => if outcome == Outcome::Delivered {
            2
        } else {
            1
        },
        Phase::Retracting { .. } => 1,
        Phase::Finished { .. } => 0,
    }
}

/// Every job comes to an end: whatever is reported, and however often, it
/// asks for a bounded number of actions, and nothing follows its end.
pub proof fn lemma_run_is_bounded(job: JobView, events: Seq<Event>)
    ensures
        actions_of(job, events).len() <= steps_left(job.phase),
        forall|i: int|
            0 <= i < actions_of(job, events).len() && #[trigger] actions_of(job, events)[i]
                is Finish ==> i == actions_of(job, events).len() - 1,
    decreases events.len(),
{
    if events.len() > 0 {
        match job.transition(events.first()) {
            Some((phase, action)) => {
                lemma_run_is_bounded(job.in_phase(phase), events.drop_first());
            },
            None => {
                lemma_run_is_bounded(job, events.drop_first());
            },
        }
    }
}

/// Every file that a job touches is its own output file, and every message
/// it sends, edits or deletes is in its own conversation.
pub proof fn lemma_job_keeps_to_itself(job: JobView, events: Seq<Event>)
    ensures
        forall|i: int|
            0 <= i < actions_of(job, events).len() ==> {
                let action = #[trigger] actions_of(job, events)[i];
                &&& file_of(action) is Some ==> file_of(action) == Some(job.path())
                &&& addressee(action) is Some ==> addressee(action) == Some(
                    job.request.conversation,
                )
            },
    decreases events.len(),
{
    if events.len() > 0 {
        match job.transition(events.first()) {
            Some((phase, action)) => {
                lemma_job_keeps_to_itself(job.in_phase(phase), events.drop_first());
            },
            None => {
                lemma_job_keeps_to_itself(job, events.drop_first());
            },
        }
    }
}

/// Two jobs with different identifiers never touch the same file, whatever
/// they download and whatever is reported to them.
pub proof fn lemma_jobs_never_share_a_file(
    a: JobView,
    a_events: Seq<Event>,
    b: JobView,
    b_events: Seq<Event>,
)
    requires
        a.id != b.id,
    ensures
        forall|i: int, j: int|
            0 <= i < actions_of(a, a_events).len() && 0 <= j < actions_of(b, b_events).len()
                && file_of(#[trigger] actions_of(a, a_events)[i]) is Some ==> file_of(
                actions_of(a, a_events)[i],
            ) != file_of(#[trigger] actions_of(b, b_events)[j]),
{
    lemma_job_keeps_to_itself(a, a_events);
    lemma_job_keeps_to_itself(b, b_events);
    lemma_job_paths_isolated(a.id, a.request.audio_only, b.id, b.request.audio_only);
}

/// Jobs begun from one allocator never touch the same file: each takes the
/// identifier that the allocator had upcoming, and the allocator moves on.
pub proof fn lemma_jobs_of_one_allocator_are_isolated(
    earlier: nat,
    later: nat,
    a: JobView,
    a_events: Seq<Event>,
    b: JobView,
    b_events: Seq<Event>,
)
    requires
        earlier < later,
        id_numbered(earlier) == Some(a.id),
        id_numbered(later) == Some(b.id),
    ensures
        forall|i: int, j: int|
            0 <= i < actions_of(a, a_events).len() && 0 <= j < actions_of(b, b_events).len()
                && file_of(#[trigger] actions_of(a, a_events)[i]) is Some ==> file_of(
                actions_of(a, a_events)[i],
            ) != file_of(#[trigger] actions_of(b, b_events)[j]),
{
    lemma_ids_never_repeat(earlier, later);
    lemma_jobs_never_share_a_file(a, a_events, b, b_events);
}

/// Whether the action edits or deletes the status message.
pub open spec fn settles_status(action: ActionView) -> bool {
    action is Revise || action is Retract
}

/// Whether a job in `phase` has no edit or deletion of its status message
/// left to ask for.
pub open spec fn status_settled(phase: Phase) -> bool {
    match phase {
        Phase::Revising { .. } => true,
        Phase::Cleaning { outcome, .. } => outcome != Outcome::Delivered,
        Phase::Retracting { .. } => true,
        Phase::Finished { .. } => true,
        _ => false,
    }
}

proof fn lemma_settled_status_stays(job: JobView, events: Seq<Event>)
    requires
        status_settled(job.phase),
    ensures
        forall|i: int|
            0 <= i < actions_of(job, events).len() ==> !settles_status(
                #[trigger] actions_of(job, events)[i],
            ),
    decreases events.len(),
{
    if events.len() > 0 {
        match job.transition(events.first()) {
            Some((phase, action)) => {
                let next = job.in_phase(phase);
                lemma_settled_status_stays(next, events.drop_first());
                let tail = actions_of(next, events.drop_first());
                let trace = actions_of(job, events);
                assert forall|i: int| 0 <= i < trace.len() implies !settles_status(
                    #[trigger] trace[i],
                ) by {
                    if i > 0 {
                        assert(trace[i] == tail[i - 1]);
                    }
                }
            },
            None => {
                lemma_settled_status_stays(job, events.drop_first());
                assert(actions_of(job, events) == actions_of(job, events.drop_first()));
            },
        }
    }
}

/// A job has one status message: after the announcement it sends no other,
/// it edits or deletes only the message whose handle it was given, and it
/// does so at most once.
pub proof fn lemma_one_status_message(job: JobView, events: Seq<Event>)
    ensures
        forall|i: int|
            0 <= i < actions_of(job, events).len() ==> {
                let action = #[trigger] actions_of(job, events)[i];
                &&& !(action is Announce)
                &&& job.phase.status() is Some ==> (action matches ActionView::Revise {
                    status,
                    ..
                } ==> Some(status) == job.phase.status())
                &&& job.phase.status() is Some ==> (action matches ActionView::Retract {
                    status,
                    ..
                } ==> Some(status) == job.phase.status())
            },
        forall|i: int, j: int|
            0 <= i < j < actions_of(job, events).len() ==> !(settles_status(
                #[trigger] actions_of(job, events)[i],
            ) && settles_status(#[trigger] actions_of(job, events)[j])),
    decreases events.len(),
{
    if events.len() > 0 {
        match job.transition(events.first()) {
            Some((phase, action)) => {
                let next = job.in_phase(phase);
                lemma_one_status_message(next, events.drop_first());
                if settles_status(action) {
                    lemma_settled_status_stays(next, events.drop_first());
                }
                if next.phase.status() is None {
                    lemma_settled_status_stays(next, events.drop_first());
                }
            },
            None => {
                lemma_one_status_message(job, events.drop_first());
            },
        }
    }
}

/// Whether a job in `phase` has already asked for the removal of its
/// output file, or has ended.
pub open spec fn past_removal(phase: Phase) -> bool {
    phase is Cleaning || phase is Retracting || phase is Finished
}

proof fn lemma_no_second_removal(job: JobView, events: Seq<Event>)
    requires
        past_removal(job.phase),
    ensures
        forall|i: int|
            0 <= i < actions_of(job, events).len() ==> !(#[trigger] actions_of(job, events)[i]
                is RemoveOutput),
    decreases events.len(),
{
    if events.len() > 0 {
        match job.transition(events.first()) {
            Some((phase, action)) => {
                lemma_no_second_removal(job.in_phase(phase), events.drop_first());
            },
            None => {
                lemma_no_second_removal(job, events.drop_first());
            },
        }
    }
}

/// A job asks for the removal of its output file at most once.
pub proof fn lemma_output_removed_at_most_once(job: JobView, events: Seq<Event>)
    ensures
        forall|i: int, j: int|
            0 <= i < j < actions_of(job, events).len() ==> !(#[trigger] actions_of(job, events)[i]
                is RemoveOutput && #[trigger] actions_of(job, events)[j] is RemoveOutput),
    decreases events.len(),
{
    if events.len() > 0 {
        match job.transition(events.first()) {
            Some((phase, action)) => {
                let next = job.in_phase(phase);
                lemma_output_removed_at_most_once(next, events.drop_first());
                if action is RemoveOutput {
                    lemma_no_second_removal(next, events.drop_first());
                }
            },
            None => {
                lemma_output_removed_at_most_once(job, events.drop_first());
            },
        }
    }
}

} // verus!
