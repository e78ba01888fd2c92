//! The course of one outbound XDND drag, from the first pointer sample to the
//! report of how it ended.
//!
//! Times are nanoseconds of a monotonic clock.

use vstd::prelude::*;

use crate::dnd::DragSessionReport;
use crate::platform::{DragCompletion, DragFailureKind};
use crate::text::{lossy_text, read_lossy, trim_text, trimmed};
use crate::xdnd::{XdndConfig, XdndSession};

verus! {

/// How long a drag may take overall.
pub const XDND_DEADLINE: u64 = 6_000_000_000;

/// How long to wait after a drop for a target that has not asked for data.
pub const DROP_FINISH_WAIT: u64 = 260_000_000;

/// How long to wait after a drop for a target that has asked for data.
pub const DROP_READY_FINISH_WAIT: u64 = 180_000_000;

/// How long to serve data after a target reported the end of the drop.
pub const DROP_SELECTION_GRACE: u64 = 80_000_000;

/// How far a drag has come.
#[derive(Clone, Copy, Debug, PartialEq, Eq, Structural)]
pub struct XdndRun {
    pub deadline: u64,
    pub finish_deadline: Option<u64>,
    pub waiting_for_finished: bool,
    pub finished_received: bool,
    pub saw_button_down: bool,
    pub sent_drop: bool,
}

/// What comes next in a drag.
#[derive(Clone, Copy, Debug, PartialEq, Eq, Structural)]
pub enum RunStep {
    /// The drag goes on natively; the source is gone.
    Handoff,
    /// The wait after the drop is over.
    GraceOver,
    /// The drag took too long: leave the target and end.
    TimedOut,
    /// Look for an event.
    Poll,
}

/// An event of the display server, as far as the drag source tells them apart.
#[derive(Clone, Copy, Debug, PartialEq, Eq, Structural)]
pub enum XdndEvent {
    Motion,
    ButtonPress,
    ButtonRelease,
    Status,
    Finished,
    SelectionRequest,
    Other,
    /// There is no event.
    Idle,
}

/// What is done with an event.
#[derive(Clone, Copy, Debug, PartialEq, Eq, Structural)]
pub enum EventTask {
    /// Note the time and sample the pointer.
    UpdateTarget,
    /// Take the release of the button.
    Release,
    /// Take the status of a target.
    TakeStatus,
    /// Take the end of the drop.
    TakeFinished,
    /// Serve the selection.
    ServeSelection,
    /// Sample the pointer, watch the button, then sleep.
    SamplePointer,
    /// Sleep.
    Sleep,
    /// Nothing.
    Ignore,
}

/// The event that a client message of a type is.
pub open spec fn message_event(config: XdndConfig, message_type: u32) -> XdndEvent {
    if message_type == config.atoms.xdnd_status {
        XdndEvent::Status
    } else if message_type == config.atoms.xdnd_finished {
        XdndEvent::Finished
    } else {
        XdndEvent::Other
    }
}

/// The event that a client message of a type is.
pub fn client_message_event(config: &XdndConfig, message_type: u32) -> (event: XdndEvent)
    ensures
        event == message_event(*config, message_type),
{
    if message_type == config.atoms.xdnd_status {
        XdndEvent::Status
    } else if message_type == config.atoms.xdnd_finished {
        XdndEvent::Finished
    } else {
        XdndEvent::Other
    }
}

/// How long to wait after a drop.
pub open spec fn finish_wait(session: XdndSession) -> u64 {
    if session.data_requests > 0 {
        DROP_READY_FINISH_WAIT
    } else {
        DROP_FINISH_WAIT
    }
}

/// How long to wait after a drop.
pub fn drop_finish_wait(session: &XdndSession) -> (wait: u64)
    ensures
        wait == finish_wait(*session),
{
    if session.data_requests > 0 {
        DROP_READY_FINISH_WAIT
    } else {
        DROP_FINISH_WAIT
    }
}

impl XdndRun {
    /// Whether the flags fit together: a wait has a deadline, and without a drop or
    /// its end there is neither.
    pub open spec fn valid(self) -> bool {
        &&& self.waiting_for_finished == self.finish_deadline is Some
        &&& self.finished_received ==> self.waiting_for_finished
        &&& self.waiting_for_finished ==> self.sent_drop || self.finished_received
    }

    /// Start the clock.
    pub fn new(now: u64) -> (run: XdndRun)
        requires
            now + XDND_DEADLINE <= u64::MAX,
        ensures
            run == (XdndRun {
                deadline: (now + XDND_DEADLINE) as u64,
                finish_deadline: None,
                waiting_for_finished: false,
                finished_received: false,
                saw_button_down: false,
                sent_drop: false,
            }),
            run.valid(),
    {
        XdndRun {
            deadline: now + XDND_DEADLINE,
            finish_deadline: None,
            waiting_for_finished: false,
            finished_received: false,
            saw_button_down: false,
            sent_drop: false,
        }
    }

    /// What comes next at a time.
    pub open spec fn next(self, session: XdndSession, now: u64) -> RunStep {
        if session.handoff_performed {
            RunStep::Handoff
        } else if self.finish_deadline matches Some(deadline) && now > deadline {
            RunStep::GraceOver
        } else if now > self.deadline {
            RunStep::TimedOut
        } else {
            RunStep::Poll
        }
    }

    /// What comes next at a time.
    pub fn step(&self, session: &XdndSession, now: u64) -> (step: RunStep)
        ensures
            step == self.next(*session, now),
    {
        if session.handoff_performed {
            return RunStep::Handoff;
        }
        if let Some(deadline) = self.finish_deadline {
            if now > deadline {
                return RunStep::GraceOver;
            }
        }
        if now > self.deadline {
            RunStep::TimedOut
        } else {
            RunStep::Poll
        }
    }

    /// What is done with an event.
    pub open spec fn task_for(self, event: XdndEvent) -> EventTask {
        match event {
            XdndEvent::Motion | XdndEvent::ButtonPress => if self.waiting_for_finished {
                EventTask::Ignore
            } else {
                EventTask::UpdateTarget
            },
            XdndEvent::ButtonRelease => if self.waiting_for_finished {
                EventTask::Ignore
            } else {
                EventTask::Release
            },
            XdndEvent::Status => EventTask::TakeStatus,
            XdndEvent::Finished => EventTask::TakeFinished,
            XdndEvent::SelectionRequest => EventTask::ServeSelection,
            XdndEvent::Other => EventTask::Ignore,
            XdndEvent::Idle => if self.waiting_for_finished {
                EventTask::Sleep
            } else {
                EventTask::SamplePointer
            },
        }
    }

    /// What is done with an event. Once the drop was sent, the pointer no longer
    /// counts.
    pub fn task(&self, event: XdndEvent) -> (task: EventTask)
        ensures
            task == self.task_for(event),
    {
        match event {
            XdndEvent::Motion | XdndEvent::ButtonPress => {
                if self.waiting_for_finished {
                    EventTask::Ignore
                } else {
                    EventTask::UpdateTarget
                }
            },
            XdndEvent::ButtonRelease => {
                if self.waiting_for_finished {
                    EventTask::Ignore
                } else {
                    EventTask::Release
                }
            },
            XdndEvent::Status => EventTask::TakeStatus,
            XdndEvent::Finished => EventTask::TakeFinished,
            XdndEvent::SelectionRequest => EventTask::ServeSelection,
            XdndEvent::Other => EventTask::Ignore,
            XdndEvent::Idle => {
                if self.waiting_for_finished {
                    EventTask::Sleep
                } else {
                    EventTask::SamplePointer
                }
            },
        }
    }

    /// The run after a release.
    pub open spec fn after_release(self, session: XdndSession, sent: bool, now: u64) -> XdndRun {
        XdndRun {
            waiting_for_finished: sent,
            sent_drop: self.sent_drop || sent,
            finish_deadline: if sent {
                Some((now + finish_wait(session)) as u64)
            } else {
                self.finish_deadline
            },
            ..self
        }
    }

    /// Note a release. Gives whether the drag goes on.
    pub fn note_release(&mut self, session: &XdndSession, sent: bool, now: u64) -> (goes_on: bool)
        requires
            now + finish_wait(*session) <= u64::MAX,
        ensures
            *final(self) == old(self).after_release(*session, sent, now),
            goes_on == sent,
            old(self).valid() && !old(self).waiting_for_finished ==> final(self).valid(),
    {
        self.waiting_for_finished = sent;
        self.sent_drop = self.sent_drop || sent;
        if sent {
            self.finish_deadline = Some(now + drop_finish_wait(session));
        }
        sent
    }

    /// The run after the target reported the end of the drop.
    pub open spec fn after_finished(self, now: u64) -> XdndRun {
        XdndRun {
            finished_received: true,
            waiting_for_finished: true,
            finish_deadline: Some((now + DROP_SELECTION_GRACE) as u64),
            ..self
        }
    }

    /// Note that the target reported the end of the drop.
    pub fn note_finished(&mut self, now: u64)
        requires
            now + DROP_SELECTION_GRACE <= u64::MAX,
        ensures
            *final(self) == old(self).after_finished(now),
            old(self).valid() ==> final(self).valid(),
    {
        self.finished_received = true;
        self.waiting_for_finished = true;
        self.finish_deadline = Some(now + DROP_SELECTION_GRACE);
    }

    /// The run after the selection was served.
    pub open spec fn after_selection(self, session: XdndSession, now: u64) -> XdndRun {
        if self.waiting_for_finished && session.data_requests > 0 {
            XdndRun { finish_deadline: Some((now + DROP_READY_FINISH_WAIT) as u64), ..self }
        } else {
            self
        }
    }

    /// Note that the selection was served: data requests extend the wait.
    pub fn note_selection(&mut self, session: &XdndSession, now: u64)
        requires
            now + DROP_READY_FINISH_WAIT <= u64::MAX,
        ensures
            *final(self) == old(self).after_selection(*session, now),
            old(self).valid() ==> final(self).valid(),
    {
        if self.waiting_for_finished && session.data_requests > 0 {
            self.finish_deadline = Some(now + DROP_READY_FINISH_WAIT);
        }
    }

    /// Note whether the button is held. Gives whether it was released: a release is
    /// seen only after the button was seen down.
    pub fn note_button(&mut self, held: bool) -> (released: bool)
        ensures
            *final(self) == (XdndRun {
                saw_button_down: old(self).saw_button_down || held,
                ..*old(self)
            }),
            released == (old(self).saw_button_down && !held),
            old(self).valid() ==> final(self).valid(),
    {
        self.saw_button_down = self.saw_button_down || held;
        self.saw_button_down && !held
    }
}

// ---------------------------------------------------------------------------
// The report
// ---------------------------------------------------------------------------

/// The hint that the files can still be imported by hand, from the trimmed list
/// of their paths.
pub open spec fn fallback_hint(files: Seq<char>) -> Seq<char> {
    if files.len() == 0 {
        "export remains in the temp folder for manual import"@
    } else {
        "export remains available for manual import: "@ + files
    }
}

/// The hint for a trimmed list of paths.
pub fn fallback_hint_for(files: &str) -> (hint: String)
    ensures
        hint@ == fallback_hint(files@),
{
    if files.is_empty() {
        "export remains in the temp folder for manual import".to_owned()
    } else {
        "export remains available for manual import: ".to_owned().concat(files)
    }
}

/// The hint that the files can still be imported by hand, from the plain list of
/// their paths.
pub fn export_fallback_hint(plain_file_list: &Vec<u8>) -> (hint: String)
    ensures
        hint@ == fallback_hint(trimmed(lossy_text(plain_file_list@))),
{
    let text = read_lossy(plain_file_list);
    let files = trim_text(text.as_str());
    fallback_hint_for(files.as_str())
}

/// How a drag ended whose source stayed in charge.
pub open spec fn ending(
    run: XdndRun,
    session: XdndSession,
    drop_target_is_bridge: bool,
    hint: Seq<char>,
) -> (DragCompletion, Seq<char>) {
    if !run.sent_drop {
        (
            DragCompletion::Failed(DragFailureKind::Cancelled),
            "XDND drag ended without sending a drop"@,
        )
    } else if drop_target_is_bridge && session.drop_target_data_requests == 0 {
        (
            DragCompletion::Failed(DragFailureKind::BridgeRejected),
            "released over native Wayland target through XWayland bridge; XDND cannot deliver to that target from this XWayland editor; "@
                + hint,
        )
    } else if session.data_requests == 0 {
        (
            DragCompletion::Failed(DragFailureKind::TargetNoData),
            "drop target never requested file data; "@ + hint,
        )
    } else if run.finished_received {
        (DragCompletion::Confirmed, "target sent XdndFinished"@)
    } else if session.post_drop_data_requests > 0 || session.drop_target_data_requests > 0 {
        (DragCompletion::Confirmed, "target requested file data after drop"@)
    } else {
        (
            DragCompletion::Inferred,
            "target inspected file data before drop and the drop was sent"@,
        )
    }
}

/// Report how a drag ended whose source stayed in charge.
///
/// `drop_target_is_bridge` says whether the window that the drop was sent to is a
/// compositor bridge.
pub fn session_report(
    run: &XdndRun,
    session: &XdndSession,
    drop_target_is_bridge: bool,
    hint: &str,
) -> (report: DragSessionReport)
    ensures
        (report.completion, report.detail@) == ending(*run, *session, drop_target_is_bridge, hint@),
        report.stats == session.stats(),
{
    let stats = session.session_stats();
    if !run.sent_drop {
        return DragSessionReport::failed(
            DragFailureKind::Cancelled,
            stats,
            "XDND drag ended without sending a drop",
        );
    }
    if drop_target_is_bridge && session.drop_target_data_requests == 0 {
        let detail =
            "released over native Wayland target through XWayland bridge; XDND cannot deliver to that target from this XWayland editor; ".to_owned().concat(
        hint);
        return DragSessionReport::failed(
            DragFailureKind::BridgeRejected,
            stats,
            detail.as_str(),
        );
    }
    if session.data_requests == 0 {
        let detail = "drop target never requested file data; ".to_owned().concat(hint);
        return DragSessionReport::failed(DragFailureKind::TargetNoData, stats, detail.as_str());
    }
    if run.finished_received {
        return DragSessionReport::completed_confirmed(stats, "target sent XdndFinished");
    }
    if session.post_drop_data_requests > 0 || session.drop_target_data_requests > 0 {
        return DragSessionReport::completed_confirmed(
            stats,
            "target requested file data after drop",
        );
    }
    DragSessionReport::completed_inferred(
        stats,
        "target inspected file data before drop and the drop was sent",
    )
}

// ---------------------------------------------------------------------------
// Laws
// ---------------------------------------------------------------------------

/// A drag may take six seconds. After a drop there are 260 milliseconds for a target that
/// asked for nothing, 180 for one that did, and 80 to serve it after it reported the end.
pub proof fn waits_are_short(run: XdndRun, session: XdndSession, now: u64)
    requires
        now + 6_000_000_000 <= u64::MAX,
    ensures
        XDND_DEADLINE == 6_000_000_000,
        run.after_release(session, true, now).finish_deadline == Some(
            (now + (if session.data_requests > 0 {
                180_000_000int
            } else {
                260_000_000int
            })) as u64,
        ),
        run.after_finished(now).finish_deadline == Some((now + 80_000_000) as u64),
        run.waiting_for_finished && session.data_requests > 0 ==> run.after_selection(
            session,
            now,
        ).finish_deadline == Some((now + 180_000_000) as u64),
        !run.waiting_for_finished || session.data_requests == 0 ==> run.after_selection(
            session,
            now,
        ) == run,
{
}

/// A drag goes on exactly until it is handed over, the wait after the drop is over, or it
/// took too long; a handover comes first, and the end of the wait before the deadline.
pub proof fn drag_goes_on_until_its_time_is_up(run: XdndRun, session: XdndSession, now: u64)
    ensures
        ({
            let step = run.next(session, now);
            let waited = run.finish_deadline is Some && now > run.finish_deadline->0;
            &&& step is Handoff <==> session.handoff_performed
            &&& step is GraceOver <==> !session.handoff_performed && waited
            &&& step is TimedOut <==> !session.handoff_performed && !waited && now > run.deadline
            &&& step is Poll <==> !session.handoff_performed && !waited && now <= run.deadline
        }),
{
}

/// Until the drop the pointer is followed and a release is taken. After it the pointer no
/// longer counts, while status, end and requests of windows are taken all along.
pub proof fn pointer_counts_until_the_drop(run: XdndRun)
    ensures
        !run.waiting_for_finished ==> run.task_for(XdndEvent::Motion) is UpdateTarget
            && run.task_for(XdndEvent::ButtonPress) is UpdateTarget && run.task_for(
            XdndEvent::ButtonRelease,
        ) is Release && run.task_for(XdndEvent::Idle) is SamplePointer,
        run.waiting_for_finished ==> run.task_for(XdndEvent::Motion) is Ignore && run.task_for(
            XdndEvent::ButtonPress,
        ) is Ignore && run.task_for(XdndEvent::ButtonRelease) is Ignore && run.task_for(
            XdndEvent::Idle,
        ) is Sleep,
        run.task_for(XdndEvent::Status) is TakeStatus,
        run.task_for(XdndEvent::Finished) is TakeFinished,
        run.task_for(XdndEvent::SelectionRequest) is ServeSelection,
        run.task_for(XdndEvent::Other) is Ignore,
{
}

/// A client message is the status of a target or the end of the drop exactly by its type.
pub proof fn client_messages_are_told_apart(config: XdndConfig, message_type: u32)
    requires
        config.atoms.xdnd_status != config.atoms.xdnd_finished,
    ensures
        message_event(config, message_type) is Status <==> message_type == config.atoms.xdnd_status,
        message_event(config, message_type) is Finished <==> message_type
            == config.atoms.xdnd_finished,
        message_event(config, message_type) is Other <==> message_type != config.atoms.xdnd_status
            && message_type != config.atoms.xdnd_finished,
{
}

/// A drop starts the wait for its end; a release without a drop does not. The end of the
/// drop is remembered, and nothing else of the run is touched.
pub proof fn release_starts_the_wait(run: XdndRun, session: XdndSession, sent: bool, now: u64)
    ensures
        ({
            let after = run.after_release(session, sent, now);
            &&& after.waiting_for_finished == sent
            &&& after.sent_drop == (run.sent_drop || sent)
            &&& !sent ==> after.finish_deadline == run.finish_deadline
            &&& after.deadline == run.deadline
            &&& after.finished_received == run.finished_received
        }),
        ({
            let after = run.after_finished(now);
            &&& after.finished_received
            &&& after.waiting_for_finished
            &&& after.sent_drop == run.sent_drop
            &&& after.deadline == run.deadline
        }),
{
}

/// How a drag ended follows from what was counted. Without a drop it was cancelled. A
/// bridge that itself asked for nothing rejected it. Without any request there was no
/// data. Otherwise it is confirmed by the end of the drop, or by a request after it, and
/// inferred from requests before it.
pub proof fn report_follows_from_the_counts(
    run: XdndRun,
    session: XdndSession,
    bridge: bool,
    hint: Seq<char>,
)
    requires
        session.valid(),
    ensures
        ({
            let completion = ending(run, session, bridge, hint).0;
            let rejected = run.sent_drop && bridge && session.drop_target_data_requests == 0;
            let silent = run.sent_drop && !rejected && session.data_requests == 0;
            &&& completion == DragCompletion::Failed(DragFailureKind::Cancelled) <==> !run.sent_drop
            &&& completion == DragCompletion::Failed(DragFailureKind::BridgeRejected) <==> rejected
            &&& completion == DragCompletion::Failed(DragFailureKind::TargetNoData) <==> silent
            &&& completion == DragCompletion::Confirmed <==> run.sent_drop && !rejected && !silent
                && (run.finished_received || session.post_drop_data_requests > 0)
            &&& completion == DragCompletion::Inferred <==> run.sent_drop && !rejected && !silent
                && !run.finished_received && session.post_drop_data_requests == 0
        }),
{
}

/// Where a drop was not delivered although it was sent, the report ends with the hint that
/// the files are still there; and the hint ends with the paths, where there are some.
pub proof fn undelivered_drops_leave_a_hint(
    run: XdndRun,
    session: XdndSession,
    bridge: bool,
    hint: Seq<char>,
    files: Seq<char>,
)
    requires
        run.sent_drop,
        ending(run, session, bridge, hint).0 is Failed,
    ensures
        ({
            let detail = ending(run, session, bridge, hint).1;
            &&& detail.len() > hint.len()
            &&& detail.subrange(detail.len() - hint.len(), detail.len() as int) == hint
        }),
        ({
            let text = fallback_hint(files);
            &&& text.len() > files.len()
            &&& text.subrange(text.len() - files.len(), text.len() as int) == files
        }),
{
    reveal_strlit("drop target never requested file data; ");
    reveal_strlit(
        "released over native Wayland target through XWayland bridge; XDND cannot deliver to that target from this XWayland editor; ",
    );
    reveal_strlit("export remains in the temp folder for manual import");
    reveal_strlit("export remains available for manual import: ");
    let detail = ending(run, session, bridge, hint).1;
    assert(detail.subrange(detail.len() - hint.len(), detail.len() as int) =~= hint);
    let text = fallback_hint(files);
    assert(text.subrange(text.len() - files.len(), text.len() as int) =~= files);
}

} // verus!
