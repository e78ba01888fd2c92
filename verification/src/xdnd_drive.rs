//! One outbound XDND drag as a machine that takes one input at a time.
//!
//! The caller watches the display server and the clock. It asks [`XdndRun::step`] what
//! comes next, turns the event into a [`DragInput`], carries out the actions that come
//! back, and goes on as the [`DragReply`] says.

use vstd::prelude::*;

use crate::payload::FileDragPayloadData;
use crate::xdnd::{
    answer_selection, answered, ButtonRelease, PointerObservation, PointerSample, ReleaseDecision,
    SelectionAnswer, SelectionRequest, StatusMessage, XdndAction, XdndConfig, XdndNote,
    XdndSession, CURRENT_TIME,
};
use crate::xdnd_laws::{
    entered, messages_differ, only_the_current_target_knows_of_the_drag,
    release_keeps_account_of_the_target, told_all, told_all_splits,
};
use crate::xdnd_run::{ending, XdndRun, DROP_FINISH_WAIT, XDND_DEADLINE};

verus! {

/// What happened.
#[derive(Clone, Copy, Debug, PartialEq, Eq, Structural)]
pub enum DragInput {
    /// The pointer was sampled, upon an event with a timestamp.
    Moved { time: u32, seen: PointerObservation, sample: PointerSample },
    /// The pointer was sampled because nothing else happened.
    Sampled { seen: PointerObservation, sample: PointerSample },
    /// The button was released.
    Released { event: ButtonRelease, decision: ReleaseDecision, now: u64 },
    /// A target reported its status.
    Status { status: StatusMessage, target_is_real: bool },
    /// The target reported the end of the drop.
    Finished { now: u64 },
    /// A window asked for the drag selection.
    Selection { request: SelectionRequest, requestor_is_real: bool, now: u64 },
}

/// How the drag goes on.
#[derive(Clone, Copy, Debug, PartialEq, Eq, Structural)]
pub enum DragReply {
    /// It goes on.
    Continue,
    /// It goes on natively; the source is gone.
    Handoff,
    /// The button was seen going up: hand in its release.
    ReleaseNow,
    /// It is over without a drop.
    Failed(ReleaseDecision),
}

/// A drag: what the source remembers, and how far it has come.
#[derive(Clone, Copy, Debug, PartialEq, Eq, Structural)]
pub struct XdndDrag {
    pub session: XdndSession,
    pub run: XdndRun,
}

/// What an input leads to.
pub struct Driven {
    pub drag: XdndDrag,
    pub actions: Seq<XdndAction>,
    pub reply: DragReply,
}

/// What a pointer sample leads to.
pub open spec fn driven_by_sample(
    config: XdndConfig,
    drag: XdndDrag,
    time: u32,
    seen: PointerObservation,
    sample: PointerSample,
    idle: bool,
) -> Driven {
    if drag.run.waiting_for_finished {
        Driven { drag, actions: seq![], reply: DragReply::Continue }
    } else {
        let before = drag.session.timed(time);
        let session = before.updated(seen, sample);
        let actions = before.updating(config, seen, sample);
        if session.handoff_performed {
            Driven { drag: XdndDrag { session, ..drag }, actions, reply: DragReply::Handoff }
        } else if !idle {
            Driven { drag: XdndDrag { session, ..drag }, actions, reply: DragReply::Continue }
        } else {
            let run = XdndRun {
                saw_button_down: drag.run.saw_button_down || sample.button1_held,
                ..drag.run
            };
            Driven {
                drag: XdndDrag { session, run },
                actions,
                reply: if drag.run.saw_button_down && !sample.button1_held {
                    DragReply::ReleaseNow
                } else {
                    DragReply::Continue
                },
            }
        }
    }
}

/// What an input leads to. After a handover nothing counts any more; after the drop
/// the pointer no longer counts.
pub open spec fn driven(config: XdndConfig, drag: XdndDrag, input: DragInput) -> Driven {
    if drag.session.handoff_performed {
        Driven { drag, actions: seq![], reply: DragReply::Handoff }
    } else {
        match input {
            DragInput::Moved { time, seen, sample } => driven_by_sample(
                config,
                drag,
                time,
                seen,
                sample,
                false,
            ),
            DragInput::Sampled { seen, sample } => driven_by_sample(
                config,
                drag,
                CURRENT_TIME,
                seen,
                sample,
                true,
            ),
            DragInput::Released { event, decision, now } => if drag.run.waiting_for_finished {
                Driven { drag, actions: seq![], reply: DragReply::Continue }
            } else {
                let session = drag.session.released(event.time, decision);
                let sent = decision.target() is Some;
                Driven {
                    drag: XdndDrag { session, run: drag.run.after_release(session, sent, now) },
                    actions: drag.session.releasing(config, event, decision),
                    reply: if sent {
                        DragReply::Continue
                    } else {
                        DragReply::Failed(decision)
                    },
                }
            },
            DragInput::Status { status, target_is_real } => Driven {
                drag: XdndDrag {
                    session: drag.session.informed(status, target_is_real),
                    ..drag
                },
                actions: drag.session.informing(config, status),
                reply: DragReply::Continue,
            },
            DragInput::Finished { now } => Driven {
                drag: XdndDrag { run: drag.run.after_finished(now), ..drag },
                actions: seq![],
                reply: DragReply::Continue,
            },
            DragInput::Selection { request, requestor_is_real, now } => {
                let session = drag.session.asked(config, request, requestor_is_real);
                Driven {
                    drag: XdndDrag { session, run: drag.run.after_selection(session, now) },
                    actions: drag.session.asking(config, request),
                    reply: DragReply::Continue,
                }
            },
        }
    }
}

/// The time of an input, where it counts.
pub open spec fn input_time(input: DragInput) -> u64 {
    match input {
        DragInput::Released { event, decision, now } => now,
        DragInput::Finished { now } => now,
        DragInput::Selection { request, requestor_is_real, now } => now,
        _ => 0,
    }
}

impl XdndDrag {
    /// Whether the counters and flags of the drag fit together.
    pub open spec fn valid(self) -> bool {
        &&& self.session.valid()
        &&& self.run.valid()
        &&& self.run.sent_drop ==> self.run.waiting_for_finished
        &&& self.run.sent_drop == self.session.drop_target is Some
    }

    /// Start a drag: the pointer was sampled once, and the clock runs from now.
    pub fn start(session: XdndSession, now: u64) -> (drag: XdndDrag)
        requires
            session.valid(),
            session.drop_target is None,
            now + XDND_DEADLINE <= u64::MAX,
        ensures
            drag.session == session,
            drag.run == (XdndRun {
                deadline: (now + XDND_DEADLINE) as u64,
                finish_deadline: None,
                waiting_for_finished: false,
                finished_received: false,
                saw_button_down: false,
                sent_drop: false,
            }),
            drag.valid(),
    {
        XdndDrag { session, run: XdndRun::new(now) }
    }

    fn take_sample(
        &mut self,
        config: &XdndConfig,
        time: u32,
        seen: &PointerObservation,
        sample: &PointerSample,
        idle: bool,
    ) -> (result: (Vec<XdndAction>, DragReply))
        requires
            !old(self).session.handoff_performed,
        ensures
            *final(self) == driven_by_sample(*config, *old(self), time, *seen, *sample, idle).drag,
            result.0@ == driven_by_sample(
                *config,
                *old(self),
                time,
                *seen,
                *sample,
                idle,
            ).actions,
            result.1 == driven_by_sample(*config, *old(self), time, *seen, *sample, idle).reply,
            old(self).valid() ==> final(self).valid(),
    {
        if self.run.waiting_for_finished {
            let none: Vec<XdndAction> = Vec::new();
            assert(none@ =~= seq![]);
            return (none, DragReply::Continue);
        }
        self.session.note_event_time(time);
        let actions = self.session.update_target_from_pointer(config, seen, sample);
        if self.session.handoff_performed {
            return (actions, DragReply::Handoff);
        }
        if !idle {
            return (actions, DragReply::Continue);
        }
        let released = self.run.note_button(sample.button1_held);
        if released {
            (actions, DragReply::ReleaseNow)
        } else {
            (actions, DragReply::Continue)
        }
    }

    /// Take a request for the drag selection: count it, as [`Self::advance`] does with
    /// [`DragInput::Selection`], and answer it. There is no answer after a handover: the
    /// source is gone.
    pub fn serve_selection(
        &mut self,
        config: &XdndConfig,
        request: &SelectionRequest,
        requestor_is_real: bool,
        payload: &FileDragPayloadData,
        portal_key: &Option<Vec<u8>>,
        offered: &Vec<u32>,
        now: u64,
    ) -> (result: (Vec<XdndAction>, DragReply, Option<SelectionAnswer>))
        requires
            config.portal == portal_key is Some,
            old(self).valid(),
            old(self).session.selection_requests < usize::MAX,
            now + DROP_FINISH_WAIT <= u64::MAX,
        ensures
            ({
                let input = DragInput::Selection { request: *request, requestor_is_real, now };
                let step = driven(*config, *old(self), input);
                &&& *final(self) == step.drag
                &&& result.0@ == step.actions
                &&& result.1 == step.reply
            }),
            result.2 is None == old(self).session.handoff_performed,
            result.2 matches Some(answer) ==> answer@ == answered(
                *config,
                *request,
                *payload,
                *portal_key,
                offered@,
            ),
            final(self).valid(),
    {
        let gone = self.session.handoff_performed;
        let input = DragInput::Selection { request: *request, requestor_is_real, now };
        let (actions, reply): (Vec<XdndAction>, DragReply) = self.advance(config, &input);
        let answer: Option<SelectionAnswer> = if gone {
            None
        } else {
            Some(answer_selection(config, request, payload, portal_key, offered))
        };
        (actions, reply, answer)
    }

    /// Take one input.
    pub fn advance(&mut self, config: &XdndConfig, input: &DragInput) -> (result: (
        Vec<XdndAction>,
        DragReply,
    ))
        requires
            old(self).valid(),
            old(self).session.selection_requests < usize::MAX,
            input_time(*input) + DROP_FINISH_WAIT <= u64::MAX,
        ensures
            *final(self) == driven(*config, *old(self), *input).drag,
            result.0@ == driven(*config, *old(self), *input).actions,
            result.1 == driven(*config, *old(self), *input).reply,
            final(self).valid(),
    {
        let none: Vec<XdndAction> = Vec::new();
        assert(none@ =~= seq![]);
        if self.session.handoff_performed {
            return (none, DragReply::Handoff);
        }
        match input {
            DragInput::Moved { time, seen, sample } => {
                self.take_sample(config, *time, seen, sample, false)
            },
            DragInput::Sampled { seen, sample } => {
                self.take_sample(config, CURRENT_TIME, seen, sample, true)
            },
            DragInput::Released { event, decision, now } => {
                if self.run.waiting_for_finished {
                    return (none, DragReply::Continue);
                }
                let (actions, sent): (Vec<XdndAction>, bool) = self.session.handle_button_release(
                    config,
                    event,
                    *decision,
                );
                let goes_on = self.run.note_release(&self.session, sent, *now);
                if goes_on {
                    (actions, DragReply::Continue)
                } else {
                    (actions, DragReply::Failed(*decision))
                }
            },
            DragInput::Status { status, target_is_real } => {
                (self.session.handle_status(config, status, *target_is_real), DragReply::Continue)
            },
            DragInput::Finished { now } => {
                self.run.note_finished(*now);
                (none, DragReply::Continue)
            },
            DragInput::Selection { request, requestor_is_real, now } => {
                let actions = self.session.count_selection_request(
                    config,
                    request,
                    *requestor_is_real,
                );
                self.run.note_selection(&self.session, *now);
                (actions, DragReply::Continue)
            },
        }
    }
}

// ---------------------------------------------------------------------------
// Laws
// ---------------------------------------------------------------------------

/// What a series of inputs leads to.
pub struct Trace {
    pub drag: XdndDrag,
    pub actions: Seq<XdndAction>,
}

/// What a series of inputs leads to.
pub open spec fn driven_all(config: XdndConfig, drag: XdndDrag, inputs: Seq<DragInput>) -> Trace
    decreases inputs.len(),
{
    if inputs.len() == 0 {
        Trace { drag, actions: seq![] }
    } else {
        let before = driven_all(config, drag, inputs.drop_last());
        let step = driven(config, before.drag, inputs.last());
        Trace { drag: step.drag, actions: before.actions + step.actions }
    }
}

/// Whether an action sends a drop.
pub open spec fn is_drop(config: XdndConfig, action: XdndAction) -> bool {
    action matches XdndAction::Send(message) && message.message_type == config.atoms.xdnd_drop
}

/// How many drops some actions send.
pub open spec fn drops(config: XdndConfig, actions: Seq<XdndAction>) -> nat
    decreases actions.len(),
{
    if actions.len() == 0 {
        0
    } else {
        drops(config, actions.drop_last()) + (if is_drop(config, actions.last()) {
            1nat
        } else {
            0nat
        })
    }
}

proof fn drops_add(config: XdndConfig, a: Seq<XdndAction>, b: Seq<XdndAction>)
    ensures
        drops(config, a + b) == drops(config, a) + drops(config, b),
    decreases b.len(),
{
    if b.len() == 0 {
        assert(a + b =~= a);
    } else {
        assert((a + b).drop_last() =~= a + b.drop_last());
        assert((a + b).last() == b.last());
        drops_add(config, a, b.drop_last());
    }
}

/// Whether no action sends a drop.
pub open spec fn dropless(config: XdndConfig, actions: Seq<XdndAction>) -> bool {
    forall|i: int| 0 <= i < actions.len() ==> !is_drop(config, #[trigger] actions[i])
}

proof fn no_drops(config: XdndConfig, actions: Seq<XdndAction>)
    requires
        dropless(config, actions),
    ensures
        drops(config, actions) == 0,
    decreases actions.len(),
{
    if actions.len() > 0 {
        let rest = actions.drop_last();
        assert forall|i: int| 0 <= i < rest.len() implies !is_drop(config, #[trigger] rest[i]) by {
            assert(rest[i] == actions[i]);
        }
        no_drops(config, rest);
        assert(!is_drop(config, actions[actions.len() - 1]));
    }
}

/// Whether a drop can be told apart from the other messages.
pub open spec fn drops_differ(config: XdndConfig) -> bool {
    &&& messages_differ(config)
    &&& config.atoms.xdnd_position != config.atoms.xdnd_drop
}

proof fn dropless_joins(config: XdndConfig, a: Seq<XdndAction>, b: Seq<XdndAction>)
    requires
        dropless(config, a),
        dropless(config, b),
    ensures
        dropless(config, a + b),
{
    assert forall|i: int| 0 <= i < (a + b).len() implies !is_drop(
        config,
        #[trigger] (a + b)[i],
    ) by {
        if i < a.len() {
            assert((a + b)[i] == a[i]);
        } else {
            assert((a + b)[i] == b[i - a.len()]);
        }
    }
}

proof fn retargeting_is_dropless(config: XdndConfig, session: XdndSession, seen: PointerObservation)
    requires
        drops_differ(config),
    ensures
        dropless(config, session.retargeting(config, seen)),
{
    assert(dropless(config, session.leaving(config)));
    if let Some(target) = seen.target {
        let note = seq![XdndAction::Note(XdndNote::Entered(target))];
        let announce = seq![XdndAction::AnnounceTypes, XdndAction::Send(config.enter(target))];
        assert(dropless(config, note));
        assert(dropless(config, announce));
        dropless_joins(config, note, announce);
        dropless_joins(config, session.leaving(config), note + announce);
        assert(seq![] + announce =~= announce);
        dropless_joins(config, session.leaving(config), announce);
    } else {
        assert(session.leaving(config) + seq![] =~= session.leaving(config));
    }
}

proof fn hovering_is_dropless(config: XdndConfig, session: XdndSession, sample: PointerSample)
    requires
        drops_differ(config),
    ensures
        dropless(config, session.hovering(config, sample)),
{
    assert forall|i: int| 0 <= i < session.hovering(config, sample).len() implies !is_drop(
        config,
        #[trigger] session.hovering(config, sample)[i],
    ) by {
    }
}

proof fn handing_over_is_dropless(config: XdndConfig, session: XdndSession)
    requires
        drops_differ(config),
    ensures
        dropless(config, session.handing_over(config)),
{
    let note = seq![XdndAction::Note(XdndNote::Handoff)];
    let leaving = session.leaving(config);
    let preview = if session.preview {
        seq![XdndAction::DestroyPreview]
    } else {
        seq![]
    };
    let rest = seq![XdndAction::ReleaseSelection, XdndAction::DestroySource];
    assert(dropless(config, note));
    assert(dropless(config, leaving));
    assert(dropless(config, preview));
    assert(dropless(config, rest));
    dropless_joins(config, note, leaving);
    dropless_joins(config, note + leaving, preview);
    dropless_joins(config, note + leaving + preview, rest);
}

proof fn updating_is_dropless(
    config: XdndConfig,
    session: XdndSession,
    seen: PointerObservation,
    sample: PointerSample,
)
    requires
        drops_differ(config),
    ensures
        dropless(config, session.updating(config, seen, sample)),
{
    let there = session.retargeted(seen);
    let counted = there.counted(seen, sample);
    let decision = counted.decision(seen, sample);
    retargeting_is_dropless(config, session, seen);
    hovering_is_dropless(config, there, sample);
    handing_over_is_dropless(config, counted);
    assert(dropless(config, counted.deciding(config, decision)));
    dropless_joins(
        config,
        session.retargeting(config, seen),
        there.hovering(config, sample),
    );
    dropless_joins(
        config,
        session.retargeting(config, seen) + there.hovering(config, sample),
        counted.deciding(config, decision),
    );
}

proof fn releasing_drops(
    config: XdndConfig,
    session: XdndSession,
    event: ButtonRelease,
    decision: ReleaseDecision,
)
    requires
        drops_differ(config),
    ensures
        drops(config, session.releasing(config, event, decision)) == (if decision.target() is Some {
            1nat
        } else {
            0nat
        }),
{
    let actions = session.releasing(config, event, decision);
    match decision {
        ReleaseDecision::NoTarget | ReleaseDecision::BackOnOrigin => {
            let heard = seq![actions[0]];
            assert(dropless(config, heard));
            assert(dropless(config, session.leaving(config)));
            dropless_joins(config, heard, session.leaving(config));
            assert(actions =~= heard + session.leaving(config));
            no_drops(config, actions);
        },
        _ => {
            let init = actions.drop_last();
            assert(dropless(config, init));
            no_drops(config, init);
            assert(is_drop(config, actions.last()));
        },
    }
}

proof fn step_drops(config: XdndConfig, drag: XdndDrag, input: DragInput)
    requires
        drops_differ(config),
        drag.run.sent_drop ==> drag.run.waiting_for_finished,
    ensures
        ({
            let step = driven(config, drag, input);
            &&& step.drag.run.sent_drop ==> step.drag.run.waiting_for_finished
            &&& drag.run.sent_drop ==> step.drag.run.sent_drop && drops(config, step.actions) == 0
            &&& !drag.run.sent_drop ==> drops(config, step.actions) == (
            if step.drag.run.sent_drop {
                1nat
            } else {
                0nat
            })
        }),
{
    let step = driven(config, drag, input);
    if !drag.session.handoff_performed {
        match input {
            DragInput::Moved { time, seen, sample } => {
                updating_is_dropless(config, drag.session.timed(time), seen, sample);
            },
            DragInput::Sampled { seen, sample } => {
                updating_is_dropless(config, drag.session, seen, sample);
            },
            DragInput::Released { event, decision, now } => {
                releasing_drops(config, drag.session, event, decision);
            },
            _ => {
                assert(dropless(config, step.actions));
            },
        }
    }
    if !(input is Released) || drag.session.handoff_performed || drag.run.waiting_for_finished {
        no_drops(config, step.actions);
    }
}

/// A drop is sent at most once, whatever happens, and exactly when the run says so.
pub proof fn drop_is_sent_at_most_once(
    config: XdndConfig,
    drag: XdndDrag,
    inputs: Seq<DragInput>,
)
    requires
        drops_differ(config),
        !drag.run.sent_drop,
    ensures
        drops(config, driven_all(config, drag, inputs).actions) == (if driven_all(
            config,
            drag,
            inputs,
        ).drag.run.sent_drop {
            1nat
        } else {
            0nat
        }),
        driven_all(config, drag, inputs).drag.run.sent_drop ==> driven_all(
            config,
            drag,
            inputs,
        ).drag.run.waiting_for_finished,
    decreases inputs.len(),
{
    if inputs.len() > 0 {
        let rest = inputs.drop_last();
        drop_is_sent_at_most_once(config, drag, rest);
        let before = driven_all(config, drag, rest);
        step_drops(config, before.drag, inputs.last());
        drops_add(config, before.actions, driven(config, before.drag, inputs.last()).actions);
    }
}

/// A delivery that is reported was dropped, exactly once, and its data was asked for.
pub proof fn reported_delivery_was_dropped_once(
    config: XdndConfig,
    drag: XdndDrag,
    inputs: Seq<DragInput>,
    drop_target_is_bridge: bool,
    hint: Seq<char>,
)
    requires
        drops_differ(config),
        !drag.run.sent_drop,
    ensures
        ({
            let trace = driven_all(config, drag, inputs);
            let completion = ending(
                trace.drag.run,
                trace.drag.session,
                drop_target_is_bridge,
                hint,
            ).0;
            !(completion is Failed) ==> drops(config, trace.actions) == 1
                && trace.drag.session.data_requests > 0
        }),
{
    drop_is_sent_at_most_once(config, drag, inputs);
}

proof fn step_tells(config: XdndConfig, drag: XdndDrag, input: DragInput)
    requires
        messages_differ(config),
    ensures
        told_all(
            config,
            driven(config, drag, input).actions,
            entered(drag.session.current_target),
        ) == entered(driven(config, drag, input).drag.session.current_target),
{
    reveal_with_fuel(told_all, 2);
    let actions = driven(config, drag, input).actions;
    if !drag.session.handoff_performed {
        match input {
            DragInput::Moved { time, seen, sample } => {
                if !drag.run.waiting_for_finished {
                    only_the_current_target_knows_of_the_drag(
                        config,
                        drag.session.timed(time),
                        seen,
                        sample,
                    );
                }
            },
            DragInput::Sampled { seen, sample } => {
                if !drag.run.waiting_for_finished {
                    only_the_current_target_knows_of_the_drag(config, drag.session, seen, sample);
                }
            },
            DragInput::Released { event, decision, now } => {
                if !drag.run.waiting_for_finished {
                    release_keeps_account_of_the_target(config, drag.session, event, decision);
                }
            },
            _ => {
                if actions.len() == 1 {
                    assert(actions.drop_last() =~= seq![]);
                }
            },
        }
    }
}

/// Throughout a drag, the windows that were told of it and not told that it left are
/// exactly the window that it has entered, if there is one.
pub proof fn one_window_at_a_time_holds_the_drag(
    config: XdndConfig,
    drag: XdndDrag,
    inputs: Seq<DragInput>,
)
    requires
        messages_differ(config),
    ensures
        told_all(
            config,
            driven_all(config, drag, inputs).actions,
            entered(drag.session.current_target),
        ) == entered(driven_all(config, drag, inputs).drag.session.current_target),
    decreases inputs.len(),
{
    if inputs.len() > 0 {
        let rest = inputs.drop_last();
        one_window_at_a_time_holds_the_drag(config, drag, rest);
        let before = driven_all(config, drag, rest);
        let step = driven(config, before.drag, inputs.last());
        step_tells(config, before.drag, inputs.last());
        told_all_splits(
            config,
            before.actions,
            step.actions,
            entered(drag.session.current_target),
        );
    }
}

/// After the drop the pointer no longer counts: the drag neither changes its target
/// nor is handed over.
pub proof fn pointer_is_ignored_after_the_drop(
    config: XdndConfig,
    drag: XdndDrag,
    time: u32,
    seen: PointerObservation,
    sample: PointerSample,
)
    requires
        drag.run.waiting_for_finished,
        !drag.session.handoff_performed,
    ensures
        driven(config, drag, DragInput::Moved { time, seen, sample }).drag == drag,
        driven(config, drag, DragInput::Sampled { seen, sample }).drag == drag,
{
}

/// The button is released exactly when an idle sample shows it up after one showed it down;
/// a sample that comes with an event is only followed.
pub proof fn button_going_up_is_a_release(
    config: XdndConfig,
    drag: XdndDrag,
    time: u32,
    seen: PointerObservation,
    sample: PointerSample,
)
    requires
        !drag.session.handoff_performed,
        !drag.run.waiting_for_finished,
    ensures
        ({
            let idle = driven(config, drag, DragInput::Sampled { seen, sample });
            let handed = drag.session.updated(seen, sample).handoff_performed;
            &&& idle.reply is Handoff <==> handed
            &&& idle.reply is ReleaseNow <==> !handed && drag.run.saw_button_down
                && !sample.button1_held
            &&& !handed ==> idle.drag.run.saw_button_down == (drag.run.saw_button_down
                || sample.button1_held)
            &&& idle.actions == drag.session.updating(config, seen, sample)
        }),
        ({
            let moved = driven(config, drag, DragInput::Moved { time, seen, sample });
            let before = XdndSession {
                last_event_time: if time == 0 {
                    drag.session.last_event_time
                } else {
                    time
                },
                ..drag.session
            };
            &&& !(moved.reply is ReleaseNow)
            &&& !(moved.reply is Failed)
            &&& moved.actions == before.updating(config, seen, sample)
            &&& moved.drag.session == before.updated(seen, sample)
            &&& moved.drag.run == drag.run
        }),
{
}

/// A release that goes to a window lets the drag go on and wait; one that goes nowhere ends
/// it, and says why.
pub proof fn release_goes_on_or_fails(
    config: XdndConfig,
    drag: XdndDrag,
    event: ButtonRelease,
    decision: ReleaseDecision,
    now: u64,
)
    requires
        !drag.session.handoff_performed,
        !drag.run.waiting_for_finished,
    ensures
        ({
            let step = driven(config, drag, DragInput::Released { event, decision, now });
            let sent = decision is Onto || decision is Bridged;
            &&& sent ==> step.reply is Continue && step.drag.run.sent_drop
                && step.drag.run.waiting_for_finished
            &&& !sent ==> step.reply == DragReply::Failed(decision) && step.drag.run.sent_drop
                == drag.run.sent_drop
            &&& step.actions == drag.session.releasing(config, event, decision)
            &&& step.drag.session == drag.session.released(event.time, decision)
        }),
{
}

/// Status, end and requests of windows are taken before and after the drop, each changes
/// what it is about, and none of them ends the drag.
pub proof fn windows_are_heard_all_along(
    config: XdndConfig,
    drag: XdndDrag,
    status: StatusMessage,
    request: SelectionRequest,
    is_real: bool,
    now: u64,
)
    requires
        !drag.session.handoff_performed,
    ensures
        ({
            let step = driven(config, drag, DragInput::Status { status, target_is_real: is_real });
            &&& step.reply is Continue
            &&& step.drag.run == drag.run
            &&& step.drag.session == drag.session.informed(status, is_real)
        }),
        ({
            let step = driven(config, drag, DragInput::Finished { now });
            &&& step.reply is Continue
            &&& step.drag.run.finished_received
            &&& step.drag.session == drag.session
        }),
        ({
            let step = driven(
                config,
                drag,
                DragInput::Selection { request, requestor_is_real: is_real, now },
            );
            &&& step.reply is Continue
            &&& step.drag.session == drag.session.asked(config, request, is_real)
            &&& step.drag.run.sent_drop == drag.run.sent_drop
            &&& step.drag.run.finished_received == drag.run.finished_received
        }),
{
}

/// After a handover no input does anything.
pub proof fn nothing_counts_after_a_handover(
    config: XdndConfig,
    drag: XdndDrag,
    input: DragInput,
)
    requires
        drag.session.handoff_performed,
    ensures
        driven(config, drag, input).drag == drag,
        driven(config, drag, input).actions.len() == 0,
        driven(config, drag, input).reply is Handoff,
{
}

} // verus!
