//! What holds of every outbound XDND drag.

use vstd::prelude::*;

use crate::desktop::{FindingView, Knowledge, Question};
use crate::handoff::{BridgeHandoffDecision, BRIDGE_HANDOFF_STREAK};
use crate::payload::FileDragPayloadData;
use crate::platform::DragCompletion;
use crate::target::{release_target, BridgeRelease, Probe};
use crate::target_laws::drop_windows_are_named_or_bridges;
use crate::xdnd::{
    answered, observation, release_decision, request_phase, served_bytes, ButtonRelease, ClientMessage, DataView,
    PointerObservation, PointerSample, ReleaseDecision, SelectionForm, SelectionRequest,
    StatusMessage, XdndAction, XdndConfig, XdndNote, XdndSession, NO_ATOM,
};
use crate::xdnd_run::{ending, RunStep, XdndRun};

verus! {

/// Whether the message types of a drag can be told apart.
pub open spec fn messages_differ(config: XdndConfig) -> bool {
    &&& config.atoms.xdnd_enter != config.atoms.xdnd_leave
    &&& config.atoms.xdnd_enter != config.atoms.xdnd_position
    &&& config.atoms.xdnd_enter != config.atoms.xdnd_drop
    &&& config.atoms.xdnd_leave != config.atoms.xdnd_position
    &&& config.atoms.xdnd_leave != config.atoms.xdnd_drop
}

/// The windows that know of the drag after an action: an `XdndEnter` message adds
/// its window, an `XdndLeave` message removes it.
pub open spec fn told(config: XdndConfig, action: XdndAction, windows: Set<u32>) -> Set<u32> {
    match action {
        XdndAction::Send(message) => if message.message_type == config.atoms.xdnd_enter {
            windows.insert(message.target)
        } else if message.message_type == config.atoms.xdnd_leave {
            windows.remove(message.target)
        } else {
            windows
        },
        _ => windows,
    }
}

/// The windows that know of the drag after some actions.
pub open spec fn told_all(config: XdndConfig, actions: Seq<XdndAction>, windows: Set<u32>) -> Set<
    u32,
>
    decreases actions.len(),
{
    if actions.len() == 0 {
        windows
    } else {
        told(config, actions.last(), told_all(config, actions.drop_last(), windows))
    }
}

/// The window that a drag has entered, as a set.
pub open spec fn entered(target: Option<u32>) -> Set<u32> {
    match target {
        Some(window) => set![window],
        None => Set::empty(),
    }
}

/// What some actions tell, and then some others, is what all of them tell.
pub proof fn told_all_splits(
    config: XdndConfig,
    first: Seq<XdndAction>,
    second: Seq<XdndAction>,
    windows: Set<u32>,
)
    ensures
        told_all(config, first + second, windows) == told_all(
            config,
            second,
            told_all(config, first, windows),
        ),
    decreases second.len(),
{
    if second.len() == 0 {
        assert(first + second =~= first);
    } else {
        assert((first + second).drop_last() =~= first + second.drop_last());
        assert((first + second).last() == second.last());
        told_all_splits(config, first, second.drop_last(), windows);
    }
}

proof fn leaving_empties(config: XdndConfig, session: XdndSession)
    requires
        messages_differ(config),
    ensures
        told_all(config, session.leaving(config), entered(session.current_target)) == Set::<
            u32,
        >::empty(),
{
    reveal_with_fuel(told_all, 2);
    match session.current_target {
        Some(target) => {
            assert(session.leaving(config).drop_last() =~= seq![]);
            assert(set![target].remove(target) =~= Set::<u32>::empty());
        },
        None => {},
    }
}

proof fn retargeting_follows(config: XdndConfig, session: XdndSession, seen: PointerObservation)
    requires
        messages_differ(config),
    ensures
        told_all(config, session.retargeting(config, seen), entered(session.current_target))
            == entered(seen.target),
{
    reveal_with_fuel(told_all, 4);
    if seen.target != session.current_target {
        leaving_empties(config, session);
        let rest = match seen.target {
            None => seq![],
            Some(target) => (if config.verbose {
                seq![XdndAction::Note(crate::xdnd::XdndNote::Entered(target))]
            } else {
                seq![]
            }) + seq![XdndAction::AnnounceTypes, XdndAction::Send(config.enter(target))],
        };
        assert(session.retargeting(config, seen) =~= session.leaving(config) + rest);
        told_all_splits(config, session.leaving(config), rest, entered(session.current_target));
        if let Some(target) = seen.target {
            let announce = seq![XdndAction::AnnounceTypes, XdndAction::Send(config.enter(target))];
            if config.verbose {
                let note = seq![XdndAction::Note(crate::xdnd::XdndNote::Entered(target))];
                assert(rest =~= note + announce);
                told_all_splits(config, note, announce, Set::empty());
                assert(note.drop_last() =~= seq![]);
            } else {
                assert(rest =~= announce);
            }
            assert(announce.drop_last() =~= seq![XdndAction::AnnounceTypes]);
            assert(announce.drop_last().drop_last() =~= seq![]);
            assert(Set::<u32>::empty().insert(target) =~= set![target]);
        }
    }
}

proof fn hovering_tells_nobody(
    config: XdndConfig,
    session: XdndSession,
    sample: PointerSample,
    windows: Set<u32>,
)
    requires
        messages_differ(config),
    ensures
        told_all(config, session.hovering(config, sample), windows) == windows,
{
    reveal_with_fuel(told_all, 3);
    let hovering = session.hovering(config, sample);
    if hovering.len() == 1 {
        assert(hovering.drop_last() =~= seq![]);
    } else if hovering.len() == 2 {
        assert(hovering.drop_last().drop_last() =~= seq![]);
    }
}

proof fn handing_over_empties(config: XdndConfig, session: XdndSession)
    requires
        messages_differ(config),
    ensures
        told_all(config, session.handing_over(config), entered(session.current_target)) == Set::<
            u32,
        >::empty(),
{
    reveal_with_fuel(told_all, 4);
    let windows = entered(session.current_target);
    let note = seq![XdndAction::Note(crate::xdnd::XdndNote::Handoff)];
    let leaving = session.leaving(config);
    let rest = (if session.preview {
        seq![XdndAction::DestroyPreview]
    } else {
        seq![]
    }) + seq![XdndAction::ReleaseSelection, XdndAction::DestroySource];
    assert(session.handing_over(config) =~= note + leaving + rest);
    told_all_splits(config, note + leaving, rest, windows);
    told_all_splits(config, note, leaving, windows);
    assert(note.drop_last() =~= seq![]);
    leaving_empties(config, session);
    let none = Set::<u32>::empty();
    if session.preview {
        assert(rest.drop_last().drop_last().drop_last() =~= seq![]);
        assert(rest.drop_last().drop_last().last() == XdndAction::DestroyPreview);
        assert(rest.drop_last().last() == XdndAction::ReleaseSelection);
    } else {
        assert(rest.drop_last().drop_last() =~= seq![]);
        assert(rest.drop_last().last() == XdndAction::ReleaseSelection);
    }
    assert(told_all(config, rest, none) == none);
}

/// The windows that were told of the drag and not told that it left are exactly
/// the window that the drag has entered, if there is one. So at most one window
/// ever holds the drag, the old one is left before the new one is entered, and
/// nothing is left behind by a handover.
pub proof fn only_the_current_target_knows_of_the_drag(
    config: XdndConfig,
    session: XdndSession,
    seen: PointerObservation,
    sample: PointerSample,
)
    requires
        messages_differ(config),
    ensures
        told_all(
            config,
            session.updating(config, seen, sample),
            entered(session.current_target),
        ) == entered(session.updated(seen, sample).current_target),
{
    let windows = entered(session.current_target);
    let there = session.retargeted(seen);
    let counted = there.counted(seen, sample);
    let decision = counted.decision(seen, sample);
    let retargeting = session.retargeting(config, seen);
    let hovering = there.hovering(config, sample);
    let deciding = counted.deciding(config, decision);
    told_all_splits(config, retargeting + hovering, deciding, windows);
    told_all_splits(config, retargeting, hovering, windows);
    retargeting_follows(config, session, seen);
    assert(there.current_target == seen.target);
    hovering_tells_nobody(config, there, sample, entered(seen.target));
    if decision is Handoff {
        handing_over_empties(config, counted);
    } else {
        reveal_with_fuel(told_all, 2);
        if deciding.len() == 1 {
            assert(deciding.drop_last() =~= seq![]);
        }
    }
}

/// A release leaves the entered window, or keeps it as the receiver of the drop.
pub proof fn release_keeps_account_of_the_target(
    config: XdndConfig,
    session: XdndSession,
    event: ButtonRelease,
    decision: ReleaseDecision,
)
    requires
        messages_differ(config),
    ensures
        told_all(
            config,
            session.releasing(config, event, decision),
            entered(session.current_target),
        ) == entered(session.released(event.time, decision).current_target),
{
    reveal_with_fuel(told_all, 5);
    let windows = entered(session.current_target);
    let releasing = session.releasing(config, event, decision);
    match decision {
        ReleaseDecision::NoTarget | ReleaseDecision::BackOnOrigin => {
            let heard = seq![releasing[0]];
            assert(releasing =~= heard + session.leaving(config));
            told_all_splits(config, heard, session.leaving(config), windows);
            assert(heard.drop_last() =~= seq![]);
            leaving_empties(config, session);
        },
        ReleaseDecision::Onto(_) => {
            assert(releasing.drop_last().drop_last().drop_last() =~= seq![]);
            assert(releasing.drop_last().drop_last().last() == releasing[0]);
            assert(releasing.drop_last().last() == releasing[1]);
        },
        ReleaseDecision::Bridged(_) => {
            assert(releasing.drop_last().drop_last().drop_last().drop_last() =~= seq![]);
            assert(releasing.drop_last().drop_last().drop_last().last() == releasing[0]);
            assert(releasing.drop_last().drop_last().last() == releasing[1]);
            assert(releasing.drop_last().last() == releasing[2]);
        },
    }
}

/// A drag that is released over the editor it came from is cancelled: nothing is
/// dropped, and the release is an error.
pub proof fn release_over_the_editor_cancels(
    k: Knowledge,
    p: Probe,
    session: XdndSession,
    time: u32,
    diagnostics: Seq<char>,
)
    requires
        session.current_target is Some,
        session.current_target == p.origin,
    ensures
        release_decision(k, p, session) == FindingView::Known(ReleaseDecision::BackOnOrigin),
        ReleaseDecision::BackOnOrigin.failure(diagnostics) is Some,
        session.released(time, ReleaseDecision::BackOnOrigin).drop_target == session.drop_target,
{
}

/// A drop is sent only when a window other than the editor was entered.
pub proof fn drop_needs_an_entered_window(
    k: Knowledge,
    p: Probe,
    session: XdndSession,
    decision: ReleaseDecision,
)
    requires
        release_decision(k, p, session) == FindingView::Known(decision),
        decision.target() is Some,
    ensures
        session.current_target is Some,
        session.current_target != p.origin,
{
}

/// A drag is handed to the native Wayland route only while the button is held,
/// with the pointer off the editor, over a compositor bridge, and after an
/// earlier sample there had counted.
pub proof fn handoff_waits_for_a_settled_pointer(
    session: XdndSession,
    seen: PointerObservation,
    sample: PointerSample,
)
    requires
        !session.handoff_performed,
        session.updated(seen, sample).handoff_performed,
    ensures
        sample.route_enabled,
        sample.button1_held,
        seen.over_bridge,
        !seen.over_origin,
        !seen.target_is_real,
        session.bridge_hover_streak >= BRIDGE_HANDOFF_STREAK - 1,
{
}

/// A handover takes the drag away from the source: no window holds it, the preview
/// is gone, and the next step of the run is the handover.
pub proof fn handoff_ends_the_source(
    session: XdndSession,
    seen: PointerObservation,
    sample: PointerSample,
    run: XdndRun,
    now: u64,
)
    requires
        !session.handoff_performed,
        session.updated(seen, sample).handoff_performed,
    ensures
        session.updated(seen, sample).current_target is None,
        !session.updated(seen, sample).preview,
        run.next(session.updated(seen, sample), now) == RunStep::Handoff,
{
}

/// A drag counts as delivered exactly when the drop was sent, data was asked for,
/// and, over a compositor bridge, by the drop target itself after the drop.
pub proof fn delivery_needs_a_drop_and_a_data_request(
    run: XdndRun,
    session: XdndSession,
    drop_target_is_bridge: bool,
    hint: Seq<char>,
)
    ensures
        !(ending(run, session, drop_target_is_bridge, hint).0 is Failed) <==> run.sent_drop
            && session.data_requests > 0 && (drop_target_is_bridge
            ==> session.drop_target_data_requests > 0),
{
}

/// Exactly the requests that are answered with bytes count as data requests, and a request
/// that is refused is answered without a property and without data.
pub proof fn counted_requests_are_served(
    config: XdndConfig,
    session: XdndSession,
    request: SelectionRequest,
    requestor_is_real: bool,
    payload: FileDragPayloadData,
    portal_key: Option<Vec<u8>>,
    offered: Seq<u32>,
)
    requires
        config.portal == portal_key is Some,
        session.valid(),
        session.selection_requests < usize::MAX,
    ensures
        ({
            let answer = answered(config, request, payload, portal_key, offered);
            let after = session.asked(config, request, requestor_is_real);
            &&& after.data_requests == session.data_requests + (if answer.data matches Some(
                DataView::Bytes(_),
            ) {
                1int
            } else {
                0int
            })
            &&& answer.data is None ==> answer.notify.property == NO_ATOM
            &&& answer.data is None == config.form(request) is Refused
        }),
{
}

/// A drag is only inferred to be delivered when the target looked at the data
/// before the drop and nothing came after it.
pub proof fn inference_is_the_last_resort(
    run: XdndRun,
    session: XdndSession,
    drop_target_is_bridge: bool,
    hint: Seq<char>,
)
    requires
        session.valid(),
    ensures
        ending(run, session, drop_target_is_bridge, hint).0 == DragCompletion::Inferred
            <==> run.sent_drop && session.data_requests > 0 && !run.finished_received
            && session.post_drop_data_requests == 0 && !drop_target_is_bridge,
{
}

/// A drag ends: past its deadline, and past the wait after a drop, no event is
/// looked for.
pub proof fn drag_ends_by_its_deadline(run: XdndRun, session: XdndSession, now: u64)
    requires
        now > run.deadline || (run.finish_deadline matches Some(deadline) && now > deadline),
    ensures
        run.next(session, now) != RunStep::Poll,
{
}

// ---------------------------------------------------------------------------
// What windows are told
// ---------------------------------------------------------------------------

/// The messages of a drag go to the window that they are for and name the source window
/// first. `XdndEnter` says version 5, that there are more than three types, and three of
/// them. `XdndPosition` holds the position as two 16-bit numbers, the time and the action
/// "copy". `XdndDrop` holds the time.
pub proof fn messages_follow_the_protocol(
    config: XdndConfig,
    target: u32,
    x: i16,
    y: i16,
    time: u32,
)
    ensures
        ({
            let enter = config.enter(target);
            &&& enter.target == target
            &&& enter.message_type == config.atoms.xdnd_enter
            &&& enter.data.0 == config.source_window
            &&& enter.data.1 / 0x100_0000 == 5
            &&& enter.data.1 % 0x100_0000 == 1
            &&& (enter.data.2, enter.data.3, enter.data.4) == config.enter_types
        }),
        ({
            let position = config.position(target, x, y, time);
            &&& position.target == target
            &&& position.message_type == config.atoms.xdnd_position
            &&& position.data.0 == config.source_window
            &&& position.data.1 == 0
            &&& position.data.2 / 0x1_0000 == (if x < 0 {
                x + 0x1_0000
            } else {
                x as int
            })
            &&& position.data.2 % 0x1_0000 == (if y < 0 {
                y + 0x1_0000
            } else {
                y as int
            })
            &&& position.data.3 == time
            &&& position.data.4 == config.atoms.xdnd_action_copy
        }),
        config.leave(target) == (ClientMessage {
            target,
            message_type: config.atoms.xdnd_leave,
            data: (config.source_window, 0, 0, 0, 0),
        }),
        config.drop(target, time) == (ClientMessage {
            target,
            message_type: config.atoms.xdnd_drop,
            data: (config.source_window, 0, time, 0, 0),
        }),
{
}

/// Whether some actions send a message.
pub open spec fn sends(actions: Seq<XdndAction>, message: ClientMessage) -> bool {
    actions.contains(XdndAction::Send(message))
}

/// Whether some actions send a message of a type to any window.
pub open spec fn sends_type(actions: Seq<XdndAction>, message_type: u32) -> bool {
    exists|i: int|
        0 <= i < actions.len() && (#[trigger] actions[i] matches XdndAction::Send(message)
            && message.message_type == message_type)
}

/// Each pointer sample is told to the window under the pointer, which was told first that
/// the drag enters and which types there are; the preview follows the pointer.
pub proof fn window_under_the_pointer_hears_of_the_drag(
    config: XdndConfig,
    session: XdndSession,
    seen: PointerObservation,
    sample: PointerSample,
    target: u32,
)
    requires
        seen.target == Some(target),
    ensures
        ({
            let actions = session.updating(config, seen, sample);
            &&& sends(
                actions,
                config.position(target, sample.x, sample.y, session.last_event_time),
            )
            &&& session.current_target != Some(target) ==> exists|i: int|
                0 <= i && i + 1 < actions.len() && #[trigger] actions[i]
                    == XdndAction::AnnounceTypes && actions[i + 1] == XdndAction::Send(
                    config.enter(target),
                )
            &&& session.current_target matches Some(previous) ==> previous != target ==> sends(
                actions,
                config.leave(previous),
            )
            &&& session.preview ==> actions.contains(
                XdndAction::MovePreview { x: sample.raw_x, y: sample.raw_y },
            )
        }),
{
    let there = session.retargeted(seen);
    let counted = there.counted(seen, sample);
    let retargeting = session.retargeting(config, seen);
    let hovering = there.hovering(config, sample);
    let deciding = counted.deciding(config, counted.decision(seen, sample));
    let actions = session.updating(config, seen, sample);
    let n = retargeting.len() as int;
    assert(actions =~= retargeting + hovering + deciding);
    assert(actions[n] == hovering[0]);
    assert(hovering[0] == XdndAction::Send(
        config.position(target, sample.x, sample.y, session.last_event_time),
    ));
    if session.preview {
        assert(hovering[1] == XdndAction::MovePreview { x: sample.raw_x, y: sample.raw_y });
        assert(actions[n + 1] == hovering[1]);
    }
    if session.current_target != Some(target) {
        assert(retargeting[n - 2] == XdndAction::AnnounceTypes);
        assert(retargeting[n - 1] == XdndAction::Send(config.enter(target)));
        assert(actions[n - 2] == XdndAction::AnnounceTypes);
        assert(actions[n - 1] == XdndAction::Send(config.enter(target)));
        if let Some(previous) = session.current_target {
            assert(retargeting[0] == XdndAction::Send(config.leave(previous)));
            assert(actions[0] == XdndAction::Send(config.leave(previous)));
        }
    }
}

/// Where no window lies under the pointer, the window that was entered is left, and no
/// position is told.
pub proof fn leaving_all_windows_is_told(
    config: XdndConfig,
    session: XdndSession,
    seen: PointerObservation,
    sample: PointerSample,
)
    requires
        messages_differ(config),
        seen.target is None,
    ensures
        ({
            let actions = session.updating(config, seen, sample);
            &&& session.current_target matches Some(previous) ==> sends(
                actions,
                config.leave(previous),
            )
            &&& !sends_type(actions, config.atoms.xdnd_position)
            &&& !sends_type(actions, config.atoms.xdnd_enter)
        }),
{
    let there = session.retargeted(seen);
    let counted = there.counted(seen, sample);
    let retargeting = session.retargeting(config, seen);
    let hovering = there.hovering(config, sample);
    let deciding = counted.deciding(config, counted.decision(seen, sample));
    let actions = session.updating(config, seen, sample);
    assert(actions =~= retargeting + hovering + deciding);
    if let Some(previous) = session.current_target {
        assert(retargeting[0] == XdndAction::Send(config.leave(previous)));
        assert(actions[0] == retargeting[0]);
    }
}

/// After a sample the drag is in the window under the pointer, unless it was handed over.
/// A change of the window forgets who accepted the drag; a named window is remembered as
/// the last one; samples over a bridge are counted anew after a named window, or when the
/// bridge was left.
pub proof fn session_follows_the_pointer(
    session: XdndSession,
    seen: PointerObservation,
    sample: PointerSample,
)
    ensures
        ({
            let after = session.updated(seen, sample);
            &&& !after.handoff_performed ==> after.current_target == seen.target
            &&& seen.target != session.current_target ==> after.accepted_target is None
            &&& !after.handoff_performed && seen.target == session.current_target
                ==> after.accepted_target == session.accepted_target
            &&& seen.target != session.current_target && seen.target is Some && seen.target_is_real
                ==> after.last_real_target == seen.target
            &&& seen.target == session.current_target || !seen.target_is_real
                ==> after.last_real_target == session.last_real_target
            &&& after.saw_pointer_leave_origin == (session.saw_pointer_leave_origin
                || !seen.over_origin)
            &&& seen.target_is_real || !seen.over_bridge || !sample.button1_held || seen.over_origin
                || !sample.route_enabled ==> after.bridge_hover_streak == 0
                && !(!session.handoff_performed && after.handoff_performed)
            &&& after.drop_target == session.drop_target
            &&& after.data_requests == session.data_requests
            &&& after.last_event_time == session.last_event_time
        }),
{
}

/// What lies under the pointer is told from what is known of the windows: whether the
/// target is named, whether it is a bridge that a handover may use, whether the pointer is
/// over the editor, and whether it went from a bridge to something else.
pub proof fn observation_says_what_lies_under_the_pointer(
    k: Knowledge,
    origin: Option<u32>,
    current: Option<u32>,
    target: Option<u32>,
    route_enabled: bool,
)
    requires
        k.complete(),
    ensures
        observation(k, origin, current, target, route_enabled) matches FindingView::Known(seen)
            && seen.target == target && seen.target_is_real == (target is Some && k.aware[target->0]
            == Ok::<bool, Seq<char>>(true) && k.named[target->0]) && seen.over_bridge == (
        route_enabled && target is Some && k.aware[target->0] == Ok::<bool, Seq<char>>(true)
            && !k.named[target->0]) && seen.over_origin == (origin is Some && k.under[origin->0])
            && seen.left_bridge == (current is Some && target != current && k.aware[current->0]
            == Ok::<bool, Seq<char>>(true) && !k.named[current->0] && !(target is Some
            && k.aware[target->0] == Ok::<bool, Seq<char>>(true) && !k.named[target->0])),
{
    if current is Some {
        drop_windows_are_named_or_bridges(k, current->0);
    }
    if target is Some {
        drop_windows_are_named_or_bridges(k, target->0);
    }
    if origin is Some {
        assert(k.knows(Question::UnderPointer(origin->0)));
    }
}

// ---------------------------------------------------------------------------
// Where a drop goes
// ---------------------------------------------------------------------------

/// A released drag goes to the window that it has entered; where that is a compositor
/// bridge, to where the bridge leads; and nowhere without a window, or back on the editor.
pub proof fn release_goes_to_the_entered_window(
    k: Knowledge,
    p: Probe,
    session: XdndSession,
    target: u32,
)
    requires
        k.complete(),
        session.current_target == Some(target),
        p.origin != Some(target),
    ensures
        !(k.aware[target] == Ok::<bool, Seq<char>>(true) && !k.named[target]) ==> release_decision(
            k,
            p,
            session,
        ) == FindingView::Known(ReleaseDecision::Onto(target)),
        k.aware[target] == Ok::<bool, Seq<char>>(true) && !k.named[target] ==> (match release_target(
            k,
            p,
            target,
            session.last_real_data_target,
            session.last_real_accepted_target,
            session.last_real_target,
        ) {
            FindingView::Known(release) => release_decision(k, p, session) == FindingView::Known(
                ReleaseDecision::Bridged(release),
            ),
            FindingView::Failed(message) => release_decision(k, p, session)
                == FindingView::<ReleaseDecision>::Failed(message),
            FindingView::Ask(_) => true,
        }),
{
    drop_windows_are_named_or_bridges(k, target);
}

/// Without an entered window there is no target, and that is an error with the diagnostics.
pub proof fn release_without_a_window_fails(
    k: Knowledge,
    p: Probe,
    session: XdndSession,
    diagnostics: Seq<char>,
)
    requires
        session.current_target is None,
    ensures
        release_decision(k, p, session) == FindingView::Known(ReleaseDecision::NoTarget),
        ReleaseDecision::NoTarget.failure(diagnostics) == Some(diagnostics),
        ReleaseDecision::NoTarget.target() is None,
        ReleaseDecision::BackOnOrigin.target() is None,
{
}

/// A release sends the drop to the window that it goes to, with the time of the release, or
/// of the last event where the release has none, and to no other window; the window is then
/// the drop target, of which no request was counted yet. A release that goes nowhere drops
/// nothing and leaves the entered window.
pub proof fn drop_is_sent_to_the_chosen_window(
    config: XdndConfig,
    session: XdndSession,
    event: ButtonRelease,
    decision: ReleaseDecision,
)
    requires
        messages_differ(config),
        config.atoms.xdnd_position != config.atoms.xdnd_drop,
    ensures
        ({
            let actions = session.releasing(config, event, decision);
            let after = session.released(event.time, decision);
            let time = if event.time == 0 {
                session.last_event_time
            } else {
                event.time
            };
            let goes_to = match decision {
                ReleaseDecision::Onto(w) => Some(w),
                ReleaseDecision::Bridged(BridgeRelease::Resolved(w)) => Some(w),
                ReleaseDecision::Bridged(BridgeRelease::Reused(w)) => Some(w),
                ReleaseDecision::Bridged(BridgeRelease::Bridge(w)) => Some(w),
                _ => None,
            };
            &&& after.last_event_time == time
            &&& goes_to matches Some(w) ==> sends(actions, config.drop(w, time))
                && after.drop_target == Some(w) && after.drop_target_data_requests == 0
                && after.current_target == session.current_target
            &&& goes_to is None ==> !sends_type(actions, config.atoms.xdnd_drop)
                && after.drop_target == session.drop_target && after.current_target is None
                && after.accepted_target is None && (session.current_target matches Some(w)
                ==> sends(actions, config.leave(w)))
            &&& forall|i: int, w: u32, when: u32|
                0 <= i < actions.len() && #[trigger] actions[i] == XdndAction::Send(
                    #[trigger] config.drop(w, when),
                ) ==> goes_to == Some(w)
        }),
{
    let actions = session.releasing(config, event, decision);
    match decision {
        ReleaseDecision::Onto(w) => {
            assert(actions[2] == XdndAction::Send(
                config.drop(w, session.timed(event.time).last_event_time),
            ));
        },
        ReleaseDecision::Bridged(release) => {
            assert(actions[3] == XdndAction::Send(
                config.drop(release.target(), session.timed(event.time).last_event_time),
            ));
        },
        _ => {
            if let Some(w) = session.current_target {
                assert(actions[1] == XdndAction::Send(config.leave(w)));
            }
        },
    }
}

// ---------------------------------------------------------------------------
// Who accepts the drag
// ---------------------------------------------------------------------------

/// The lowest bit of a status message decides. A window that sets it is the one that
/// accepts the drag, and a named one is remembered. A window that clears it no longer
/// accepts, if it did; other windows are not affected. Nothing else of the drag changes.
pub proof fn status_decides_who_accepts(
    session: XdndSession,
    status: StatusMessage,
    target_is_real: bool,
)
    ensures
        ({
            let after = session.informed(status, target_is_real);
            let yes = status.flags % 2 == 1;
            &&& yes ==> after.accepted_target == Some(status.target)
            &&& yes && target_is_real ==> after.last_real_accepted_target == Some(status.target)
            &&& yes && !target_is_real ==> after.last_real_accepted_target
                == session.last_real_accepted_target
            &&& !yes ==> after.accepted_target != Some(status.target)
            &&& !yes && session.accepted_target != Some(status.target) ==> after.accepted_target
                == session.accepted_target && after.last_real_accepted_target
                == session.last_real_accepted_target
            &&& !yes && session.accepted_target == Some(status.target)
                ==> after.last_real_accepted_target != Some(status.target)
            &&& !yes && session.last_real_accepted_target != Some(status.target)
                ==> after.last_real_accepted_target == session.last_real_accepted_target
            &&& after.current_target == session.current_target
            &&& after.drop_target == session.drop_target
            &&& after.data_requests == session.data_requests
            &&& after.last_real_target == session.last_real_target
        }),
{
}

/// A window that starts to accept is reported once, until another window reports.
pub proof fn acceptance_is_reported_once(
    config: XdndConfig,
    session: XdndSession,
    status: StatusMessage,
    again: StatusMessage,
    target_is_real: bool,
)
    requires
        status.flags % 2 == 1,
        again.flags % 2 == 1,
        again.target == status.target,
        session.last_logged_accept != Some(status.target),
    ensures
        session.informing(config, status).len() == 1,
        session.informed(status, target_is_real).informing(config, again).len() == 0,
{
}

// ---------------------------------------------------------------------------
// What a request is answered
// ---------------------------------------------------------------------------

/// Each form is served exactly for the atoms that ask for it: none of the atoms of the
/// offered forms is refused, and no atom is served in a form that it does not name.
pub proof fn requests_are_served_in_their_form(config: XdndConfig, request: SelectionRequest)
    ensures
        ({
            let a = config.atoms;
            let t = request.target;
            let form = config.form(request);
            let portal = t == a.application_vnd_portal_files || t
                == a.application_vnd_portal_filetransfer;
            let plain = t == a.text_plain || t == a.text_plain_utf8 || t == a.utf8_string || t
                == a.string;
            let uris = t == a.text_uri_list || t == a.text_uri_list_utf8 || t == a.text_x_uri || t
                == a.application_x_kde4_urilist;
            let gnome = t == a.x_special_gnome_copied_files;
            &&& request.selection != a.xdnd_selection ==> form == SelectionForm::Refused
            &&& request.selection == a.xdnd_selection ==> {
                &&& form == SelectionForm::Refused <==> t != a.targets && !plain && !uris && !gnome
                    && !(config.portal && portal)
                &&& form == SelectionForm::Targets <==> t == a.targets
                &&& form == SelectionForm::PortalKey ==> config.portal && portal
                &&& form == SelectionForm::GnomeFiles ==> gnome
                &&& form == SelectionForm::PlainFiles ==> plain
                &&& form == SelectionForm::UriList ==> uris
            }
        }),
{
}

/// A request is answered to the window that asked, with what it asked. Data is in the
/// property that it named, or in one named like the form where it named none; where there
/// is no data, there is no property.
pub proof fn answers_go_to_the_window_that_asked(
    config: XdndConfig,
    request: SelectionRequest,
    payload: FileDragPayloadData,
    portal_key: Option<Vec<u8>>,
    offered: Seq<u32>,
)
    requires
        config.portal == portal_key is Some,
    ensures
        ({
            let answer = answered(config, request, payload, portal_key, offered);
            &&& answer.notify.time == request.time
            &&& answer.notify.requestor == request.requestor
            &&& answer.notify.selection == request.selection
            &&& answer.notify.target == request.target
            &&& answer.data is None ==> answer.notify.property == 0
            &&& answer.data is Some && request.property != 0 ==> answer.notify.property
                == request.property
            &&& answer.data is Some && request.property == 0 ==> answer.notify.property
                == request.target
        }),
{
}

/// The data of an answer is what its form says: the list of forms, the portal key, or the
/// dragged files as a URI list, as plain paths or as a copied-files list.
pub proof fn answers_hold_the_files_as_asked(
    config: XdndConfig,
    request: SelectionRequest,
    payload: FileDragPayloadData,
    portal_key: Option<Vec<u8>>,
    offered: Seq<u32>,
)
    requires
        config.portal == portal_key is Some,
        request.selection == config.atoms.xdnd_selection,
    ensures
        ({
            let data = answered(config, request, payload, portal_key, offered).data;
            match config.form(request) {
                SelectionForm::Refused => data is None,
                SelectionForm::Targets => data matches Some(DataView::Targets(list)) && list.len()
                    == offered.len() + 1 && list[0] == config.atoms.targets && (forall|i: int|
                    0 <= i < offered.len() ==> list[i + 1] == #[trigger] offered[i]),
                SelectionForm::PortalKey => data == Some(DataView::Bytes((portal_key->0)@)),
                SelectionForm::GnomeFiles => data == Some(
                    DataView::Bytes(payload@.gnome_copied_files),
                ),
                SelectionForm::PlainFiles => data == Some(DataView::Bytes(payload@.plain_file_list)),
                SelectionForm::UriList => data == Some(DataView::Bytes(payload@.uri_list)),
            }
        }),
{
}

/// A request for the drag selection is counted; one that hands out files is also counted as
/// a data request, after a drop as one after the drop, and from the drop target as one of
/// it. A named window that asks is remembered. A request for another selection changes
/// nothing.
pub proof fn requests_are_counted_by_who_asks_and_when(
    config: XdndConfig,
    session: XdndSession,
    request: SelectionRequest,
    requestor_is_real: bool,
)
    requires
        session.valid(),
        session.selection_requests < usize::MAX,
    ensures
        ({
            let after = session.asked(config, request, requestor_is_real);
            let ours = request.selection == config.atoms.xdnd_selection;
            let form = config.form(request);
            let files = ours && form != SelectionForm::Refused && form != SelectionForm::Targets;
            &&& !ours ==> after == session
            &&& ours ==> after.selection_requests == session.selection_requests + 1
            &&& files ==> after.data_requests == session.data_requests + 1
            &&& !files ==> after.data_requests == session.data_requests
                && after.post_drop_data_requests == session.post_drop_data_requests
                && after.drop_target_data_requests == session.drop_target_data_requests
                && after.last_real_data_target == session.last_real_data_target
            &&& files && session.drop_target is Some ==> after.post_drop_data_requests
                == session.post_drop_data_requests + 1
            &&& session.drop_target is None ==> after.post_drop_data_requests
                == session.post_drop_data_requests
            &&& files && session.drop_target == Some(request.requestor)
                ==> after.drop_target_data_requests == session.drop_target_data_requests + 1
            &&& session.drop_target != Some(request.requestor) ==> after.drop_target_data_requests
                == session.drop_target_data_requests
            &&& files && requestor_is_real ==> after.last_real_data_target == Some(
                request.requestor,
            )
            &&& !requestor_is_real ==> after.last_real_data_target == session.last_real_data_target
            &&& after.current_target == session.current_target
            &&& after.drop_target == session.drop_target
            &&& after.accepted_target == session.accepted_target
        }),
{
}

// ---------------------------------------------------------------------------
// The handover
// ---------------------------------------------------------------------------

/// A pointer that was over a bridge at the last sample, and still is, with the button held
/// and off the editor, hands the drag over.
pub proof fn settled_pointer_hands_the_drag_over(
    session: XdndSession,
    seen: PointerObservation,
    sample: PointerSample,
)
    requires
        session.bridge_hover_streak >= 1,
        seen.target == session.current_target,
        sample.route_enabled,
        sample.button1_held,
        seen.over_bridge,
        !seen.over_origin,
        !seen.target_is_real,
    ensures
        session.updated(seen, sample).handoff_performed,
{
}

/// The first sample over a bridge, after none that counted, does not hand the drag over.
pub proof fn one_sample_does_not_hand_the_drag_over(
    session: XdndSession,
    seen: PointerObservation,
    sample: PointerSample,
)
    requires
        session.bridge_hover_streak == 0,
        !session.handoff_performed,
    ensures
        !session.updated(seen, sample).handoff_performed,
        session.updated(seen, sample).bridge_hover_streak <= 1,
{
}

/// A handover first leaves the entered window, then removes the preview where there is one,
/// and at last gives up the selection and the source window.
pub proof fn handover_cleans_up_in_order(config: XdndConfig, session: XdndSession)
    ensures
        ({
            let actions = session.handing_over(config);
            let n = actions.len() as int;
            &&& n >= 3
            &&& actions[n - 1] == XdndAction::DestroySource
            &&& actions[n - 2] == XdndAction::ReleaseSelection
            &&& session.preview ==> actions[n - 3] == XdndAction::DestroyPreview
            &&& !session.preview ==> !actions.contains(XdndAction::DestroyPreview)
            &&& session.current_target matches Some(w) ==> actions[1] == XdndAction::Send(
                config.leave(w),
            )
            &&& session.handed_over().handoff_performed
            &&& session.handed_over().current_target is None
            &&& !session.handed_over().preview
        }),
{
    let actions = session.handing_over(config);
    if !session.preview {
        assert forall|i: int| 0 <= i < actions.len() implies actions[i]
            != XdndAction::DestroyPreview by {
        }
    }
}

/// The counters of the report: requests before the drop are the data requests without those
/// after it.
pub proof fn report_counts_every_request(session: XdndSession)
    requires
        session.valid(),
        session.selection_requests <= u32::MAX,
    ensures
        session.stats().selection_requests == session.selection_requests,
        session.stats().pre_drop_data_requests + session.stats().post_drop_data_requests
            == session.data_requests,
        session.stats().post_drop_data_requests == session.post_drop_data_requests,
        session.stats().drop_target_data_requests == session.drop_target_data_requests,
{
}

/// A drag starts fresh: nothing was entered, accepted, dropped or asked for.
pub proof fn drag_starts_fresh(time: u32, preview: bool)
    ensures
        ({
            let session = XdndSession::started(time, preview);
            &&& session.valid()
            &&& session.last_event_time == time
            &&& session.preview == preview
            &&& session.current_target is None
            &&& session.accepted_target is None
            &&& session.drop_target is None
            &&& session.last_real_target is None
            &&& session.last_real_data_target is None
            &&& session.last_real_accepted_target is None
            &&& session.last_logged_accept is None
            &&& session.selection_requests == 0
            &&& session.data_requests == 0
            &&& session.bridge_hover_streak == 0
            &&& !session.saw_pointer_leave_origin
            &&& !session.handoff_performed
            &&& !session.logged_data_request
            &&& !session.logged_handoff_suppressed_origin
        }),
{
}

/// The first request for the dragged files is reported; later ones only when all
/// diagnostics are wanted, and other requests never are.
pub proof fn first_data_request_is_reported(
    config: XdndConfig,
    session: XdndSession,
    request: SelectionRequest,
    requestor_is_real: bool,
)
    ensures
        ({
            let form = config.form(request);
            let files = form != SelectionForm::Refused && form != SelectionForm::Targets;
            let notes = session.asking(config, request);
            &&& files && !session.logged_data_request ==> notes.len() == 1
                && notes[0] == XdndAction::Note(
                XdndNote::Requested {
                    after_drop: session.drop_target is Some,
                    requestor: request.requestor,
                    target: request.target,
                },
            )
            &&& files && session.logged_data_request ==> notes.len() == (if config.verbose {
                1nat
            } else {
                0nat
            })
            &&& !files ==> notes.len() == 0
            &&& files && request.selection == config.atoms.xdnd_selection ==> session.asked(
                config,
                request,
                requestor_is_real,
            ).logged_data_request
        }),
{
}

/// A release is noted at the place where the server reports it and at the place where
/// windows are looked up, and a drop is noted with the window that it goes to. A release
/// onto a bridge is also noted with how the window was found.
pub proof fn releases_are_noted_where_they_were(
    config: XdndConfig,
    session: XdndSession,
    event: ButtonRelease,
    decision: ReleaseDecision,
    release: BridgeRelease,
    window: u32,
)
    ensures
        session.releasing(config, event, decision)[0] == XdndAction::Note(
            XdndNote::Released { raw_x: event.raw_x, raw_y: event.raw_y, x: event.x, y: event.y },
        ),
        session.releasing(config, event, ReleaseDecision::Onto(window))[1] == XdndAction::Note(
            XdndNote::DropSent(window),
        ),
        session.releasing(config, event, ReleaseDecision::Bridged(release))[1] == XdndAction::Note(
            XdndNote::Bridged { release, x: event.x, y: event.y, preview: session.preview },
        ),
        session.releasing(config, event, ReleaseDecision::Bridged(release))[2] == XdndAction::Note(
            XdndNote::DropSent(
                match release {
                    BridgeRelease::Resolved(w) => w,
                    BridgeRelease::Reused(w) => w,
                    BridgeRelease::Bridge(w) => w,
                },
            ),
        ),
{
}

/// That a drag is not handed over near its origin is reported once; a verbose drag
/// reports it each time. Other reasons are reported by verbose drags only, and leave the
/// session as it is.
pub proof fn suppression_near_the_origin_is_reported_once(
    config: XdndConfig,
    session: XdndSession,
    decision: BridgeHandoffDecision,
    later: BridgeHandoffDecision,
)
    requires
        decision is SuppressedStillOverOrigin || decision is SuppressedNotLeftOrigin,
        later is SuppressedStillOverOrigin || later is SuppressedNotLeftOrigin,
    ensures
        !session.logged_handoff_suppressed_origin || config.verbose ==> session.deciding(
            config,
            decision,
        ) == seq![XdndAction::Note(XdndNote::Suppressed(decision))],
        !config.verbose ==> session.decided(decision).deciding(config, later).len() == 0,
        session.decided(decision) == (XdndSession {
            logged_handoff_suppressed_origin: true,
            ..session
        }),
        session.decided(BridgeHandoffDecision::SuppressedRealXdndTarget) == session,
        session.deciding(config, BridgeHandoffDecision::SuppressedRealXdndTarget).len() == (
        if config.verbose {
            1int
        } else {
            0int
        }),
{
}

/// Files that are asked for after the drop are the drop payload, and before it the hover
/// payload.
pub proof fn payloads_are_told_apart(after_drop: bool)
    ensures
        request_phase(after_drop) == "drop payload"@ <==> after_drop,
        request_phase(after_drop) == "hover payload"@ <==> !after_drop,
{
    reveal_strlit("drop payload");
    reveal_strlit("hover payload");
    assert("drop payload"@.len() != "hover payload"@.len());
}

/// What a window says of accepting is reported with its own values: that it accepts,
/// unless the window is the one that was noted last, and that it does not, by a verbose
/// drag only, unless the window is the one noted last and had not accepted.
pub proof fn status_is_reported_with_its_values(
    config: XdndConfig,
    session: XdndSession,
    status: StatusMessage,
)
    ensures
        ({
            let yes = status.flags % 2 == 1;
            let reported = session.informing(config, status);
            let known = session.last_logged_accept == Some(status.target);
            &&& yes && !known ==> reported == seq![
                XdndAction::Note(
                    XdndNote::Accepts {
                        target: status.target,
                        flags: status.flags,
                        action: status.action,
                    },
                ),
            ]
            &&& yes && known ==> reported.len() == 0
            &&& !yes && !config.verbose ==> reported.len() == 0
            &&& !yes && config.verbose && (!known || session.accepted_target == Some(status.target))
                ==> reported == seq![
                XdndAction::Note(
                    XdndNote::Declines {
                        target: status.target,
                        flags: status.flags,
                        action: status.action,
                    },
                ),
            ]
            &&& !yes && known && session.accepted_target != Some(status.target)
                ==> reported.len() == 0
        }),
{
}

/// A window that accepted and then refused is reported when it accepts again, and the
/// window that reports is otherwise the one that is noted.
pub proof fn withdrawn_acceptance_is_reported_again(
    config: XdndConfig,
    session: XdndSession,
    refusal: StatusMessage,
    again: StatusMessage,
    target_is_real: bool,
)
    requires
        session.accepted_target == Some(refusal.target),
        refusal.flags % 2 == 0,
        again.flags % 2 == 1,
        again.target == refusal.target,
    ensures
        session.informed(refusal, target_is_real).informing(config, again).len() == 1,
        session.informed(refusal, target_is_real).accepted_target is None,
        session.informed(again, target_is_real).last_logged_accept == Some(again.target),
{
}

} // verus!
