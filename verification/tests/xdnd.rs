use audio_plugin_dnd::atoms::{xdnd_atom_names, XdndAtoms};
use audio_plugin_dnd::desktop::{DesktopFacts, Finding, Question};
use audio_plugin_dnd::dnd::{DragPhase, DragSessionReport, DragSessionStats, DragTargetKind};
use audio_plugin_dnd::handoff::BridgeHandoffDecision;
use audio_plugin_dnd::payload::{FileDragPayloadData, FileForms};
use audio_plugin_dnd::platform::{DragCompletion, DragFailureKind};
use audio_plugin_dnd::target::{BridgeRelease, Probe};
use audio_plugin_dnd::xdnd::{
    answer_selection, observe_pointer, pack_position, same_window, selection_bytes,
    selection_targets, verbose_logging, ButtonRelease, ClientMessage, PointerObservation,
    PointerSample, ReleaseDecision, SelectionAnswer, SelectionData, SelectionForm,
    SelectionRequest, StatusMessage, XdndAction, XdndConfig, XdndNote, XdndSession, ENTER_FLAGS,
};
use audio_plugin_dnd::xdnd_drive::{DragInput, DragReply, XdndDrag};
use audio_plugin_dnd::xdnd_run::{
    client_message_event, export_fallback_hint, fallback_hint_for, session_report, EventTask,
    RunStep, XdndEvent, XdndRun, DROP_FINISH_WAIT, DROP_READY_FINISH_WAIT, DROP_SELECTION_GRACE,
    XDND_DEADLINE,
};
use std::path::PathBuf;

const SOURCE: u32 = 900;
const MS: u64 = 1_000_000;

fn atoms() -> XdndAtoms {
    let interned: Vec<u32> = (0..xdnd_atom_names().len() as u32).map(|i| 100 + i).collect();
    XdndAtoms::new(&interned).expect("as many atoms as names")
}

fn config() -> XdndConfig {
    XdndConfig {
        drag_id: 7,
        atoms: atoms(),
        source_window: SOURCE,
        origin_window: Some(50),
        enter_types: (1, 2, 3),
        portal: false,
        verbose: false,
    }
}

fn send(target: u32, message_type: u32, data: (u32, u32, u32, u32, u32)) -> XdndAction {
    XdndAction::Send(ClientMessage {
        target,
        message_type,
        data,
    })
}

fn over(target: Option<u32>) -> PointerObservation {
    PointerObservation {
        target,
        left_bridge: false,
        target_is_real: target.is_some(),
        over_origin: false,
        over_bridge: false,
    }
}

fn over_bridge(target: u32) -> PointerObservation {
    PointerObservation {
        target: Some(target),
        left_bridge: false,
        target_is_real: false,
        over_origin: false,
        over_bridge: true,
    }
}

fn sample() -> PointerSample {
    PointerSample {
        raw_x: 20,
        raw_y: 30,
        x: 10,
        y: 15,
        button1_held: true,
        route_enabled: true,
    }
}

fn release_event() -> ButtonRelease {
    ButtonRelease {
        time: 55,
        raw_x: 20,
        raw_y: 30,
        x: 10,
        y: 15,
    }
}

fn request(requestor: u32, target: u32) -> SelectionRequest {
    SelectionRequest {
        time: 60,
        requestor,
        selection: atoms().xdnd_selection,
        target,
        property: 333,
    }
}

fn payload() -> FileDragPayloadData {
    FileDragPayloadData::new(
        vec![PathBuf::from("/tmp/a.flac")],
        FileForms {
            uri_list: b"file:///tmp/a.flac\r\n".to_vec(),
            gnome_copied_files: b"copy\nfile:///tmp/a.flac".to_vec(),
            plain_file_list: b"/tmp/a.flac\n".to_vec(),
            offers: Vec::new(),
        },
    )
    .expect("one file")
}

#[test]
fn atoms_follow_their_names() {
    let names = xdnd_atom_names();
    let atoms = atoms();
    let at = |name: &str| 100 + names.iter().position(|n| *n == name).expect("name") as u32;
    assert_eq!(atoms.xdnd_selection, at("XdndSelection"));
    assert_eq!(atoms.xdnd_enter, at("XdndEnter"));
    assert_eq!(atoms.xdnd_drop, at("XdndDrop"));
    assert_eq!(atoms.text_uri_list, at("text/uri-list"));
    assert_eq!(atoms.net_active_window, at("_NET_ACTIVE_WINDOW"));
    assert!(XdndAtoms::new(&vec![1, 2, 3]).is_none());
    assert_eq!(atoms.mime_targets().text_plain, atoms.text_plain);
}

#[test]
fn positions_are_packed_into_one_word() {
    assert_eq!(pack_position(1, 2), 0x0001_0002);
    assert_eq!(pack_position(-1, 2), 0xffff_0002);
    assert_eq!(pack_position(3, -2), 0x0003_fffe);
    assert!(same_window(Some(1), Some(1)));
    assert!(same_window(None, None));
    assert!(!same_window(Some(1), None));
}

#[test]
fn verbosity_is_switched_on() {
    assert!(verbose_logging(Some("1")));
    assert!(verbose_logging(Some("true")));
    assert!(!verbose_logging(Some("0")));
    assert!(!verbose_logging(None));
}

#[test]
fn entering_and_leaving_go_together() {
    let config = config();
    let a = config.atoms;
    let mut session = XdndSession::new(5, true);
    let actions = session.update_target_from_pointer(&config, &over(Some(11)), &sample());
    assert_eq!(
        actions,
        vec![
            XdndAction::AnnounceTypes,
            send(11, a.xdnd_enter, (SOURCE, ENTER_FLAGS, 1, 2, 3)),
            send(
                11,
                a.xdnd_position,
                (SOURCE, 0, 0x000a_000f, 5, a.xdnd_action_copy)
            ),
            XdndAction::MovePreview { x: 20, y: 30 },
        ]
    );
    assert_eq!(session.last_real_target, Some(11));
    session.note_event_time(9);
    let actions = session.update_target_from_pointer(&config, &over(Some(12)), &sample());
    assert_eq!(actions[0], send(11, a.xdnd_leave, (SOURCE, 0, 0, 0, 0)));
    assert_eq!(actions[2], send(12, a.xdnd_enter, (SOURCE, ENTER_FLAGS, 1, 2, 3)));
    let actions = session.update_target_from_pointer(&config, &over(Some(12)), &sample());
    assert_eq!(
        actions,
        vec![
            send(
                12,
                a.xdnd_position,
                (SOURCE, 0, 0x000a_000f, 9, a.xdnd_action_copy)
            ),
            XdndAction::MovePreview { x: 20, y: 30 },
        ]
    );
    assert_eq!(
        session.leave_current_target(&config),
        vec![send(12, a.xdnd_leave, (SOURCE, 0, 0, 0, 0))]
    );
    assert_eq!(session.current_target, None);
    assert_eq!(session.leave_current_target(&config), vec![]);
}

#[test]
fn a_settled_pointer_over_a_bridge_hands_the_drag_over() {
    let config = config();
    let a = config.atoms;
    let mut drag = XdndDrag::start(XdndSession::new(5, true), 0);
    let input = DragInput::Sampled {
        seen: over_bridge(40),
        sample: sample(),
    };
    let (_, reply) = drag.advance(&config, &input);
    assert_eq!(reply, DragReply::Continue);
    let (actions, reply) = drag.advance(&config, &input);
    assert_eq!(reply, DragReply::Handoff);
    let tail = &actions[actions.len() - 5..];
    assert_eq!(
        tail,
        &[
            XdndAction::Note(XdndNote::Handoff),
            send(40, a.xdnd_leave, (SOURCE, 0, 0, 0, 0)),
            XdndAction::DestroyPreview,
            XdndAction::ReleaseSelection,
            XdndAction::DestroySource,
        ]
    );
    assert!(drag.session.handoff_performed);
    // Afterwards nothing counts any more.
    let before = drag;
    let (actions, reply) = drag.advance(&config, &input);
    assert_eq!((actions.len(), reply), (0, DragReply::Handoff));
    assert_eq!(drag, before);
    assert_eq!(drag.run.step(&drag.session, 0), RunStep::Handoff);
}

#[test]
fn a_suppressed_handover_is_reported_once() {
    let config = config();
    let mut session = XdndSession::new(5, false);
    let seen = PointerObservation {
        over_origin: true,
        ..over_bridge(40)
    };
    let note = XdndAction::Note(XdndNote::Suppressed(
        BridgeHandoffDecision::SuppressedStillOverOrigin,
    ));
    let actions = session.update_target_from_pointer(&config, &seen, &sample());
    assert!(actions.contains(&note));
    let actions = session.update_target_from_pointer(&config, &seen, &sample());
    assert!(!actions.contains(&note));
    let verbose = XdndConfig {
        verbose: true,
        ..config
    };
    let actions = session.update_target_from_pointer(&verbose, &seen, &sample());
    assert!(actions.contains(&note));
}

#[test]
fn a_whole_drag_is_confirmed() {
    let config = config();
    let a = config.atoms;
    let mut drag = XdndDrag::start(XdndSession::new(5, true), 100);
    drag.advance(
        &config,
        &DragInput::Moved {
            time: 6,
            seen: over(Some(11)),
            sample: sample(),
        },
    );
    let (actions, _) = drag.advance(
        &config,
        &DragInput::Status {
            status: StatusMessage {
                target: 11,
                flags: 1,
                action: a.xdnd_action_copy,
            },
            target_is_real: true,
        },
    );
    assert_eq!(
        actions,
        vec![XdndAction::Note(XdndNote::Accepts {
            target: 11,
            flags: 1,
            action: a.xdnd_action_copy
        })]
    );
    let (actions, reply) = drag.advance(
        &config,
        &DragInput::Released {
            event: release_event(),
            decision: ReleaseDecision::Onto(11),
            now: 10 * MS,
        },
    );
    assert_eq!(reply, DragReply::Continue);
    assert_eq!(
        actions,
        vec![
            XdndAction::Note(XdndNote::Released {
                raw_x: 20,
                raw_y: 30,
                x: 10,
                y: 15
            }),
            XdndAction::Note(XdndNote::DropSent(11)),
            send(11, a.xdnd_drop, (SOURCE, 0, 55, 0, 0)),
        ]
    );
    assert_eq!(drag.run.finish_deadline, Some(10 * MS + DROP_FINISH_WAIT));
    // The pointer and a second release no longer count.
    let before = drag;
    let (actions, _) = drag.advance(
        &config,
        &DragInput::Sampled {
            seen: over(Some(12)),
            sample: sample(),
        },
    );
    assert_eq!(actions.len(), 0);
    let (actions, _) = drag.advance(
        &config,
        &DragInput::Released {
            event: release_event(),
            decision: ReleaseDecision::Onto(12),
            now: 11 * MS,
        },
    );
    assert_eq!(actions.len(), 0);
    assert_eq!(drag, before);
    drag.advance(
        &config,
        &DragInput::Selection {
            request: request(11, a.text_uri_list),
            requestor_is_real: true,
            now: 20 * MS,
        },
    );
    assert_eq!(drag.run.finish_deadline, Some(20 * MS + DROP_READY_FINISH_WAIT));
    assert_eq!(drag.session.drop_target_data_requests, 1);
    drag.advance(&config, &DragInput::Finished { now: 30 * MS });
    assert_eq!(drag.run.finish_deadline, Some(30 * MS + DROP_SELECTION_GRACE));
    assert_eq!(drag.run.step(&drag.session, 30 * MS), RunStep::Poll);
    assert_eq!(
        drag.run.step(&drag.session, 31 * MS + DROP_SELECTION_GRACE),
        RunStep::GraceOver
    );
    let report = session_report(&drag.run, &drag.session, false, "hint");
    assert_eq!(report.completion, DragCompletion::Confirmed);
    assert_eq!(report.detail, "target sent XdndFinished");
    assert_eq!(
        report.stats,
        DragSessionStats {
            selection_requests: 1,
            pre_drop_data_requests: 0,
            post_drop_data_requests: 1,
            drop_target_data_requests: 1,
        }
    );
}

#[test]
fn releases_without_a_target_fail() {
    let config = config();
    let a = config.atoms;
    for decision in [ReleaseDecision::NoTarget, ReleaseDecision::BackOnOrigin] {
        let mut drag = XdndDrag::start(XdndSession::new(5, true), 0);
        drag.session.current_target = Some(50);
        let (actions, reply) = drag.advance(
            &config,
            &DragInput::Released {
                event: release_event(),
                decision,
                now: 0,
            },
        );
        assert_eq!(reply, DragReply::Failed(decision));
        assert_eq!(actions[1], send(50, a.xdnd_leave, (SOURCE, 0, 0, 0, 0)));
        assert!(!drag.run.sent_drop);
    }
    assert_eq!(
        ReleaseDecision::NoTarget.error("nothing there".to_string()),
        Some("nothing there".to_string())
    );
    assert_eq!(
        ReleaseDecision::BackOnOrigin.error(String::new()),
        Some("drop released back on plugin window; cancelled".to_string())
    );
    assert_eq!(ReleaseDecision::Onto(1).error(String::new()), None);
}

#[test]
fn releases_are_decided_by_the_target() {
    let probe = Probe {
        root: 1,
        source: SOURCE,
        origin: Some(50),
    };
    let mut facts = DesktopFacts::new();
    let mut session = XdndSession::new(5, false);
    assert!(matches!(
        session.decide_release(&facts, &probe),
        Finding::Known(ReleaseDecision::NoTarget)
    ));
    session.current_target = Some(50);
    assert!(matches!(
        session.decide_release(&facts, &probe),
        Finding::Known(ReleaseDecision::BackOnOrigin)
    ));
    session.current_target = Some(11);
    assert!(matches!(
        session.decide_release(&facts, &probe),
        Finding::Ask(Question::Aware(11))
    ));
    facts.learn_aware(11, Ok(true));
    facts.learn_identity(11, true);
    assert!(matches!(
        session.decide_release(&facts, &probe),
        Finding::Known(ReleaseDecision::Onto(11))
    ));
}

#[test]
fn drops_over_a_bridge_say_where_they_go() {
    let config = config();
    let mut session = XdndSession::new(5, true);
    session.current_target = Some(40);
    let release = BridgeRelease::Reused(11);
    let (actions, sent) =
        session.handle_button_release(&config, &release_event(), ReleaseDecision::Bridged(release));
    assert!(sent);
    assert_eq!(
        actions[1],
        XdndAction::Note(XdndNote::Bridged {
            release,
            x: 10,
            y: 15,
            preview: true
        })
    );
    assert_eq!(actions[2], XdndAction::Note(XdndNote::DropSent(11)));
    assert_eq!(session.drop_target, Some(11));
}

#[test]
fn the_pointer_is_observed() {
    let mut facts = DesktopFacts::new();
    facts.learn_aware(40, Ok(true));
    facts.learn_identity(40, false);
    facts.learn_aware(11, Ok(true));
    facts.learn_identity(11, true);
    facts.learn_under_pointer(50, false);
    let seen = |current, target, route| match observe_pointer(&facts, Some(50), current, target, route) {
        Finding::Known(seen) => seen,
        other => panic!("{other:?}"),
    };
    let onto_bridge = seen(None, Some(40), true);
    assert_eq!(onto_bridge, over_bridge(40));
    assert!(!seen(None, Some(40), false).over_bridge);
    let off_bridge = seen(Some(40), Some(11), true);
    assert!(off_bridge.left_bridge && off_bridge.target_is_real);
    assert!(seen(Some(40), None, true).left_bridge);
    assert!(!seen(Some(40), Some(40), true).left_bridge);
    assert!(matches!(
        observe_pointer(&facts, Some(51), None, None, true),
        Finding::Ask(Question::UnderPointer(51))
    ));
}

#[test]
fn declined_drags_are_forgotten() {
    let verbose = XdndConfig {
        verbose: true,
        ..config()
    };
    let mut session = XdndSession::new(5, false);
    let status = |flags| StatusMessage {
        target: 11,
        flags,
        action: 4,
    };
    session.handle_status(&verbose, &status(3), true);
    assert_eq!(session.accepted_target, Some(11));
    assert_eq!(session.last_real_accepted_target, Some(11));
    assert_eq!(session.handle_status(&verbose, &status(1), true), vec![]);
    let actions = session.handle_status(&verbose, &status(2), true);
    assert_eq!(
        actions,
        vec![XdndAction::Note(XdndNote::Declines {
            target: 11,
            flags: 2,
            action: 4
        })]
    );
    assert_eq!(session.accepted_target, None);
    assert_eq!(session.last_real_accepted_target, None);
    assert_eq!(session.last_logged_accept, None);
}

#[test]
fn requests_are_served_in_the_form_they_ask_for() {
    let config = config();
    let a = config.atoms;
    let portal = XdndConfig {
        portal: true,
        ..config
    };
    let form = |target| config.selection_form(&request(11, target));
    assert_eq!(form(a.targets), SelectionForm::Targets);
    assert_eq!(form(a.text_uri_list), SelectionForm::UriList);
    assert_eq!(form(a.text_uri_list_utf8), SelectionForm::UriList);
    assert_eq!(form(a.text_x_uri), SelectionForm::UriList);
    assert_eq!(form(a.application_x_kde4_urilist), SelectionForm::UriList);
    assert_eq!(form(a.x_special_gnome_copied_files), SelectionForm::GnomeFiles);
    assert_eq!(form(a.text_plain), SelectionForm::PlainFiles);
    assert_eq!(form(a.text_plain_utf8), SelectionForm::PlainFiles);
    assert_eq!(form(a.utf8_string), SelectionForm::PlainFiles);
    assert_eq!(form(a.string), SelectionForm::PlainFiles);
    assert_eq!(form(a.application_vnd_portal_files), SelectionForm::Refused);
    assert_eq!(form(9999), SelectionForm::Refused);
    assert_eq!(
        portal.selection_form(&request(11, a.application_vnd_portal_files)),
        SelectionForm::PortalKey
    );
    assert_eq!(
        portal.selection_form(&request(11, a.application_vnd_portal_filetransfer)),
        SelectionForm::PortalKey
    );
    let other = SelectionRequest {
        selection: 1,
        ..request(11, a.targets)
    };
    assert_eq!(config.selection_form(&other), SelectionForm::Refused);

    let payload = payload();
    let key = Some(b"key".to_vec());
    assert_eq!(
        selection_bytes(SelectionForm::UriList, &payload, &None),
        Some(b"file:///tmp/a.flac\r\n".to_vec())
    );
    assert_eq!(
        selection_bytes(SelectionForm::GnomeFiles, &payload, &None),
        Some(b"copy\nfile:///tmp/a.flac".to_vec())
    );
    assert_eq!(
        selection_bytes(SelectionForm::PlainFiles, &payload, &None),
        Some(b"/tmp/a.flac\n".to_vec())
    );
    assert_eq!(
        selection_bytes(SelectionForm::PortalKey, &payload, &key),
        Some(b"key".to_vec())
    );
    assert_eq!(selection_bytes(SelectionForm::PortalKey, &payload, &None), None);
    assert_eq!(selection_bytes(SelectionForm::Refused, &payload, &key), None);
    assert_eq!(selection_targets(5, &vec![6, 7]), vec![5, 6, 7]);

    let asked = request(11, 222);
    assert_eq!(asked.notify(SelectionForm::Refused).property, 0);
    assert_eq!(asked.notify(SelectionForm::UriList).property, 333);
    let bare = SelectionRequest {
        property: 0,
        ..asked
    };
    assert_eq!(bare.notify(SelectionForm::UriList).property, 222);
    assert_eq!(bare.notify(SelectionForm::UriList).requestor, 11);
}

#[test]
fn requests_are_counted() {
    let config = config();
    let a = config.atoms;
    let mut session = XdndSession::new(5, false);
    let (payload, offered) = (payload(), vec![6, 7]);
    let ask = |session: &mut XdndSession, request: &SelectionRequest, real: bool| {
        session.handle_selection_request(&config, request, real, &payload, &None, &offered)
    };
    assert_eq!(session.payload_request_phase(), "hover payload");
    let other = SelectionRequest {
        selection: 1,
        ..request(11, a.targets)
    };
    let (_, answer) = ask(&mut session, &other, true);
    assert_eq!((answer.notify.property, answer.data), (0, None));
    assert_eq!(session.selection_requests, 0);
    let (_, answer) = ask(&mut session, &request(11, a.targets), true);
    assert_eq!(
        answer.data,
        Some(SelectionData::Targets(vec![a.targets, 6, 7]))
    );
    assert_eq!((session.selection_requests, session.data_requests), (1, 0));
    let (actions, answer) = ask(&mut session, &request(11, a.text_plain), true);
    assert_eq!(
        answer.data,
        Some(SelectionData::Bytes(b"/tmp/a.flac\n".to_vec()))
    );
    assert_eq!(
        actions,
        vec![XdndAction::Note(XdndNote::Requested {
            after_drop: false,
            requestor: 11,
            target: a.text_plain
        })]
    );
    assert_eq!(session.last_real_data_target, Some(11));
    session.handle_button_release(&config, &release_event(), ReleaseDecision::Onto(12));
    assert_eq!(session.payload_request_phase(), "drop payload");
    let (actions, _) = ask(&mut session, &request(11, a.text_plain), false);
    assert_eq!(actions, vec![]);
    ask(&mut session, &request(12, a.text_plain), false);
    assert_eq!(
        session.session_stats(),
        DragSessionStats {
            selection_requests: 4,
            pre_drop_data_requests: 1,
            post_drop_data_requests: 2,
            drop_target_data_requests: 1,
        }
    );
}

#[test]
fn answers_hold_the_event_and_the_data_of_one_form() {
    let config = config();
    let a = config.atoms;
    let portal = XdndConfig {
        portal: true,
        ..config
    };
    let payload = payload();
    let offered = vec![6, 7];
    let answer = |request: &SelectionRequest| {
        answer_selection(&config, request, &payload, &None, &offered)
    };

    let uris = request(11, a.text_uri_list);
    assert_eq!(
        answer(&uris),
        SelectionAnswer {
            notify: uris.notify(SelectionForm::UriList),
            data: Some(SelectionData::Bytes(b"file:///tmp/a.flac\r\n".to_vec())),
        }
    );
    let copied = answer(&request(11, a.x_special_gnome_copied_files));
    assert_eq!(copied.notify.property, 333);
    assert_eq!(
        copied.data,
        Some(SelectionData::Bytes(b"copy\nfile:///tmp/a.flac".to_vec()))
    );
    let targets = answer(&SelectionRequest {
        property: 0,
        ..request(11, a.targets)
    });
    assert_eq!(targets.notify.property, a.targets);
    assert_eq!(
        targets.data,
        Some(SelectionData::Targets(vec![a.targets, 6, 7]))
    );

    let files = request(11, a.application_vnd_portal_files);
    let refused = answer(&files);
    assert_eq!((refused.notify.property, refused.data), (0, None));
    let key = Some(b"key".to_vec());
    assert_eq!(
        answer_selection(&portal, &files, &payload, &key, &offered),
        SelectionAnswer {
            notify: files.notify(SelectionForm::PortalKey),
            data: Some(SelectionData::Bytes(b"key".to_vec())),
        }
    );
}

#[test]
fn drags_answer_requests_until_they_are_handed_over() {
    let config = config();
    let a = config.atoms;
    let (payload, offered) = (payload(), vec![6, 7]);
    let mut drag = XdndDrag::start(XdndSession::new(5, false), 0);
    let asked = request(11, a.text_plain);
    let mut other = drag;
    let input = DragInput::Selection {
        request: asked,
        requestor_is_real: true,
        now: 9,
    };
    let (actions, reply) = other.advance(&config, &input);
    let served = drag.serve_selection(&config, &asked, true, &payload, &None, &offered, 9);
    assert_eq!(
        served,
        (
            actions,
            reply,
            Some(answer_selection(&config, &asked, &payload, &None, &offered))
        )
    );
    assert_eq!(drag.session.data_requests, 1);
    assert_eq!(drag.session, other.session);

    drag.session.handoff_performed = true;
    let (_, _, answer) =
        drag.serve_selection(&config, &asked, true, &payload, &None, &offered, 10);
    assert_eq!(answer, None);
}

#[test]
fn drags_end_by_their_deadline() {
    let mut run = XdndRun::new(1000);
    let session = XdndSession::new(5, false);
    assert_eq!(run.step(&session, 1000 + XDND_DEADLINE), RunStep::Poll);
    assert_eq!(run.step(&session, 1001 + XDND_DEADLINE), RunStep::TimedOut);
    assert!(!run.note_button(false));
    assert!(!run.note_button(true));
    assert!(run.note_button(false));
    assert_eq!(run.task(XdndEvent::Motion), EventTask::UpdateTarget);
    assert_eq!(run.task(XdndEvent::ButtonPress), EventTask::UpdateTarget);
    assert_eq!(run.task(XdndEvent::ButtonRelease), EventTask::Release);
    assert_eq!(run.task(XdndEvent::Idle), EventTask::SamplePointer);
    assert!(run.note_release(&session, true, 2000));
    assert_eq!(run.task(XdndEvent::Motion), EventTask::Ignore);
    assert_eq!(run.task(XdndEvent::ButtonRelease), EventTask::Ignore);
    assert_eq!(run.task(XdndEvent::Idle), EventTask::Sleep);
    assert_eq!(run.task(XdndEvent::Status), EventTask::TakeStatus);
    assert_eq!(run.task(XdndEvent::Finished), EventTask::TakeFinished);
    assert_eq!(run.task(XdndEvent::SelectionRequest), EventTask::ServeSelection);
    assert_eq!(run.task(XdndEvent::Other), EventTask::Ignore);
    let config = config();
    assert_eq!(client_message_event(&config, config.atoms.xdnd_status), XdndEvent::Status);
    assert_eq!(client_message_event(&config, config.atoms.xdnd_finished), XdndEvent::Finished);
    assert_eq!(client_message_event(&config, config.atoms.xdnd_drop), XdndEvent::Other);
}

#[test]
fn a_released_button_is_seen_by_sampling() {
    let config = config();
    let mut drag = XdndDrag::start(XdndSession::new(5, false), 0);
    let sampled = |held| DragInput::Sampled {
        seen: over(Some(11)),
        sample: PointerSample {
            button1_held: held,
            ..sample()
        },
    };
    assert_eq!(drag.advance(&config, &sampled(false)).1, DragReply::Continue);
    assert_eq!(drag.advance(&config, &sampled(true)).1, DragReply::Continue);
    assert_eq!(drag.advance(&config, &sampled(false)).1, DragReply::ReleaseNow);
}

#[test]
fn ends_are_reported_by_the_evidence() {
    let mut run = XdndRun::new(0);
    let mut session = XdndSession::new(5, false);
    let report = session_report(&run, &session, false, "hint");
    assert_eq!(
        report.completion,
        DragCompletion::Failed(DragFailureKind::Cancelled)
    );
    assert_eq!(report.detail, "XDND drag ended without sending a drop");
    run.sent_drop = true;
    session.drop_target = Some(40);
    let report = session_report(&run, &session, true, "hint");
    assert_eq!(
        report.completion,
        DragCompletion::Failed(DragFailureKind::BridgeRejected)
    );
    assert_eq!(
        report.detail,
        "released over native Wayland target through XWayland bridge; XDND cannot deliver to that target from this XWayland editor; hint"
    );
    let report = session_report(&run, &session, false, "hint");
    assert_eq!(
        report.completion,
        DragCompletion::Failed(DragFailureKind::TargetNoData)
    );
    assert_eq!(report.detail, "drop target never requested file data; hint");
    session.selection_requests = 1;
    session.data_requests = 1;
    let report = session_report(&run, &session, false, "hint");
    assert_eq!(report.completion, DragCompletion::Inferred);
    session.post_drop_data_requests = 1;
    let report = session_report(&run, &session, false, "hint");
    assert_eq!(report.completion, DragCompletion::Confirmed);
    assert_eq!(report.detail, "target requested file data after drop");
}

#[test]
fn hints_name_the_exported_files() {
    assert_eq!(
        fallback_hint_for(""),
        "export remains in the temp folder for manual import"
    );
    assert_eq!(
        export_fallback_hint(&b" /tmp/a.flac\n/tmp/b.flac\r\n".to_vec()),
        "export remains available for manual import: /tmp/a.flac\n/tmp/b.flac"
    );
    assert_eq!(
        export_fallback_hint(&b" \n".to_vec()),
        "export remains in the temp folder for manual import"
    );
    assert_eq!(
        export_fallback_hint(&vec![b'/', 0xff]),
        "export remains available for manual import: /\u{fffd}"
    );
}

#[test]
fn reports_have_texts() {
    let stats = DragSessionStats {
        selection_requests: 4,
        pre_drop_data_requests: 1,
        post_drop_data_requests: 2,
        drop_target_data_requests: 1,
    };
    assert_eq!(stats.total_data_requests(), 4);
    assert!(stats.has_target_data_request());
    let report = DragSessionReport::failed(DragFailureKind::NoTarget, stats, "why");
    assert!(!report.is_success());
    assert_eq!(report.summary(), "No drop target was found: why");
    assert_eq!(
        report.stats_summary(),
        "selection_requests=4, pre_drop_data_requests=1, post_drop_data_requests=2, drop_target_data_requests=1"
    );
    let silent = DragSessionReport::completed_inferred(stats, "");
    assert!(silent.is_success());
    assert_eq!(silent.summary(), "Drop likely completed");
    assert_eq!(DragPhase::DropSent.as_str(), "drop_sent");
    assert_eq!(DragPhase::DropSent.summary(), "Drop sent");
    assert_eq!(DragTargetKind::AnonymousBridge.as_str(), "anonymous_bridge");
    assert_eq!(DragTargetKind::RealXWindow.summary(), "X11 window");
    assert_eq!(DragFailureKind::TargetNoData.as_str(), "target_no_data");
    assert_eq!(DragCompletion::Inferred.as_str(), "inferred");
}
