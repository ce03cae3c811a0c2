use pilatus_leptos::images::{
    with_loaded_step, ViewerFrame, LoadedStep, PendingOnLoad,
    assign_layers, changed_active_layer, choose_source, expand_gray, on_decoded, on_overlay_edit,
    on_socket_item, preselect_first, rgb_conversion, shown_image, viewer_wait, Decoded,
    DecodedStep, EditStep, NoSource, RgbConversion, ShownImage, SocketItem, SocketItemStep,
    StreamImageKind, ViewerWait, VIEWER_ATTEMPTS,
};
use pilatus_leptos::import::{
    check_frame, has_conflicts, length_prefix, on_resolution, on_server_message,
    resolution_name, ConflictResolution, ImportServerMessage, ImportStep, ReceiveError,
    ReceivedFrame, ResolutionStep,
};
use pilatus_leptos::json_editor::JsonEditor;
use pilatus_leptos::notifications::{level_colors, NotificationEntry, NotificationLevel, NotificationList};
use pilatus_leptos::pending::{should_dispatch, UnsavedChanges};
use pilatus_leptos::pipeline_error::FetchError;
use pilatus_leptos::text::{
    append_decimal, clean_json_error, contains, device_image_url, offered_sources,
    recipe_import_url, recipe_stream_url, starts_with, strip_extension, text_equals, ws_url_base,
};
use pilatus_leptos::ws_suspend::{
    after_socket, begin_poll, initial_state, EntryStep, SocketEvent, SocketStep, State,
    SuspensibleError,
};

// ------------------------------------------------------------ suspensible socket

#[test]
fn suspensible_socket_yields_between_messages() {
    let (state, open_now) = initial_state(true);
    assert!(open_now);
    let plan = begin_poll(state, true);
    assert_eq!(plan.step, EntryStep::PollSocket);
    let sp = after_socket(plan.next, SocketEvent::Message);
    assert_eq!(sp.step, SocketStep::EmitMessage);
    assert_eq!(sp.next, State::Yield);
    let plan = begin_poll(sp.next, true);
    assert_eq!(plan.step, EntryStep::YieldTick);
    assert!(!plan.register_waker);
    assert_eq!(plan.next, State::Active { was_visible: true });
}

#[test]
fn suspensible_socket_suspends_while_hidden() {
    let (state, open_now) = initial_state(true);
    assert!(open_now);
    let plan = begin_poll(state, false);
    assert_eq!(plan.step, EntryStep::Hide);
    let plan = begin_poll(plan.next, false);
    assert_eq!(plan.step, EntryStep::Pend);
    let plan = begin_poll(plan.next, true);
    assert_eq!(plan.step, EntryStep::WakeAndPend);
    let plan = begin_poll(plan.next, true);
    assert_eq!(plan.step, EntryStep::EmitSuspended);
    let plan = begin_poll(plan.next, true);
    assert_eq!(plan.step, EntryStep::PollSocket);
}

#[test]
fn suspensible_socket_hidden_at_start_opens_nothing() {
    let (state, open_now) = initial_state(false);
    assert!(!open_now);
    assert_eq!(begin_poll(state, false).step, EntryStep::Pend);
}

#[test]
fn suspensible_socket_ends_after_failure() {
    let sp = after_socket(State::Active { was_visible: true }, SocketEvent::Failed);
    assert_eq!(sp.step, SocketStep::DropAndEmitError);
    assert_eq!(sp.next, State::Closed);
    assert_eq!(begin_poll(State::Closed, true).step, EntryStep::End);
    assert_eq!(after_socket(State::Yield, SocketEvent::OpenFailed).step, SocketStep::EmitOpenError);
    assert_eq!(after_socket(State::Yield, SocketEvent::Ended).step, SocketStep::DropAndEnd);
    let keep = State::Active { was_visible: true };
    assert_eq!(after_socket(keep, SocketEvent::NotReady).next, keep);
}

// ------------------------------------------------------------ images

#[test]
fn rgb_conversions() {
    assert_eq!(rgb_conversion(true, 1, 1), RgbConversion::ExpandGray);
    assert_eq!(rgb_conversion(true, 3, 1), RgbConversion::Reinterpret);
    assert_eq!(rgb_conversion(false, 1, 1), RgbConversion::Unsupported);
    assert_eq!(rgb_conversion(true, 1, 2), RgbConversion::Unsupported);
    assert_eq!(expand_gray(&[1, 200]), vec![[1, 1, 1], [200, 200, 200]]);
    assert!(expand_gray(&[]).is_empty());
}

#[test]
fn layers_are_numbered_ranges_first() {
    let layers = assign_layers(vec!["r0", "r1"], vec!["a0"]);
    assert_eq!(layers, vec![(0, "r0"), (1, "r1"), (2, "a0")]);
}

#[test]
fn stream_reactions() {
    assert_eq!(on_socket_item(SocketItem::Bytes), SocketItemStep::Decode);
    assert_eq!(on_socket_item(SocketItem::OtherMessage), SocketItemStep::Skip);
    assert_eq!(on_socket_item(SocketItem::Suspended), SocketItemStep::Skip);
    assert_eq!(on_socket_item(SocketItem::SocketError), SocketItemStep::FailThenEnd);
    assert_eq!(on_socket_item(SocketItem::Closed), SocketItemStep::End);
    assert_eq!(on_decoded(Decoded::Stream(StreamImageKind::Image)), DecodedStep::YieldImage);
    assert_eq!(on_decoded(Decoded::Stream(StreamImageKind::MissedItems)), DecodedStep::Skip);
    assert_eq!(
        on_decoded(Decoded::Stream(StreamImageKind::ProcessingError)),
        DecodedStep::YieldProcessingError
    );
    assert_eq!(on_decoded(Decoded::DecodeFailed), DecodedStep::YieldError);
    assert_eq!(shown_image(StreamImageKind::Image), ShownImage::WithOverlays);
    assert_eq!(shown_image(StreamImageKind::ProcessingError), ShownImage::PlainImage);
    assert_eq!(shown_image(StreamImageKind::OtherError), ShownImage::Fail);
}

#[test]
fn image_sources() {
    let available = vec!["a".to_string(), "b".to_string()];
    assert_eq!(choose_source(Some("x".into()), Some(&available)), Ok("x".to_string()));
    assert_eq!(choose_source(None, Some(&available)), Ok("a".to_string()));
    assert_eq!(choose_source(None, Some(&vec![])), Err(NoSource));
    assert_eq!(choose_source(None, None), Err(NoSource));
    assert!(preselect_first(true, false, 2));
    assert!(!preselect_first(true, true, 2));
    assert!(!preselect_first(false, false, 2));
    assert!(!preselect_first(true, false, 0));
}

#[test]
fn viewer_waits_a_bounded_time() {
    assert_eq!(VIEWER_ATTEMPTS, 10);
    assert_eq!(viewer_wait(0, true, true), ViewerWait::Ready);
    assert_eq!(viewer_wait(3, true, false), ViewerWait::Retry);
    assert_eq!(viewer_wait(3, false, true), ViewerWait::Gone);
    assert_eq!(viewer_wait(10, true, true), ViewerWait::GiveUp);
}

#[test]
fn overlay_edits_and_layers() {
    assert_eq!(on_overlay_edit(true), EditStep::Ignore);
    assert_eq!(on_overlay_edit(false), EditStep::StartListener);
    assert_eq!(changed_active_layer(Some(1), Some(1)), None);
    assert_eq!(changed_active_layer(Some(2), Some(1)), Some(Some(2)));
    assert_eq!(changed_active_layer(None, Some(1)), Some(None));
}

// ------------------------------------------------------------ import

#[test]
fn import_replies() {
    assert!(matches!(on_server_message::<u8>(ImportServerMessage::Success), ImportStep::Finished(Ok(true))));
    assert!(matches!(
        on_server_message::<u8>(ImportServerMessage::Error("bad".into())),
        ImportStep::Finished(Err(m)) if m == "bad"
    ));
    assert!(matches!(on_server_message(ImportServerMessage::Conflicts(3u8)), ImportStep::AskUser(3)));
    assert!(has_conflicts(1));
    assert!(!has_conflicts(0));
}

#[test]
fn conflict_resolutions_are_sent_as_json_strings() {
    assert_eq!(resolution_name(ConflictResolution::Replace), "Replace");
    assert!(matches!(on_resolution(Some(ConflictResolution::Replace)), ResolutionStep::Send(t) if t == "\"Replace\""));
    assert!(matches!(
        on_resolution(Some(ConflictResolution::Duplicate)),
        ResolutionStep::Send(t) if t == "\"Duplicate\""
    ));
    assert!(matches!(on_resolution(None), ResolutionStep::Abort));
}

#[test]
fn import_frames_and_length() {
    assert_eq!(check_frame(ReceivedFrame::Text), Ok(()));
    assert_eq!(check_frame(ReceivedFrame::Binary), Err(ReceiveError::NotText));
    assert_eq!(check_frame(ReceivedFrame::Closed), Err(ReceiveError::ConnectionClosed));
    assert_eq!(check_frame(ReceivedFrame::Failed), Err(ReceiveError::Socket));
    assert_eq!(length_prefix(0x0102), vec![2, 1, 0, 0, 0, 0, 0, 0]);
    assert_eq!(length_prefix(u64::MAX), vec![255; 8]);
}

// ------------------------------------------------------------ pending changes

#[test]
fn newest_change_wins() {
    let mut pending = UnsavedChanges::new();
    assert!(pending.is_empty());
    pending.record(1, "first");
    pending.record(2, "other");
    pending.record(1, "second");
    assert!(pending.has_pending(1));
    let mut taken = vec![];
    while let Some(x) = pending.take_next() {
        taken.push(x);
    }
    taken.sort();
    assert_eq!(taken, vec![(1, "second"), (2, "other")]);
    assert!(pending.is_empty());
}

#[test]
fn taken_change_sent_unless_replaced() {
    let mut pending = UnsavedChanges::new();
    pending.record(7, 1);
    let (device, _) = pending.take_next().unwrap();
    assert!(pending.should_send_after_debounce(device));
    pending.record(7, 2);
    assert!(!pending.should_send_after_debounce(device));
    assert!(should_dispatch(true, false, false));
    assert!(!should_dispatch(true, false, true));
    assert!(!should_dispatch(true, true, false));
    assert!(!should_dispatch(false, false, false));
}

// ------------------------------------------------------------ notifications

#[test]
fn expire_undoes_push() {
    let mut list = NotificationList::new();
    list.push(NotificationEntry { id: 1, message: "a".into(), level: NotificationLevel::Info });
    let id = list.notify(NotificationLevel::Warning, "b".into());
    assert_eq!(list.entries().len(), 2);
    list.expire(id);
    assert_eq!(list.entries().len(), 1);
    assert_eq!(list.entries()[0].message, "a");
}

#[test]
fn failed_requests_are_notified() {
    let mut list = NotificationList::new();
    let ok: Result<u8, FetchError> = Ok(1);
    assert_eq!(list.notify_failure(&ok), None);
    assert!(list.entries().is_empty());
    let failed: Result<u8, FetchError> = Err(FetchError::StatusCode(500, "down".into()));
    let id = list.notify_failure(&failed).unwrap();
    assert_eq!(list.entries()[0].id, id);
    assert_eq!(list.entries()[0].message, "Http 500: down");
    assert_eq!(list.entries()[0].level, NotificationLevel::Error);
    assert_eq!(level_colors(NotificationLevel::Error), ("#dc2626", "#ef4444"));
    assert_eq!(level_colors(NotificationLevel::Info), ("#2563eb", "#3b82f6"));
}

#[test]
fn fresh_notification_ids_differ() {
    let mut list = NotificationList::new();
    let a = list.notify(NotificationLevel::Info, "a".into());
    let b = list.notify(NotificationLevel::Info, "b".into());
    assert_ne!(a, b);
}

// ------------------------------------------------------------ json editor

#[test]
fn json_editor_saves_valid_json_pretty() {
    let mut editor = JsonEditor::new("{\"a\":1}");
    assert!(!editor.has_external_update("{\"a\":1}"));
    editor.edited = "{\"a\": 2}".to_string();
    let stored = editor.save().unwrap();
    assert_eq!(stored, "{\n  \"a\": 2\n}");
    let value: serde_json::Value = serde_json::from_str("{\"a\": 2}").unwrap();
    assert_eq!(stored, serde_json::to_string_pretty(&value).unwrap());
    assert_eq!(editor.edited, stored);
    assert!(!editor.has_external_update(&stored));
    assert!(editor.error.is_none());
}

#[test]
fn json_editor_refuses_invalid_json() {
    let mut editor = JsonEditor::new("{}");
    editor.edited = "{\"a\": }".to_string();
    assert_eq!(editor.save(), None);
    assert_eq!(editor.edited, "{\"a\": }");
    let error = editor.error.clone().unwrap();
    let message = serde_json::from_str::<serde_json::Value>("{\"a\": }").unwrap_err().to_string();
    assert_eq!(error, message.split(" at ").next().unwrap());
    assert!(!error.is_empty());
}

#[test]
fn json_editor_external_updates() {
    let mut editor = JsonEditor::new("{}");
    editor.edited = "{\"mine\": 1}".to_string();
    assert!(editor.has_external_update("{\"theirs\": 1}"));
    editor.reset("{\"theirs\": 1}");
    assert!(!editor.has_external_update("{\"theirs\": 1}"));
    assert_eq!(editor.edited, "{\"mine\": 1}");
    editor.adopt("{\"new\": 2}");
    assert_eq!(editor.edited, "{\"new\": 2}");
    assert!(!editor.has_external_update("{\"new\": 2}"));
    assert!(editor.saved(Err("expected value at line 1 column 7".into())).is_none());
    assert_eq!(editor.error.as_deref(), Some("expected value"));
}

// ------------------------------------------------------------ text

#[test]
fn text_rules() {
    assert!(text_equals("ab", "ab"));
    assert!(!text_equals("ab", "abc"));
    assert!(starts_with("wgpu_core", "wgpu"));
    assert!(!starts_with("wg", "wgpu"));
    assert!(contains("hello world", "o w"));
    assert!(contains("x", ""));
    assert!(!contains("hello", "z"));
    assert_eq!(clean_json_error("bad thing at line 2 column 3"), "bad thing");
    assert_eq!(clean_json_error("no position"), "no position");
    assert_eq!(strip_extension("photo.final.png"), "photo.final");
    assert_eq!(strip_extension("README"), "README");
    assert_eq!(strip_extension(".hidden"), "");
}

#[test]
fn offered_sources_filter_ignored() {
    let available = vec!["cam-1".to_string(), "cam-2".to_string(), "mic".to_string()];
    assert_eq!(offered_sources(available.clone(), None), available);
    assert_eq!(offered_sources(available, Some("cam")), vec!["mic".to_string()]);
}

#[test]
fn addresses() {
    assert_eq!(recipe_stream_url("https:", "h:80"), "wss://h:80/api/recipe/stream");
    assert_eq!(recipe_stream_url("http:", "h"), "ws://h/api/recipe/stream");
    assert_eq!(ws_url_base("box"), "ws://box:4123");
    assert_eq!(device_image_url("ws://box:4123", "id"), "ws://box:4123/api/image/subscribe?format=Raw&device_id=id");
    assert_eq!(recipe_import_url("ws://box:4123"), "ws://box:4123/api/recipe/import");
}

#[test]
fn decimal_numbers() {
    let mut s = String::from("n=");
    append_decimal(&mut s, 0);
    assert_eq!(s, "n=0");
    let mut s = String::new();
    append_decimal(&mut s, 4294967295);
    assert_eq!(s, "4294967295");
    let mut s = String::new();
    append_decimal(&mut s, 404);
    assert_eq!(s, "404");
}

#[test]
fn deferred_work_runs_in_order_once() {
    assert_eq!(with_loaded_step(true), LoadedStep::RunNow);
    assert_eq!(with_loaded_step(false), LoadedStep::Defer);
    let mut pending = PendingOnLoad::new();
    assert!(pending.is_empty());
    pending.defer("first");
    pending.defer("second");
    assert_eq!(pending.take_all(), vec!["first", "second"]);
    assert!(pending.is_empty());
    assert!(pending.take_all().is_empty());
}

#[test]
fn suspensible_error_messages() {
    assert_eq!(
        SuspensibleError::Suspended.message(),
        "WebSocket suspended while application was in background"
    );
    let m = SuspensibleError::WebSocket(anyhow::Error::msg("refused")).message();
    assert_eq!(m, "WebSocket error: refused");
}

#[test]
fn viewer_frames_run_one_listener_and_deferred_work_once() {
    let mut viewer = ViewerFrame::<&str, u8>::new();
    assert_eq!(viewer.with_loaded_state(false, "a"), None);
    assert_eq!(viewer.with_loaded_state(false, "b"), None);
    let step = viewer.frame(false, false, false, None);
    assert!(step.run.is_empty() && !step.start_listener && step.announce.is_none());
    let step = viewer.frame(true, true, false, Some(1));
    assert!(step.start_listener && !step.ignored_edit);
    assert_eq!(step.run, vec!["a", "b"]);
    assert_eq!(step.announce, Some(Some(1)));
    let step = viewer.frame(true, true, false, Some(1));
    assert!(!step.start_listener && step.ignored_edit);
    assert!(step.run.is_empty());
    assert_eq!(step.announce, None);
    let step = viewer.frame(true, false, true, Some(1));
    assert!(!step.start_listener);
    let step = viewer.frame(true, true, false, None);
    assert!(step.start_listener);
    assert_eq!(step.announce, Some(None));
    assert_eq!(viewer.with_loaded_state(true, "c"), Some("c"));
}

#[test]
fn viewer_frames_run_at_most_one_command_each() {
    let mut viewer = ViewerFrame::<&str, u8>::new();
    assert_eq!(viewer.start_frame(), None);
    viewer.send(1);
    viewer.send(2);
    viewer.send(3);
    assert_eq!(viewer.start_frame(), Some(1));
    assert_eq!(viewer.start_frame(), None);
    viewer.frame(false, false, false, None);
    assert_eq!(viewer.start_frame(), Some(2));
    viewer.frame(true, false, false, None);
    viewer.send(4);
    assert_eq!(viewer.start_frame(), Some(3));
    viewer.frame(true, false, false, None);
    assert_eq!(viewer.start_frame(), Some(4));
    viewer.frame(true, false, false, None);
    assert_eq!(viewer.start_frame(), None);
}

#[test]
fn quiet_uploads_send_each_newest_change_once() {
    let mut pending = UnsavedChanges::new();
    pending.record(1, "a1");
    pending.record(2, "b1");
    pending.record(1, "a2");
    let mut sent = vec![];
    while let Some((device, change)) = pending.take_next() {
        if pending.should_send_after_debounce(device) {
            sent.push((device, change));
        }
    }
    sent.sort();
    assert_eq!(sent, vec![(1, "a2"), (2, "b1")]);
}
