use bevy_rrise::emitter_listener::{
    emitter_object_name, listener_object_name, EventId, PostPlan, RrEmitter, RrListener,
    END_OF_EVENT, INVALID_PLAYING_ID,
};
use bevy_rrise::playing::PlayingIds;
use bevy_rrise::plugin::{frame_action, FrameAction, RriseBasicSettings};
use bevy_rrise::script::{Action, Script};
use bevy_rrise::sound_engine::CallbackRequest;

/// Runs a script to its end, every action succeeding, and lists the actions.
fn run_all(mut script: Script) -> Vec<Action> {
    let mut out = Vec::new();
    while let Some(a) = script.next_action() {
        out.push(a);
        script.report(true);
    }
    assert!(script.is_complete());
    assert!(!script.has_failed());
    out
}

fn registered_emitter(object_id: u64) -> RrEmitter {
    let mut e = RrEmitter::default();
    e.register_as(object_id);
    e
}

#[test]
fn playing_ids_record_and_end() {
    let mut ids = PlayingIds::new();
    assert!(!ids.is_playing());
    assert_eq!(ids.len(), 0);
    ids.record(7);
    ids.record(9);
    ids.record(7);
    assert!(ids.is_playing());
    assert_eq!(ids.len(), 3);
    ids.end_of_event(7);
    assert_eq!(ids.len(), 1);
    assert!(!ids.contains(7));
    assert!(ids.contains(9));
    ids.end_of_event(9);
    assert!(!ids.is_playing());
}

#[test]
fn playing_ids_end_of_unknown_id_changes_nothing() {
    let mut ids = PlayingIds::new();
    ids.record(3);
    ids.end_of_event(4);
    assert_eq!(ids.len(), 1);
    assert!(ids.contains(3));
}

#[test]
fn post_then_end_restores_playing_ids() {
    let mut e = registered_emitter(12);
    assert_eq!(e.settle_post(Some(5)), 5);
    let before = e.playing_ids().len();
    assert_eq!(e.settle_post(Some(6)), 6);
    e.on_callback(6, END_OF_EVENT);
    assert_eq!(e.playing_ids().len(), before);
    assert!(e.playing_ids().contains(5));
    assert!(!e.playing_ids().contains(6));
}

#[test]
fn emitter_default_values() {
    let e = RrEmitter::default();
    assert_eq!(e.event_id, EventId::Name(String::new()));
    assert_eq!(e.flags, 0);
    assert!(!e.auto_post);
    assert!(!e.despawn_on_silent);
    assert!(!e.is_playing());
    assert!(!e.is_registered());
    assert_eq!(e.game_object(), None);
    assert_eq!(e.stop_target(), None);
}

#[test]
fn emitter_builders() {
    let e = RrEmitter::default()
        .with_event(EventId::Name("PlayMusic".to_string()), true)
        .with_flags(0x10);
    assert_eq!(e.event_id, EventId::Name("PlayMusic".to_string()));
    assert!(e.auto_post);
    assert!(e.despawn_on_silent);
    assert_eq!(e.flags, 0x10);
    let e = RrEmitter::default().with_event(EventId::Id(42), false);
    assert_eq!(e.event_id, EventId::Id(42));
    assert!(e.auto_post);
    assert!(!e.despawn_on_silent);
}

#[test]
fn unregistered_emitter_does_not_post() {
    let e = RrEmitter::default();
    assert_eq!(e.plan_post(0x10, true), None);
    assert_eq!(e.plan_associated_post(false), None);
}

#[test]
fn registered_emitter_stop_target() {
    let e = registered_emitter(77);
    assert!(e.is_registered());
    assert_eq!(e.game_object(), Some(77));
    assert_eq!(e.stop_target(), Some(77));
}

#[test]
fn plan_without_flags_asks_end_of_event_only() {
    let e = registered_emitter(3);
    let expected = PostPlan {
        object_id: 3,
        flags: END_OF_EVENT,
        forward_callbacks: false,
        callbacks_dropped: false,
    };
    assert_eq!(e.plan_post(0, true), Some(expected));
    assert_eq!(e.plan_post(0, false), Some(expected));
}

#[test]
fn plan_with_flags_and_channel_forwards() {
    let e = registered_emitter(3);
    assert_eq!(
        e.plan_post(0x10, true),
        Some(PostPlan {
            object_id: 3,
            flags: 0x11,
            forward_callbacks: true,
            callbacks_dropped: false,
        })
    );
}

#[test]
fn plan_with_flags_without_channel_drops_them() {
    let e = registered_emitter(3);
    assert_eq!(
        e.plan_post(0x10, false),
        Some(PostPlan {
            object_id: 3,
            flags: END_OF_EVENT,
            forward_callbacks: false,
            callbacks_dropped: true,
        })
    );
}

#[test]
fn associated_post_uses_own_flags() {
    let e = registered_emitter(8).with_flags(0x8);
    assert_eq!(
        e.plan_associated_post(true),
        Some(PostPlan {
            object_id: 8,
            flags: 0x9,
            forward_callbacks: true,
            callbacks_dropped: false,
        })
    );
}

#[test]
fn failed_post_gives_invalid_id() {
    let mut e = registered_emitter(1);
    assert_eq!(e.settle_post(None), INVALID_PLAYING_ID);
    assert!(!e.is_playing());
    assert_eq!(e.settle_post(Some(31)), 31);
    assert!(e.is_playing());
}

#[test]
fn other_callbacks_keep_playing_ids() {
    let mut e = registered_emitter(1);
    e.settle_post(Some(31));
    e.on_callback(31, 0x100);
    assert!(e.playing_ids().contains(31));
    e.on_callback(31, END_OF_EVENT);
    assert!(!e.is_playing());
}

#[test]
fn despawn_only_when_asked_and_silent() {
    let mut e = registered_emitter(1).with_event(EventId::Id(5), true);
    assert!(e.should_despawn());
    e.settle_post(Some(2));
    assert!(!e.should_despawn());
    e.on_callback(2, END_OF_EVENT);
    assert!(e.should_despawn());
    let quiet = registered_emitter(1).with_event(EventId::Id(5), false);
    assert!(!quiet.should_despawn());
}

#[test]
fn listener_defaults_and_builders() {
    let l = RrListener::default();
    assert!(l.is_default());
    assert_eq!(l.game_object(), None);
    assert!(!RrListener::new(false).is_default());
    assert!(RrListener::new(true).is_default());
    let mut l = l.with_is_default(false);
    assert!(!l.is_default());
    l.register_as(4);
    assert_eq!(l.game_object(), Some(4));
    assert!(!l.is_default());
}

#[test]
fn object_names() {
    assert_eq!(listener_object_name(None, 0), "RrListener_0");
    assert_eq!(emitter_object_name(None, 1234), "RrEmitter_1234");
    assert_eq!(emitter_object_name(None, u32::MAX), "RrEmitter_4294967295");
    assert_eq!(
        listener_object_name(Some("Camera".to_string()), 9),
        "Camera"
    );
}

#[test]
fn listener_registration_order() {
    assert_eq!(
        run_all(Script::for_listener(true)),
        vec![
            Action::RegisterObject,
            Action::AddDefaultListener,
            Action::SetPosition,
            Action::MarkRegistered
        ]
    );
    assert_eq!(
        run_all(Script::for_listener(false)),
        vec![Action::RegisterObject, Action::SetPosition, Action::MarkRegistered]
    );
}

#[test]
fn emitter_registration_order() {
    assert_eq!(
        run_all(Script::for_emitter(true)),
        vec![
            Action::RegisterObject,
            Action::SetPosition,
            Action::PostAssociatedEvent,
            Action::MarkRegistered
        ]
    );
    assert_eq!(
        run_all(Script::for_emitter(false)),
        vec![Action::RegisterObject, Action::SetPosition, Action::MarkRegistered]
    );
}

#[test]
fn failed_registration_stops_script() {
    let mut s = Script::for_listener(true);
    assert_eq!(s.next_action(), Some(Action::RegisterObject));
    s.report(true);
    assert_eq!(s.next_action(), Some(Action::AddDefaultListener));
    s.report(false);
    assert!(s.has_failed());
    assert!(!s.is_complete());
    assert_eq!(s.next_action(), None);
    s.report(true);
    assert_eq!(s.next_action(), None);
}

#[test]
fn temporary_post_unregisters_after_failed_post() {
    let mut req = CallbackRequest::new();
    req.set_flags(0x4);
    let mut s = req.script(true);
    assert_eq!(s.next_action(), Some(Action::RegisterObject));
    s.report(true);
    assert_eq!(s.next_action(), Some(Action::SetPosition));
    s.report(true);
    assert_eq!(s.next_action(), Some(Action::PostEvent { with_callback: true }));
    s.report(false);
    assert_eq!(s.next_action(), Some(Action::UnregisterObject));
    s.report(false);
    assert_eq!(s.next_action(), None);
    assert!(s.is_complete());
}

#[test]
fn temporary_post_stops_when_registration_fails() {
    let mut s = CallbackRequest::new().script(false);
    assert_eq!(s.next_action(), Some(Action::RegisterObject));
    s.report(false);
    assert!(s.has_failed());
    assert_eq!(s.next_action(), None);
}

#[test]
fn callback_request_flags() {
    let mut req = CallbackRequest::new();
    assert!(!req.has_flags);
    assert!(!req.with_callback(true));
    req.add_flags(0x1);
    req.add_flags(0x8);
    assert_eq!(req.flags, 0x9);
    assert!(req.has_flags);
    assert!(req.with_callback(true));
    assert!(!req.with_callback(false));
    assert!(req.drops_callbacks(false));
    req.add_flags(0);
    assert_eq!(req.flags, 0x9);
    assert!(!req.has_flags);
    req.set_flags(0x2);
    assert_eq!(req.flags, 0x2);
    assert!(req.has_flags);
    req.set_flags(0);
    assert_eq!(req.flags, 0);
    assert!(!req.has_flags);
    assert!(!req.drops_callbacks(false));
}

#[test]
fn temporary_post_without_channel_posts_plainly() {
    let mut req = CallbackRequest::new();
    req.set_flags(0x4);
    let actions = run_all(req.script(false));
    assert_eq!(
        actions,
        vec![
            Action::RegisterObject,
            Action::SetPosition,
            Action::PostEvent { with_callback: false },
            Action::UnregisterObject
        ]
    );
}

#[test]
fn engine_init_order() {
    assert_eq!(
        run_all(Script::for_engine_init(true)),
        vec![
            Action::InitMemory,
            Action::InitStreaming,
            Action::SetLanguage,
            Action::InitSound,
            Action::InitMusic,
            Action::InitComms,
            Action::CheckInitialized
        ]
    );
    assert_eq!(run_all(Script::for_engine_init(false)).len(), 6);
    let mut s = Script::for_engine_init(false);
    s.report(true);
    s.report(false);
    assert!(s.has_failed());
    assert_eq!(s.next_action(), None);
}

#[test]
fn engine_term_order() {
    assert_eq!(
        run_all(Script::for_engine_term(true)),
        vec![
            Action::StopAll,
            Action::UnregisterAll,
            Action::TermComms,
            Action::TermMusic,
            Action::TermSound,
            Action::TermStreaming,
            Action::TermMemory
        ]
    );
    let mut s = Script::for_engine_term(false);
    s.report(false);
    assert_eq!(s.next_action(), Some(Action::UnregisterAll));
    s.report(false);
    assert!(s.has_failed());
    assert_eq!(s.next_action(), None);
}

#[test]
fn setup_order() {
    assert_eq!(
        run_all(Script::for_setup(true)),
        vec![Action::LoadInitBank, Action::SpawnDefaultListener]
    );
    let mut s = Script::for_setup(true);
    s.report(false);
    assert!(s.has_failed());
    assert_eq!(s.next_action(), None);
}

#[test]
fn frame_actions() {
    assert_eq!(frame_action(false, false), FrameAction::Idle);
    assert_eq!(frame_action(false, true), FrameAction::Idle);
    assert_eq!(frame_action(true, true), FrameAction::Terminate);
    assert_eq!(frame_action(true, false), FrameAction::Render);
}

#[test]
fn basic_settings_default() {
    let s = RriseBasicSettings::default();
    assert_eq!(s.init_language, "English(US)");
    assert_eq!(s.banks_location, "soundbanks");
    assert!(s.spawn_default_listener);
}
