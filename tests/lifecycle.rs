use voicetemp::{handle_voice_state_update, Action, Config, PresenceEvent, VoiceTempPlugin};

fn scenario_config() -> Config {
    Config {
        master_channel_id: 100,
        category_id: Some(200),
        allowed_guild_id: 10,
        name_template: "🔊 {user}'s Room".to_string(),
        auto_delete_empty: true,
    }
}

fn event(user: u64, guild: u64, prev: Option<u64>, cur: Option<u64>) -> PresenceEvent {
    PresenceEvent { user_id: user, guild_id: guild, previous_channel_id: prev, current_channel_id: cur }
}

fn owning_user_one() -> VoiceTempPlugin {
    let mut p = VoiceTempPlugin::new(scenario_config());
    handle_voice_state_update(&mut p, &event(1, 10, None, Some(100)));
    p.on_channel_created(1, 10, Some(555));
    p
}

#[test]
fn join_trigger_creates_and_moves() {
    let mut p = VoiceTempPlugin::new(scenario_config());
    let a = handle_voice_state_update(&mut p, &event(1, 10, None, Some(100)));
    assert_eq!(
        a,
        Action::CreateChannel { guild_id: 10, name: "🔊 1's Room".to_string(), category_id: Some(200) }
    );
    assert!(p.is_creating(1));
    let b = p.on_channel_created(1, 10, Some(555));
    assert_eq!(b, Action::MoveMember { guild_id: 10, user_id: 1, channel_id: 555 });
    assert_eq!(p.owned_channel(1), Some(555));
    assert_eq!(p.active_channel_count(), 1);
}

#[test]
fn duplicate_join_signal_is_ignored() {
    let mut p = owning_user_one();
    let a = handle_voice_state_update(&mut p, &event(1, 10, Some(100), Some(100)));
    assert_eq!(a, Action::Nothing);
    assert_eq!(p.owned_channel(1), Some(555));
    assert_eq!(p.active_channel_count(), 1);
}

#[test]
fn switch_deletes_room() {
    let mut p = owning_user_one();
    let a = handle_voice_state_update(&mut p, &event(1, 10, Some(555), Some(777)));
    assert_eq!(a, Action::DeleteChannel { channel_id: 555 });
    assert_eq!(p.owned_channel(1), None);
    assert_eq!(p.active_channel_count(), 0);
}

#[test]
fn disconnect_deletes_room() {
    let mut p = owning_user_one();
    let a = handle_voice_state_update(&mut p, &event(1, 10, Some(555), None));
    assert_eq!(a, Action::DeleteChannel { channel_id: 555 });
    assert_eq!(p.owned_channel(1), None);
    assert_eq!(p.active_channel_count(), 0);
}

#[test]
fn other_guild_is_inert() {
    let mut p = owning_user_one();
    let a = handle_voice_state_update(&mut p, &event(2, 99, None, Some(100)));
    assert_eq!(a, Action::Nothing);
    assert_eq!(p.owned_channel(2), None);
    assert!(!p.is_creating(2));
    assert_eq!(p.active_channel_count(), 1);
    // even the owner of a room, leaving from another guild's point of view
    let b = handle_voice_state_update(&mut p, &event(1, 99, Some(555), None));
    assert_eq!(b, Action::Nothing);
    assert_eq!(p.owned_channel(1), Some(555));
}

#[test]
fn concurrent_trigger_joins_create_once() {
    let mut p = VoiceTempPlugin::new(scenario_config());
    let a1 = handle_voice_state_update(&mut p, &event(1, 10, None, Some(100)));
    let a2 = handle_voice_state_update(&mut p, &event(1, 10, Some(100), Some(100)));
    assert!(matches!(a1, Action::CreateChannel { .. }));
    assert_eq!(a2, Action::Nothing);
    assert_eq!(p.active_channel_count(), 1);
}

#[test]
fn leaving_while_creating_keeps_claim() {
    let mut p = VoiceTempPlugin::new(scenario_config());
    handle_voice_state_update(&mut p, &event(1, 10, None, Some(100)));
    let a = handle_voice_state_update(&mut p, &event(1, 10, Some(100), None));
    assert_eq!(a, Action::Nothing);
    assert!(p.is_creating(1));
}

#[test]
fn failed_creation_releases_claim() {
    let mut p = VoiceTempPlugin::new(scenario_config());
    handle_voice_state_update(&mut p, &event(1, 10, None, Some(100)));
    let a = p.on_channel_created(1, 10, None);
    assert_eq!(a, Action::Nothing);
    assert!(!p.is_creating(1));
    assert_eq!(p.active_channel_count(), 0);
    let again = handle_voice_state_update(&mut p, &event(1, 10, Some(100), Some(100)));
    assert!(matches!(again, Action::CreateChannel { .. }));
}

#[test]
fn idempotent_reentry_keeps_record() {
    let mut p = owning_user_one();
    let a = handle_voice_state_update(&mut p, &event(1, 10, Some(555), Some(100)));
    assert_eq!(a, Action::Nothing);
    assert_eq!(p.owned_channel(1), Some(555));
}

#[test]
fn staying_in_own_room_keeps_it() {
    let mut p = owning_user_one();
    let a = handle_voice_state_update(&mut p, &event(1, 10, Some(100), Some(555)));
    assert_eq!(a, Action::Nothing);
    assert_eq!(p.owned_channel(1), Some(555));
}

#[test]
fn no_auto_delete_keeps_record() {
    let mut c = scenario_config();
    c.auto_delete_empty = false;
    let mut p = VoiceTempPlugin::new(c);
    handle_voice_state_update(&mut p, &event(1, 10, None, Some(100)));
    p.on_channel_created(1, 10, Some(555));
    let a = handle_voice_state_update(&mut p, &event(1, 10, Some(555), None));
    assert_eq!(a, Action::Nothing);
    assert_eq!(p.owned_channel(1), Some(555));
}

#[test]
fn unowned_user_moving_around_is_ignored() {
    let mut p = VoiceTempPlugin::new(scenario_config());
    assert_eq!(handle_voice_state_update(&mut p, &event(3, 10, None, Some(300))), Action::Nothing);
    assert_eq!(handle_voice_state_update(&mut p, &event(3, 10, Some(300), None)), Action::Nothing);
    assert_eq!(p.active_channel_count(), 0);
}

#[test]
fn at_most_one_record_per_user_over_a_run() {
    let mut p = VoiceTempPlugin::new(scenario_config());
    let events = [
        event(1, 10, None, Some(100)),
        event(1, 10, Some(100), Some(100)),
        event(2, 10, None, Some(100)),
    ];
    for e in events.iter() {
        handle_voice_state_update(&mut p, e);
    }
    p.on_channel_created(1, 10, Some(555));
    handle_voice_state_update(&mut p, &event(1, 10, Some(555), Some(100)));
    p.on_channel_created(2, 10, Some(556));
    assert_eq!(p.active_channel_count(), 2);
    assert_eq!(p.owned_channel(1), Some(555));
    assert_eq!(p.owned_channel(2), Some(556));
}

#[test]
fn late_creation_after_unload_is_not_recorded() {
    let mut p = VoiceTempPlugin::new(scenario_config());
    handle_voice_state_update(&mut p, &event(1, 10, None, Some(100)));
    p.on_unload();
    let a = p.on_channel_created(1, 10, Some(555));
    assert_eq!(a, Action::MoveMember { guild_id: 10, user_id: 1, channel_id: 555 });
    assert_eq!(p.owned_channel(1), None);
    assert_eq!(p.active_channel_count(), 0);
}

#[test]
fn unload_clears_records() {
    let mut p = owning_user_one();
    p.on_unload();
    assert_eq!(p.active_channel_count(), 0);
    assert_eq!(p.config().allowed_guild_id, 10);
}

#[test]
fn load_falls_back_to_defaults() {
    let mut p = VoiceTempPlugin::new(scenario_config());
    p.on_load(None);
    assert_eq!(p.config().master_channel_id, 1366403705460621359);
    assert_eq!(p.config().category_id, Some(1366403705460621357));
    assert_eq!(p.config().allowed_guild_id, 1366403704130900018);
    assert_eq!(p.config().name_template, "{user} temporary");
    assert!(p.config().auto_delete_empty);
    p.on_load(Some(scenario_config()));
    assert_eq!(p.config().allowed_guild_id, 10);
    assert_eq!(p.name(), "VoiceTempPlugin");
}

#[test]
fn default_config_names_rooms_after_user_id() {
    let mut p = VoiceTempPlugin::new(Config::default());
    let a = handle_voice_state_update(&mut p, &event(42, 1366403704130900018, None, Some(1366403705460621359)));
    assert_eq!(
        a,
        Action::CreateChannel {
            guild_id: 1366403704130900018,
            name: "42 temporary".to_string(),
            category_id: Some(1366403705460621357),
        }
    );
}
