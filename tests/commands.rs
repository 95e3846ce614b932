use voicetemp::{
    get_commands, handle_create, handle_delete, handle_info, handle_interaction, handle_setup,
    handle_voice_state_update,
    parse_command, Action, AdminCommand, CommandOption, Config, OptionKind, PresenceEvent,
    VoiceTempPlugin,
};

fn scenario_config() -> Config {
    Config {
        master_channel_id: 100,
        category_id: Some(200),
        allowed_guild_id: 10,
        name_template: "🔊 {user}'s Room".to_string(),
        auto_delete_empty: true,
    }
}

fn text(name: &str, value: &str) -> CommandOption {
    CommandOption { name: name.to_string(), text: Some(value.to_string()), number: None }
}

fn number(name: &str, value: u64) -> CommandOption {
    CommandOption { name: name.to_string(), text: None, number: Some(value) }
}

#[test]
fn command_names_are_recognised() {
    assert_eq!(parse_command(&"voicetemp-setup".to_string()), Some(AdminCommand::Setup));
    assert_eq!(parse_command(&"voicetemp-create".to_string()), Some(AdminCommand::Create));
    assert_eq!(parse_command(&"voicetemp-delete".to_string()), Some(AdminCommand::Delete));
    assert_eq!(parse_command(&"voicetemp-info".to_string()), Some(AdminCommand::Info));
    assert_eq!(parse_command(&"voicetemp".to_string()), None);
    assert_eq!(parse_command(&"".to_string()), None);
}

#[test]
fn setup_configures_trigger_and_category() {
    let mut p = VoiceTempPlugin::new(scenario_config());
    let reply = handle_setup(&mut p, &vec![text("trigger_channel", "300"), text("category", "400")]);
    assert_eq!(
        reply,
        "✅ Канал-триггер настроен!\n**Канал-триггер:** <#300>\n**Категория:** <#400>\n\n💡 Теперь при входе пользователя в канал-триггер будет автоматически создаваться временный голосовой канал."
    );
    assert_eq!(p.config().master_channel_id, 300);
    assert_eq!(p.config().category_id, Some(400));
    assert_eq!(p.config().allowed_guild_id, 10);
    let a = handle_voice_state_update(&mut p, &PresenceEvent {
        user_id: 5,
        guild_id: 10,
        previous_channel_id: None,
        current_channel_id: Some(300),
    });
    assert!(matches!(a, Action::CreateChannel { category_id: Some(400), .. }));
}

#[test]
fn setup_without_category() {
    let mut p = VoiceTempPlugin::new(scenario_config());
    let reply = handle_setup(&mut p, &vec![text("trigger_channel", "+42")]);
    assert_eq!(
        reply,
        "✅ Канал-триггер настроен!\n**Канал-триггер:** <#42>\n**Категория:** Не указана (каналы будут создаваться в той же категории)\n\n💡 Теперь при входе пользователя в канал-триггер будет автоматически создаваться временный голосовой канал."
    );
    assert_eq!(p.config().master_channel_id, 42);
    assert_eq!(p.config().category_id, None);
}

#[test]
fn setup_without_trigger_changes_nothing() {
    let mut p = VoiceTempPlugin::new(scenario_config());
    let opts = vec![text("trigger_channel", "abc"), text("category", "400"), text("trigger_channel", "-1")];
    let reply = handle_setup(&mut p, &opts);
    assert_eq!(reply, "❌ Ошибка: не указан канал-триггер");
    assert_eq!(p.config().master_channel_id, 100);
    assert_eq!(p.config().category_id, Some(200));
    let too_big = vec![text("trigger_channel", "18446744073709551616")];
    assert_eq!(handle_setup(&mut p, &too_big), "❌ Ошибка: не указан канал-триггер");
    assert_eq!(handle_setup(&mut p, &vec![]), "❌ Ошибка: не указан канал-триггер");
}

#[test]
fn setup_last_valid_option_wins() {
    let mut p = VoiceTempPlugin::new(scenario_config());
    let opts = vec![text("trigger_channel", "1"), text("trigger_channel", "2"), text("trigger_channel", "x")];
    handle_setup(&mut p, &opts);
    assert_eq!(p.config().master_channel_id, 2);
}

#[test]
fn create_command_claims_room() {
    let mut p = VoiceTempPlugin::new(scenario_config());
    let (a, reply) = handle_create(&mut p, 7, 10, &vec![text("name", "Study"), number("limit", 5)]);
    assert_eq!(a, Action::CreateChannel { guild_id: 10, name: "Study".to_string(), category_id: Some(200) });
    assert_eq!(reply, "✅ Запрос на создание временного канала получен!\n**Название:** Study\n**Лимит:** лимит: 5");
    assert!(p.is_creating(7));
    let (again, reply2) = handle_create(&mut p, 7, 10, &vec![]);
    assert_eq!(again, Action::Nothing);
    assert_eq!(reply2, "❌ Не удалось создать временный канал: у вас уже есть временный канал или этот сервер не обслуживается.");
}

#[test]
fn create_command_defaults() {
    let mut p = VoiceTempPlugin::new(scenario_config());
    let (a, reply) = handle_create(&mut p, 8, 10, &vec![number("limit", 0)]);
    assert_eq!(a, Action::CreateChannel { guild_id: 10, name: "🔊 8's Room".to_string(), category_id: Some(200) });
    assert_eq!(reply, "✅ Запрос на создание временного канала получен!\n**Название:** 🔊 8's Room\n**Лимит:** без лимита");
    let (b, _) = handle_create(&mut p, 9, 99, &vec![]);
    assert_eq!(b, Action::Nothing);
    assert!(!p.is_creating(9));
}

#[test]
fn delete_command_removes_room() {
    let mut p = VoiceTempPlugin::new(scenario_config());
    handle_create(&mut p, 7, 10, &vec![]);
    p.on_channel_created(7, 10, Some(900));
    let (a, reply) = handle_delete(&mut p, 7, 10);
    assert_eq!(a, Action::DeleteChannel { channel_id: 900 });
    assert_eq!(reply, "✅ Запрос на удаление временного канала получен!");
    assert_eq!(p.owned_channel(7), None);
    let (b, reply2) = handle_delete(&mut p, 7, 10);
    assert_eq!(b, Action::Nothing);
    assert_eq!(reply2, "❌ Не удалось удалить временный канал: у вас нет временного канала.");
}

#[test]
fn info_reports_configuration() {
    let mut p = VoiceTempPlugin::new(scenario_config());
    handle_create(&mut p, 7, 10, &vec![]);
    assert_eq!(
        handle_info(&p),
        "📋 **Информация о плагине VoiceTemp**\n**Плагин:** VoiceTemp Plugin\n**Версия:** 1.0.0\n\n**Канал-триггер:** <#100>\n**Категория:** <#200>\n**Шаблон имени:** 🔊 {user}'s Room\n**Автоудаление пустых:** Да\n**Активных временных каналов:** 1"
    );
}

#[test]
fn info_on_fresh_plugin_with_defaults() {
    let mut c = scenario_config();
    c.category_id = None;
    c.auto_delete_empty = false;
    c.name_template = voicetemp::default_channel_name_template();
    let p = VoiceTempPlugin::new(c);
    assert_eq!(
        handle_info(&p),
        "📋 **Информация о плагине VoiceTemp**\n**Плагин:** VoiceTemp Plugin\n**Версия:** 1.0.0\n\n**Канал-триггер:** <#100>\n**Категория:** Не указана\n**Шаблон имени:** {user} temporary\n**Автоудаление пустых:** Нет\n**Активных временных каналов:** 0"
    );
}

#[test]
fn interaction_dispatches() {
    let mut p = VoiceTempPlugin::new(scenario_config());
    assert!(handle_interaction(&mut p, 1, 10, &"unknown".to_string(), &vec![]).is_none());
    let (a, reply) = handle_interaction(&mut p, 1, 10, &"voicetemp-create".to_string(), &vec![]).unwrap();
    assert!(matches!(a, Action::CreateChannel { .. }));
    assert!(reply.starts_with("✅ Запрос на создание"));
    let (i, info) = handle_interaction(&mut p, 1, 10, &"voicetemp-info".to_string(), &vec![]).unwrap();
    assert_eq!(i, Action::Nothing);
    assert!(info.ends_with("**Активных временных каналов:** 1"));
}

#[test]
fn command_declarations() {
    let cmds = get_commands();
    let names: Vec<&str> = cmds.iter().map(|c| c.name.as_str()).collect();
    assert_eq!(names, vec!["voicetemp-setup", "voicetemp-create", "voicetemp-delete", "voicetemp-info"]);
    assert_eq!(cmds[0].options.len(), 2);
    assert_eq!(cmds[0].options[0].name, "trigger_channel");
    assert_eq!(cmds[0].description, "Настроить канал-триггер для временных голосовых каналов");
    assert_eq!(cmds[1].options[1].description, "Лимит пользователей (0 = без лимита)");
    assert_eq!(cmds[0].options[0].kind, OptionKind::Channel);
    assert!(cmds[0].options[0].required);
    assert!(!cmds[0].options[1].required);
    assert_eq!(cmds[1].options[1].kind, OptionKind::Integer);
    assert!(cmds[2].options.is_empty());
}
