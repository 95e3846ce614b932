use crate::naming::{decimal_digits, decimal_string, room_name, room_name_for};
use crate::store::Slot;
use crate::plugin::{removal_step, request_step, Action, ActionView, Config, VoiceTempPlugin};
use vstd::prelude::*;
use vstd::string::StringExecFns;

verus! {

/// The value of the decimal digits `s`.
pub open spec fn digits_value(s: Seq<char>) -> int
    decreases s.len(),
{
    if s.len() == 0 {
        0
    } else {
        10 * digits_value(s.drop_last()) + (s.last() as int - '0' as int)
    }
}

/// `s` is one or more ASCII digits.
pub open spec fn all_digits(s: Seq<char>) -> bool {
    s.len() > 0 && forall|i: int| 0 <= i < s.len() ==> '0' <= #[trigger] s[i] <= '9'
}

/// The number that `s` spells in decimal, with an optional leading `+`, if it
/// fits in a `u64`.
pub open spec fn parsed_u64(s: Seq<char>) -> Option<u64> {
    let digits = if s.len() > 0 && s[0] == '+' {
        s.drop_first()
    } else {
        s
    };
    if all_digits(digits) && digits_value(digits) <= u64::MAX {
        Some(digits_value(digits) as u64)
    } else {
        None
    }
}

/// Relies on `<u64 as FromStr>::from_str`: an optional `+`, then one or more
/// decimal digits whose value fits; anything else is an error.
#[verifier::external_body]
fn parse_u64(s: &str) -> (r: Option<u64>)
    ensures
        r == parsed_u64(s@),
{
    s.parse::<u64>().ok()
}

/// One option of an administrative command as the host delivered it: its
/// name, and its value where that is a string or an unsigned number.
#[derive(Clone, Debug)]
pub struct CommandOption {
    pub name: String,
    pub text: Option<String>,
    pub number: Option<u64>,
}

/// The id given under option `name` in `opts`: the last option of that name
/// whose text is a number wins.
pub open spec fn id_option(opts: Seq<CommandOption>, name: Seq<char>) -> Option<u64>
    decreases opts.len(),
{
    if opts.len() == 0 {
        None
    } else {
        let o = opts.last();
        let here = if o.name@ == name && o.text is Some {
            parsed_u64(o.text->Some_0@)
        } else {
            None
        };
        if here is Some {
            here
        } else {
            id_option(opts.drop_last(), name)
        }
    }
}

/// The id given under option `name` in `opts`, as [`id_option`] says.
pub fn find_id_option(opts: &Vec<CommandOption>, name: &String) -> (r: Option<u64>)
    ensures
        r == id_option(opts@, name@),
{
    let mut found: Option<u64> = None;
    let mut i: usize = 0;
    while i < opts.len()
        invariant
            i <= opts@.len(),
            found == id_option(opts@.subrange(0, i as int), name@),
        decreases opts@.len() - i,
    {
        let o = &opts[i];
        if o.name == *name {
            match &o.text {
                Some(t) => {
                    let v = parse_u64(t.as_str());
                    if v.is_some() {
                        found = v;
                    }
                },
                None => {},
            }
        }
        proof {
            let s = opts@.subrange(0, i + 1);
            assert(s.drop_last() =~= opts@.subrange(0, i as int));
            assert(s.last() == opts@[i as int]);
        }
        i = i + 1;
    }
    proof {
        assert(opts@.subrange(0, opts@.len() as int) =~= opts@);
    }
    found
}

/// The text given under option `name` in `opts`: the last option of that name
/// that carries text wins.
pub open spec fn text_option(opts: Seq<CommandOption>, name: Seq<char>) -> Option<Seq<char>>
    decreases opts.len(),
{
    if opts.len() == 0 {
        None
    } else if opts.last().name@ == name && opts.last().text is Some {
        Some(opts.last().text->Some_0@)
    } else {
        text_option(opts.drop_last(), name)
    }
}

/// The number given under option `name` in `opts`: the last option of that
/// name that carries a number wins.
pub open spec fn number_option(opts: Seq<CommandOption>, name: Seq<char>) -> Option<u64>
    decreases opts.len(),
{
    if opts.len() == 0 {
        None
    } else if opts.last().name@ == name && opts.last().number is Some {
        opts.last().number
    } else {
        number_option(opts.drop_last(), name)
    }
}

/// The text given under option `name` in `opts`, as [`text_option`] says.
pub fn find_text_option(opts: &Vec<CommandOption>, name: &String) -> (r: Option<String>)
    ensures
        r is Some == text_option(opts@, name@) is Some,
        r is Some ==> r->Some_0@ == text_option(opts@, name@)->Some_0,
{
    let mut found: Option<String> = None;
    let mut i: usize = 0;
    while i < opts.len()
        invariant
            i <= opts@.len(),
            found is Some == text_option(opts@.subrange(0, i as int), name@) is Some,
            found is Some ==> found->Some_0@ == text_option(opts@.subrange(0, i as int), name@)->Some_0,
        decreases opts@.len() - i,
    {
        let o = &opts[i];
        if o.name == *name {
            match &o.text {
                Some(t) => {
                    found = Some(t.clone());
                },
                None => {},
            }
        }
        proof {
            let s = opts@.subrange(0, i + 1);
            assert(s.drop_last() =~= opts@.subrange(0, i as int));
            assert(s.last() == opts@[i as int]);
        }
        i = i + 1;
    }
    proof {
        assert(opts@.subrange(0, opts@.len() as int) =~= opts@);
    }
    found
}

/// The number given under option `name` in `opts`, as [`number_option`] says.
pub fn find_number_option(opts: &Vec<CommandOption>, name: &String) -> (r: Option<u64>)
    ensures
        r == number_option(opts@, name@),
{
    let mut found: Option<u64> = None;
    let mut i: usize = 0;
    while i < opts.len()
        invariant
            i <= opts@.len(),
            found == number_option(opts@.subrange(0, i as int), name@),
        decreases opts@.len() - i,
    {
        let o = &opts[i];
        if o.name == *name && o.number.is_some() {
            found = o.number;
        }
        proof {
            let s = opts@.subrange(0, i + 1);
            assert(s.drop_last() =~= opts@.subrange(0, i as int));
            assert(s.last() == opts@[i as int]);
        }
        i = i + 1;
    }
    proof {
        assert(opts@.subrange(0, opts@.len() as int) =~= opts@);
    }
    found
}

/// The administrative commands.
#[derive(Clone, Copy, Debug, PartialEq, Eq)]
pub enum AdminCommand {
    Setup,
    Create,
    Delete,
    Info,
}

/// The command that the host calls `name`, if it is one of this plugin's.
pub open spec fn command_named(name: Seq<char>) -> Option<AdminCommand> {
    if name == "voicetemp-setup"@ {
        Some(AdminCommand::Setup)
    } else if name == "voicetemp-create"@ {
        Some(AdminCommand::Create)
    } else if name == "voicetemp-delete"@ {
        Some(AdminCommand::Delete)
    } else if name == "voicetemp-info"@ {
        Some(AdminCommand::Info)
    } else {
        None
    }
}

/// The command that the host calls `name`, as [`command_named`] says.
pub fn parse_command(name: &String) -> (r: Option<AdminCommand>)
    ensures
        r == command_named(name@),
{
    if *name == "voicetemp-setup".to_owned() {
        Some(AdminCommand::Setup)
    } else if *name == "voicetemp-create".to_owned() {
        Some(AdminCommand::Create)
    } else if *name == "voicetemp-delete".to_owned() {
        Some(AdminCommand::Delete)
    } else if *name == "voicetemp-info".to_owned() {
        Some(AdminCommand::Info)
    } else {
        None
    }
}

/// How a reply names a channel.
pub open spec fn mention(id: u64) -> Seq<char> {
    "<#"@ + decimal_digits(id as nat) + ">"@
}

/// The reply line on the category of new rooms; `unset` where there is none.
pub open spec fn category_line(category: Option<u64>, unset: Seq<char>) -> Seq<char> {
    match category {
        Some(c) => "**Категория:** "@ + mention(c) + "\n"@,
        None => unset,
    }
}

/// The reply to the setup command, given the trigger and category it named.
pub open spec fn setup_reply(trigger: Option<u64>, category: Option<u64>) -> Seq<char> {
    match trigger {
        Some(t) => "✅ Канал-триггер настроен!\n**Канал-триггер:** "@ + mention(t) + "\n"@
            + category_line(
            category,
            "**Категория:** Не указана (каналы будут создаваться в той же категории)\n"@,
        )
            + "\n💡 Теперь при входе пользователя в канал-триггер будет автоматически создаваться временный голосовой канал."@,
        None => "❌ Ошибка: не указан канал-триггер"@,
    }
}

/// The trigger channel that the options of a setup command name.
pub open spec fn setup_trigger(opts: Seq<CommandOption>) -> Option<u64> {
    id_option(opts, "trigger_channel"@)
}

/// The category that the options of a setup command name.
pub open spec fn setup_category(opts: Seq<CommandOption>) -> Option<u64> {
    id_option(opts, "category"@)
}

fn mention_text(id: u64) -> (r: String)
    ensures
        r@ == mention(id),
{
    let mut r = "<#".to_owned();
    r.append(decimal_string(id).as_str());
    r.append(">");
    r
}

fn category_text(category: Option<u64>, unset: &str) -> (r: String)
    ensures
        r@ == category_line(category, unset@),
{
    match category {
        Some(c) => {
            let mut r = "**Категория:** ".to_owned();
            r.append(mention_text(c).as_str());
            r.append("\n");
            proof {
                assert(r@ =~= category_line(category, unset@));
            }
            r
        },
        None => unset.to_owned(),
    }
}

/// The setup command: where its options name a trigger channel, that channel
/// and the named category (or none) are configured; otherwise nothing changes.
/// Returns the reply.
pub fn handle_setup(plugin: &mut VoiceTempPlugin, opts: &Vec<CommandOption>) -> (r: String)
    ensures
        r@ == setup_reply(setup_trigger(opts@), setup_category(opts@)),
        final(plugin).records() == old(plugin).records(),
        setup_trigger(opts@) is None ==> final(plugin).settings() == old(plugin).settings(),
        setup_trigger(opts@) is Some ==> final(plugin).settings() == (Config {
            master_channel_id: setup_trigger(opts@)->Some_0,
            category_id: setup_category(opts@),
            ..old(plugin).settings()
        }),
{
    let trigger = find_id_option(opts, &"trigger_channel".to_owned());
    let category = find_id_option(opts, &"category".to_owned());
    match trigger {
        Some(t) => {
            plugin.apply_setup(t, category);
            let mut r = "✅ Канал-триггер настроен!\n**Канал-триггер:** ".to_owned();
            r.append(mention_text(t).as_str());
            r.append("\n");
            r.append(
                category_text(
                    category,
                    "**Категория:** Не указана (каналы будут создаваться в той же категории)\n",
                ).as_str(),
            );
            r.append("\n💡 Теперь при входе пользователя в канал-триггер будет автоматически создаваться временный голосовой канал.");
            proof {
                assert(r@ =~= setup_reply(trigger, category));
            }
            r
        },
        None => "❌ Ошибка: не указан канал-триггер".to_owned(),
    }
}

/// The name asked for by a create command: its `name` option, else the
/// configured template applied to the user.
pub open spec fn requested_name(opts: Seq<CommandOption>, template: Seq<char>, user: u64) -> Seq<char> {
    match text_option(opts, "name"@) {
        Some(n) => n,
        None => room_name(template, user),
    }
}

/// How a reply states a user limit; zero means no limit.
pub open spec fn limit_line(limit: Option<u64>) -> Seq<char> {
    match limit {
        Some(n) => if n == 0 {
            "без лимита"@
        } else {
            "лимит: "@ + decimal_digits(n as nat)
        },
        None => "без лимита"@,
    }
}

/// The reply to a create command, by whether a room was asked for.
pub open spec fn create_reply(name: Seq<char>, limit: Option<u64>, started: bool) -> Seq<char> {
    if started {
        "✅ Запрос на создание временного канала получен!\n**Название:** "@ + name + "\n**Лимит:** "@ + limit_line(limit)
    } else {
        "❌ Не удалось создать временный канал: у вас уже есть временный канал или этот сервер не обслуживается."@
    }
}

/// The reply to a delete command, by whether a deletion was asked for.
pub open spec fn delete_reply(started: bool) -> Seq<char> {
    if started {
        "✅ Запрос на удаление временного канала получен!"@
    } else {
        "❌ Не удалось удалить временный канал: у вас нет временного канала."@
    }
}

/// The reply to the info command: the configuration and the number of live
/// records.
pub open spec fn info_reply(c: Config, count: nat) -> Seq<char> {
    "📋 **Информация о плагине VoiceTemp**\n**Плагин:** VoiceTemp Plugin\n**Версия:** 1.0.0\n\n**Канал-триггер:** "@
        + mention(c.master_channel_id) + "\n"@ + category_line(c.category_id, "**Категория:** Не указана\n"@)
        + "**Шаблон имени:** "@ + c.name_template@ + "\n**Автоудаление пустых:** "@ + (if c.auto_delete_empty {
        "Да"@
    } else {
        "Нет"@
    }) + "\n**Активных временных каналов:** "@ + decimal_digits(count)
}

/// The records, the configuration, the action and the reply after `user`, in
/// `guild`, gave command `cmd` with options `opts`.
pub open spec fn command_outcome(
    m: Map<u64, Slot>,
    c: Config,
    user: u64,
    guild: u64,
    cmd: AdminCommand,
    opts: Seq<CommandOption>,
) -> (Map<u64, Slot>, Config, ActionView, Seq<char>) {
    match cmd {
        AdminCommand::Setup => (
            m,
            match setup_trigger(opts) {
                Some(t) => Config { master_channel_id: t, category_id: setup_category(opts), ..c },
                None => c,
            },
            ActionView::Nothing,
            setup_reply(setup_trigger(opts), setup_category(opts)),
        ),
        AdminCommand::Create => {
            let name = requested_name(opts, c.name_template@, user);
            let (m2, a) = request_step(m, c, user, guild, name);
            (m2, c, a, create_reply(name, number_option(opts, "limit"@), a is CreateChannel))
        },
        AdminCommand::Delete => {
            let (m2, a) = removal_step(m, c, user, guild);
            (m2, c, a, delete_reply(a is DeleteChannel))
        },
        AdminCommand::Info => (m, c, ActionView::Nothing, info_reply(c, m.len())),
    }
}

fn limit_text(limit: Option<u64>) -> (r: String)
    ensures
        r@ == limit_line(limit),
{
    match limit {
        Some(n) => if n == 0 {
            "без лимита".to_owned()
        } else {
            let mut r = "лимит: ".to_owned();
            r.append(decimal_string(n).as_str());
            r
        },
        None => "без лимита".to_owned(),
    }
}

/// The create command: asks for a room for `user`, through the same claim as
/// entering the trigger channel. Returns the action and the reply.
pub fn handle_create(plugin: &mut VoiceTempPlugin, user: u64, guild: u64, opts: &Vec<CommandOption>) -> (r: (Action, String))
    ensures
        (final(plugin).records(), final(plugin).settings(), r.0@, r.1@) == command_outcome(
            old(plugin).records(),
            old(plugin).settings(),
            user,
            guild,
            AdminCommand::Create,
            opts@,
        ),
{
    let name = match find_text_option(opts, &"name".to_owned()) {
        Some(n) => n,
        None => room_name_for(plugin.config().name_template.as_str(), user),
    };
    let limit = find_number_option(opts, &"limit".to_owned());
    let mut reply = "✅ Запрос на создание временного канала получен!\n**Название:** ".to_owned();
    reply.append(name.as_str());
    let action = plugin.request_room(user, guild, name);
    if let Action::CreateChannel { .. } = action {
        reply.append("\n**Лимит:** ");
        reply.append(limit_text(limit).as_str());
        (action, reply)
    } else {
        (action, "❌ Не удалось создать временный канал: у вас уже есть временный канал или этот сервер не обслуживается.".to_owned())
    }
}

/// The delete command: removes the record of `user` and asks for their
/// room's deletion. Returns the action and the reply.
pub fn handle_delete(plugin: &mut VoiceTempPlugin, user: u64, guild: u64) -> (r: (Action, String))
    ensures
        (final(plugin).records(), final(plugin).settings(), r.0@, r.1@) == command_outcome(
            old(plugin).records(),
            old(plugin).settings(),
            user,
            guild,
            AdminCommand::Delete,
            seq![],
        ),
{
    let action = plugin.request_removal(user, guild);
    if let Action::DeleteChannel { .. } = action {
        (action, "✅ Запрос на удаление временного канала получен!".to_owned())
    } else {
        (action, "❌ Не удалось удалить временный канал: у вас нет временного канала.".to_owned())
    }
}

/// The info command: the reply that shows the configuration and the number
/// of live records.
pub fn handle_info(plugin: &VoiceTempPlugin) -> (r: String)
    ensures
        r@ == info_reply(plugin.settings(), plugin.records().len()),
{
    let c = plugin.config();
    let count = plugin.active_channel_count();
    let mut r = "📋 **Информация о плагине VoiceTemp**\n**Плагин:** VoiceTemp Plugin\n**Версия:** 1.0.0\n\n**Канал-триггер:** ".to_owned();
    r.append(mention_text(c.master_channel_id).as_str());
    r.append("\n");
    r.append(category_text(c.category_id, "**Категория:** Не указана\n").as_str());
    r.append("**Шаблон имени:** ");
    r.append(c.name_template.as_str());
    r.append("\n**Автоудаление пустых:** ");
    if c.auto_delete_empty {
        r.append("Да");
    } else {
        r.append("Нет");
    }
    r.append("\n**Активных временных каналов:** ");
    r.append(decimal_string(count as u64).as_str());
    proof {
        assert(r@ =~= info_reply(plugin.settings(), plugin.records().len()));
    }
    r
}

/// Runs the administrative command that the host calls `name`, given by
/// `user` in `guild` with options `opts`. Returns the action and the reply, or
/// `None`, with nothing changed, where the command is not this plugin's.
pub fn handle_interaction(
    plugin: &mut VoiceTempPlugin,
    user: u64,
    guild: u64,
    name: &String,
    opts: &Vec<CommandOption>,
) -> (r: Option<(Action, String)>)
    ensures
        r is None <==> command_named(name@) is None,
        r is None ==> final(plugin).records() == old(plugin).records() && final(plugin).settings()
            == old(plugin).settings(),
        r is Some ==> ({
            let (a, reply) = r->Some_0;
            (final(plugin).records(), final(plugin).settings(), a@, reply@) == command_outcome(
                old(plugin).records(),
                old(plugin).settings(),
                user,
                guild,
                command_named(name@)->Some_0,
                opts@,
            )
        }),
{
    match parse_command(name) {
        Some(AdminCommand::Setup) => Some((Action::Nothing, handle_setup(plugin, opts))),
        Some(AdminCommand::Create) => Some(handle_create(plugin, user, guild, opts)),
        Some(AdminCommand::Delete) => Some(handle_delete(plugin, user, guild)),
        Some(AdminCommand::Info) => Some((Action::Nothing, handle_info(plugin))),
        None => None,
    }
}

/// The type of value a command option takes.
#[derive(Clone, Copy, Debug, PartialEq, Eq)]
pub enum OptionKind {
    Channel,
    Text,
    Integer,
}

/// The declaration of one option of a command.
#[derive(Clone, Debug)]
pub struct OptionSpec {
    pub kind: OptionKind,
    pub name: String,
    pub description: String,
    pub required: bool,
}

/// The declaration of one command: its name, description and options.
#[derive(Clone, Debug)]
pub struct CommandSpec {
    pub name: String,
    pub description: String,
    pub options: Vec<OptionSpec>,
}

/// An option declaration with its texts as sequences of characters.
pub struct OptionSpecView {
    pub kind: OptionKind,
    pub name: Seq<char>,
    pub description: Seq<char>,
    pub required: bool,
}

/// A command declaration with its texts as sequences of characters.
pub struct CommandSpecView {
    pub name: Seq<char>,
    pub description: Seq<char>,
    pub options: Seq<OptionSpecView>,
}

impl View for OptionSpec {
    type V = OptionSpecView;

    open spec fn view(&self) -> OptionSpecView {
        OptionSpecView {
            kind: self.kind,
            name: self.name@,
            description: self.description@,
            required: self.required,
        }
    }
}

impl View for CommandSpec {
    type V = CommandSpecView;

    open spec fn view(&self) -> CommandSpecView {
        CommandSpecView {
            name: self.name@,
            description: self.description@,
            options: self.options@.map_values(|o: OptionSpec| o@),
        }
    }
}

/// The commands this plugin registers, in order.
pub open spec fn command_table() -> Seq<CommandSpecView> {
    seq![
        CommandSpecView {
            name: "voicetemp-setup"@,
            description: "Настроить канал-триггер для временных голосовых каналов"@,
            options: seq![
                OptionSpecView {
                    kind: OptionKind::Channel,
                    name: "trigger_channel"@,
                    description: "Голосовой канал, при входе в который создается временный канал"@,
                    required: true,
                },
                OptionSpecView {
                    kind: OptionKind::Channel,
                    name: "category"@,
                    description: "Категория, в которой будут создаваться временные каналы (опционально)"@,
                    required: false,
                },
            ],
        },
        CommandSpecView {
            name: "voicetemp-create"@,
            description: "Создать временный голосовой канал"@,
            options: seq![
                OptionSpecView {
                    kind: OptionKind::Text,
                    name: "name"@,
                    description: "Название канала (по умолчанию: имя пользователя)"@,
                    required: false,
                },
                OptionSpecView {
                    kind: OptionKind::Integer,
                    name: "limit"@,
                    description: "Лимит пользователей (0 = без лимита)"@,
                    required: false,
                },
            ],
        },
        CommandSpecView {
            name: "voicetemp-delete"@,
            description: "Удалить текущий временный канал"@,
            options: seq![],
        },
        CommandSpecView {
            name: "voicetemp-info"@,
            description: "Показать информацию о настройках временных каналов"@,
            options: seq![],
        },
    ]
}

fn option_spec(kind: OptionKind, name: &str, description: &str, required: bool) -> (r: OptionSpec)
    ensures
        r@ == (OptionSpecView { kind, name: name@, description: description@, required }),
{
    OptionSpec { kind, name: name.to_owned(), description: description.to_owned(), required }
}

/// The commands this plugin registers, as [`command_table`] lists them.
pub fn get_commands() -> (r: Vec<CommandSpec>)
    ensures
        r@.map_values(|c: CommandSpec| c@) == command_table(),
{
    let mut setup_options: Vec<OptionSpec> = Vec::new();
    setup_options.push(
        option_spec(
            OptionKind::Channel,
            "trigger_channel",
            "Голосовой канал, при входе в который создается временный канал",
            true,
        ),
    );
    setup_options.push(
        option_spec(
            OptionKind::Channel,
            "category",
            "Категория, в которой будут создаваться временные каналы (опционально)",
            false,
        ),
    );
    let mut create_options: Vec<OptionSpec> = Vec::new();
    create_options.push(
        option_spec(OptionKind::Text, "name", "Название канала (по умолчанию: имя пользователя)", false),
    );
    create_options.push(
        option_spec(OptionKind::Integer, "limit", "Лимит пользователей (0 = без лимита)", false),
    );
    let mut r: Vec<CommandSpec> = Vec::new();
    r.push(
        CommandSpec {
            name: "voicetemp-setup".to_owned(),
            description: "Настроить канал-триггер для временных голосовых каналов".to_owned(),
            options: setup_options,
        },
    );
    r.push(
        CommandSpec {
            name: "voicetemp-create".to_owned(),
            description: "Создать временный голосовой канал".to_owned(),
            options: create_options,
        },
    );
    r.push(
        CommandSpec {
            name: "voicetemp-delete".to_owned(),
            description: "Удалить текущий временный канал".to_owned(),
            options: Vec::new(),
        },
    );
    r.push(
        CommandSpec {
            name: "voicetemp-info".to_owned(),
            description: "Показать информацию о настройках временных каналов".to_owned(),
            options: Vec::new(),
        },
    );
    proof {
        assert(r@[0]@.options =~= command_table()[0].options);
        assert(r@[1]@.options =~= command_table()[1].options);
        assert(r@[2]@.options =~= command_table()[2].options);
        assert(r@[3]@.options =~= command_table()[3].options);
        assert(r@.map_values(|c: CommandSpec| c@) =~= command_table());
    }
    r
}

} // verus!
