use crate::config::{default_channel_name_template, VoiceTempConfig};
use crate::naming::{room_name, room_name_for};
use crate::store::{is_claimed, owned_channel, Slot, TempChannelStore};
use vstd::prelude::*;

verus! {

/// What the lifecycle manager runs on: the trigger channel ("master"), the
/// category new rooms go to, the one guild it serves, the room name template
/// and whether a room is deleted once its owner leaves it.
#[derive(Clone, Debug)]
pub struct Config {
    pub master_channel_id: u64,
    pub category_id: Option<u64>,
    pub allowed_guild_id: u64,
    pub name_template: String,
    pub auto_delete_empty: bool,
}

/// The trigger channel used when no configuration is available.
pub const DEFAULT_MASTER_CHANNEL_ID: u64 = 1366403705460621359;

/// The category used when no configuration is available.
pub const DEFAULT_CATEGORY_ID: u64 = 1366403705460621357;

/// The guild served when no configuration is available.
pub const DEFAULT_ALLOWED_GUILD_ID: u64 = 1366403704130900018;

impl Default for Config {
    fn default() -> (r: Config)
        ensures
            r.master_channel_id == DEFAULT_MASTER_CHANNEL_ID,
            r.category_id == Some(DEFAULT_CATEGORY_ID),
            r.allowed_guild_id == DEFAULT_ALLOWED_GUILD_ID,
            r.name_template@ == "{user} temporary"@,
            r.auto_delete_empty,
    {
        Config {
            master_channel_id: DEFAULT_MASTER_CHANNEL_ID,
            category_id: Some(DEFAULT_CATEGORY_ID),
            allowed_guild_id: DEFAULT_ALLOWED_GUILD_ID,
            name_template: default_channel_name_template(),
            auto_delete_empty: true,
        }
    }
}

impl Config {
    /// The manager's configuration for `allowed_guild_id` from the
    /// administrative settings, or `None` where they name no trigger channel.
    pub fn from_settings(settings: &VoiceTempConfig, allowed_guild_id: u64) -> (r: Option<Config>)
        ensures
            r is None <==> settings.trigger_channel_id is None,
            r is Some ==> r->Some_0 == (Config {
                master_channel_id: settings.trigger_channel_id->Some_0,
                category_id: settings.category_id,
                allowed_guild_id,
                name_template: settings.channel_name_template,
                auto_delete_empty: settings.auto_delete_empty,
            }),
    {
        match settings.trigger_channel_id {
            Some(trigger) => Some(
                Config {
                    master_channel_id: trigger,
                    category_id: settings.category_id,
                    allowed_guild_id,
                    name_template: settings.channel_name_template.clone(),
                    auto_delete_empty: settings.auto_delete_empty,
                },
            ),
            None => None,
        }
    }
}

/// A change of a user's voice channel: where they were and where they are now
/// (`None`: in no voice channel).
#[derive(Clone, Copy, Debug, PartialEq, Eq)]
pub struct PresenceEvent {
    pub user_id: u64,
    pub guild_id: u64,
    pub previous_channel_id: Option<u64>,
    pub current_channel_id: Option<u64>,
}

/// What the host is asked to do next.
#[derive(Clone, Debug, PartialEq, Eq)]
pub enum Action {
    Nothing,
    CreateChannel { guild_id: u64, name: String, category_id: Option<u64> },
    MoveMember { guild_id: u64, user_id: u64, channel_id: u64 },
    DeleteChannel { channel_id: u64 },
}

/// An [`Action`] with the room name as a sequence of characters.
pub enum ActionView {
    Nothing,
    CreateChannel { guild_id: u64, name: Seq<char>, category_id: Option<u64> },
    MoveMember { guild_id: u64, user_id: u64, channel_id: u64 },
    DeleteChannel { channel_id: u64 },
}

impl View for Action {
    type V = ActionView;

    open spec fn view(&self) -> ActionView {
        match self {
            Action::Nothing => ActionView::Nothing,
            Action::CreateChannel { guild_id, name, category_id } => ActionView::CreateChannel {
                guild_id: *guild_id,
                name: name@,
                category_id: *category_id,
            },
            Action::MoveMember { guild_id, user_id, channel_id } => ActionView::MoveMember {
                guild_id: *guild_id,
                user_id: *user_id,
                channel_id: *channel_id,
            },
            Action::DeleteChannel { channel_id } => ActionView::DeleteChannel {
                channel_id: *channel_id,
            },
        }
    }
}

/// The user of `e` enters the trigger channel.
pub open spec fn enters_trigger(c: Config, e: PresenceEvent) -> bool {
    e.current_channel_id == Some(c.master_channel_id)
}

/// The records and the action after presence event `e`, from records `m`.
///
/// Events of another guild change nothing. Entering the trigger channel
/// without a record claims the user and asks for their room; with a record it
/// changes nothing. Being anywhere but in one's own room (another channel, or
/// none) removes the record and asks for the room's deletion, where rooms are
/// deleted once left. Everything else changes nothing.
pub open spec fn presence_step(m: Map<u64, Slot>, c: Config, e: PresenceEvent) -> (
    Map<u64, Slot>,
    ActionView,
) {
    let user = e.user_id;
    if e.guild_id != c.allowed_guild_id {
        (m, ActionView::Nothing)
    } else if enters_trigger(c, e) {
        if m.contains_key(user) {
            (m, ActionView::Nothing)
        } else {
            (
                m.insert(user, None),
                ActionView::CreateChannel {
                    guild_id: e.guild_id,
                    name: room_name(c.name_template@, user),
                    category_id: c.category_id,
                },
            )
        }
    } else {
        match owned_channel(m, user) {
            Some(room) => if e.current_channel_id != Some(room) && c.auto_delete_empty {
                (m.remove(user), ActionView::DeleteChannel { channel_id: room })
            } else {
                (m, ActionView::Nothing)
            },
            None => (m, ActionView::Nothing),
        }
    }
}

/// The records and the action after the host answered a creation request of
/// `user` in `guild` with `created` (`None`: the creation failed).
///
/// A created room is bound to the user's claim and the user is moved into it;
/// a failed creation releases the claim.
pub open spec fn creation_step(m: Map<u64, Slot>, user: u64, guild: u64, created: Option<u64>) -> (
    Map<u64, Slot>,
    ActionView,
) {
    match created {
        Some(room) => (
            if is_claimed(m, user) {
                m.insert(user, Some(room))
            } else {
                m
            },
            ActionView::MoveMember { guild_id: guild, user_id: user, channel_id: room },
        ),
        None => (
            if is_claimed(m, user) {
                m.remove(user)
            } else {
                m
            },
            ActionView::Nothing,
        ),
    }
}

/// The records and the action after `user`, in `guild`, asked by command for
/// a room named `name`: as entering the trigger channel, with that name.
pub open spec fn request_step(m: Map<u64, Slot>, c: Config, user: u64, guild: u64, name: Seq<char>) -> (
    Map<u64, Slot>,
    ActionView,
) {
    if guild != c.allowed_guild_id || m.contains_key(user) {
        (m, ActionView::Nothing)
    } else {
        (
            m.insert(user, None),
            ActionView::CreateChannel { guild_id: guild, name, category_id: c.category_id },
        )
    }
}

/// The records and the action after `user`, in `guild`, asked by command for
/// the deletion of their room: the record goes and the room is to be deleted.
pub open spec fn removal_step(m: Map<u64, Slot>, c: Config, user: u64, guild: u64) -> (
    Map<u64, Slot>,
    ActionView,
) {
    if guild != c.allowed_guild_id {
        (m, ActionView::Nothing)
    } else {
        match owned_channel(m, user) {
            Some(room) => (m.remove(user), ActionView::DeleteChannel { channel_id: room }),
            None => (m, ActionView::Nothing),
        }
    }
}

/// The lifecycle manager: its configuration and the records of who owns
/// which temporary room.
pub struct VoiceTempPlugin {
    temp_channels: TempChannelStore,
    config: Config,
}

impl VoiceTempPlugin {
    /// The records, user id to slot.
    pub closed spec fn records(&self) -> Map<u64, Slot> {
        self.temp_channels@
    }

    /// The configuration in effect.
    pub closed spec fn settings(&self) -> Config {
        self.config
    }

    /// A manager with no records, running on `config`.
    pub fn new(config: Config) -> (r: VoiceTempPlugin)
        ensures
            r.records() == Map::<u64, Slot>::empty(),
            r.settings() == config,
    {
        VoiceTempPlugin { temp_channels: TempChannelStore::new(), config }
    }

    /// The name the host knows this plugin by.
    pub fn name(&self) -> (r: &'static str)
        ensures
            r@ == "VoiceTempPlugin"@,
    {
        "VoiceTempPlugin"
    }

    /// Takes the configuration that was loaded, or the defaults where none
    /// could be loaded. The records are kept.
    pub fn on_load(&mut self, loaded: Option<Config>)
        ensures
            final(self).records() == old(self).records(),
            loaded is Some ==> final(self).settings() == loaded->Some_0,
            loaded is None ==> {
                let c = final(self).settings();
                &&& c.master_channel_id == DEFAULT_MASTER_CHANNEL_ID
                &&& c.category_id == Some(DEFAULT_CATEGORY_ID)
                &&& c.allowed_guild_id == DEFAULT_ALLOWED_GUILD_ID
                &&& c.name_template@ == "{user} temporary"@
                &&& c.auto_delete_empty
            },
    {
        match loaded {
            Some(c) => self.config = c,
            None => self.config = Config::default(),
        }
    }

    /// Drops every record. The rooms themselves are left to the guild's
    /// administrators: a shutdown does not reach out to the host.
    pub fn on_unload(&mut self)
        ensures
            final(self).records() == Map::<u64, Slot>::empty(),
            final(self).settings() == old(self).settings(),
    {
        self.temp_channels.clear();
    }

    /// The configuration in effect.
    pub fn config(&self) -> (r: &Config)
        ensures
            *r == self.settings(),
    {
        &self.config
    }

    /// The room that `user` owns, if it exists.
    pub fn owned_channel(&self, user: u64) -> (r: Option<u64>)
        ensures
            r == owned_channel(self.records(), user),
    {
        self.temp_channels.lookup(user)
    }

    /// Whether a room is being created for `user`.
    pub fn is_creating(&self, user: u64) -> (r: bool)
        ensures
            r == is_claimed(self.records(), user),
    {
        self.temp_channels.has_claim(user)
    }

    /// The number of live records, rooms being created included.
    pub fn active_channel_count(&self) -> (r: usize)
        ensures
            r == self.records().len(),
    {
        self.temp_channels.len()
    }

    /// Handles a command of `user` in `guild` asking for a room named `name`,
    /// through the same claim as the automatic flow.
    pub fn request_room(&mut self, user: u64, guild: u64, name: String) -> (r: Action)
        ensures
            (final(self).records(), r@) == request_step(
                old(self).records(),
                old(self).settings(),
                user,
                guild,
                name@,
            ),
            final(self).settings() == old(self).settings(),
    {
        if guild != self.config.allowed_guild_id {
            return Action::Nothing;
        }
        if self.temp_channels.try_claim(user) {
            Action::CreateChannel { guild_id: guild, name, category_id: self.config.category_id }
        } else {
            Action::Nothing
        }
    }

    /// Handles a command of `user` in `guild` asking for their room to go.
    pub fn request_removal(&mut self, user: u64, guild: u64) -> (r: Action)
        ensures
            (final(self).records(), r@) == removal_step(
                old(self).records(),
                old(self).settings(),
                user,
                guild,
            ),
            final(self).settings() == old(self).settings(),
    {
        if guild != self.config.allowed_guild_id {
            return Action::Nothing;
        }
        match self.temp_channels.lookup(user) {
            Some(room) => {
                if self.temp_channels.remove_if(user, room) {
                    Action::DeleteChannel { channel_id: room }
                } else {
                    Action::Nothing
                }
            },
            None => Action::Nothing,
        }
    }

    /// Makes `trigger` the trigger channel and `category` the category of new
    /// rooms; the rest of the configuration and the records are kept.
    pub fn apply_setup(&mut self, trigger: u64, category: Option<u64>)
        ensures
            final(self).records() == old(self).records(),
            final(self).settings().master_channel_id == trigger,
            final(self).settings().category_id == category,
            final(self).settings().allowed_guild_id == old(self).settings().allowed_guild_id,
            final(self).settings().name_template == old(self).settings().name_template,
            final(self).settings().auto_delete_empty == old(self).settings().auto_delete_empty,
    {
        self.config.master_channel_id = trigger;
        self.config.category_id = category;
    }

    /// Records the host's answer to a creation request for `user` in `guild`
    /// (`None`: it failed) and decides what follows.
    pub fn on_channel_created(&mut self, user: u64, guild: u64, created: Option<u64>) -> (r: Action)
        ensures
            (final(self).records(), r@) == creation_step(old(self).records(), user, guild, created),
            final(self).settings() == old(self).settings(),
    {
        match created {
            Some(room) => {
                self.temp_channels.bind(user, room);
                Action::MoveMember { guild_id: guild, user_id: user, channel_id: room }
            },
            None => {
                self.temp_channels.abandon_claim(user);
                Action::Nothing
            },
        }
    }
}

/// Decides what presence change `event` calls for, and records it.
pub fn handle_voice_state_update(plugin: &mut VoiceTempPlugin, event: &PresenceEvent) -> (r: Action)
    ensures
        (final(plugin).records(), r@) == presence_step(
            old(plugin).records(),
            old(plugin).settings(),
            *event,
        ),
        final(plugin).settings() == old(plugin).settings(),
{
    let user = event.user_id;
    if event.guild_id != plugin.config.allowed_guild_id {
        return Action::Nothing;
    }
    if event.current_channel_id == Some(plugin.config.master_channel_id) {
        if plugin.temp_channels.try_claim(user) {
            let name = room_name_for(plugin.config.name_template.as_str(), user);
            Action::CreateChannel {
                guild_id: event.guild_id,
                name,
                category_id: plugin.config.category_id,
            }
        } else {
            Action::Nothing
        }
    } else {
        match plugin.temp_channels.lookup(user) {
            Some(room) => {
                if event.current_channel_id != Some(room) && plugin.config.auto_delete_empty
                    && plugin.temp_channels.remove_if(user, room) {
                    Action::DeleteChannel { channel_id: room }
                } else {
                    Action::Nothing
                }
            },
            None => Action::Nothing,
        }
    }
}

} // verus!
