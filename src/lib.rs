//! Temporary voice rooms: a verified lifecycle manager that decides, for each
//! voice presence change, whether to create, keep or tear down a user's room.
//!
//! - `store`: who owns which room, with claims that keep two creations for
//!   one user from both going ahead;
//! - `plugin`: the manager's configuration and its state machine, stated as
//!   `presence_step` and `creation_step`;
//! - `laws`: the properties that every run of the state machine has;
//! - `commands`: the administrative commands and their replies;
//! - `naming`, `config`: room names and the stored settings.
//!
//! The host performs the returned `Action`s and reports creations back.

mod commands;
mod config;
mod laws;
mod naming;
mod plugin;
mod store;

pub use commands::{
    all_digits, category_line, command_named, command_outcome, command_table, create_reply,
    delete_reply, digits_value, find_id_option, find_number_option, find_text_option,
    get_commands, handle_create, handle_delete, handle_info, handle_interaction, handle_setup,
    id_option, info_reply, limit_line, mention, number_option, parse_command, parsed_u64,
    requested_name, setup_category, setup_reply, setup_trigger, text_option, AdminCommand,
    CommandOption, CommandSpec, CommandSpecView, OptionKind, OptionSpec, OptionSpecView,
};
pub use config::{
    default_auto_delete_empty, default_channel_name_template, load_config, VoiceTempConfig,
};
pub use laws::{
    lemma_at_most_one_record, lemma_cleanup_on_departure, lemma_guild_scoping,
    lemma_idempotent_reentry, lemma_no_duplicate_creation, lemma_switch_cleans_up, records_of, run,
    ManagerInput,
};
pub use naming::{decimal_digits, digit_char, placeholder, replaced, room_name, room_name_for};
pub use plugin::{
    creation_step, enters_trigger, handle_voice_state_update, presence_step, removal_step,
    request_step, Action, ActionView, Config, PresenceEvent, VoiceTempPlugin,
    DEFAULT_ALLOWED_GUILD_ID, DEFAULT_CATEGORY_ID, DEFAULT_MASTER_CHANNEL_ID,
};
pub use store::{is_claimed, owned_channel, Slot, TempChannelStore};
