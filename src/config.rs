use vstd::prelude::*;

verus! {

/// Settings of the administrative surface: the trigger channel, the category
/// that new rooms go to, the room name template and whether rooms that their
/// owner left are deleted.
#[derive(Clone, Debug)]
pub struct VoiceTempConfig {
    pub trigger_channel_id: Option<u64>,
    pub category_id: Option<u64>,
    pub channel_name_template: String,
    pub auto_delete_empty: bool,
}

/// The name template used when none is configured.
pub fn default_channel_name_template() -> (r: String)
    ensures
        r@ == "{user} temporary"@,
{
    "{user} temporary".to_owned()
}

/// Rooms are deleted when left, unless configured otherwise.
pub fn default_auto_delete_empty() -> (r: bool)
    ensures
        r,
{
    true
}

impl Default for VoiceTempConfig {
    fn default() -> (r: VoiceTempConfig)
        ensures
            r.trigger_channel_id is None,
            r.category_id is None,
            r.channel_name_template@ == "{user} temporary"@,
            r.auto_delete_empty,
    {
        VoiceTempConfig {
            trigger_channel_id: None,
            category_id: None,
            channel_name_template: default_channel_name_template(),
            auto_delete_empty: default_auto_delete_empty(),
        }
    }
}

impl VoiceTempConfig {
    /// Applies the setup command: the trigger channel is set and the category
    /// replaced; the template and the deletion policy are kept.
    pub fn apply_setup(&mut self, trigger_channel_id: u64, category_id: Option<u64>)
        ensures
            final(self).trigger_channel_id == Some(trigger_channel_id),
            final(self).category_id == category_id,
            final(self).channel_name_template == old(self).channel_name_template,
            final(self).auto_delete_empty == old(self).auto_delete_empty,
    {
        self.trigger_channel_id = Some(trigger_channel_id);
        self.category_id = category_id;
    }
}

/// The configuration in effect when no stored one is available: the defaults.
pub fn load_config() -> (r: Result<VoiceTempConfig, String>)
    ensures
        r is Ok,
        r->Ok_0.trigger_channel_id is None,
        r->Ok_0.category_id is None,
        r->Ok_0.channel_name_template@ == "{user} temporary"@,
        r->Ok_0.auto_delete_empty,
{
    Ok(VoiceTempConfig::default())
}

} // verus!
