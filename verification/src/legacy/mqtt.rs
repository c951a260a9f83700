//! What the first generation's MQTT publisher reads from the configuration:
//! where it connects, and the topics it publishes reports to and receives
//! commands from.
use vstd::prelude::*;
use crate::config_value::{ConfigTable, ConfigValue};
use crate::plugins::mqtt::{conf_str, get_str, has_str};
use crate::legacy::manager::{get_int, has_int, section};

verus! {

/// Whether the configuration holds what the publisher reads: a `settings`
/// table with the host name, and a `p_mqtt` table with the topic suffix,
/// the broker's host name, port (an integer), user name, password and
/// client id prefix.
pub open spec fn legacy_mqtt_config_ok(conf: ConfigTable) -> bool {
    &&& conf.lookup("settings"@) matches Some(ConfigValue::Table(_))
    &&& conf.lookup("p_mqtt"@) matches Some(ConfigValue::Table(_))
    &&& has_str(section(conf, "settings"@), "hostname"@)
    &&& has_str(section(conf, "p_mqtt"@), "suffix"@)
    &&& has_str(section(conf, "p_mqtt"@), "hostname"@)
    &&& has_int(section(conf, "p_mqtt"@), "port"@)
    &&& has_str(section(conf, "p_mqtt"@), "username"@)
    &&& has_str(section(conf, "p_mqtt"@), "password"@)
    &&& has_str(section(conf, "p_mqtt"@), "client_id"@)
}

/// Where the publisher connects and which topics it uses.
pub struct LegacyMqttSettings {
    /// `suffix/hostname`: the topics live under it.
    pub publish_queue: String,
    /// The topic commands arrive on: `suffix/hostname/commands`.
    pub commands_topic: String,
    pub host: String,
    pub port: u16,
    pub username: String,
    pub password: String,
    pub client_id_prefix: String,
    /// Whether to log in: only where a user name is set.
    pub use_credentials: bool,
}

fn table_of<'a>(conf: &'a ConfigTable, key: &str) -> (r: Option<&'a ConfigTable>)
    ensures
        match r {
            Some(t) => conf.lookup(key@) matches Some(ConfigValue::Table(u)) && *t == u,
            None => !(conf.lookup(key@) matches Some(ConfigValue::Table(_))),
        },
{
    match conf.get(key) {
        Some(v) => v.as_table(),
        None => None,
    }
}

fn int_of(t: &ConfigTable, key: &str) -> (r: Option<i64>)
    ensures
        match r {
            Some(i) => has_int(*t, key@) && i == get_int(*t, key@),
            None => !has_int(*t, key@),
        },
{
    match t.get(key) {
        Some(v) => v.as_integer(),
        None => None,
    }
}

/// Whether the configuration is one [`legacy_mqtt_settings`] reads.
pub fn check_legacy_mqtt_config(conf: &ConfigTable) -> (b: bool)
    ensures
        b == legacy_mqtt_config_ok(*conf),
{
    match (table_of(conf, "settings"), table_of(conf, "p_mqtt")) {
        (Some(settings), Some(mqtt)) => {
            get_str(settings, "hostname").is_some() && get_str(mqtt, "suffix").is_some()
                && get_str(mqtt, "hostname").is_some() && int_of(mqtt, "port").is_some()
                && get_str(mqtt, "username").is_some() && get_str(mqtt, "password").is_some()
                && get_str(mqtt, "client_id").is_some()
        },
        _ => false,
    }
}

/// The publisher's settings: its topics live under `suffix/hostname`, the
/// port is the configured integer taken modulo 2^16, and it logs in only
/// where the user name is not empty.
pub fn legacy_mqtt_settings(conf: &ConfigTable) -> (s: LegacyMqttSettings)
    requires
        legacy_mqtt_config_ok(*conf),
    ensures
        s.publish_queue@ == conf_str(section(*conf, "p_mqtt"@), "suffix"@) + "/"@ + conf_str(section(*conf, "settings"@), "hostname"@),
        s.commands_topic@ == s.publish_queue@ + "/commands"@,
        s.host@ == conf_str(section(*conf, "p_mqtt"@), "hostname"@),
        s.port == #[verifier::truncate] (get_int(section(*conf, "p_mqtt"@), "port"@) as u16),
        s.username@ == conf_str(section(*conf, "p_mqtt"@), "username"@),
        s.password@ == conf_str(section(*conf, "p_mqtt"@), "password"@),
        s.client_id_prefix@ == conf_str(section(*conf, "p_mqtt"@), "client_id"@),
        s.use_credentials == (s.username@.len() > 0),
{
    let settings = table_of(conf, "settings").unwrap();
    let mqtt = table_of(conf, "p_mqtt").unwrap();
    let hostname = get_str(settings, "hostname").unwrap().as_str();
    let suffix = get_str(mqtt, "suffix").unwrap().as_str();
    let publish_queue = String::from_str(suffix).concat("/").concat(hostname);
    let commands_topic = publish_queue.clone().concat("/commands");
    let port = #[verifier::truncate] (int_of(mqtt, "port").unwrap() as u16);
    let username = get_str(mqtt, "username").unwrap().clone();
    let use_credentials = username.unicode_len() > 0;
    LegacyMqttSettings {
        publish_queue,
        commands_topic,
        host: get_str(mqtt, "hostname").unwrap().clone(),
        port,
        username,
        password: get_str(mqtt, "password").unwrap().clone(),
        client_id_prefix: get_str(mqtt, "client_id").unwrap().clone(),
        use_credentials,
    }
}

/// The topic the report of the reporter `id` is published to:
/// `publish_queue/reports/id`.
pub fn reports_topic(publish_queue: &str, id: &str) -> (r: String)
    ensures
        r@ == publish_queue@ + "/reports/"@ + id@,
{
    String::from_str(publish_queue).concat("/reports/").concat(id)
}

} // verus!
