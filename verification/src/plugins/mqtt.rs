//! The MQTT publisher plugin: the topics and connection settings it reads
//! from its configuration.
use vstd::prelude::*;
use crate::config_value::{ConfigTable, ConfigValue};
use crate::text::{parse_unsigned, spec_parse_unsigned};

verus! {

/// The string configured under `key`.
pub open spec fn conf_str(conf: ConfigTable, key: Seq<char>) -> Seq<char> {
    conf.lookup(key)->Some_0->String_0@
}

pub open spec fn has_str(conf: ConfigTable, key: Seq<char>) -> bool {
    conf.lookup(key) matches Some(ConfigValue::String(_))
}

/// Whether the configuration holds every setting the plugin reads: the
/// topic parts, host, port (a number that fits in 16 bits), user name and
/// password as strings, and whether to use TLS as a boolean.
pub open spec fn mqtt_config_ok(conf: ConfigTable) -> bool {
    &&& has_str(conf, "topic_prefix"@)
    &&& has_str(conf, "topic_reports"@)
    &&& has_str(conf, "topic_commands"@)
    &&& has_str(conf, "mqtthost"@)
    &&& has_str(conf, "mqttport"@)
    &&& has_str(conf, "username"@)
    &&& has_str(conf, "password"@)
    &&& conf.lookup("usetls"@) matches Some(ConfigValue::Boolean(_))
    &&& spec_parse_unsigned(conf_str(conf, "mqttport"@), 65535) is Some
}

/// What the plugin connects and publishes with.
pub struct MqttSettings {
    pub topic_reports: String,
    pub topic_commands: String,
    pub topic_commands_reports: String,
    pub client_id: String,
    pub host: String,
    pub port: u16,
    pub username: String,
    pub password: String,
    pub use_tls: bool,
    /// Seconds between keep-alive pings.
    pub keep_alive_secs: u64,
}

/// The string configured under `key`, where it is one.
pub fn get_str<'a>(conf: &'a ConfigTable, key: &str) -> (r: Option<&'a String>)
    ensures
        match r {
            Some(s) => has_str(*conf, key@) && s@ == conf_str(*conf, key@),
            None => !has_str(*conf, key@),
        },
{
    match conf.get(key) {
        Some(v) => v.as_str(),
        None => None,
    }
}

/// Whether the configuration is one [`mqtt_settings`] reads.
pub fn check_mqtt_config(conf: &ConfigTable) -> (b: bool)
    ensures
        b == mqtt_config_ok(*conf),
{
    let port_ok = match get_str(conf, "mqttport") {
        Some(p) => parse_unsigned(p.as_str(), 65535).is_some(),
        None => false,
    };
    let tls_ok = match conf.get("usetls") {
        Some(v) => v.as_bool().is_some(),
        None => false,
    };
    get_str(conf, "topic_prefix").is_some() && get_str(conf, "topic_reports").is_some()
        && get_str(conf, "topic_commands").is_some() && get_str(conf, "mqtthost").is_some()
        && port_ok && get_str(conf, "username").is_some() && get_str(conf, "password").is_some()
        && tls_ok
}

/// The settings of the plugin on the host `hostname`: reports go to
/// `prefix/<topic_reports>/hostname`, commands come from
/// `prefix/<topic_commands>/hostname/report`, the client is
/// `prefix-hostname`, and it pings every 5 seconds.
pub fn mqtt_settings(hostname: &str, conf: &ConfigTable) -> (s: MqttSettings)
    requires
        mqtt_config_ok(*conf),
    ensures
        s.topic_reports@ == conf_str(*conf, "topic_prefix"@) + "/"@ + conf_str(*conf, "topic_reports"@) + "/"@ + hostname@,
        s.topic_commands@ == conf_str(*conf, "topic_prefix"@) + "/"@ + conf_str(*conf, "topic_commands"@) + "/"@ + hostname@,
        s.topic_commands_reports@ == s.topic_commands@ + "/report"@,
        s.client_id@ == conf_str(*conf, "topic_prefix"@) + "-"@ + hostname@,
        s.host@ == conf_str(*conf, "mqtthost"@),
        Some(s.port as nat) == spec_parse_unsigned(conf_str(*conf, "mqttport"@), 65535),
        s.username@ == conf_str(*conf, "username"@),
        s.password@ == conf_str(*conf, "password"@),
        conf.lookup("usetls"@) == Some(ConfigValue::Boolean(s.use_tls)),
        s.keep_alive_secs == 5,
{
    let prefix = get_str(conf, "topic_prefix").unwrap().as_str();
    let reports = get_str(conf, "topic_reports").unwrap().as_str();
    let commands = get_str(conf, "topic_commands").unwrap().as_str();
    let topic_reports = String::from_str(prefix).concat("/").concat(reports).concat("/").concat(hostname);
    let topic_commands = String::from_str(prefix).concat("/").concat(commands).concat("/").concat(hostname);
    let topic_commands_reports = topic_commands.clone().concat("/report");
    let client_id = String::from_str(prefix).concat("-").concat(hostname);
    let host = get_str(conf, "mqtthost").unwrap().clone();
    let port_text = get_str(conf, "mqttport").unwrap();
    let port = parse_unsigned(port_text.as_str(), 65535).unwrap() as u16;
    let username = get_str(conf, "username").unwrap().clone();
    let password = get_str(conf, "password").unwrap().clone();
    let use_tls = conf.get("usetls").unwrap().as_bool().unwrap();
    MqttSettings {
        topic_reports,
        topic_commands,
        topic_commands_reports,
        client_id,
        host,
        port,
        username,
        password,
        use_tls,
        keep_alive_secs: 5,
    }
}

/// The topic a report of `reporter` is published to.
pub fn report_topic(topic_reports: &str, reporter: &str) -> (r: String)
    ensures
        r@ == topic_reports@ + "/"@ + reporter@,
{
    String::from_str(topic_reports).concat("/").concat(reporter)
}

} // verus!
