use psistats::config_value::{ConfigTable, ConfigValue};
use psistats::legacy::manager::{
    check_publishers_config, check_reporters_config, plan_publishers, plan_reporters, reporter_tick,
};
use psistats::legacy::mqtt::{check_legacy_mqtt_config, legacy_mqtt_settings, reports_topic};
use psistats::legacy::publishers::{get_commander, get_publisher, CommanderKind, PublisherKind};
use psistats::legacy::reporters::{
    get_reporter, ip_addrs_reporter, mem_reporter, os_reporter, pingpong_reporter, Report, ReporterError, ReporterKind,
};
use psistats::schedule::next_counter;

fn report(id: &str, value: &str) -> Report {
    Report::new(id.to_string(), value.to_string())
}

#[test]
fn report_json_keeps_objects_arrays_and_numbers() {
    assert_eq!(report("os", "{\"a\": 1}").to_json(), "{\"id\": \"os\", \"value\": {\"a\": 1}}");
    assert_eq!(report("ip_addrs", "[1, 2]").to_json(), "{\"id\": \"ip_addrs\", \"value\": [1, 2]}");
    assert_eq!(report("mem", "123").to_json(), "{\"id\": \"mem\", \"value\": 123}");
    assert_eq!(report("mem", "+5").to_json(), "{\"id\": \"mem\", \"value\": +5}");
}

#[test]
fn report_json_quotes_other_values() {
    assert_eq!(report("cpu", "abc").to_json(), "{\"id\": \"cpu\", \"value\": \"abc\"}");
    assert_eq!(report("cpu", "-1").to_json(), "{\"id\": \"cpu\", \"value\": \"-1\"}");
    assert_eq!(report("cpu", "1.5").to_json(), "{\"id\": \"cpu\", \"value\": \"1.5\"}");
    assert_eq!(report("cpu", "").to_json(), "{\"id\": \"cpu\", \"value\": \"\"}");
    assert_eq!(
        report("cpu", "18446744073709551616").to_json(),
        "{\"id\": \"cpu\", \"value\": \"18446744073709551616\"}"
    );
}

#[test]
fn report_to_string_is_its_json() {
    let r = report("cpu", "42");
    assert_eq!(r.to_string(), r.to_json());
}

#[test]
fn pingpong_reports_pong() {
    let r = pingpong_reporter(&ConfigTable::new());
    assert_eq!(r.id, "pingpong");
    assert_eq!(r.to_json(), "{\"id\": \"pingpong\", \"value\": \"\"pong\"\"}");
}

#[test]
fn reporters_are_found_by_name() {
    assert_eq!(get_reporter("cpu".to_string()), Some(ReporterKind::Cpu));
    assert_eq!(get_reporter("mem".to_string()), Some(ReporterKind::Mem));
    assert_eq!(get_reporter("ip_addrs".to_string()), Some(ReporterKind::IpAddrs));
    assert_eq!(get_reporter("os".to_string()), Some(ReporterKind::Os));
    assert_eq!(get_reporter("disk".to_string()), None);
    assert_eq!(ReporterError.message(), "An error occurred with the reporter");
}

#[test]
fn publishers_and_commanders_are_found_by_name() {
    assert_eq!(get_publisher("mqtt".to_string()), Some(PublisherKind::Mqtt));
    assert_eq!(get_publisher("log".to_string()), Some(PublisherKind::Log));
    assert_eq!(get_publisher("stdout".to_string()), None);
    assert_eq!(get_commander("mqtt".to_string()), Some(CommanderKind::Mqtt));
    assert_eq!(get_commander("log".to_string()), None);
}

fn table(entries: Vec<(&str, ConfigValue)>) -> ConfigValue {
    let mut t = ConfigTable::new();
    for (k, v) in entries {
        t.insert(k.to_string(), v);
    }
    ConfigValue::Table(t)
}

fn reporter_section(enabled: bool, interval: i64) -> ConfigValue {
    table(vec![("enabled", ConfigValue::Boolean(enabled)), ("interval", ConfigValue::Integer(interval))])
}

fn legacy_conf() -> ConfigTable {
    let mut conf = ConfigTable::new();
    conf.insert(
        "settings".to_string(),
        table(vec![("workers", ConfigValue::Integer(2)), ("timer", ConfigValue::Integer(1000))]),
    );
    conf.insert("r_cpu".to_string(), reporter_section(true, 1));
    conf.insert("r_mem".to_string(), reporter_section(true, 5));
    conf.insert("r_os".to_string(), reporter_section(false, 30));
    conf.insert("r_disk".to_string(), reporter_section(true, 60));
    conf.insert("r_ip_addrs".to_string(), reporter_section(true, 5));
    conf.insert("p_mqtt".to_string(), table(vec![("enabled", ConfigValue::Boolean(true))]));
    conf.insert("p_log".to_string(), table(vec![("enabled", ConfigValue::Boolean(true))]));
    conf
}

#[test]
fn plan_reporters_groups_enabled_known_reporters() {
    let conf = legacy_conf();
    assert!(check_reporters_config(&conf));
    let plan = plan_reporters(&conf);
    assert_eq!(plan.max_counter, 5);
    assert_eq!(plan.workers, 2);
    assert_eq!(plan.timer, 1000);
    assert_eq!(plan.groups.len(), 2);
    assert_eq!(plan.groups[0].interval, 1);
    assert_eq!(plan.groups[0].plugins, vec!["cpu".to_string()]);
    assert_eq!(plan.groups[1].interval, 5);
    assert_eq!(plan.groups[1].plugins, vec!["mem".to_string(), "ip_addrs".to_string()]);
}

#[test]
fn plan_reporters_without_reporters_cycles_on_one() {
    let mut conf = ConfigTable::new();
    conf.insert(
        "settings".to_string(),
        table(vec![("workers", ConfigValue::Integer(1)), ("timer", ConfigValue::Integer(500))]),
    );
    let plan = plan_reporters(&conf);
    assert_eq!(plan.max_counter, 1);
    assert!(plan.groups.is_empty());
}

#[test]
fn reporter_config_is_checked() {
    assert!(!check_reporters_config(&ConfigTable::new()));
    let mut conf = legacy_conf();
    conf.insert("r_cpu".to_string(), table(vec![("enabled", ConfigValue::Boolean(true))]));
    assert!(!check_reporters_config(&conf));
    let mut unknown = legacy_conf();
    unknown.insert("r_gpu".to_string(), table(vec![("enabled", ConfigValue::Boolean(true))]));
    assert!(check_reporters_config(&unknown));
    let mut not_table = legacy_conf();
    not_table.insert("r_mem".to_string(), ConfigValue::Integer(3));
    assert!(!check_reporters_config(&not_table));
}

#[test]
fn plan_publishers_enables_known_publishers_and_commanders() {
    let conf = legacy_conf();
    assert!(check_publishers_config(&conf));
    let (publishers, commanders) = plan_publishers(&conf);
    assert_eq!(publishers, vec![PublisherKind::Mqtt, PublisherKind::Log]);
    assert_eq!(commanders, vec![CommanderKind::Mqtt]);
}

#[test]
fn publisher_config_is_checked() {
    let mut conf = ConfigTable::new();
    conf.insert("p_mqtt".to_string(), table(vec![("enabled", ConfigValue::String("yes".to_string()))]));
    assert!(!check_publishers_config(&conf));
    let mut disabled = ConfigTable::new();
    disabled.insert("p_mqtt".to_string(), table(vec![("enabled", ConfigValue::Boolean(false))]));
    assert!(check_publishers_config(&disabled));
    let (publishers, commanders) = plan_publishers(&disabled);
    assert!(publishers.is_empty());
    assert!(commanders.is_empty());
}

#[test]
fn counter_cycles_back_to_one() {
    let mut c = 1;
    let mut seen = Vec::new();
    for _ in 0..6 {
        seen.push(c);
        c = next_counter(c, 3);
    }
    assert_eq!(seen, vec![1, 2, 3, 1, 2, 3]);
    assert_eq!(next_counter(7, 3), 1);
}

#[test]
fn mem_reporter_writes_a_json_list() {
    let r = mem_reporter(16384, 2048);
    assert_eq!(r.id, "mem");
    assert_eq!(r.value, "[16384,2048]");
    assert_eq!(r.to_json(), "{\"id\": \"mem\", \"value\": [16384,2048]}");
}

#[test]
fn os_reporter_writes_escaped_strings() {
    let r = os_reporter("Ubuntu".to_string(), "20.04 \"focal\"".to_string());
    assert_eq!(r.id, "os");
    assert_eq!(r.value, "[\"Ubuntu\",\"20.04 \\\"focal\\\"\"]");
}

#[test]
fn ip_addrs_reporter_writes_pairs() {
    let ips = vec![("lo".to_string(), "127.0.0.1".to_string()), ("eth0".to_string(), "10.0.0.2".to_string())];
    let r = ip_addrs_reporter(&ips);
    assert_eq!(r.id, "ip_addrs");
    assert_eq!(r.value, "[[\"lo\",\"127.0.0.1\"],[\"eth0\",\"10.0.0.2\"]]");
    assert_eq!(ip_addrs_reporter(&Vec::new()).value, "[]");
}

fn mqtt_section(user: &str, port: i64) -> ConfigValue {
    table(vec![
        ("enabled", ConfigValue::Boolean(true)),
        ("suffix", ConfigValue::String("psistats".to_string())),
        ("hostname", ConfigValue::String("broker".to_string())),
        ("port", ConfigValue::Integer(port)),
        ("username", ConfigValue::String(user.to_string())),
        ("password", ConfigValue::String("pw".to_string())),
        ("client_id", ConfigValue::String("ps".to_string())),
    ])
}

fn mqtt_conf(user: &str, port: i64) -> ConfigTable {
    let mut conf = ConfigTable::new();
    conf.insert("settings".to_string(), table(vec![("hostname", ConfigValue::String("box".to_string()))]));
    conf.insert("p_mqtt".to_string(), mqtt_section(user, port));
    conf
}

#[test]
fn legacy_mqtt_settings_build_topics() {
    let conf = mqtt_conf("alice", 1883);
    assert!(check_legacy_mqtt_config(&conf));
    let s = legacy_mqtt_settings(&conf);
    assert_eq!(s.publish_queue, "psistats/box");
    assert_eq!(s.commands_topic, "psistats/box/commands");
    assert_eq!(s.host, "broker");
    assert_eq!(s.port, 1883);
    assert_eq!(s.client_id_prefix, "ps");
    assert!(s.use_credentials);
    assert_eq!(reports_topic(&s.publish_queue, "cpu"), "psistats/box/reports/cpu");
}

#[test]
fn legacy_mqtt_without_user_does_not_log_in() {
    let s = legacy_mqtt_settings(&mqtt_conf("", 65536 + 1883));
    assert!(!s.use_credentials);
    assert_eq!(s.port, 1883);
}

#[test]
fn legacy_mqtt_config_is_checked() {
    let mut conf = ConfigTable::new();
    conf.insert("p_mqtt".to_string(), mqtt_section("alice", 1883));
    assert!(!check_legacy_mqtt_config(&conf));
    let mut bad_port = mqtt_conf("alice", 1883);
    bad_port.insert(
        "p_mqtt".to_string(),
        table(vec![("suffix", ConfigValue::String("psistats".to_string())), ("port", ConfigValue::String("1883".to_string()))]),
    );
    assert!(!check_legacy_mqtt_config(&bad_port));
}

#[test]
fn mem_reporter_writes_decimals() {
    assert_eq!(mem_reporter(0, u64::MAX).value, "[0,18446744073709551615]");
}

#[test]
fn reporter_ticks_cycle_and_run_due_groups() {
    let plan = plan_reporters(&legacy_conf());
    let mut counter = 1;
    let mut seen = Vec::new();
    for _ in 0..5 {
        let (next, due) = reporter_tick(&plan, counter);
        counter = next;
        seen.push((counter, due));
    }
    assert_eq!(seen[0], (2, vec!["cpu".to_string()]));
    assert_eq!(seen[3], (5, vec!["cpu".to_string(), "mem".to_string(), "ip_addrs".to_string()]));
    assert_eq!(seen[4], (1, vec!["cpu".to_string()]));
}
