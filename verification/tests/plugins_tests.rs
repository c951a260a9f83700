use psistats::config_value::{ConfigTable, ConfigValue};
use psistats::libpsistats::config::PluginSettings;
use psistats::libpsistats::reports::ReportValue;
use psistats::plugins::envcanada::{condition_mapper, feed_url, parse, parse_events, xml_events, XmlEvent};
use psistats::plugins::mqtt::{check_mqtt_config, mqtt_settings, report_topic};
use psistats::plugins::sensors::{check_sensor_config, sensor_path, SensorReading, SensorSettings};
use psistats::plugins::system::{memory_report, os_report};
use psistats::plugins::weather::Conditions;

const CITY_PAGE: &str = "<?xml version='1.0' encoding='UTF-8'?>
<siteData>
<location><name>Montreal</name></location>
<currentConditions>
<condition>Mostly Cloudy</condition>
<temperature unitType=\"metric\" units=\"C\">-3.2</temperature>
<dewpoint unitType=\"metric\" units=\"C\">-7.0</dewpoint>
<pressure unitType=\"metric\" units=\"kPa\" change=\"0.10\" tendency=\"rising\">101.8</pressure>
<wind><speed unitType=\"metric\" units=\"km/h\">13</speed><gust unitType=\"metric\" units=\"km/h\"></gust><direction>WNW</direction></wind>
</currentConditions>
<forecastGroup><forecast><temperatures><temperature class=\"high\">5</temperature></temperatures></forecast></forecastGroup>
</siteData>
";

fn start(n: &str) -> XmlEvent {
    XmlEvent::Start(n.to_string())
}

fn end(n: &str) -> XmlEvent {
    XmlEvent::End(n.to_string())
}

fn text(t: &str) -> XmlEvent {
    XmlEvent::Text(t.as_bytes().to_vec())
}

fn name_of(c: &Conditions) -> String {
    c.to_string()
}

#[test]
fn condition_mapper_maps_feed_texts() {
    assert_eq!(name_of(&condition_mapper("Sunny")), "Clear");
    assert_eq!(name_of(&condition_mapper("Mainly Sunny")), "MainlyClear");
    assert_eq!(name_of(&condition_mapper("Squalls")), "HeavySnow");
    assert_eq!(name_of(&condition_mapper("Rain and Snow")), "Snow");
    assert_eq!(name_of(&condition_mapper("Snow Pellets")), "LightFreezingRain");
    assert_eq!(name_of(&condition_mapper("Heavy Thunderstorm with Rain")), "Thunderstorm");
    assert_eq!(name_of(&condition_mapper("Mist")), "Fog");
    assert_eq!(name_of(&condition_mapper("Mainly Clear")), "MainlyClear");
    assert_eq!(name_of(&condition_mapper("sunny")), "Unknown");
    assert_eq!(name_of(&condition_mapper("")), "Unknown");
}

#[test]
fn conditions_have_their_names() {
    assert_eq!(Conditions::PartlyCloudy.to_string(), "PartlyCloudy");
    assert_eq!(Conditions::HeavyFreezingRain.to_string(), "HeavyFreezingRain");
    assert_eq!(Conditions::Squalls.to_string(), "Squalls");
    assert_eq!(Conditions::Unknown.to_string(), "Unknown");
}

#[test]
fn parse_reads_current_conditions_of_a_city_page() {
    let c = parse(CITY_PAGE).unwrap();
    assert_eq!(c.temperature.as_deref(), Some("-3.2"));
    assert_eq!(c.dewpoint.as_deref(), Some("-7.0"));
    assert_eq!(c.pressure.as_deref(), Some("101.8"));
    assert_eq!(c.wind_speed.as_deref(), Some("13"));
    assert_eq!(c.wind_direction, "WNW");
    assert_eq!(c.conditions.to_string(), "MostlyCloudy");
}

#[test]
fn parse_of_a_page_without_current_conditions_keeps_defaults() {
    let c = parse("<siteData><temperature>4</temperature></siteData>").unwrap();
    assert!(c.temperature.is_none());
    assert!(c.pressure.is_none());
    assert_eq!(c.wind_direction, "N");
    assert_eq!(c.conditions.to_string(), "Unknown");
}

#[test]
fn parse_refuses_a_broken_document() {
    assert!(parse("<siteData><currentConditions></siteData>").is_err());
}

#[test]
fn parse_unescapes_texts() {
    let c = parse("<currentConditions><wind><direction>N&amp;E</direction></wind></currentConditions>").unwrap();
    assert_eq!(c.wind_direction, "N&E");
}

#[test]
fn parse_events_reads_up_to_the_end() {
    let evs = vec![
        start("currentConditions"),
        start("temperature"),
        text("12.5"),
        end("temperature"),
        start("condition"),
        text("Light Snow"),
        end("condition"),
        end("currentConditions"),
        XmlEvent::Eof,
        start("currentConditions"),
        start("pressure"),
        text("99.0"),
    ];
    let c = parse_events(&evs).unwrap();
    assert_eq!(c.temperature.as_deref(), Some("12.5"));
    assert!(c.pressure.is_none());
    assert_eq!(c.conditions.to_string(), "LightSnow");
}

#[test]
fn parse_events_ignores_text_outside_current_conditions() {
    let evs = vec![start("temperature"), text("&bogus;"), end("temperature"), XmlEvent::Eof];
    let c = parse_events(&evs).unwrap();
    assert!(c.temperature.is_none());
}

#[test]
fn parse_events_refuses_errors_and_bad_text() {
    assert!(parse_events(&vec![start("currentConditions"), XmlEvent::Error]).is_err());
    let bad = vec![start("currentConditions"), start("temperature"), text("&bogus;"), XmlEvent::Eof];
    assert!(parse_events(&bad).is_err());
    let not_utf8 = vec![start("currentConditions"), start("dewpoint"), XmlEvent::Text(vec![0xff, 0xfe]), XmlEvent::Eof];
    assert!(parse_events(&not_utf8).is_err());
}

#[test]
fn parse_events_unescapes_wind_direction() {
    let evs = vec![
        start("currentConditions"),
        start("wind"),
        start("direction"),
        text("S&lt;W"),
        end("direction"),
        start("speed"),
        text("40"),
        end("speed"),
        end("wind"),
    ];
    let c = parse_events(&evs).unwrap();
    assert_eq!(c.wind_direction, "S<W");
    assert_eq!(c.wind_speed.as_deref(), Some("40"));
}

#[test]
fn feed_url_names_the_city_page() {
    assert_eq!(feed_url("QC", "s0000635"), "https://dd.weather.gc.ca/citypage_weather/xml/QC/s0000635_e.xml");
}

fn strings(items: &[&str]) -> ConfigValue {
    ConfigValue::Array(items.iter().map(|s| ConfigValue::String(s.to_string())).collect())
}

fn sensor_conf() -> ConfigTable {
    let mut conf = ConfigTable::new();
    conf.insert("includes".to_string(), strings(&["cpu", "/acpi/temp1/input"]));
    conf.insert(
        "mapping".to_string(),
        ConfigValue::Array(vec![strings(&["/coretemp/Core 0/input", "cpu"])]),
    );
    conf
}

fn reading(name: &str, value: u64) -> SensorReading {
    SensorReading { name: name.to_string(), value }
}

fn report_pair(v: &ReportValue) -> (String, u64) {
    match v {
        ReportValue::Array(p) => match (&p[0], &p[1]) {
            (ReportValue::String(n), ReportValue::Float(x)) => (n.clone(), *x),
            _ => panic!("not a reading"),
        },
        _ => panic!("not a reading"),
    }
}

#[test]
fn sensor_config_is_checked() {
    assert!(check_sensor_config(&sensor_conf()));
    assert!(check_sensor_config(&ConfigTable::new()));
    let mut bad = ConfigTable::new();
    bad.insert("includes".to_string(), ConfigValue::Array(vec![ConfigValue::Integer(1)]));
    assert!(!check_sensor_config(&bad));
    let mut short = ConfigTable::new();
    short.insert("mapping".to_string(), ConfigValue::Array(vec![strings(&["only one"])]));
    assert!(!check_sensor_config(&short));
}

#[test]
fn sensors_report_included_readings_under_mapped_names() {
    let settings = PluginSettings::new("sensors".to_string(), true, Some(5), sensor_conf());
    let mut s = SensorSettings::new();
    s.init(&settings);
    assert_eq!(s.includes.len(), 2);
    let readings = vec![
        reading("/coretemp/Core 0/input", 40),
        reading("/acpi/temp1/input", 30),
        reading("/nvme/temp1/input", 50),
    ];
    match s.get_report(&readings) {
        ReportValue::Array(items) => {
            assert_eq!(items.len(), 2);
            assert_eq!(report_pair(&items[0]), ("cpu".to_string(), 40));
            assert_eq!(report_pair(&items[1]), ("/acpi/temp1/input".to_string(), 30));
        },
        _ => panic!("not an array"),
    }
}

#[test]
fn sensors_without_includes_report_everything() {
    let s = SensorSettings::new();
    let readings = vec![reading("/a/b/c", 1), reading("/d/e/f", 2)];
    match s.get_report(&readings) {
        ReportValue::Array(items) => {
            assert_eq!(items.len(), 2);
            assert_eq!(report_pair(&items[1]), ("/d/e/f".to_string(), 2));
        },
        _ => panic!("not an array"),
    }
}

#[test]
fn sensor_path_joins_names() {
    assert_eq!(sensor_path("coretemp-isa-0000", "Core 0", "temp2_input"), "/coretemp-isa-0000/Core 0/temp2_input");
}

fn mqtt_conf(port: &str) -> ConfigTable {
    let mut conf = ConfigTable::new();
    for (k, v) in [
        ("topic_prefix", "psistats"),
        ("topic_reports", "reports"),
        ("topic_commands", "commands"),
        ("mqtthost", "broker.local"),
        ("mqttport", port),
        ("username", "user"),
        ("password", "pass"),
    ] {
        conf.insert(k.to_string(), ConfigValue::String(v.to_string()));
    }
    conf.insert("usetls".to_string(), ConfigValue::Boolean(true));
    conf
}

#[test]
fn mqtt_settings_build_topics() {
    let conf = mqtt_conf("1883");
    assert!(check_mqtt_config(&conf));
    let s = mqtt_settings("box", &conf);
    assert_eq!(s.topic_reports, "psistats/reports/box");
    assert_eq!(s.topic_commands, "psistats/commands/box");
    assert_eq!(s.topic_commands_reports, "psistats/commands/box/report");
    assert_eq!(s.client_id, "psistats-box");
    assert_eq!(s.host, "broker.local");
    assert_eq!(s.port, 1883);
    assert_eq!(s.username, "user");
    assert!(s.use_tls);
    assert_eq!(s.keep_alive_secs, 5);
}

#[test]
fn mqtt_config_needs_a_port_number() {
    assert!(!check_mqtt_config(&mqtt_conf("70000")));
    assert!(!check_mqtt_config(&mqtt_conf("port")));
    assert!(!check_mqtt_config(&ConfigTable::new()));
}

#[test]
fn report_topic_appends_reporter() {
    assert_eq!(report_topic("psistats/reports/box", "cpu"), "psistats/reports/box/cpu");
}

#[test]
fn memory_report_lists_four_numbers() {
    match memory_report(16, 4, 8, 12) {
        ReportValue::Array(v) => {
            let n: Vec<u64> = v
                .iter()
                .map(|x| match x {
                    ReportValue::Integer(i) => *i,
                    _ => panic!("not an integer"),
                })
                .collect();
            assert_eq!(n, vec![16, 4, 8, 12]);
        },
        _ => panic!("not an array"),
    }
}

#[test]
fn os_report_names_each_field() {
    let r = os_report(
        "Ubuntu".to_string(),
        "20.04".to_string(),
        "focal".to_string(),
        "".to_string(),
        "64-bit".to_string(),
    );
    match r {
        ReportValue::Object(t) => {
            assert_eq!(t.len(), 5);
            match t.get("codename") {
                Some(ReportValue::String(s)) => assert_eq!(s, "focal"),
                _ => panic!("no codename"),
            }
            match t.get("bitness") {
                Some(ReportValue::String(s)) => assert_eq!(s, "64-bit"),
                _ => panic!("no bitness"),
            }
        },
        _ => panic!("not an object"),
    }
}

#[test]
fn parse_of_an_empty_page_gives_the_initial_conditions() {
    for page in ["", "<siteData></siteData>"] {
        let c = parse(page).unwrap();
        assert!(c.temperature.is_none() && c.pressure.is_none() && c.dewpoint.is_none() && c.wind_speed.is_none());
        assert_eq!(c.wind_direction, "N");
        assert_eq!(c.conditions.to_string(), "Unknown");
    }
}

#[test]
fn parse_reads_a_light_snow_record() {
    let page = "<currentConditions><temperature units='C'>-2.3</temperature><dewpoint>-5.5</dewpoint><pressure>101.5</pressure><wind><speed>15</speed><direction>NW</direction></wind><condition>Light Snow</condition></currentConditions>";
    let c = parse(page).unwrap();
    assert_eq!(c.temperature.as_deref(), Some("-2.3"));
    assert_eq!(c.dewpoint.as_deref(), Some("-5.5"));
    assert_eq!(c.pressure.as_deref(), Some("101.5"));
    assert_eq!(c.wind_speed.as_deref(), Some("15"));
    assert_eq!(c.wind_direction, "NW");
    assert_eq!(c.conditions.to_string(), "LightSnow");
}

#[test]
fn parse_counts_speed_and_direction_only_inside_wind() {
    let page = "<currentConditions><speed>12</speed><direction>E</direction><wind><bearing>90</bearing></wind></currentConditions>";
    let c = parse(page).unwrap();
    assert!(c.wind_speed.is_none());
    assert_eq!(c.wind_direction, "N");
}

#[test]
fn parse_ignores_temperatures_outside_current_conditions() {
    let page = "<siteData><currentConditions><temperature>-3.5</temperature></currentConditions><forecastGroup><forecast><temperatures><temperature>2</temperature></temperatures></forecast></forecastGroup></siteData>";
    let c = parse(page).unwrap();
    assert_eq!(c.temperature.as_deref(), Some("-3.5"));
}

#[test]
fn xml_events_stop_at_the_end_or_an_error() {
    let evs: Vec<XmlEvent> = xml_events("<a>x</a>")
        .into_iter()
        .filter(|e| !matches!(e, XmlEvent::Text(t) if t.is_empty()))
        .collect();
    assert_eq!(evs.len(), 4);
    assert!(matches!(&evs[0], XmlEvent::Start(n) if n == "a"));
    assert!(matches!(&evs[1], XmlEvent::Text(t) if t == b"x"));
    assert!(matches!(&evs[2], XmlEvent::End(n) if n == "a"));
    assert!(matches!(evs[3], XmlEvent::Eof));
    let broken = xml_events("<a></b><c>");
    assert!(matches!(broken.last(), Some(XmlEvent::Error)));
    assert!(matches!(xml_events("").as_slice(), [XmlEvent::Eof]));
}
