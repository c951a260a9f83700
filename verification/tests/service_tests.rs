use psistats::config_value::ConfigTable;
use psistats::libpsistats::commands::Commands;
use psistats::libpsistats::config::PluginSettings;
use psistats::libpsistats::errors::PsistatsError;
use psistats::libpsistats::registrar::{CommandFunction, InitFunction, PublisherFunction, ReporterFunction};
use psistats::libpsistats::reports::{PsistatsReport, ReportValue};
use psistats::service::config::{Advanced, PsistatsConfiguration, Settings};
use psistats::service::hostname::{choose_hostname, get_hostname};
use psistats::service::startup::{plugins_to_load, run_init_fns};
use psistats::service::utils::{first_config_location, get_config_location};
use psistats::service::workers::{command_requests, CommandWorker, PublisherWorker, ReporterWorker, ScheduleWorker};
use psistats::table::NamedTable;
use std::sync::Mutex;

fn plugin(name: &str, enabled: bool, interval: Option<u64>) -> PluginSettings {
    PluginSettings::new(name.to_string(), enabled, interval, ConfigTable::new())
}

fn configuration(plugins: Vec<PluginSettings>) -> PsistatsConfiguration {
    PsistatsConfiguration {
        settings: Settings { hostname: "box".to_string(), loglevel: "info".to_string() },
        advanced: Advanced { min_interval: 1, r_workers: 1, p_workers: 1 },
        plugin: plugins,
    }
}

struct Fixed(u64);

impl ReporterFunction for Fixed {
    fn call(&self, _: &PluginSettings) -> Result<ReportValue, PsistatsError> {
        Ok(ReportValue::Integer(self.0))
    }
}

struct Failing;

impl ReporterFunction for Failing {
    fn call(&self, _: &PluginSettings) -> Result<ReportValue, PsistatsError> {
        Err(PsistatsError::Runtime("no data".to_string()))
    }
}

#[test]
fn plugin_config_is_first_with_the_name() {
    let conf = configuration(vec![plugin("cpu", true, Some(1)), plugin("os", true, Some(5)), plugin("cpu", false, Some(9))]);
    let p = conf.get_plugin_config("cpu").unwrap();
    assert_eq!(p.get_interval(), 1);
    assert!(p.is_enabled());
    assert_eq!(conf.get_plugin_config("os").unwrap().get_interval(), 5);
    assert!(conf.get_plugin_config("uptime").is_none());
}

#[test]
fn schedule_worker_requests_due_reporters() {
    let conf = configuration(vec![
        plugin("cpu", true, Some(1)),
        plugin("memory", true, Some(5)),
        plugin("os", true, None),
        plugin("uptime", true, Some(5)),
    ]);
    let mut fns: NamedTable<Box<dyn ReporterFunction>> = NamedTable::new();
    fns.insert("cpu".to_string(), Box::new(Fixed(1)));
    fns.insert("memory".to_string(), Box::new(Fixed(2)));
    fns.insert("os".to_string(), Box::new(Fixed(3)));
    fns.insert("uptime".to_string(), Box::new(Fixed(4)));
    let w = ScheduleWorker::init(&fns, &conf);
    assert!(w.poll(0).is_empty());
    assert_eq!(w.poll(1), vec!["cpu".to_string()]);
    assert_eq!(w.poll(3), vec!["cpu".to_string()]);
    let mut at5 = w.poll(5);
    at5.sort();
    assert_eq!(at5, vec!["cpu".to_string(), "memory".to_string(), "uptime".to_string()]);
    for e in 0..30u64 {
        assert!(!w.poll(e).contains(&"os".to_string()));
    }
}

#[test]
fn reporter_worker_reports_under_configured_host() {
    let conf = configuration(vec![plugin("cpu", true, Some(1)), plugin("bad", true, Some(1))]);
    let mut fns: NamedTable<Box<dyn ReporterFunction>> = NamedTable::new();
    fns.insert("cpu".to_string(), Box::new(Fixed(42)));
    fns.insert("bad".to_string(), Box::new(Failing));
    let w = ReporterWorker::init(&fns, &conf);
    let r = w.poll("cpu").unwrap();
    assert_eq!(r.reporter, "cpu");
    assert_eq!(r.hostname, "box");
    assert!(matches!(r.value, ReportValue::Integer(42)));
    match w.poll("bad") {
        Err(e) => assert_eq!(e.message(), "Runtime error no data"),
        Ok(_) => panic!("expected the reporter's error"),
    }
}

static PUBLISHED: Mutex<usize> = Mutex::new(0);

struct CountingPublisher;

impl PublisherFunction for CountingPublisher {
    fn call(&self, report: &PsistatsReport, settings: &PluginSettings) -> Result<(), PsistatsError> {
        assert_eq!(report.reporter, "cpu");
        assert!(settings.get_name() == "log" || settings.get_name() == "mqtt");
        *PUBLISHED.lock().unwrap() += 1;
        Ok(())
    }
}

#[test]
fn publisher_worker_hands_report_to_every_publisher() {
    let conf = configuration(vec![plugin("log", true, None), plugin("mqtt", true, None)]);
    let mut fns: NamedTable<Box<dyn PublisherFunction>> = NamedTable::new();
    fns.insert("log".to_string(), Box::new(CountingPublisher));
    fns.insert("mqtt".to_string(), Box::new(CountingPublisher));
    let w = PublisherWorker::init(&fns, &conf);
    let before = *PUBLISHED.lock().unwrap();
    w.poll(&PsistatsReport::new("cpu", "box", ReportValue::Integer(1))).unwrap();
    assert_eq!(*PUBLISHED.lock().unwrap() - before, 2);
}

struct Asks(Option<&'static str>);

impl CommandFunction for Asks {
    fn call(&self, hostname: &str, _: &PluginSettings) -> Option<Commands> {
        assert_eq!(hostname, "box");
        self.0.map(|n| Commands::Report(n.to_string()))
    }
}

#[test]
fn command_worker_turns_commands_into_requests() {
    let conf = configuration(vec![plugin("mqtt", true, None), plugin("quiet", true, None)]);
    let mut fns: NamedTable<Box<dyn CommandFunction>> = NamedTable::new();
    fns.insert("mqtt".to_string(), Box::new(Asks(Some("ipaddrs"))));
    fns.insert("quiet".to_string(), Box::new(Asks(None)));
    let w = CommandWorker::init(&fns, &conf);
    assert_eq!(w.poll(), vec!["ipaddrs".to_string()]);
}

struct InitOk;

impl InitFunction for InitOk {
    fn call(&self, hostname: &str, _: &PluginSettings) -> Result<(), PsistatsError> {
        assert_eq!(hostname, "box");
        Ok(())
    }
}

struct InitFails;

impl InitFunction for InitFails {
    fn call(&self, _: &str, s: &PluginSettings) -> Result<(), PsistatsError> {
        Err(PsistatsError::Runtime(s.get_name().to_string()))
    }
}

#[test]
fn init_functions_run_until_one_fails() {
    let conf = configuration(vec![plugin("cpu", true, None), plugin("mqtt", true, None)]);
    let mut fns: NamedTable<Box<dyn InitFunction>> = NamedTable::new();
    fns.insert("cpu".to_string(), Box::new(InitOk));
    assert!(run_init_fns(&fns, &conf, "box").is_ok());
    fns.insert("mqtt".to_string(), Box::new(InitFails));
    match run_init_fns(&fns, &conf, "box") {
        Err(PsistatsError::Runtime(n)) => assert_eq!(n, "mqtt"),
        _ => panic!("expected the failing init's error"),
    }
}

#[test]
fn only_enabled_plugins_are_loaded() {
    let plugins = vec![plugin("cpu", true, None), plugin("os", false, None), plugin("mqtt", true, None)];
    assert_eq!(plugins_to_load(&plugins), vec!["cpu".to_string(), "mqtt".to_string()]);
}

#[test]
fn configured_hostname_wins() {
    assert_eq!(choose_hostname("Box", Some("OTHER".to_string())), Some("Box".to_string()));
    assert_eq!(choose_hostname("", Some("MyHost".to_string())), Some("myhost".to_string()));
    assert_eq!(choose_hostname("", None), None);
    assert_eq!(get_hostname("fixed"), Some("fixed".to_string()));
    if let Some(h) = get_hostname("") {
        assert_eq!(h, h.to_lowercase());
    }
}

#[test]
fn config_location_is_one_of_the_usual() {
    if let Some(l) = get_config_location() {
        assert!(["psistats.conf", "~/.psistats.conf", "/etc/psistats.conf"].contains(&l));
    }
}

#[test]
fn command_requests_keep_report_names_in_order() {
    let cmds = vec![Some(Commands::Report("cpu".to_string())), None, Some(Commands::Report("os".to_string()))];
    assert_eq!(command_requests(&cmds), vec!["cpu".to_string(), "os".to_string()]);
    assert!(command_requests(&Vec::new()).is_empty());
}

#[test]
fn first_config_location_prefers_local_then_home_then_system() {
    assert_eq!(first_config_location(true, true, true), Some("psistats.conf"));
    assert_eq!(first_config_location(false, true, true), Some("~/.psistats.conf"));
    assert_eq!(first_config_location(false, false, true), Some("/etc/psistats.conf"));
    assert_eq!(first_config_location(false, false, false), None);
}
