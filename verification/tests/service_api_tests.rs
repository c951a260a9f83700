use psistats::config_value::ConfigTable;
use psistats::host::HostOs;
use psistats::schedule::next_counter;
use psistats::service_api::api::{
    FunctionType, PluginError, PluginRegistrar, PsistatsReport, PublisherFunction, ReportValue, ReporterFunction,
    ReporterInitFunction,
};
use psistats::service_api::config::{PublisherConfig, ReporterConfig, ServiceConfig, Settings};
use psistats::service_api::loader::{Error as LoaderError, PluginLoader as HostLoader};
use psistats::service_api::manager::{get_reporter_intervals, PublisherManager, ReporterManager};
use psistats::service_api::registry::DefaultPluginRegistrar;
use psistats::service_api::service_loader::PluginLoader as WindowsLoader;
use psistats::service_api::simple_registry::DefaultPluginRegistrar as SimpleRegistrar;
use std::sync::Mutex;

fn rconf(name: &str, enabled: bool, interval: u32) -> ReporterConfig {
    ReporterConfig::new(name.to_string(), enabled, interval, ConfigTable::new())
}

fn service(r: Vec<ReporterConfig>, p: Vec<PublisherConfig>) -> ServiceConfig {
    ServiceConfig { settings: Settings { hostname: "box".to_string(), workers: 2, timer: 1000 }, r_plugin: r, p_plugin: p }
}

struct Echo;

impl ReporterFunction for Echo {
    fn call(&self, config: &ReporterConfig) -> Result<PsistatsReport, PluginError> {
        Ok(PsistatsReport::new(config.get_name(), ReportValue::Integer(config.get_interval() as i64)))
    }
}

struct Init;

impl ReporterInitFunction for Init {
    fn call(&self, _: &ReporterConfig) -> Result<(), PluginError> {
        Ok(())
    }
}

static SEEN: Mutex<Vec<String>> = Mutex::new(Vec::new());

struct Recorder;

impl PublisherFunction for Recorder {
    fn call(&self, report: &PsistatsReport, config: &PublisherConfig) -> Result<(), PluginError> {
        SEEN.lock().unwrap().push(format!("{}:{}", config.get_name(), report.get_id()));
        Ok(())
    }
}

#[test]
fn service_config_lookups() {
    let conf = service(
        vec![rconf("cpu", true, 1), rconf("os", false, 0), rconf("cpu", true, 7)],
        vec![PublisherConfig::new("log".to_string(), true, ConfigTable::new())],
    );
    assert_eq!(conf.get_reporter_config("cpu".to_string()).unwrap().get_interval(), 1);
    assert!(!conf.get_reporter_config("os".to_string()).unwrap().is_enabled());
    assert!(conf.get_reporter_config("mem".to_string()).is_none());
    assert_eq!(conf.get_publisher_config("log".to_string()).unwrap().get_name(), "log");
    assert!(conf.get_publisher_config("mqtt".to_string()).is_none());
    assert_eq!(conf.get_reporter_configs().len(), 3);
    assert_eq!(conf.get_publisher_configs().len(), 1);
}

#[test]
fn reporter_intervals_group_enabled_reporters() {
    let rs = vec![rconf("cpu", true, 1), rconf("mem", true, 5), rconf("os", false, 5), rconf("ip", true, 0), rconf("up", true, 5)];
    let (groups, intervals) = get_reporter_intervals(&rs);
    assert_eq!(groups.len(), 3);
    let five = groups.iter().find(|g| g.interval == 5).unwrap();
    assert_eq!(five.plugins, vec!["mem".to_string(), "up".to_string()]);
    let zero = groups.iter().find(|g| g.interval == 0).unwrap();
    assert_eq!(zero.plugins, vec!["ip".to_string()]);
    let mut iv = intervals.clone();
    iv.sort();
    assert_eq!(iv, vec![1, 5]);
}

#[test]
fn reporter_manager_runs_due_reporters() {
    let conf = service(vec![rconf("cpu", true, 1), rconf("mem", true, 3), rconf("mem", false, 4)], vec![]);
    let m = ReporterManager::build(&conf);
    assert_eq!(m.max_count(), 3);
    assert_eq!(m.due_reporters(2), vec!["cpu".to_string()]);
    let mut due3 = m.due_reporters(3);
    due3.sort();
    assert_eq!(due3, vec!["cpu".to_string(), "mem".to_string()]);
    let mut reg: Box<dyn PluginRegistrar> = Box::new(DefaultPluginRegistrar::new());
    reg.register_plugin("cpu", FunctionType::Reporter(Box::new(Echo)));
    match m.run_reporters(3, reg.as_ref()) {
        Err(PluginError::FunctionNotFound { p, fname }) => {
            assert_eq!(p, "mem");
            assert_eq!(fname, "Reporter Function");
        }
        _ => panic!("mem is not registered"),
    }
    reg.register_plugin("mem", FunctionType::Reporter(Box::new(Echo)));
    let reports = m.run_reporters(3, reg.as_ref()).unwrap();
    assert_eq!(reports.len(), 2);
    let mem = reports.iter().find(|r| r.get_id() == "mem").unwrap();
    // the last configuration entry named `mem` is the one used
    assert!(matches!(mem.get_value(), ReportValue::Integer(4)));
}

#[test]
fn counter_cycles() {
    assert_eq!(next_counter(0, 3), 1);
    assert_eq!(next_counter(1, 3), 2);
    assert_eq!(next_counter(2, 3), 3);
    assert_eq!(next_counter(3, 3), 1);
    assert_eq!(next_counter(u64::MAX, u64::MAX), 1);
    let mut c = 1;
    for _ in 0..20 {
        c = next_counter(c, 4);
        assert!(1 <= c && c <= 4);
    }
}

#[test]
fn publisher_manager_uses_enabled_publishers() {
    let conf = service(
        vec![],
        vec![
            PublisherConfig::new("log".to_string(), true, ConfigTable::new()),
            PublisherConfig::new("off".to_string(), false, ConfigTable::new()),
            PublisherConfig::new("mqtt".to_string(), true, ConfigTable::new()),
        ],
    );
    let m = PublisherManager::build(&conf);
    let mut reg = DefaultPluginRegistrar::new();
    reg.register_plugin("log", FunctionType::Publisher(Box::new(Recorder)));
    reg.register_plugin("mqtt", FunctionType::Publisher(Box::new(Recorder)));
    SEEN.lock().unwrap().clear();
    m.run_publishers(&PsistatsReport::new("cpu", ReportValue::Integer(1)), &reg).unwrap();
    assert_eq!(*SEEN.lock().unwrap(), vec!["log:cpu".to_string(), "mqtt:cpu".to_string()]);
}

#[test]
fn registry_reports_missing_functions() {
    let mut reg = DefaultPluginRegistrar::new();
    reg.register_plugin("foobar", FunctionType::ReporterInit(Box::new(Init)));
    assert!(reg.get_reporter_init("foobar").is_ok());
    let e = reg.get_reporter("foobar").err().unwrap();
    assert_eq!(e.message(), "Plugin foobar is lacking function Reporter Function");
    let e = reg.get_publisher_init("foobar").err().unwrap();
    assert_eq!(e.message(), "Plugin foobar is lacking function Publisher init function");
    let e = reg.get_publisher("x").err().unwrap();
    assert_eq!(e.message(), "Plugin x is lacking function Publisher function");
    assert!(reg.get_reporter_init("other").is_err());
}

#[test]
fn plugin_error_messages() {
    let e = PluginError::PluginFileNotFound { p: "a".to_string() };
    assert_eq!(e.message(), "Could not find plugin file for plugin a");
    let e = PluginError::PluginDeclNotFound { p: "a".to_string() };
    assert_eq!(e.message(), "Plugin declration not found for plugin a");
    let e = PluginError::Other { p: "a".to_string(), msg: "m".to_string() };
    assert_eq!(e.message(), "Error with plugin a: m");
    let e = PluginError::Runtime { p: "a".to_string(), msg: "m".to_string() };
    assert_eq!(e.message(), "Plugin a failed to execute: m");
}

#[test]
fn simple_registry_explains_misses() {
    let mut reg = SimpleRegistrar::new();
    reg.register_report_fn("cpu", Box::new(Echo));
    reg.register_init_fn("cpu", Box::new(Init));
    assert!(reg.get_report_fn("cpu").is_ok());
    assert!(reg.get_init_fn("cpu").is_ok());
    assert_eq!(reg.get_report_fn("os").err().unwrap(), "Report function 'os' not found");
    assert_eq!(reg.get_init_fn("os").err().unwrap(), "Init function 'os' not found");
}

#[test]
fn loaders_name_plugin_files() {
    let l = HostLoader::new("plugins".to_string());
    assert_eq!(l.plugin_file(HostOs::Linux, "foobar").unwrap(), "plugins/libplugin_foobar.so");
    assert_eq!(l.plugin_file(HostOs::Windows, "foobar").unwrap(), "plugins\\plugin_foobar.dll");
    match l.plugin_file(HostOs::Other, "foobar") {
        Err(e @ LoaderError::Other(_)) => assert_eq!(e.message(), "Plugin loader does not support host OS"),
        _ => panic!("expected an error"),
    }
    let w = WindowsLoader::new("C:\\psistats".to_string());
    assert_eq!(w.plugin_file(HostOs::Windows, "cpu").unwrap(), "C:\\psistats\\plugin_cpu.dll");
    assert_eq!(w.plugin_file(HostOs::Linux, "cpu").err().unwrap().message(), "Plugin loader does not support host OS");
}

#[test]
fn due_calls_pair_reporters_with_their_last_entry() {
    let conf = service(vec![rconf("cpu", true, 1), rconf("mem", true, 3), rconf("mem", false, 4)], vec![]);
    let m = ReporterManager::build(&conf);
    let mut calls = m.due_calls(3);
    calls.sort();
    assert_eq!(calls, vec![("cpu".to_string(), 0), ("mem".to_string(), 2)]);
    assert_eq!(m.due_calls(1), vec![("cpu".to_string(), 0)]);
}

#[test]
fn registry_gives_back_the_registered_reporter() {
    let mut reg = DefaultPluginRegistrar::new();
    reg.register_plugin("cpu", FunctionType::Reporter(Box::new(Echo)));
    let report = reg.get_reporter("cpu").unwrap().call(&rconf("cpu", true, 4)).unwrap();
    assert_eq!(report.get_id(), "cpu");
    assert!(matches!(report.get_value(), ReportValue::Integer(4)));
    assert!(reg.get_reporter_init("cpu").is_err());
    assert!(reg.get_publisher("cpu").is_err());
    assert!(reg.get_publisher_init("cpu").is_err());
}
