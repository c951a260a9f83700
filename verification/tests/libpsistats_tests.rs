use psistats::config_value::{ConfigTable, ConfigValue};
use psistats::host::HostOs;
use psistats::libpsistats::commands::Commands;
use psistats::libpsistats::config::PluginSettings;
use psistats::libpsistats::errors::PsistatsError;
use psistats::libpsistats::loader::PluginLoader;
use psistats::libpsistats::registrar::{
    CommandFunction, DefaultPluginRegistrar, InitFunction, PluginRegistrar, PublisherFunction, ReporterFunction,
};
use psistats::libpsistats::reports::{PsistatsReport, ReportValue};

struct Counter(u64);

impl ReporterFunction for Counter {
    fn call(&self, _: &PluginSettings) -> Result<ReportValue, PsistatsError> {
        Ok(ReportValue::Integer(self.0))
    }
}

struct Quiet;

impl InitFunction for Quiet {
    fn call(&self, _: &str, _: &PluginSettings) -> Result<(), PsistatsError> {
        Ok(())
    }
}

impl PublisherFunction for Quiet {
    fn call(&self, _: &PsistatsReport, _: &PluginSettings) -> Result<(), PsistatsError> {
        Ok(())
    }
}

impl CommandFunction for Quiet {
    fn call(&self, _: &str, _: &PluginSettings) -> Option<Commands> {
        None
    }
}

fn settings(name: &str, interval: Option<u64>) -> PluginSettings {
    PluginSettings::new(name.to_string(), true, interval, ConfigTable::new())
}

#[test]
fn interval_unset_is_zero() {
    assert_eq!(settings("cpu", None).get_interval(), 0);
    assert_eq!(settings("cpu", Some(5)).get_interval(), 5);
    let s = PluginSettings::new("os".to_string(), false, Some(3), ConfigTable::new());
    assert!(!s.is_enabled());
    assert_eq!(s.get_name(), "os");
    assert_eq!(s.get_config().len(), 0);
}

#[test]
fn settings_keep_their_config() {
    let mut conf = ConfigTable::new();
    conf.insert("combined".to_string(), ConfigValue::Boolean(true));
    let s = PluginSettings::new("cpu".to_string(), true, Some(1), conf);
    let v = s.get_config().get("combined").unwrap();
    assert_eq!(v.as_bool(), Some(true));
    assert_eq!(v.as_str(), None);
}

#[test]
fn error_messages() {
    assert_eq!(
        PsistatsError::RegisterFuncNotFound("cpu".to_string()).message(),
        "Plugin register function not found for plugin cpu"
    );
    assert_eq!(PsistatsError::PluginFileNotFound("os".to_string()).message(), "Plugin file not found for plugin os");
    assert_eq!(PsistatsError::PluginConfigNotFound("os".to_string()).message(), "Configuration for os not found");
    assert_eq!(PsistatsError::PluginDeclError("bad".to_string()).message(), "Error with the plugin declaration: bad");
    assert_eq!(PsistatsError::PluginLibError("gone".to_string()).message(), "Error with the plugin lib: gone");
    assert_eq!(PsistatsError::Runtime("boom".to_string()).message(), "Runtime error boom");
}

#[test]
fn loader_names_plugin_files() {
    let l = PluginLoader::new("/usr/lib/psistats".to_string());
    assert_eq!(l.plugin_file(HostOs::Linux, "cpu").unwrap(), "/usr/lib/psistats/libplugin_cpu.so");
    assert_eq!(l.plugin_file(HostOs::Windows, "cpu").unwrap(), "/usr/lib/psistats\\plugin_cpu.dll");
    match l.plugin_file(HostOs::Other, "cpu") {
        Err(PsistatsError::Runtime(m)) => assert_eq!(m, "Plugin loader does not support host OS"),
        _ => panic!("expected a runtime error"),
    }
}

#[test]
fn registrar_gives_back_what_was_registered() {
    let mut r = DefaultPluginRegistrar::new();
    assert!(r.get_reporter_fn("counter").is_none());
    r.register_reporter_fn("counter", Box::new(Counter(7)));
    r.register_init_fn("counter", Box::new(Quiet));
    r.register_publisher_fn("log", Box::new(Quiet));
    r.register_command_fn("mqtt", Box::new(Quiet));
    let s = settings("counter", Some(1));
    match r.get_reporter_fn("counter").unwrap().call(&s) {
        Ok(ReportValue::Integer(7)) => {}
        _ => panic!("expected 7"),
    }
    assert!(r.get_init_fn("counter").is_some());
    assert!(r.get_publisher_fn("log").is_some());
    assert!(r.get_publisher_fn("counter").is_none());
    assert_eq!(r.get_reporter_fns().len(), 1);
    assert_eq!(r.get_init_fns().len(), 1);
    assert_eq!(r.get_publisher_fns().len(), 1);
    assert_eq!(r.get_command_fns().len(), 1);
    r.register_reporter_fn("counter", Box::new(Counter(9)));
    assert_eq!(r.get_reporter_fns().len(), 1);
    match r.get_reporter_fn("counter").unwrap().call(&s) {
        Ok(ReportValue::Integer(9)) => {}
        _ => panic!("expected 9"),
    }
}

#[test]
fn report_carries_names() {
    let r = PsistatsReport::new("cpu", "host1", ReportValue::Integer(3));
    assert_eq!(r.reporter, "cpu");
    assert_eq!(r.hostname, "host1");
    assert!(matches!(r.value, ReportValue::Integer(3)));
}
