use std::sync::Arc;

use newsboy::host::Host;
use newsboy::host::LogLevel;
use newsboy::host::Severity;
use newsboy::instance::InstanceInfo;
use newsboy::plug::CompiledModule;
use newsboy::plug::PlugManifest;
use newsboy::plug::PlugRecord;

fn bridge(name: &str, version: &str) -> Host {
    let manifest = PlugManifest {
        name: name.to_string(),
        version: version.to_string(),
        module_file: format!("{name}.wasm"),
    };
    let record = PlugRecord {
        id: format!("{name}!{version}"),
        manifest,
        module: CompiledModule { handle: 1 },
    };
    Host {
        instance_info: Arc::new(InstanceInfo { start_ts: 0, plug: Arc::new(record) }),
    }
}

#[test]
fn log_tags_the_record_with_the_callers_identity() {
    let host = bridge("comp", "0.1.0");
    let r = host.log(LogLevel::Info, "startup".to_string(), "getting online".to_string());
    assert_eq!(r.severity, Severity::Info);
    assert_eq!(r.plug_name, "comp");
    assert_eq!(r.plug_version, "0.1.0");
    assert_eq!(r.plug_id, "comp!0.1.0");
    assert_eq!(r.context, "startup");
    assert_eq!(r.message, "getting online");
}

#[test]
fn each_level_maps_to_its_severity() {
    let host = bridge("comp", "0.1.0");
    let cases = vec![
        (LogLevel::Trace, Severity::Trace),
        (LogLevel::Debug, Severity::Debug),
        (LogLevel::Info, Severity::Info),
        (LogLevel::Warn, Severity::Warn),
        (LogLevel::Error, Severity::Error),
        (LogLevel::Critical, Severity::Error),
    ];
    for (level, severity) in cases {
        let r = host.log(level, "ctx".to_string(), "m".to_string());
        assert_eq!(r.severity, severity);
    }
}

#[test]
fn critical_is_emitted_as_error_with_marker() {
    let host = bridge("comp", "0.1.0");
    let r = host.log(LogLevel::Critical, "ctx".to_string(), "boom".to_string());
    assert_eq!(r.severity, Severity::Error);
    assert_eq!(r.message, "CRITICAL: boom");
}

#[test]
fn non_critical_message_is_unchanged() {
    let host = bridge("comp", "0.1.0");
    let r = host.log(LogLevel::Error, "ctx".to_string(), "boom".to_string());
    assert_eq!(r.message, "boom");
}

#[test]
fn two_bridges_tag_records_with_their_own_instance_only() {
    let a = bridge("alpha", "1.0.0");
    let b = bridge("beta", "2.0.0");
    let ra = a.log(LogLevel::Info, "ctx".to_string(), "from a".to_string());
    let rb = b.log(LogLevel::Info, "ctx".to_string(), "from b".to_string());
    assert_eq!(ra.plug_id, "alpha!1.0.0");
    assert_eq!(rb.plug_id, "beta!2.0.0");
    assert_ne!(ra.plug_id, rb.plug_id);
    assert_eq!(ra.message, "from a");
    assert_eq!(rb.message, "from b");
}

#[test]
fn default_yields_the_types_default_value() {
    let n: u64 = newsboy::utils::default();
    assert_eq!(n, 0);
    let s: String = newsboy::utils::default();
    assert_eq!(s, "");
    let o: Option<u32> = newsboy::utils::default();
    assert_eq!(o, None);
}
