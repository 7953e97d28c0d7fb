//! The host bridge: the exclusive path by which a running sandboxed plugin
//! affects the host. Each bridge is created fresh for one instance, holds
//! that instance's shared info, and tags every log call with that identity —
//! and with no other instance's.

use vstd::prelude::*;

use crate::instance::InstanceInfo;
use crate::instance::InstanceInfoV;

verus! {

use std::sync::Arc;
use vstd::string::StringExecFns;

/// The severity a plugin asks for. `Critical` has no severity of its own on
/// the host side: it is emitted as an error with a marker on the text.
#[derive(Clone, Copy, PartialEq, Eq, Structural, Debug)]
pub enum LogLevel {
    Trace,
    Debug,
    Info,
    Warn,
    Error,
    Critical,
}

/// The severity a record is emitted at.
#[derive(Clone, Copy, PartialEq, Eq, Structural, Debug)]
pub enum Severity {
    Trace,
    Debug,
    Info,
    Warn,
    Error,
}

/// A structured log record, ready for the logging backend.
pub struct LogRecord {
    pub severity: Severity,
    pub plug_name: String,
    pub plug_version: String,
    pub plug_id: String,
    pub context: String,
    pub message: String,
}

/// Mathematical model of a log record.
#[verifier::ext_equal]
pub ghost struct LogRecordV {
    pub severity: Severity,
    pub plug_name: Seq<char>,
    pub plug_version: Seq<char>,
    pub plug_id: Seq<char>,
    pub context: Seq<char>,
    pub message: Seq<char>,
}

impl View for LogRecord {
    type V = LogRecordV;

    open spec fn view(&self) -> LogRecordV {
        LogRecordV {
            severity: self.severity,
            plug_name: self.plug_name@,
            plug_version: self.plug_version@,
            plug_id: self.plug_id@,
            context: self.context@,
            message: self.message@,
        }
    }
}

/// The severity a level is emitted at: each of the five severities stands
/// for itself, and `Critical` is mapped to `Error`.
pub open spec fn severity_of(level: LogLevel) -> Severity {
    match level {
        LogLevel::Trace => Severity::Trace,
        LogLevel::Debug => Severity::Debug,
        LogLevel::Info => Severity::Info,
        LogLevel::Warn => Severity::Warn,
        LogLevel::Error => Severity::Error,
        LogLevel::Critical => Severity::Error,
    }
}

/// The text a record carries: the message itself, with the distinguishing
/// marker in front when the level was `Critical`.
pub open spec fn marked_message(level: LogLevel, message: Seq<char>) -> Seq<char> {
    if level is Critical {
        "CRITICAL: "@ + message
    } else {
        message
    }
}

/// The one record a log call from an instance with info `info` produces: a
/// function of that instance's own identity and the call's arguments alone,
/// so no record can carry another instance's tags.
pub open spec fn log_record_of(
    info: InstanceInfoV,
    level: LogLevel,
    context: Seq<char>,
    message: Seq<char>,
) -> LogRecordV {
    LogRecordV {
        severity: severity_of(level),
        plug_name: info.plug.manifest.name,
        plug_version: info.plug.manifest.version,
        plug_id: info.plug.id,
        context: context,
        message: marked_message(level, message),
    }
}

/// A per-instance host bridge: reachable only from within its own sandboxed
/// instance, holding that instance's shared info.
pub struct Host {
    pub instance_info: Arc<InstanceInfo>,
}

impl Host {
    /// Builds the record for one log call from this bridge's instance,
    /// tagged with that instance's plugin name, version and id. The record
    /// never reports failure back to the sandbox; emitting it is the logging
    /// backend's business.
    pub fn log(&self, level: LogLevel, context: String, message: String) -> (r: LogRecord)
        ensures
            r@ == log_record_of(self.instance_info@, level, context@, message@),
    {
        let severity = match level {
            LogLevel::Trace => Severity::Trace,
            LogLevel::Debug => Severity::Debug,
            LogLevel::Info => Severity::Info,
            LogLevel::Warn => Severity::Warn,
            LogLevel::Error => Severity::Error,
            LogLevel::Critical => Severity::Error,
        };
        let text = match level {
            LogLevel::Critical => String::from_str("CRITICAL: ").concat(message.as_str()),
            _ => message,
        };
        let r = LogRecord {
            severity,
            plug_name: String::from_str(self.instance_info.plug.manifest.name.as_str()),
            plug_version: String::from_str(self.instance_info.plug.manifest.version.as_str()),
            plug_id: String::from_str(self.instance_info.plug.id.as_str()),
            context,
            message: text,
        };
        proof {
            assert(r@ =~= log_record_of(self.instance_info@, level, context@, message@));
        }
        r
    }
}

/// Two instances of the same or different definitions never observe each
/// other through the host bridge: a log call is tagged with the calling
/// instance's plugin id, so records from instances of plugins with distinct
/// ids carry distinct tags.
pub proof fn lemma_log_tags_own_instance(
    a: InstanceInfoV,
    b: InstanceInfoV,
    level_a: LogLevel,
    level_b: LogLevel,
    context_a: Seq<char>,
    context_b: Seq<char>,
    message_a: Seq<char>,
    message_b: Seq<char>,
)
    requires
        a.plug.id != b.plug.id,
    ensures
        log_record_of(a, level_a, context_a, message_a).plug_id != log_record_of(
            b,
            level_b,
            context_b,
            message_b,
        ).plug_id,
{
}

} // verus!
