use crate::severity::{severity_of, severity_spec, Level, SyslogSeverity};
use crate::structured::{collect_structured, StructuredDataBlock};
use crate::timestamp::{is_utc_micros_timestamp, timestamp_now};
use vstd::prelude::*;

verus! {

#[verifier::external_type_specification]
#[verifier::external_body]
pub struct ExSyslogSeverity(syslog5424::types::Severity);

#[verifier::external_type_specification]
#[verifier::external_body]
pub struct ExSyslogMessage(syslog5424::types::Message);

/// What the formatter reads of one log event: its severity, the time it was
/// captured, its structured data and its message text.  Built afresh for
/// every event and dropped once the event is written.
pub struct LogEntry {
    pub severity: SyslogSeverity,
    pub timestamp: String,
    pub data: StructuredDataBlock,
    pub message: String,
}

impl LogEntry {
    /// The entry carries what an event with these inputs maps to, whatever
    /// its timestamp.
    pub open spec fn maps_event(
        &self,
        level: Level,
        message: Seq<char>,
        call_site: Seq<(String, String)>,
        context: Seq<(String, String)>,
    ) -> bool {
        &&& self.severity == severity_spec(level)
        &&& self.message@ == message
        &&& self.data.merged_from(call_site, context)
    }

    /// Builds the entry of an event with a timestamp taken elsewhere.
    pub fn with_timestamp(
        level: Level,
        message: String,
        call_site: &Vec<(String, String)>,
        context: &Vec<(String, String)>,
        timestamp: String,
    ) -> (r: LogEntry)
        ensures
            r.maps_event(level, message@, call_site@, context@),
            r.timestamp == timestamp,
    {
        let severity = severity_of(level);
        let data = collect_structured(call_site, context);
        LogEntry { severity, timestamp, data, message }
    }

    /// Builds the entry of an event, stamped with the current UTC time.
    pub fn new(
        level: Level,
        message: String,
        call_site: &Vec<(String, String)>,
        context: &Vec<(String, String)>,
    ) -> (r: LogEntry)
        ensures
            r.maps_event(level, message@, call_site@, context@),
            is_utc_micros_timestamp(r.timestamp@),
    {
        let timestamp = timestamp_now();
        LogEntry::with_timestamp(level, message, call_site, context, timestamp)
    }
}

/// Two entries built from the same event agree on severity, message and
/// structured data; only their timestamps may differ.
pub proof fn lemma_mapping_deterministic(
    e1: LogEntry,
    e2: LogEntry,
    level: Level,
    message: Seq<char>,
    call_site: Seq<(String, String)>,
    context: Seq<(String, String)>,
)
    requires
        e1.maps_event(level, message, call_site, context),
        e2.maps_event(level, message, call_site, context),
    ensures
        e1.severity == e2.severity,
        e1.message@ == e2.message@,
        e1.data@ == e2.data@,
{
}

impl syslog5424::Rfc5424Data for LogEntry {
    #[verifier::external_body]
    fn severity(&self) -> syslog5424::types::Severity {
        match self.severity {
            SyslogSeverity::Emergency => syslog5424::types::Severity::Emergency,
            SyslogSeverity::Alert => syslog5424::types::Severity::Alert,
            SyslogSeverity::Critical => syslog5424::types::Severity::Critical,
            SyslogSeverity::Error => syslog5424::types::Severity::Error,
            SyslogSeverity::Warning => syslog5424::types::Severity::Warning,
            SyslogSeverity::Notice => syslog5424::types::Severity::Notice,
            SyslogSeverity::Informational => syslog5424::types::Severity::Informational,
            SyslogSeverity::Debug => syslog5424::types::Severity::Debug,
        }
    }

    #[verifier::external_body]
    fn timestamp(&self) -> Option<String> {
        Some(self.timestamp.clone())
    }

    #[verifier::external_body]
    fn structured_data(&self) -> Option<syslog5424::StructuredData<'_>> {
        let mut data = std::collections::HashMap::new();
        data.insert(self.data.id.as_str(), self.data.pairs.clone());
        Some(data)
    }

    #[verifier::external_body]
    fn message(&self) -> Option<syslog5424::types::Message> {
        Some(syslog5424::types::Message::Text(self.message.clone()))
    }
}

} // verus!
