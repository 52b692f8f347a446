use slog_syslog5424::driver::{write_outcome, LogError, Rfc5424Writer};
use slog_syslog5424::entry::LogEntry;
use slog_syslog5424::severity::{severity_of, Level, SyslogSeverity};
use slog_syslog5424::structured::collect_structured;
use slog_syslog5424::timestamp::timestamp_now;
use std::io;
use syslog5424::types::Facility;
use syslog5424::{Rfc5424, Rfc5424Builder};

fn pairs(items: &[(&str, &str)]) -> Vec<(String, String)> {
    items.iter().map(|(k, v)| (k.to_string(), v.to_string())).collect()
}

fn formatter() -> Rfc5424 {
    Rfc5424Builder::new("ent_id", Facility::User).build()
}

fn is_utc_micros(s: &str) -> bool {
    let b = s.as_bytes();
    if b.len() != 32 {
        return false;
    }
    let pattern = b"DDDD-DD-DDTDD:DD:DD.DDDDDD+00:00";
    b.iter().zip(pattern.iter()).all(|(c, p)| {
        if *p == b'D' {
            c.is_ascii_digit()
        } else {
            c == p
        }
    })
}

/// A destination that fails its next write once, then accepts everything.
struct FlakyWriter {
    fail_next: bool,
    out: Vec<u8>,
}

impl io::Write for FlakyWriter {
    fn write(&mut self, buf: &[u8]) -> io::Result<usize> {
        if self.fail_next {
            self.fail_next = false;
            return Err(io::Error::new(io::ErrorKind::BrokenPipe, "pipe closed"));
        }
        self.out.extend_from_slice(buf);
        Ok(buf.len())
    }

    fn flush(&mut self) -> io::Result<()> {
        Ok(())
    }
}

#[test]
fn severity_mapping_of_every_level() {
    assert_eq!(severity_of(Level::Critical), SyslogSeverity::Critical);
    assert_eq!(severity_of(Level::Error), SyslogSeverity::Error);
    assert_eq!(severity_of(Level::Warning), SyslogSeverity::Warning);
    assert_eq!(severity_of(Level::Info), SyslogSeverity::Informational);
    assert_eq!(severity_of(Level::Debug), SyslogSeverity::Debug);
    assert_eq!(severity_of(Level::Trace), SyslogSeverity::Debug);
}

#[test]
fn trace_maps_to_debug() {
    let e = LogEntry::with_timestamp(Level::Trace, "t".to_string(), &vec![], &vec![], "x".to_string());
    assert_eq!(e.severity, SyslogSeverity::Debug);
}

#[test]
fn empty_sources_give_empty_slog_block() {
    let b = collect_structured(&vec![], &vec![]);
    assert_eq!(b.id, "slog");
    assert!(b.pairs.is_empty());
}

#[test]
fn call_site_fields_precede_context_fields() {
    let b = collect_structured(&pairs(&[("a", "1")]), &pairs(&[("b", "2")]));
    assert_eq!(b.id, "slog");
    assert_eq!(b.pairs, pairs(&[("a", "1"), ("b", "2")]));
}

#[test]
fn duplicate_keys_are_kept_in_order() {
    let b = collect_structured(&pairs(&[("k", "1"), ("k", "2")]), &pairs(&[("k", "3")]));
    assert_eq!(b.pairs, pairs(&[("k", "1"), ("k", "2"), ("k", "3")]));
}

#[test]
fn request_and_service_fields_merge() {
    let b = collect_structured(&pairs(&[("req_id", "123")]), &pairs(&[("service", "api")]));
    assert_eq!(b.pairs, pairs(&[("req_id", "123"), ("service", "api")]));
}

#[test]
fn timestamp_is_utc_with_microseconds() {
    let t = timestamp_now();
    assert!(is_utc_micros(&t), "unexpected timestamp {}", t);
    let e = LogEntry::new(Level::Info, "m".to_string(), &vec![], &vec![]);
    assert!(is_utc_micros(&e.timestamp), "unexpected timestamp {}", e.timestamp);
}

#[test]
fn same_event_maps_the_same_but_stamps_anew() {
    let cs = pairs(&[("a", "1")]);
    let ctx = pairs(&[("b", "2")]);
    let e1 = LogEntry::new(Level::Warning, "same".to_string(), &cs, &ctx);
    let e2 = LogEntry::new(Level::Warning, "same".to_string(), &cs, &ctx);
    assert_eq!(e1.severity, e2.severity);
    assert_eq!(e1.message, e2.message);
    assert_eq!(e1.data.id, e2.data.id);
    assert_eq!(e1.data.pairs, e2.data.pairs);
    assert!(is_utc_micros(&e1.timestamp));
    assert!(is_utc_micros(&e2.timestamp));
}

#[test]
fn info_hello_without_fields() {
    let e = LogEntry::new(Level::Info, "hello".to_string(), &vec![], &vec![]);
    assert_eq!(e.severity, SyslogSeverity::Informational);
    assert_eq!(e.message, "hello");
    assert_eq!(e.data.id, "slog");
    assert!(e.data.pairs.is_empty());

    let mut w = Rfc5424Writer::new(Vec::new(), formatter());
    assert!(w.log(Level::Info, "hello".to_string(), &vec![], &vec![]).is_ok());
    let out = String::from_utf8(w.into_inner()).unwrap();
    assert!(out.starts_with("<14>1 "), "{}", out);
    assert!(out.contains(" - - - - [slog@ent_id] "), "{}", out);
    assert!(out.ends_with("\u{feff}hello"), "{}", out);
    assert!(is_utc_micros(&out[6..38]), "{}", out);
}

#[test]
fn written_record_carries_merged_fields() {
    let mut w = Rfc5424Writer::new(Vec::new(), formatter());
    let r = w.log(
        Level::Error,
        "failed".to_string(),
        &pairs(&[("req_id", "123")]),
        &pairs(&[("service", "api")]),
    );
    assert!(r.is_ok());
    let out = String::from_utf8(w.writer().clone()).unwrap();
    assert!(out.starts_with("<11>1 "), "{}", out);
    assert!(out.contains("[slog@ent_id req_id=\"123\" service=\"api\"]"), "{}", out);
    assert!(out.ends_with("\u{feff}failed"), "{}", out);
}

#[test]
fn write_entry_uses_given_timestamp() {
    let e = LogEntry::with_timestamp(
        Level::Critical,
        "down".to_string(),
        &vec![],
        &vec![],
        "2024-05-01T12:30:45.123456+00:00".to_string(),
    );
    let mut w = Rfc5424Writer::new(Vec::new(), formatter());
    assert!(w.write_entry(&e).is_ok());
    let out = String::from_utf8(w.into_inner()).unwrap();
    assert!(out.starts_with("<10>1 2024-05-01T12:30:45.123456+00:00 "), "{}", out);
}

#[test]
fn io_failure_is_returned_and_writer_stays_usable() {
    let dest = FlakyWriter { fail_next: true, out: Vec::new() };
    let mut w = Rfc5424Writer::new(dest, formatter());
    let r = w.log(Level::Info, "first".to_string(), &vec![], &vec![]);
    match r {
        Err(LogError::Io(e)) => {
            assert_eq!(e.kind(), io::ErrorKind::BrokenPipe);
            assert_eq!(e.to_string(), "pipe closed");
        }
        other => panic!("expected an I/O error, got {:?}", other),
    }
    assert!(!w.is_held());
    let r = w.log(Level::Info, "second".to_string(), &vec![], &vec![]);
    assert!(r.is_ok());
    let out = String::from_utf8(w.into_inner().out).unwrap();
    assert!(out.ends_with("\u{feff}second"), "{}", out);
}

#[test]
fn second_caller_is_refused_while_held() {
    let mut w = Rfc5424Writer::new(Vec::new(), formatter());
    assert!(w.try_acquire().is_ok());
    assert!(w.is_held());
    assert!(matches!(w.try_acquire(), Err(LogError::Busy)));
    let r = w.log(Level::Info, "late".to_string(), &vec![], &vec![]);
    assert!(matches!(r, Err(LogError::Busy)));
    assert!(w.writer().is_empty());
    assert!(w.is_held());
    w.release();
    assert!(!w.is_held());
    assert!(w.log(Level::Info, "now".to_string(), &vec![], &vec![]).is_ok());
    assert!(!w.writer().is_empty());
}

#[test]
fn write_outcome_passes_results_through() {
    assert!(matches!(write_outcome(Ok(())), Ok(())));
    let e = io::Error::new(io::ErrorKind::Other, "disk full");
    match write_outcome(Err(e)) {
        Err(LogError::Io(e)) => {
            assert_eq!(e.kind(), io::ErrorKind::Other);
            assert_eq!(e.to_string(), "disk full");
        }
        other => panic!("expected an I/O error, got {:?}", other),
    }
}
