//! Adapts leveled key-value log events to RFC 5424 syslog records and hands
//! them to a writable destination through the `syslog5424` formatter.
//!
//! The library maps event levels onto the syslog severity scale, captures a
//! UTC timestamp with microsecond precision, merges call-site and context
//! fields into one structured-data block named `slog`, and drives a
//! single-writer destination under an exclusive-access lock.

pub mod severity;
pub mod structured;
pub mod timestamp;
pub mod entry;
pub mod driver;
