use vstd::prelude::*;

verus! {

/// The level of a log event, as chosen by the caller (finest last).
#[derive(Clone, Copy, Debug, PartialEq, Eq, Structural)]
pub enum Level {
    Critical,
    Error,
    Warning,
    Info,
    Debug,
    Trace,
}

/// The syslog severity scale, from most to least urgent.
#[derive(Clone, Copy, Debug, PartialEq, Eq, Structural)]
pub enum SyslogSeverity {
    Emergency,
    Alert,
    Critical,
    Error,
    Warning,
    Notice,
    Informational,
    Debug,
}

/// The severity that a level is written with.  The wire scale has no step
/// below `Debug`, so `Trace` shares it with `Debug`.
pub open spec fn severity_spec(level: Level) -> SyslogSeverity {
    match level {
        Level::Critical => SyslogSeverity::Critical,
        Level::Error => SyslogSeverity::Error,
        Level::Warning => SyslogSeverity::Warning,
        Level::Info => SyslogSeverity::Informational,
        Level::Debug => SyslogSeverity::Debug,
        Level::Trace => SyslogSeverity::Debug,
    }
}

/// Rank of a level, 0 for the most urgent.
pub open spec fn level_rank(level: Level) -> nat {
    match level {
        Level::Critical => 0,
        Level::Error => 1,
        Level::Warning => 2,
        Level::Info => 3,
        Level::Debug => 4,
        Level::Trace => 5,
    }
}

/// The numeric syslog code of a severity (0 is Emergency, 7 is Debug).
pub open spec fn severity_code(s: SyslogSeverity) -> nat {
    match s {
        SyslogSeverity::Emergency => 0,
        SyslogSeverity::Alert => 1,
        SyslogSeverity::Critical => 2,
        SyslogSeverity::Error => 3,
        SyslogSeverity::Warning => 4,
        SyslogSeverity::Notice => 5,
        SyslogSeverity::Informational => 6,
        SyslogSeverity::Debug => 7,
    }
}

/// Maps a level onto the syslog severity scale.
pub fn severity_of(level: Level) -> (r: SyslogSeverity)
    ensures
        r == severity_spec(level),
{
    match level {
        Level::Critical => SyslogSeverity::Critical,
        Level::Error => SyslogSeverity::Error,
        Level::Warning => SyslogSeverity::Warning,
        Level::Info => SyslogSeverity::Informational,
        Level::Debug => SyslogSeverity::Debug,
        Level::Trace => SyslogSeverity::Debug,
    }
}

/// The severity mapping is total, sends Critical, Error, Warning and Info to
/// their namesakes, and sends both Debug and Trace to Debug.
pub proof fn lemma_severity_mapping(level: Level)
    ensures
        level == Level::Critical ==> severity_spec(level) == SyslogSeverity::Critical,
        level == Level::Error ==> severity_spec(level) == SyslogSeverity::Error,
        level == Level::Warning ==> severity_spec(level) == SyslogSeverity::Warning,
        level == Level::Info ==> severity_spec(level) == SyslogSeverity::Informational,
        level == Level::Debug || level == Level::Trace <==> severity_spec(level) == SyslogSeverity::Debug,
{
}

/// The four levels above Debug map one-to-one: distinct levels among them
/// get distinct severities.
pub proof fn lemma_severity_one_to_one(a: Level, b: Level)
    requires
        level_rank(a) < 4,
        level_rank(b) < 4,
        a != b,
    ensures
        severity_spec(a) != severity_spec(b),
{
}

/// The mapping keeps the order of urgency: a more urgent level never gets a
/// less urgent severity.
pub proof fn lemma_severity_monotone(a: Level, b: Level)
    requires
        level_rank(a) <= level_rank(b),
    ensures
        severity_code(severity_spec(a)) <= severity_code(severity_spec(b)),
{
}

} // verus!
