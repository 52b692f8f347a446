use crate::entry::LogEntry;
use crate::severity::Level;
use vstd::prelude::*;

verus! {

#[verifier::external_type_specification]
#[verifier::external_body]
pub struct ExIoError(std::io::Error);

#[verifier::external_type_specification]
#[verifier::external_body]
pub struct ExRfc5424(syslog5424::Rfc5424);

/// Why a record was not written.
#[derive(Debug)]
pub enum LogError {
    /// The destination failed; the error is the one it reported.
    Io(std::io::Error),
    /// Another call already holds the destination.
    Busy,
}

/// The result of a write as the caller sees it: success stays success, and
/// an I/O failure is handed on unchanged.
pub fn write_outcome(res: Result<(), std::io::Error>) -> (r: Result<(), LogError>)
    ensures
        match res {
            Ok(()) => r is Ok,
            Err(e) => r == Err::<(), LogError>(LogError::Io(e)),
        },
{
    match res {
        Ok(()) => Ok(()),
        Err(e) => Err(LogError::Io(e)),
    }
}

/// Relies on syslog5424::Rfc5424::format: serialises `entry` as one framed
/// record into `writer`, returning the first error that the writer reports.
#[verifier::external_body]
fn format_record<W: std::io::Write>(
    formatter: &syslog5424::Rfc5424,
    writer: &mut W,
    entry: &LogEntry,
) -> (r: Result<(), std::io::Error>) {
    formatter.format(writer, entry)
}

/// Writes syslog records to a destination that it owns alone, through one
/// formatter kept for its whole life.  A lock admits one call at a time: a
/// call that finds it held is rejected, never queued.
#[derive(Debug)]
pub struct Rfc5424Writer<W> {
    writer: W,
    formatter: syslog5424::Rfc5424,
    held: bool,
}

impl<W> Rfc5424Writer<W> {
    /// The destination.
    pub closed spec fn writer_spec(&self) -> W {
        self.writer
    }

    /// The formatter.
    pub closed spec fn formatter_spec(&self) -> syslog5424::Rfc5424 {
        self.formatter
    }

    /// Whether a call holds the destination.
    pub closed spec fn held_spec(&self) -> bool {
        self.held
    }

    /// One attempt to take the lock, from `self` to `after`: rejected with
    /// `Busy` and no change while it is held, granted otherwise.
    pub open spec fn acquire_step(&self, after: Self, r: Result<(), LogError>) -> bool {
        &&& self.held_spec() ==> r is Err && r->Err_0 is Busy && after == *self
        &&& !self.held_spec() ==> r is Ok && after.held_spec()
        &&& after.writer_spec() == self.writer_spec()
        &&& after.formatter_spec() == self.formatter_spec()
    }

    /// One write, from `self` to `after`: rejected with `Busy` and no change
    /// while the lock is held; otherwise not rejected, and the lock is free
    /// again afterwards whether the write failed or not.
    pub open spec fn write_step(&self, after: Self, r: Result<(), LogError>) -> bool {
        &&& self.held_spec() ==> r is Err && r->Err_0 is Busy && after == *self
        &&& !self.held_spec() ==> !(r is Err && r->Err_0 is Busy) && !after.held_spec()
        &&& after.formatter_spec() == self.formatter_spec()
    }

    /// A writer that owns `writer` and formats with `formatter`; no call
    /// holds it yet.
    pub fn new(writer: W, formatter: syslog5424::Rfc5424) -> (r: Rfc5424Writer<W>)
        ensures
            r.writer_spec() == writer,
            r.formatter_spec() == formatter,
            !r.held_spec(),
    {
        Rfc5424Writer { writer, formatter, held: false }
    }

    /// Whether a call holds the destination.
    pub fn is_held(&self) -> (r: bool)
        ensures
            r == self.held_spec(),
    {
        self.held
    }

    /// The destination, for reading what was written.
    pub fn writer(&self) -> (r: &W)
        ensures
            *r == self.writer_spec(),
    {
        &self.writer
    }

    /// Gives the destination back, to be flushed or closed by the caller.
    pub fn into_inner(self) -> (r: W)
        ensures
            r == self.writer_spec(),
    {
        self.writer
    }

    /// Takes the destination for one call; rejected while another holds it.
    pub fn try_acquire(&mut self) -> (r: Result<(), LogError>)
        ensures
            old(self).acquire_step(*final(self), r),
    {
        if self.held {
            Err(LogError::Busy)
        } else {
            self.held = true;
            Ok(())
        }
    }

    /// Hands the destination back.
    pub fn release(&mut self)
        ensures
            !final(self).held_spec(),
            final(self).writer_spec() == old(self).writer_spec(),
            final(self).formatter_spec() == old(self).formatter_spec(),
    {
        self.held = false;
    }
}

impl<W: std::io::Write> Rfc5424Writer<W> {
    /// Writes one record.  While another call holds the destination nothing
    /// is written and `Busy` comes back; otherwise the destination is taken,
    /// the formatter writes, the destination is handed back whatever the
    /// outcome, and the formatter's result is returned unchanged.
    pub fn write_entry(&mut self, entry: &LogEntry) -> (r: Result<(), LogError>)
        ensures
            old(self).write_step(*final(self), r),
    {
        match self.try_acquire() {
            Err(e) => Err(e),
            Ok(()) => {
                let res = format_record(&self.formatter, &mut self.writer, entry);
                self.release();
                write_outcome(res)
            },
        }
    }

    /// Logs one event: maps it to an entry stamped with the current UTC time
    /// and writes that entry as `write_entry` does.
    pub fn log(
        &mut self,
        level: Level,
        message: String,
        call_site: &Vec<(String, String)>,
        context: &Vec<(String, String)>,
    ) -> (r: Result<(), LogError>)
        ensures
            old(self).write_step(*final(self), r),
    {
        let entry = LogEntry::new(level, message, call_site, context);
        self.write_entry(&entry)
    }
}

/// A failed write does not poison the writer: once a write on a free lock
/// has come back, with an I/O error or not, the next write is not rejected.
pub proof fn lemma_failure_does_not_poison<W>(
    w0: Rfc5424Writer<W>,
    w1: Rfc5424Writer<W>,
    r1: Result<(), LogError>,
    w2: Rfc5424Writer<W>,
    r2: Result<(), LogError>,
)
    requires
        !w0.held_spec(),
        w0.write_step(w1, r1),
        w1.write_step(w2, r2),
    ensures
        !w1.held_spec(),
        !(r2 is Err && r2->Err_0 is Busy),
        !w2.held_spec(),
{
}

/// While one call holds the lock, a second call is rejected: it gets `Busy`
/// and leaves the writer, its destination included, as it was.
pub proof fn lemma_second_caller_rejected<W>(
    w0: Rfc5424Writer<W>,
    w1: Rfc5424Writer<W>,
    r1: Result<(), LogError>,
    w2: Rfc5424Writer<W>,
    r2: Result<(), LogError>,
)
    requires
        w0.acquire_step(w1, r1),
        r1 is Ok,
        w1.write_step(w2, r2),
    ensures
        r2 is Err && r2->Err_0 is Busy,
        w2 == w1,
        w2.writer_spec() == w0.writer_spec(),
{
}

} // verus!
