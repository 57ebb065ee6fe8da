use vstd::prelude::*;
use crate::text::{decimal, digit_char};

verus! {

/// A character between `'0'` and `'9'`.
pub open spec fn is_digit(c: char) -> bool {
    '0' <= c && c <= '9'
}

/// A non-empty run of decimal digits.
pub open spec fn all_digits(s: Seq<char>) -> bool {
    s.len() > 0 && forall|i: int| 0 <= i < s.len() ==> is_digit(#[trigger] s[i])
}

/// The value of a run of decimal digits.
pub open spec fn digits_value(s: Seq<char>) -> int
    decreases s.len(),
{
    if s.len() == 0 {
        0
    } else {
        digits_value(s.drop_last()) * 10 + (s.last() as int - '0' as int)
    }
}

/// An optional `+` or `-`, then at least one decimal digit, and nothing else.
pub open spec fn signed_digits(s: Seq<char>) -> bool {
    all_digits(s) || (s.len() > 1 && (s[0] == '-' || s[0] == '+') && all_digits(s.drop_first()))
}

/// What is known, on every platform, of the id `r` read from a record's text:
/// a run of digits worth at most `i32::MAX` reads as that value, and a text
/// that is not `signed_digits` reads as no id. What a sign or a larger value
/// reads as differs between platforms.
pub open spec fn reads_as(text: Seq<char>, r: Option<u32>) -> bool {
    &&& (all_digits(text) && digits_value(text) <= i32::MAX ==> r == Some(
        digits_value(text) as u32,
    ))
    &&& (!signed_digits(text) ==> r is None)
}

/// The character of a digit is a digit, worth that digit.
pub proof fn digit_char_value(d: nat)
    requires
        d < 10,
    ensures
        is_digit(digit_char(d)),
        digit_char(d) as int - '0' as int == d,
{
    assert('0' as int == 48 && '1' as int == 49 && '2' as int == 50 && '3' as int == 51);
    assert('4' as int == 52 && '5' as int == 53 && '6' as int == 54 && '7' as int == 55);
    assert('8' as int == 56 && '9' as int == 57);
}

/// The decimal form of a number is a run of digits worth that number.
pub proof fn decimal_digits(n: nat)
    ensures
        all_digits(decimal(n)),
        digits_value(decimal(n)) == n,
    decreases n,
{
    digit_char_value(n % 10);
    if n < 10 {
        assert(decimal(n).drop_last() =~= Seq::<char>::empty());
        assert(digits_value(Seq::<char>::empty()) == 0);
        assert(n % 10 == n);
    } else {
        decimal_digits(n / 10);
        let d = decimal(n);
        assert(d.drop_last() =~= decimal(n / 10));
        assert(d.last() == digit_char(n % 10));
        assert(n == (n / 10) * 10 + n % 10);
        assert forall|i: int| 0 <= i < d.len() implies is_digit(#[trigger] d[i]) by {
            if i < d.len() - 1 {
                assert(d[i] == decimal(n / 10)[i]);
            }
        }
    }
}

/// A record written for a process id of at most `i32::MAX` reads back as
/// that id on every platform.
pub proof fn record_round_trip(pid: u32, r: Option<u32>)
    requires
        pid <= i32::MAX,
        reads_as(decimal(pid as nat), r),
    ensures
        r == Some(pid),
{
    decimal_digits(pid as nat);
}

/// Relies on `sysinfo::Pid::from_str`, which parses the text with std's
/// integer parser for the platform's process id type (`pid_t`, an `i32`, on
/// the Unix systems sysinfo supports; `usize` elsewhere), and on
/// `Pid::as_u32`, which casts that value to `u32`. Either parser takes a run
/// of digits that fits an `i32` as its value and refuses a text that is not
/// an optional sign followed by digits.
#[verifier::external_body]
fn pid_from_text(text: &str) -> (r: Option<u32>)
    ensures
        reads_as(text@, r),
{
    <sysinfo::Pid as core::str::FromStr>::from_str(text).ok().map(sysinfo::Pid::as_u32)
}

/// Reads the process id out of the text of a process-id record.
pub fn parse_record(text: &str) -> (r: Option<u32>)
    ensures
        reads_as(text@, r),
{
    pid_from_text(text)
}

/// The text that a process-id record holds for `pid`.
pub fn record_text(pid: u32) -> (r: String)
    ensures
        r@ == decimal(pid as nat),
{
    crate::text::decimal_string(pid as u64)
}

/// Why a supervisor operation failed.
#[derive(Debug, Clone, Copy, PartialEq, Eq, Structural)]
pub enum SupervisorError {
    /// The managed process could not be spawned, or its record not written.
    LaunchError,
    /// The termination request could not be delivered.
    StopError,
}

/// What an operation hands back: the live process id it leaves tracked, if any.
pub type Outcome = Result<Option<u32>, SupervisorError>;

/// The three operations of the supervisor.
#[derive(Debug, Clone, Copy, PartialEq, Eq, Structural)]
pub enum Operation {
    Status,
    Start,
    Stop,
}

/// What the host is asked to do next.
#[derive(Debug, Clone, Copy, PartialEq, Eq)]
pub enum Action {
    /// Read the process-id record; answer with `Event::RecordRead`.
    ReadRecord,
    /// Look the id up in the process table; answer with `Event::ProcessQueried`.
    QueryProcess(u32),
    /// Terminate the process and wait for it; answer with `Event::Terminated`.
    Terminate(u32),
    /// Delete the record file; answer with `Event::RecordRemoved`.
    RemoveRecord,
    /// Spawn the managed process; answer with `Event::Launched`.
    Launch,
    /// Write `record_text(pid)` to the record file; answer with `Event::RecordWritten`.
    WriteRecord(u32),
    /// The operation is over, with this outcome.
    Finish(Outcome),
}

/// What the host reports after performing an action.
#[derive(Debug, Clone, Copy, PartialEq, Eq)]
pub enum Event {
    /// The id that the record holds; `None` when there is no record or it
    /// holds no id.
    RecordRead(Option<u32>),
    /// Whether the process table has a live process with the queried id.
    ProcessQueried(bool),
    /// Whether the termination request was delivered.
    Terminated(bool),
    RecordRemoved,
    /// The id of the spawned process, or `None` when spawning failed.
    Launched(Option<u32>),
    /// Whether the record was written.
    RecordWritten(bool),
}

/// What follows the removal of the record.
#[derive(Debug, Clone, Copy, PartialEq, Eq)]
pub enum Resume {
    Launch,
    Finish(Outcome),
}

/// Where a supervisor session stands: which event it waits for.
#[derive(Debug, Clone, Copy, PartialEq, Eq)]
pub enum Phase {
    AwaitRecord,
    AwaitQuery(u32),
    AwaitTerminate(u32),
    AwaitRemove(Resume),
    AwaitLaunch,
    AwaitWrite(u32),
    Done(Outcome),
}

/// The action that a session in `phase` waits to see performed.
pub open spec fn action_of(phase: Phase) -> Action {
    match phase {
        Phase::AwaitRecord => Action::ReadRecord,
        Phase::AwaitQuery(p) => Action::QueryProcess(p),
        Phase::AwaitTerminate(p) => Action::Terminate(p),
        Phase::AwaitRemove(_) => Action::RemoveRecord,
        Phase::AwaitLaunch => Action::Launch,
        Phase::AwaitWrite(p) => Action::WriteRecord(p),
        Phase::Done(o) => Action::Finish(o),
    }
}

/// Where a session goes once a process is gone (stopped, or found dead).
pub open spec fn after_gone(op: Operation) -> Phase {
    match op {
        Operation::Start => Phase::AwaitRemove(Resume::Launch),
        _ => Phase::AwaitRemove(Resume::Finish(Ok(None))),
    }
}

/// The transition of a session of `op` in `phase` on event `e`. An event that
/// does not answer the pending action leaves the phase as it is.
pub open spec fn next(op: Operation, phase: Phase, e: Event) -> Phase {
    match (phase, e) {
        (Phase::AwaitRecord, Event::RecordRead(None)) => match op {
            Operation::Status => Phase::Done(Ok(None)),
            Operation::Stop => Phase::AwaitRemove(Resume::Finish(Ok(None))),
            Operation::Start => Phase::AwaitLaunch,
        },
        (Phase::AwaitRecord, Event::RecordRead(Some(p))) => Phase::AwaitQuery(p),
        (Phase::AwaitQuery(p), Event::ProcessQueried(alive)) => if alive {
            match op {
                Operation::Status => Phase::Done(Ok(Some(p))),
                _ => Phase::AwaitTerminate(p),
            }
        } else {
            after_gone(op)
        },
        (Phase::AwaitTerminate(p), Event::Terminated(delivered)) => if delivered {
            after_gone(op)
        } else {
            Phase::AwaitRemove(Resume::Finish(Err(SupervisorError::StopError)))
        },
        (Phase::AwaitRemove(r), Event::RecordRemoved) => match r {
            Resume::Launch => Phase::AwaitLaunch,
            Resume::Finish(o) => Phase::Done(o),
        },
        (Phase::AwaitLaunch, Event::Launched(None)) => Phase::Done(Err(SupervisorError::LaunchError)),
        (Phase::AwaitLaunch, Event::Launched(Some(p))) => Phase::AwaitWrite(p),
        (Phase::AwaitWrite(p), Event::RecordWritten(ok)) => if ok {
            Phase::Done(Ok(Some(p)))
        } else {
            Phase::Done(Err(SupervisorError::LaunchError))
        },
        _ => phase,
    }
}

/// One run of a supervisor operation, driven by the host one event at a time.
pub struct SupervisorSession {
    pub op: Operation,
    pub phase: Phase,
}

impl SupervisorSession {
    fn begin(op: Operation) -> (s: Self)
        ensures
            s.op == op,
            s.phase == Phase::AwaitRecord,
    {
        SupervisorSession { op, phase: Phase::AwaitRecord }
    }

    /// Reports whether the managed process runs; a record whose process is
    /// gone is removed.
    pub fn status() -> (s: Self)
        ensures
            s.op == Operation::Status,
            s.phase == Phase::AwaitRecord,
    {
        Self::begin(Operation::Status)
    }

    /// Launches the managed process, stopping a running one first.
    pub fn start() -> (s: Self)
        ensures
            s.op == Operation::Start,
            s.phase == Phase::AwaitRecord,
    {
        Self::begin(Operation::Start)
    }

    /// Stops the managed process, if one runs, and removes the record.
    pub fn stop() -> (s: Self)
        ensures
            s.op == Operation::Stop,
            s.phase == Phase::AwaitRecord,
    {
        Self::begin(Operation::Stop)
    }

    /// The action the session waits to see performed.
    pub fn action(&self) -> (a: Action)
        ensures
            a == action_of(self.phase),
    {
        match self.phase {
            Phase::AwaitRecord => Action::ReadRecord,
            Phase::AwaitQuery(p) => Action::QueryProcess(p),
            Phase::AwaitTerminate(p) => Action::Terminate(p),
            Phase::AwaitRemove(_) => Action::RemoveRecord,
            Phase::AwaitLaunch => Action::Launch,
            Phase::AwaitWrite(p) => Action::WriteRecord(p),
            Phase::Done(o) => Action::Finish(o),
        }
    }

    /// Takes the host's report on the pending action and returns the next one.
    pub fn advance(&mut self, e: Event) -> (a: Action)
        ensures
            final(self).op == old(self).op,
            final(self).phase == next(old(self).op, old(self).phase, e),
            a == action_of(final(self).phase),
    {
        let op = self.op;
        let gone = match op {
            Operation::Start => Phase::AwaitRemove(Resume::Launch),
            _ => Phase::AwaitRemove(Resume::Finish(Ok(None))),
        };
        let np = match (self.phase, e) {
            (Phase::AwaitRecord, Event::RecordRead(None)) => match op {
                Operation::Status => Phase::Done(Ok(None)),
                Operation::Stop => Phase::AwaitRemove(Resume::Finish(Ok(None))),
                Operation::Start => Phase::AwaitLaunch,
            },
            (Phase::AwaitRecord, Event::RecordRead(Some(p))) => Phase::AwaitQuery(p),
            (Phase::AwaitQuery(p), Event::ProcessQueried(alive)) => if alive {
                match op {
                    Operation::Status => Phase::Done(Ok(Some(p))),
                    _ => Phase::AwaitTerminate(p),
                }
            } else {
                gone
            },
            (Phase::AwaitTerminate(_), Event::Terminated(delivered)) => if delivered {
                gone
            } else {
                Phase::AwaitRemove(Resume::Finish(Err(SupervisorError::StopError)))
            },
            (Phase::AwaitRemove(r), Event::RecordRemoved) => match r {
                Resume::Launch => Phase::AwaitLaunch,
                Resume::Finish(o) => Phase::Done(o),
            },
            (Phase::AwaitLaunch, Event::Launched(None)) => Phase::Done(Err(SupervisorError::LaunchError)),
            (Phase::AwaitLaunch, Event::Launched(Some(p))) => Phase::AwaitWrite(p),
            (Phase::AwaitWrite(p), Event::RecordWritten(ok)) => if ok {
                Phase::Done(Ok(Some(p)))
            } else {
                Phase::Done(Err(SupervisorError::LaunchError))
            },
            (ph, _) => ph,
        };
        self.phase = np;
        self.action()
    }
}

impl Event {
    /// The event that reports the text of the record, `None` when there is no
    /// record file.
    pub fn record_read(text: Option<&str>) -> (e: Event)
        ensures
            e matches Event::RecordRead(r) && match text {
                Some(t) => reads_as(t@, r),
                None => r is None,
            },
    {
        match text {
            Some(t) => Event::RecordRead(parse_record(t)),
            None => Event::RecordRead(None),
        }
    }
}

/// The part of the machine that the supervisor touches: the text of the
/// record file, if it exists, and the ids of the live processes.
pub struct Host {
    pub record: Option<Seq<char>>,
    pub live: Set<u32>,
}

/// The answers of the host that the machine's state does not decide: the id
/// that reading the record gives, whether a termination request gets
/// through, which id a spawned process gets (none when spawning fails), and
/// whether the record can be written.
pub struct HostChoices {
    pub read: Option<u32>,
    pub delivered: bool,
    pub spawned: Option<u32>,
    pub written: bool,
}

/// The host's answers fit its state: the id read is what is known of the
/// record's text (none without a record), and a spawned process gets an id
/// that no live process has.
pub open spec fn faithful(h: Host, k: HostChoices) -> bool {
    &&& match h.record {
        Some(t) => reads_as(t, k.read),
        None => k.read is None,
    }
    &&& match k.spawned {
        Some(p) => !h.live.contains(p),
        None => true,
    }
}

/// The event with which the host answers action `a`.
pub open spec fn host_event(a: Action, h: Host, k: HostChoices) -> Event {
    match a {
        Action::ReadRecord => Event::RecordRead(k.read),
        Action::QueryProcess(p) => Event::ProcessQueried(h.live.contains(p)),
        Action::Terminate(_) => Event::Terminated(k.delivered),
        Action::Launch => Event::Launched(k.spawned),
        Action::WriteRecord(_) => Event::RecordWritten(k.written),
        _ => Event::RecordRemoved,
    }
}

/// The host after it has performed action `a`.
pub open spec fn host_after(a: Action, h: Host, k: HostChoices) -> Host {
    match a {
        Action::Terminate(p) => if k.delivered {
            Host { record: h.record, live: h.live.remove(p) }
        } else {
            h
        },
        Action::RemoveRecord => Host { record: None, live: h.live },
        Action::Launch => match k.spawned {
            Some(p) => Host { record: h.record, live: h.live.insert(p) },
            None => h,
        },
        Action::WriteRecord(p) => if k.written {
            Host { record: Some(decimal(p as nat)), live: h.live }
        } else {
            h
        },
        _ => h,
    }
}

/// A session of `op` in `phase`, driven by the host for at most `fuel` steps:
/// the outcome, if it finished, and the host afterwards.
pub open spec fn drive(op: Operation, phase: Phase, h: Host, k: HostChoices, fuel: nat) -> (Option<Outcome>, Host)
    decreases fuel,
{
    match phase {
        Phase::Done(o) => (Some(o), h),
        _ => if fuel == 0 {
            (None, h)
        } else {
            let a = action_of(phase);
            drive(op, next(op, phase, host_event(a, h, k)), host_after(a, h, k), k, (fuel - 1) as nat)
        },
    }
}

/// A whole operation run against the host.
pub open spec fn run(op: Operation, h: Host, k: HostChoices) -> (Option<Outcome>, Host) {
    drive(op, Phase::AwaitRecord, h, k, 8)
}

/// After any stop there is no record, and a status query that follows reports
/// that nothing runs and changes nothing.
pub proof fn stop_leaves_no_record(h: Host, k: HostChoices, k2: HostChoices)
    requires
        faithful(h, k),
        faithful(run(Operation::Stop, h, k).1, k2),
    ensures
        run(Operation::Stop, h, k).0 is Some,
        run(Operation::Stop, h, k).1.record is None,
        run(Operation::Status, run(Operation::Stop, h, k).1, k2)
            == (Some(Ok::<Option<u32>, SupervisorError>(None)), run(Operation::Stop, h, k).1),
{
    reveal_with_fuel(drive, 8);
}

/// Starting while a process runs stops it first. The start succeeds exactly
/// when a process was spawned and recorded and any live recorded process was
/// terminated; then exactly the new process is tracked and live, the
/// previously recorded process is no longer live, and a status query that
/// follows reports the new process (when its id is at most `i32::MAX`, the
/// range in which every platform reads a record back).
pub proof fn start_replaces_running(h: Host, k: HostChoices, k2: HostChoices)
    requires
        faithful(h, k),
        faithful(run(Operation::Start, h, k).1, k2),
    ensures
        run(Operation::Start, h, k).0 is Some,
        run(Operation::Start, h, k).0 == Some(Ok::<Option<u32>, SupervisorError>(k.spawned))
            <==> (k.spawned is Some && k.written && (k.read matches Some(q) && h.live.contains(q)
            ==> k.delivered)),
        (run(Operation::Start, h, k).0 matches Some(Ok(Some(p))) ==> {
            &&& run(Operation::Start, h, k).1.record == Some(decimal(p as nat))
            &&& run(Operation::Start, h, k).1.live.contains(p)
            &&& forall|q: u32|
                k.read == Some(q) && q != p ==> !run(Operation::Start, h, k).1.live.contains(q)
        }),
        (run(Operation::Start, h, k).0 matches Some(Ok(Some(p))) ==> (p <= i32::MAX ==> run(
            Operation::Status,
            run(Operation::Start, h, k).1,
            k2,
        ).0 == Some(Ok::<Option<u32>, SupervisorError>(Some(p))))),
{
    reveal_with_fuel(drive, 8);
    if let Some(p) = k.spawned {
        if p <= i32::MAX && k.written && run(Operation::Start, h, k).0 == Some(
            Ok::<Option<u32>, SupervisorError>(Some(p)),
        ) {
            record_round_trip(p, k2.read);
        }
    }
}

/// Stopping with nothing recorded succeeds and leaves no record.
pub proof fn stop_without_record(h: Host, k: HostChoices)
    requires
        h.record is None,
        faithful(h, k),
    ensures
        run(Operation::Stop, h, k) == (Some(Ok::<Option<u32>, SupervisorError>(None)), h),
{
    reveal_with_fuel(drive, 8);
}

/// A record that holds the id of a process that is gone makes a status query
/// report that nothing runs and removes the record; a second query reports
/// the same and changes nothing. (A record id above `i32::MAX` does not read
/// back on every platform.)
pub proof fn status_heals_stale_record(h: Host, k: HostChoices, k2: HostChoices, p: u32)
    requires
        h.record == Some(decimal(p as nat)),
        p <= i32::MAX,
        !h.live.contains(p),
        faithful(h, k),
        faithful(run(Operation::Status, h, k).1, k2),
    ensures
        run(Operation::Status, h, k) == (
            Some(Ok::<Option<u32>, SupervisorError>(None)),
            Host { record: None, live: h.live },
        ),
        run(Operation::Status, run(Operation::Status, h, k).1, k2) == run(Operation::Status, h, k),
{
    record_round_trip(p, k.read);
    reveal_with_fuel(drive, 8);
}

} // verus!
