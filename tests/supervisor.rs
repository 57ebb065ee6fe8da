use mihomo_proxy::supervisor::{
    parse_record, record_text, Action, Event, SupervisorError, SupervisorSession,
};
use std::collections::BTreeSet;

/// A scripted host: the record file's text and the live process ids.
struct FakeHost {
    record: Option<String>,
    live: BTreeSet<u32>,
    next_pid: u32,
    kill_works: bool,
    spawn_works: bool,
    write_works: bool,
    spawned: Vec<u32>,
    terminated: Vec<u32>,
}

impl FakeHost {
    fn new() -> Self {
        FakeHost {
            record: None,
            live: BTreeSet::new(),
            next_pid: 100,
            kill_works: true,
            spawn_works: true,
            write_works: true,
            spawned: Vec::new(),
            terminated: Vec::new(),
        }
    }

    fn run(&mut self, mut s: SupervisorSession) -> Result<Option<u32>, SupervisorError> {
        let mut a = s.action();
        loop {
            let e = match a {
                Action::ReadRecord => Event::record_read(self.record.as_deref()),
                Action::QueryProcess(p) => Event::ProcessQueried(self.live.contains(&p)),
                Action::Terminate(p) => {
                    if self.kill_works {
                        self.live.remove(&p);
                        self.terminated.push(p);
                    }
                    Event::Terminated(self.kill_works)
                }
                Action::RemoveRecord => {
                    self.record = None;
                    Event::RecordRemoved
                }
                Action::Launch => {
                    if self.spawn_works {
                        let p = self.next_pid;
                        self.next_pid += 1;
                        self.live.insert(p);
                        self.spawned.push(p);
                        Event::Launched(Some(p))
                    } else {
                        Event::Launched(None)
                    }
                }
                Action::WriteRecord(p) => {
                    if self.write_works {
                        self.record = Some(record_text(p));
                    }
                    Event::RecordWritten(self.write_works)
                }
                Action::Finish(o) => return o,
            };
            a = s.advance(e);
        }
    }
}

#[test]
fn stop_after_start_leaves_no_record() {
    let mut h = FakeHost::new();
    assert_eq!(h.run(SupervisorSession::start()), Ok(Some(100)));
    assert_eq!(h.record.as_deref(), Some("100"));
    assert_eq!(h.run(SupervisorSession::stop()), Ok(None));
    assert_eq!(h.record, None);
    assert!(!h.live.contains(&100));
    assert_eq!(h.run(SupervisorSession::status()), Ok(None));
}

#[test]
fn stop_removes_record_even_when_termination_fails() {
    let mut h = FakeHost::new();
    h.run(SupervisorSession::start()).unwrap();
    h.kill_works = false;
    assert_eq!(h.run(SupervisorSession::stop()), Err(SupervisorError::StopError));
    assert_eq!(h.record, None);
    assert_eq!(h.run(SupervisorSession::status()), Ok(None));
}

#[test]
fn start_while_running_replaces_process() {
    let mut h = FakeHost::new();
    assert_eq!(h.run(SupervisorSession::start()), Ok(Some(100)));
    assert_eq!(h.run(SupervisorSession::start()), Ok(Some(101)));
    assert_eq!(h.terminated, vec![100]);
    assert_eq!(h.live.iter().copied().collect::<Vec<_>>(), vec![101]);
    assert_eq!(h.record.as_deref(), Some("101"));
    assert_eq!(h.run(SupervisorSession::status()), Ok(Some(101)));
}

#[test]
fn start_fails_when_running_process_cannot_be_stopped() {
    let mut h = FakeHost::new();
    h.run(SupervisorSession::start()).unwrap();
    h.kill_works = false;
    assert_eq!(h.run(SupervisorSession::start()), Err(SupervisorError::StopError));
    assert_eq!(h.spawned, vec![100]);
}

#[test]
fn stop_without_start_succeeds() {
    let mut h = FakeHost::new();
    assert_eq!(h.run(SupervisorSession::stop()), Ok(None));
    assert_eq!(h.record, None);
    assert!(h.terminated.is_empty());
}

#[test]
fn status_removes_stale_record() {
    let mut h = FakeHost::new();
    h.record = Some("4242".to_string());
    assert_eq!(h.run(SupervisorSession::status()), Ok(None));
    assert_eq!(h.record, None);
    assert_eq!(h.run(SupervisorSession::status()), Ok(None));
    assert_eq!(h.record, None);
}

#[test]
fn status_reports_live_process() {
    let mut h = FakeHost::new();
    h.record = Some("77".to_string());
    h.live.insert(77);
    assert_eq!(h.run(SupervisorSession::status()), Ok(Some(77)));
    assert_eq!(h.record.as_deref(), Some("77"));
}

#[test]
fn start_reports_spawn_failure() {
    let mut h = FakeHost::new();
    h.spawn_works = false;
    assert_eq!(h.run(SupervisorSession::start()), Err(SupervisorError::LaunchError));
    assert_eq!(h.record, None);
}

#[test]
fn start_reports_unwritable_record() {
    let mut h = FakeHost::new();
    h.write_works = false;
    assert_eq!(h.run(SupervisorSession::start()), Err(SupervisorError::LaunchError));
    assert!(h.live.contains(&100));
    assert_eq!(h.record, None);
}

#[test]
fn unanswered_event_repeats_action() {
    let mut s = SupervisorSession::status();
    assert_eq!(s.advance(Event::RecordRemoved), Action::ReadRecord);
    assert_eq!(s.advance(Event::RecordRead(Some(5))), Action::QueryProcess(5));
}

#[test]
fn record_text_parses() {
    assert_eq!(parse_record("1234"), Some(1234));
    assert_eq!(parse_record("12a"), None);
    assert_eq!(parse_record(""), None);
    assert_eq!(parse_record(" 12"), None);
    assert_eq!(parse_record("1 2"), None);
    assert_eq!(parse_record("2147483647"), Some(2147483647));
    assert_eq!(record_text(0), "0");
    assert_eq!(record_text(4294967295), "4294967295");
    assert_eq!(parse_record(&record_text(31337)), Some(31337));
}
