use parkour_log::{Command, Event, Notice, Phase, Step, WatchSession, DEBOUNCE_MS};

fn text(s: &str) -> String {
    s.to_string()
}

fn quiet(command: Command) -> Step {
    Step { notices: vec![], command }
}

/// A session that delivered "A" at time `sent` and was then armed.
fn watching(sent: u64) -> WatchSession {
    let mut s = WatchSession::new();
    s.step(Event::Resolved(Some(text("/h/latest.log"))));
    s.step(Event::ContentRead(Some(text("A")), sent));
    s.step(Event::Armed(Ok(())));
    assert_eq!(s.phase(), Phase::Watching);
    s
}

#[test]
fn fresh_session() {
    let s = WatchSession::new();
    assert_eq!(s.phase(), Phase::Searching);
    assert_eq!(s.active_path(), None);
    assert_eq!(s.last_fingerprint(), 0);
    assert_eq!(s.last_emit(), None);
    assert_eq!(s.first_command(), Command::Resolve);
}

#[test]
fn retry_until_found() {
    let mut s = WatchSession::new();
    for _ in 0..3 {
        let r = s.step(Event::Resolved(None));
        assert_eq!(r.notices, vec![Notice::Error(text("Minecraft log file not found"))]);
        assert_eq!(r.command, Command::RetryLater);
        assert_eq!(s.phase(), Phase::Searching);
    }
    let r = s.step(Event::Resolved(Some(text("/h/latest.log"))));
    assert_eq!(r.notices, vec![Notice::Location(text("/h/latest.log"))]);
    assert_eq!(r.command, Command::Read);
    assert_eq!(s.active_path(), Some(text("/h/latest.log")));
    let r = s.step(Event::ContentRead(Some(text("A")), 10));
    assert_eq!(r.notices, vec![Notice::Content(text("A"))]);
    assert_eq!(r.command, Command::Arm);
    assert_eq!(s.last_fingerprint(), parkour_log::hash_content("A"));
}

#[test]
fn unreadable_first_read_still_arms() {
    let mut s = WatchSession::new();
    s.step(Event::Resolved(Some(text("/h/latest.log"))));
    let r = s.step(Event::ContentRead(None, 0));
    assert_eq!(r, quiet(Command::Arm));
    assert_eq!(s.last_fingerprint(), 0);
    assert_eq!(s.phase(), Phase::Arming);
}

#[test]
fn arming_failure_is_terminal() {
    let mut s = WatchSession::new();
    s.step(Event::Resolved(Some(text("/h/latest.log"))));
    s.step(Event::ContentRead(Some(text("A")), 0));
    let r = s.step(Event::Armed(Err(text("Watch error: gone"))));
    assert_eq!(r.notices, vec![Notice::Error(text("Watch error: gone"))]);
    assert_eq!(r.command, Command::Stop);
    assert_eq!(s.phase(), Phase::Failed);
    assert_eq!(s.step(Event::Change(true, 100_000)), quiet(Command::Stop));
}

#[test]
fn closed_source_aborts_silently() {
    let mut s = watching(0);
    assert_eq!(s.step(Event::Closed), quiet(Command::Stop));
    assert_eq!(s.phase(), Phase::Aborted);
    assert_eq!(s.step(Event::Timeout), quiet(Command::Stop));
}

#[test]
fn timeouts_errors_and_other_files_are_ignored() {
    let mut s = watching(0);
    assert_eq!(s.step(Event::Timeout), quiet(Command::Wait));
    assert_eq!(s.step(Event::SourceError), quiet(Command::Wait));
    assert_eq!(s.step(Event::Change(false, 10_000)), quiet(Command::Wait));
    assert_eq!(s.phase(), Phase::Watching);
}

#[test]
fn debounce_window() {
    let t = 1_000;
    let mut s = watching(t);
    assert_eq!(s.step(Event::Change(true, t + DEBOUNCE_MS - 1)), quiet(Command::Wait));
    assert_eq!(s.phase(), Phase::Watching);
    assert_eq!(s.step(Event::Change(true, t + DEBOUNCE_MS)), quiet(Command::Read));
    assert_eq!(s.phase(), Phase::Refreshing);
    let r = s.step(Event::ContentRead(Some(text("AB")), t + DEBOUNCE_MS + 5));
    assert_eq!(r.notices, vec![Notice::Content(text("AB"))]);
    assert_eq!(s.step(Event::Change(true, t + DEBOUNCE_MS + 6)), quiet(Command::Wait));
    assert_eq!(s.step(Event::Change(true, t + 2 * DEBOUNCE_MS + 5)), quiet(Command::Read));
}

#[test]
fn clock_reading_earlier_counts_as_no_time() {
    let mut s = watching(50_000);
    assert_eq!(s.step(Event::Change(true, 10)), quiet(Command::Wait));
}

#[test]
fn unchanged_content_is_not_delivered_twice() {
    let mut s = watching(0);
    assert_eq!(s.step(Event::Change(true, 5_000)), quiet(Command::Read));
    assert_eq!(s.step(Event::ContentRead(Some(text("A")), 5_001)), quiet(Command::Wait));
    assert_eq!(s.step(Event::Change(true, 10_000)), quiet(Command::Read));
    let r = s.step(Event::ContentRead(Some(text("AB")), 10_001));
    assert_eq!(r.notices, vec![Notice::Content(text("AB"))]);
    assert_eq!(s.step(Event::Change(true, 20_000)), quiet(Command::Read));
    assert_eq!(s.step(Event::ContentRead(Some(text("AB")), 20_001)), quiet(Command::Wait));
    assert_eq!(s.step(Event::Change(true, 20_002)), quiet(Command::Read));
}

#[test]
fn failed_refresh_read_goes_back_to_watching() {
    let mut s = watching(0);
    s.step(Event::Change(true, 5_000));
    assert_eq!(s.step(Event::ContentRead(None, 5_001)), quiet(Command::Wait));
    assert_eq!(s.phase(), Phase::Watching);
}

#[test]
fn end_to_end() {
    let mut s = WatchSession::new();
    let mut delivered: Vec<Notice> = vec![];
    let mut now: u64 = 0;
    for _ in 0..3 {
        let r = s.step(Event::Resolved(None));
        assert_eq!(r.command, Command::RetryLater);
        delivered.extend(r.notices);
        now += 5_000;
    }
    assert_eq!(delivered.len(), 3);
    assert!(delivered.iter().all(|n| matches!(n, Notice::Error(_))));
    delivered.clear();

    let r = s.step(Event::Resolved(Some(text("/h/latest.log"))));
    delivered.extend(r.notices);
    let r = s.step(Event::ContentRead(Some(text("A")), now));
    delivered.extend(r.notices);
    assert_eq!(
        delivered,
        vec![Notice::Location(text("/h/latest.log")), Notice::Content(text("A"))]
    );
    assert_eq!(s.step(Event::Armed(Ok(()))).command, Command::Wait);

    now += DEBOUNCE_MS + 100;
    assert_eq!(s.step(Event::Change(true, now)).command, Command::Read);
    let r = s.step(Event::ContentRead(Some(text("A\nB")), now));
    assert_eq!(r.notices, vec![Notice::Content(text("A\nB"))]);

    now += 500;
    assert_eq!(s.step(Event::Change(true, now)), quiet(Command::Wait));

    now += DEBOUNCE_MS;
    assert_eq!(s.step(Event::Change(true, now)).command, Command::Read);
    let r = s.step(Event::ContentRead(Some(text("A\nB\nC")), now));
    assert_eq!(r.notices, vec![Notice::Content(text("A\nB\nC"))]);
}

#[test]
fn window_runs_from_the_first_delivery_not_from_arming() {
    let t0 = 10_000;
    let mut s = WatchSession::new();
    s.step(Event::Resolved(Some(text("/h/latest.log"))));
    s.step(Event::ContentRead(Some(text("A")), t0));
    assert_eq!(s.last_emit(), Some(t0));
    assert_eq!(s.step(Event::Armed(Ok(()))), quiet(Command::Wait));
    assert_eq!(s.last_emit(), Some(t0));
    assert_eq!(s.step(Event::Change(true, t0 + 1_999)), quiet(Command::Wait));
    assert_eq!(s.step(Event::Change(true, t0 + 2_100)), quiet(Command::Read));
}

#[test]
fn no_window_before_any_delivery() {
    let mut s = WatchSession::new();
    s.step(Event::Resolved(Some(text("/h/latest.log"))));
    assert_eq!(s.step(Event::ContentRead(None, 100)), quiet(Command::Arm));
    assert_eq!(s.step(Event::Armed(Ok(()))), quiet(Command::Wait));
    assert_eq!(s.last_emit(), None);
    assert_eq!(s.step(Event::Change(true, 101)), quiet(Command::Read));
    let r = s.step(Event::ContentRead(Some(text("A")), 102));
    assert_eq!(r.notices, vec![Notice::Content(text("A"))]);
    assert_eq!(s.last_emit(), Some(102));
}

#[test]
fn update_carries_the_whole_content() {
    let mut s = watching(0);
    assert_eq!(s.step(Event::Change(true, 3_000)), quiet(Command::Read));
    let r = s.step(Event::ContentRead(Some(text("A\nappended")), 3_001));
    assert_eq!(r.notices, vec![Notice::Content(text("A\nappended"))]);
    assert_eq!(s.last_fingerprint(), parkour_log::hash_content("A\nappended"));
}
