use propeller::console::{Console, ConsoleAction, Mode, PortPicker, StatusReply};
use propeller::socket_path::{resolve, DEFAULT_CLOCK_SOCKET, DEFAULT_SOCKET};
use propeller::startup_guard::{check, StartupOutcome};

fn names(v: &[&str]) -> Vec<String> {
    v.iter().map(|s| s.to_string()).collect()
}

fn console_with(outputs: &[&str], syncs: &[&str]) -> Console {
    Console::new(PortPicker::new(names(outputs), "default (virtual)"), PortPicker::new(names(syncs), "none chosen"))
}

fn empty_reply() -> StatusReply {
    StatusReply { mode: None, clock_state: None, bpm: None, midi_port_name: None, sync_clock_state: None, sync_port_name: None }
}

#[test]
fn mode_cycle_and_names() {
    assert_eq!(Mode::Standalone.next(), Mode::Clock);
    assert_eq!(Mode::Clock.next(), Mode::Sync);
    assert_eq!(Mode::Sync.next(), Mode::Standalone);
    assert_eq!(Mode::Clock.as_str(), "clock");
    assert_eq!(Mode::from_str("sync"), Mode::Sync);
    assert_eq!(Mode::from_str("clock"), Mode::Clock);
    assert_eq!(Mode::from_str("standalone"), Mode::Standalone);
    assert_eq!(Mode::from_str("whatever"), Mode::Standalone);
}

#[test]
fn picker_starts_at_none_and_wraps() {
    let mut p = PortPicker::new(names(&["A", "B"]), "none");
    assert_eq!(p.selected(), None);
    assert_eq!(p.label(), "none");
    p.advance();
    assert_eq!(p.selected().map(|s| s.as_str()), Some("A"));
    p.advance();
    assert_eq!(p.label(), "B");
    p.advance();
    assert_eq!(p.selected(), None);
}

#[test]
fn picker_selects_by_exact_name() {
    let mut p = PortPicker::new(names(&["Surge XT", "Surge"]), "none");
    p.select_by_name("Surge");
    assert_eq!(p.label(), "Surge");
    p.select_by_name("Missing");
    assert_eq!(p.label(), "Surge");
}

#[test]
fn toggle_and_apply_follow_daemon_state() {
    let mut c = console_with(&["A"], &[]);
    assert_eq!(c.toggle_daemon(), ConsoleAction::SpawnDaemon);
    assert_eq!(c.apply_if_running(), ConsoleAction::Nothing);
    c.daemon_running = true;
    assert_eq!(c.toggle_daemon(), ConsoleAction::StopDaemon);
    assert_eq!(c.apply_if_running(), ConsoleAction::RestartDaemon);
    assert_eq!(c.cycle_output_port(), ConsoleAction::RestartDaemon);
    assert_eq!(c.output_port.label(), "A");
}

#[test]
fn mode_cycle_skips_sync_without_port() {
    let mut c = console_with(&[], &["In"]);
    c.daemon_running = true;
    assert_eq!(c.cycle_mode(), (ConsoleAction::RestartDaemon, None));
    assert_eq!(c.mode, Mode::Clock);
    let (action, notice) = c.cycle_mode();
    assert_eq!(action, ConsoleAction::RestartDaemon);
    assert_eq!(notice, Some("select a sync port first (y)"));
    assert_eq!(c.mode, Mode::Standalone);
    // With a sync port chosen, sync is reachable.
    assert_eq!(c.cycle_sync_port(), ConsoleAction::Nothing);
    c.cycle_mode();
    let (_, notice) = c.cycle_mode();
    assert_eq!(notice, None);
    assert_eq!(c.mode, Mode::Sync);
    assert_eq!(c.cycle_sync_port(), ConsoleAction::RestartDaemon);
}

#[test]
fn launch_spec_follows_choices() {
    let mut c = console_with(&["Out"], &["In"]);
    let l = c.launch_spec();
    assert_eq!(l.mode_flag, None);
    assert_eq!(l.midi_port, None);
    assert_eq!(l.sync_port, None);
    c.cycle_output_port();
    c.cycle_sync_port();
    c.mode = Mode::Clock;
    let l = c.launch_spec();
    assert_eq!(l.mode_flag, Some("--clock"));
    assert_eq!(l.midi_port.as_deref(), Some("Out"));
    assert_eq!(l.sync_port, None);
    c.mode = Mode::Sync;
    let l = c.launch_spec();
    assert_eq!(l.mode_flag, Some("--sync"));
    assert_eq!(l.sync_port.as_deref(), Some("In"));
}

#[test]
fn status_reply_updates_console() {
    let mut c = console_with(&["Out"], &["In"]);
    c.apply_status(StatusReply {
        mode: Some("clock".to_string()),
        clock_state: Some("started".to_string()),
        bpm: Some(128),
        midi_port_name: Some("Out".to_string()),
        sync_clock_state: None,
        sync_port_name: Some("Unknown".to_string()),
    });
    assert!(c.daemon_running);
    assert_eq!(c.mode, Mode::Clock);
    assert_eq!(c.clock_state, "started");
    assert_eq!(c.bpm, Some(128));
    assert_eq!(c.output_port.label(), "Out");
    assert_eq!(c.sync_port.label(), "none chosen");
    c.apply_status(empty_reply());
    assert_eq!(c.mode, Mode::Clock);
    assert_eq!(c.clock_state, "?");
    assert_eq!(c.bpm, None);
    c.apply_unreachable();
    assert!(!c.daemon_running);
    assert_eq!(c.clock_state, "stopped");
}

#[test]
fn socket_path_resolution() {
    assert_eq!(resolve(None, DEFAULT_SOCKET), "/tmp/propeller.sock");
    assert_eq!(resolve(Some("/tmp/custom.sock".to_string()), DEFAULT_SOCKET), "/tmp/custom.sock");
    assert_eq!(resolve(None, DEFAULT_CLOCK_SOCKET), "/tmp/propeller-clock.sock");
}

#[test]
fn startup_guard_outcomes() {
    assert_eq!(check(false, false), StartupOutcome::Started);
    assert_eq!(check(true, true), StartupOutcome::AlreadyRunning);
    assert_eq!(check(true, false), StartupOutcome::StaleCleared);
}
