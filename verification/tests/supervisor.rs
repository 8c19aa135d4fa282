use netboot::cause::{InternalWifiError, WifiError};
use netboot::error::Error;
use netboot::supervisor::{
    begin, run, step, AuthMethod, Command, ConnectionCredentials, DownEvents, Event, LinkState,
    Notice, Step, SupervisorState, RETRY_DELAY_SECS,
};

fn commands(log: &[Step]) -> Vec<Command> {
    log.iter().map(|s| s.command).collect()
}

fn monitoring_entries(start: SupervisorState, log: &[Step]) -> usize {
    let mut prev = start;
    let mut n = 0;
    for s in log {
        if s.state == SupervisorState::Monitoring && prev != SupervisorState::Monitoring {
            n += 1;
        }
        prev = s.state;
    }
    n
}

#[test]
fn secret_decides_the_authentication() {
    let open = ConnectionCredentials { ssid: String::from("lab"), secret: None };
    assert_eq!(open.auth_method(), AuthMethod::Open);
    assert_eq!(open.password(), "");
    let empty = ConnectionCredentials { ssid: String::from("lab"), secret: Some(String::new()) };
    assert_eq!(empty.auth_method(), AuthMethod::Open);
    let closed = ConnectionCredentials {
        ssid: String::from("lab"),
        secret: Some(String::from("hunter22")),
    };
    assert_eq!(closed.auth_method(), AuthMethod::Wpa2Personal);
    assert_eq!(closed.password(), "hunter22");
}

#[test]
fn starts_by_configuring() {
    let first = begin();
    assert_eq!(first.state, SupervisorState::Configuring);
    assert_eq!(first.command, Command::Configure);
    assert_eq!(RETRY_DELAY_SECS, 3);
}

#[test]
fn ten_failures_then_success_enter_monitoring_once() {
    let failure = WifiError::Disconnected;
    let mut script = vec![Event::Configured, Event::Started, Event::Link(LinkState::Disconnected)];
    for _ in 0..10 {
        script.push(Event::ConnectFailed(failure));
        script.push(Event::Paused);
    }
    script.push(Event::Connected);
    script.push(Event::Link(LinkState::Connected));
    let log = run(SupervisorState::Configuring, &script);
    assert_eq!(log.len(), script.len());
    assert_eq!(monitoring_entries(SupervisorState::Configuring, &log), 1);
    assert_eq!(log.last().unwrap().state, SupervisorState::Monitoring);
    assert_eq!(log.last().unwrap().command, Command::WaitForDown);
    let cmds = commands(&log);
    assert_eq!(cmds.iter().filter(|c| **c == Command::Connect).count(), 11);
    assert_eq!(cmds.iter().filter(|c| **c == Command::Pause(3)).count(), 10);
    assert!(!cmds.contains(&Command::Halt));
    assert!(!cmds.contains(&Command::Disconnect));
    assert_eq!(log[3].notice, Notice::ConnectFailed(failure));
}

#[test]
fn beacon_timeout_disconnects_before_it_reconnects() {
    let script = vec![
        Event::Down(DownEvents { station_disconnected: false, beacon_timeout: true }),
        Event::Disconnected,
        Event::Paused,
        Event::Connected,
        Event::Link(LinkState::Connected),
    ];
    let log = run(SupervisorState::Monitoring, &script);
    assert_eq!(
        commands(&log),
        vec![
            Command::Disconnect,
            Command::Pause(3),
            Command::Connect,
            Command::QueryLink,
            Command::WaitForDown
        ]
    );
    assert_eq!(log[0].notice, Notice::BeaconLost);
}

#[test]
fn station_disconnected_reconnects_without_a_disconnect() {
    let script = vec![
        Event::Down(DownEvents { station_disconnected: true, beacon_timeout: false }),
        Event::Paused,
        Event::Connected,
    ];
    let log = run(SupervisorState::Monitoring, &script);
    assert_eq!(commands(&log), vec![Command::Pause(3), Command::Connect, Command::QueryLink]);
    assert_eq!(log[0].notice, Notice::LinkLost);
    let both = step(
        SupervisorState::Monitoring,
        Event::Down(DownEvents { station_disconnected: true, beacon_timeout: true }),
    );
    assert_eq!(both.command, Command::Pause(3));
    assert_eq!(both.state, SupervisorState::Pausing);
}

#[test]
fn a_wait_that_reports_nothing_still_pauses_and_reconnects() {
    let s = step(
        SupervisorState::Monitoring,
        Event::Down(DownEvents { station_disconnected: false, beacon_timeout: false }),
    );
    assert_eq!(s, Step { state: SupervisorState::Pausing, command: Command::Pause(3), notice: Notice::Nothing });
}

#[test]
fn a_failed_disconnect_is_not_fatal() {
    let e = WifiError::InternalError(InternalWifiError::EspErrWifiNotConnect);
    let s = step(SupervisorState::Disconnecting, Event::DisconnectFailed(e));
    assert_eq!(s.state, SupervisorState::Pausing);
    assert_eq!(s.command, Command::Pause(3));
    assert_eq!(s.notice, Notice::DisconnectFailed(e));
}

#[test]
fn setup_failures_are_fatal() {
    let e = WifiError::InvalidArguments;
    let s = step(SupervisorState::Configuring, Event::ConfigureFailed(e));
    assert_eq!(s.state, SupervisorState::Failed(e));
    assert_eq!(s.command, Command::Halt);
    assert_eq!(s.state.failure(), Some(Error::Wifi(e)));
    let s = step(SupervisorState::Starting, Event::StartFailed(WifiError::NotInitialized));
    assert_eq!(s.state, SupervisorState::Failed(WifiError::NotInitialized));
    let after = step(s.state, Event::Connected);
    assert_eq!(after.state, s.state);
    assert_eq!(after.command, Command::Halt);
    assert_eq!(SupervisorState::Monitoring.failure(), None);
}

#[test]
fn link_state_decides_between_monitoring_and_connecting() {
    assert_eq!(step(SupervisorState::Probing, Event::Link(LinkState::Connected)).command, Command::WaitForDown);
    assert_eq!(step(SupervisorState::Probing, Event::Link(LinkState::Disconnected)).command, Command::Connect);
    assert_eq!(step(SupervisorState::Probing, Event::Link(LinkState::Connecting)).state, SupervisorState::Connecting);
}

#[test]
fn an_event_that_is_not_awaited_changes_nothing() {
    let s = step(SupervisorState::Monitoring, Event::Connected);
    assert_eq!(s, Step { state: SupervisorState::Monitoring, command: Command::Idle, notice: Notice::Nothing });
    let s = step(SupervisorState::Connecting, Event::ConfigureFailed(WifiError::Unsupported));
    assert_eq!(s.state, SupervisorState::Connecting);
    assert_eq!(s.command, Command::Idle);
}

#[test]
fn an_empty_script_takes_no_step() {
    assert!(run(SupervisorState::Configuring, &Vec::new()).is_empty());
}
