//! The connectivity supervisor: the decisions that keep the radio associated
//! with the configured network, as a state machine that is handed each result
//! of the driver and answers with the next thing to ask of it.

use vstd::prelude::*;
use crate::cause::WifiError;
use crate::error::Error;

verus! {

/// The pause, in seconds, after a lost link and after a failed attempt to
/// connect. It never grows.
pub const RETRY_DELAY_SECS: u64 = 3;

/// How the station authenticates to the network.
#[derive(Clone, Copy, Debug, PartialEq, Eq, Structural)]
pub enum AuthMethod {
    /// No authentication.
    Open,
    Wpa2Personal,
}

/// The network to join: its name and, where it has one, its secret.
#[derive(Clone, Debug, PartialEq, Eq)]
pub struct ConnectionCredentials {
    pub ssid: String,
    pub secret: Option<String>,
}

impl ConnectionCredentials {
    /// The secret as the driver takes it: empty where there is none.
    pub open spec fn password_spec(&self) -> Seq<char> {
        match self.secret {
            Some(s) => s@,
            None => Seq::empty(),
        }
    }

    /// The authentication that the secret implies: none for an absent or
    /// empty secret, WPA2-personal for any other.
    pub open spec fn auth_method_spec(&self) -> AuthMethod {
        if self.password_spec().len() == 0 {
            AuthMethod::Open
        } else {
            AuthMethod::Wpa2Personal
        }
    }

    /// Returns the secret as the driver takes it.
    pub fn password(&self) -> (p: &str)
        ensures
            p@ == self.password_spec(),
    {
        match &self.secret {
            Some(s) => s.as_str(),
            None => {
                proof {
                    reveal_strlit("");
                }
                let p: &str = "";
                assert(p@ =~= Seq::<char>::empty());
                p
            },
        }
    }

    /// Returns the authentication that the secret implies.
    pub fn auth_method(&self) -> (m: AuthMethod)
        ensures
            m == self.auth_method_spec(),
    {
        if self.password().is_empty() {
            AuthMethod::Open
        } else {
            AuthMethod::Wpa2Personal
        }
    }
}

/// What the driver says of the association.
#[derive(Clone, Copy, Debug, PartialEq, Eq, Structural)]
pub enum LinkState {
    Disconnected,
    Connecting,
    Connected,
}

/// The reasons for which the link went down, as one wait reported them.
#[derive(Clone, Copy, Debug, PartialEq, Eq, Structural)]
pub struct DownEvents {
    pub station_disconnected: bool,
    pub beacon_timeout: bool,
}

impl DownEvents {
    /// Whether the driver must be told to disconnect before the next attempt:
    /// after a beacon timeout that came without a disconnection.
    pub open spec fn needs_disconnect(self) -> bool {
        !self.station_disconnected && self.beacon_timeout
    }
}

/// Where the supervisor stands: which answer of the driver it waits for.
#[derive(Clone, Copy, Debug, PartialEq, Eq, Structural)]
pub enum SupervisorState {
    /// The credentials are being applied.
    Configuring,
    /// The radio is being started.
    Starting,
    /// The link state was asked for.
    Probing,
    /// The link is up; a reason for its loss is awaited.
    Monitoring,
    /// The driver was told to disconnect.
    Disconnecting,
    /// The fixed delay runs.
    Pausing,
    /// An attempt to connect runs.
    Connecting,
    /// Set-up failed. Nothing leaves this state.
    Failed(WifiError),
}

/// What the supervisor asks of the driver or the clock next.
#[derive(Clone, Copy, Debug, PartialEq, Eq, Structural)]
pub enum Command {
    /// Apply the credentials.
    Configure,
    /// Start the radio.
    Start,
    /// Report the link state.
    QueryLink,
    /// Wait for a disconnection or a beacon timeout, consuming both.
    WaitForDown,
    Disconnect,
    /// Sleep for that many seconds.
    Pause(u64),
    Connect,
    /// Give up: set-up failed.
    Halt,
    /// Nothing new: the event was not the awaited one.
    Idle,
}

/// A result handed back to the supervisor.
#[derive(Clone, Copy, Debug, PartialEq, Eq, Structural)]
pub enum Event {
    Configured,
    ConfigureFailed(WifiError),
    Started,
    StartFailed(WifiError),
    Link(LinkState),
    Down(DownEvents),
    Disconnected,
    DisconnectFailed(WifiError),
    Paused,
    Connected,
    ConnectFailed(WifiError),
}

impl Event {
    /// Whether this is a failure of set-up, the only kind that is fatal.
    pub open spec fn is_setup_failure(self) -> bool {
        self is ConfigureFailed || self is StartFailed
    }

    /// Whether this reports a beacon timeout that came without a
    /// disconnection.
    pub open spec fn is_bare_beacon_timeout(self) -> bool {
        match self {
            Event::Down(d) => d.needs_disconnect(),
            _ => false,
        }
    }

    /// Whether this reports a link that is not up.
    pub open spec fn is_link_not_up(self) -> bool {
        match self {
            Event::Link(l) => l != LinkState::Connected,
            _ => false,
        }
    }
}

/// What there is to tell the operator about a step.
#[derive(Clone, Copy, Debug, PartialEq, Eq, Structural)]
pub enum Notice {
    Nothing,
    ConfigSet,
    RadioStarted,
    /// The link is down; an attempt to connect begins.
    Connecting,
    /// The station was disconnected; a retry follows.
    LinkLost,
    /// Beacons stopped; a disconnect and a reconnect follow.
    BeaconLost,
    /// The disconnect failed; the reconnect follows all the same.
    DisconnectFailed(WifiError),
    /// An attempt to connect failed; another follows.
    ConnectFailed(WifiError),
    LinkUp,
}

/// One transition: the new state, what to do next, and what to log.
#[derive(Clone, Copy, Debug, PartialEq, Eq, Structural)]
pub struct Step {
    pub state: SupervisorState,
    pub command: Command,
    pub notice: Notice,
}

impl SupervisorState {
    /// Whether set-up is over and has succeeded.
    pub open spec fn is_operational(self) -> bool {
        self is Probing || self is Monitoring || self is Disconnecting || self is Pausing
            || self is Connecting
    }

    /// The error that stopped the supervisor, if it has stopped.
    pub open spec fn failure_spec(self) -> Option<Error> {
        match self {
            SupervisorState::Failed(e) => Some(Error::Wifi(e)),
            _ => None,
        }
    }

    /// Returns the error that stopped the supervisor, if it has stopped.
    pub fn failure(&self) -> (r: Option<Error>)
        ensures
            r == self.failure_spec(),
    {
        match self {
            SupervisorState::Failed(e) => Some(Error::from(*e)),
            _ => None,
        }
    }
}

/// The transition relation. An event that the state does not wait for changes
/// nothing and asks for nothing.
pub open spec fn next(state: SupervisorState, event: Event) -> Step {
    match (state, event) {
        (SupervisorState::Configuring, Event::Configured) => Step {
            state: SupervisorState::Starting,
            command: Command::Start,
            notice: Notice::ConfigSet,
        },
        (SupervisorState::Configuring, Event::ConfigureFailed(e)) => Step {
            state: SupervisorState::Failed(e),
            command: Command::Halt,
            notice: Notice::Nothing,
        },
        (SupervisorState::Starting, Event::Started) => Step {
            state: SupervisorState::Probing,
            command: Command::QueryLink,
            notice: Notice::RadioStarted,
        },
        (SupervisorState::Starting, Event::StartFailed(e)) => Step {
            state: SupervisorState::Failed(e),
            command: Command::Halt,
            notice: Notice::Nothing,
        },
        (SupervisorState::Probing, Event::Link(LinkState::Connected)) => Step {
            state: SupervisorState::Monitoring,
            command: Command::WaitForDown,
            notice: Notice::Nothing,
        },
        (SupervisorState::Probing, Event::Link(_)) => Step {
            state: SupervisorState::Connecting,
            command: Command::Connect,
            notice: Notice::Connecting,
        },
        (SupervisorState::Monitoring, Event::Down(d)) => if d.station_disconnected {
            Step {
                state: SupervisorState::Pausing,
                command: Command::Pause(RETRY_DELAY_SECS),
                notice: Notice::LinkLost,
            }
        } else if d.beacon_timeout {
            Step {
                state: SupervisorState::Disconnecting,
                command: Command::Disconnect,
                notice: Notice::BeaconLost,
            }
        } else {
            Step {
                state: SupervisorState::Pausing,
                command: Command::Pause(RETRY_DELAY_SECS),
                notice: Notice::Nothing,
            }
        },
        (SupervisorState::Disconnecting, Event::Disconnected) => Step {
            state: SupervisorState::Pausing,
            command: Command::Pause(RETRY_DELAY_SECS),
            notice: Notice::Nothing,
        },
        (SupervisorState::Disconnecting, Event::DisconnectFailed(e)) => Step {
            state: SupervisorState::Pausing,
            command: Command::Pause(RETRY_DELAY_SECS),
            notice: Notice::DisconnectFailed(e),
        },
        (SupervisorState::Pausing, Event::Paused) => Step {
            state: SupervisorState::Connecting,
            command: Command::Connect,
            notice: Notice::Connecting,
        },
        (SupervisorState::Connecting, Event::Connected) => Step {
            state: SupervisorState::Probing,
            command: Command::QueryLink,
            notice: Notice::LinkUp,
        },
        (SupervisorState::Connecting, Event::ConnectFailed(e)) => Step {
            state: SupervisorState::Pausing,
            command: Command::Pause(RETRY_DELAY_SECS),
            notice: Notice::ConnectFailed(e),
        },
        (SupervisorState::Failed(_), _) => Step {
            state: state,
            command: Command::Halt,
            notice: Notice::Nothing,
        },
        _ => Step { state: state, command: Command::Idle, notice: Notice::Nothing },
    }
}

/// The first step: nothing has happened, the credentials are to be applied.
pub fn begin() -> (s: Step)
    ensures
        s == (Step {
            state: SupervisorState::Configuring,
            command: Command::Configure,
            notice: Notice::Nothing,
        }),
{
    Step { state: SupervisorState::Configuring, command: Command::Configure, notice: Notice::Nothing }
}

/// Takes one event in one state.
pub fn step(state: SupervisorState, event: Event) -> (s: Step)
    ensures
        s == next(state, event),
{
    let ignored = Step { state: state, command: Command::Idle, notice: Notice::Nothing };
    let pause = Command::Pause(RETRY_DELAY_SECS);
    match state {
        SupervisorState::Configuring => match event {
            Event::Configured => Step {
                state: SupervisorState::Starting,
                command: Command::Start,
                notice: Notice::ConfigSet,
            },
            Event::ConfigureFailed(e) => Step {
                state: SupervisorState::Failed(e),
                command: Command::Halt,
                notice: Notice::Nothing,
            },
            _ => ignored,
        },
        SupervisorState::Starting => match event {
            Event::Started => Step {
                state: SupervisorState::Probing,
                command: Command::QueryLink,
                notice: Notice::RadioStarted,
            },
            Event::StartFailed(e) => Step {
                state: SupervisorState::Failed(e),
                command: Command::Halt,
                notice: Notice::Nothing,
            },
            _ => ignored,
        },
        SupervisorState::Probing => match event {
            Event::Link(LinkState::Connected) => Step {
                state: SupervisorState::Monitoring,
                command: Command::WaitForDown,
                notice: Notice::Nothing,
            },
            Event::Link(_) => Step {
                state: SupervisorState::Connecting,
                command: Command::Connect,
                notice: Notice::Connecting,
            },
            _ => ignored,
        },
        SupervisorState::Monitoring => match event {
            Event::Down(d) => {
                if d.station_disconnected {
                    Step { state: SupervisorState::Pausing, command: pause, notice: Notice::LinkLost }
                } else if d.beacon_timeout {
                    Step {
                        state: SupervisorState::Disconnecting,
                        command: Command::Disconnect,
                        notice: Notice::BeaconLost,
                    }
                } else {
                    Step { state: SupervisorState::Pausing, command: pause, notice: Notice::Nothing }
                }
            },
            _ => ignored,
        },
        SupervisorState::Disconnecting => match event {
            Event::Disconnected => Step {
                state: SupervisorState::Pausing,
                command: pause,
                notice: Notice::Nothing,
            },
            Event::DisconnectFailed(e) => Step {
                state: SupervisorState::Pausing,
                command: pause,
                notice: Notice::DisconnectFailed(e),
            },
            _ => ignored,
        },
        SupervisorState::Pausing => match event {
            Event::Paused => Step {
                state: SupervisorState::Connecting,
                command: Command::Connect,
                notice: Notice::Connecting,
            },
            _ => ignored,
        },
        SupervisorState::Connecting => match event {
            Event::Connected => Step {
                state: SupervisorState::Probing,
                command: Command::QueryLink,
                notice: Notice::LinkUp,
            },
            Event::ConnectFailed(e) => Step {
                state: SupervisorState::Pausing,
                command: pause,
                notice: Notice::ConnectFailed(e),
            },
            _ => ignored,
        },
        SupervisorState::Failed(_) => Step {
            state: state,
            command: Command::Halt,
            notice: Notice::Nothing,
        },
    }
}

/// The state after a script of events, taken in order.
pub open spec fn state_after(start: SupervisorState, events: Seq<Event>) -> SupervisorState
    decreases events.len(),
{
    if events.len() == 0 {
        start
    } else {
        next(state_after(start, events.drop_last()), events.last()).state
    }
}

/// The steps that a script of events produces, one for each event.
pub open spec fn trace(start: SupervisorState, events: Seq<Event>) -> Seq<Step>
    decreases events.len(),
{
    if events.len() == 0 {
        Seq::empty()
    } else {
        trace(start, events.drop_last()).push(
            next(state_after(start, events.drop_last()), events.last()),
        )
    }
}

/// Runs a script of events from `start` and returns every step taken.
pub fn run(start: SupervisorState, events: &Vec<Event>) -> (log: Vec<Step>)
    ensures
        log@ == trace(start, events@),
{
    let mut log: Vec<Step> = Vec::new();
    let mut state = start;
    let mut i: usize = 0;
    while i < events.len()
        invariant
            i <= events.len(),
            log@ == trace(start, events@.take(i as int)),
            state == state_after(start, events@.take(i as int)),
        decreases events.len() - i,
    {
        let s = step(state, events[i]);
        proof {
            let upto = events@.take(i + 1);
            assert(upto.drop_last() =~= events@.take(i as int));
            assert(upto.last() == events@[i as int]);
        }
        log.push(s);
        state = s.state;
        i = i + 1;
    }
    proof {
        assert(events@.take(i as int) =~= events@);
    }
    log
}

/// A step ends in failure only from failure, or on a failure to configure
/// while configuring, or on a failure to start while starting.
pub proof fn only_setup_failures_are_fatal(state: SupervisorState, event: Event)
    ensures
        next(state, event).state is Failed <==> (state is Failed || (state is Configuring
            && event is ConfigureFailed) || (state is Starting && event is StartFailed)),
        next(state, event).command is Halt <==> next(state, event).state is Failed,
        state.is_operational() ==> next(state, event).state.is_operational(),
{
}

/// Without a set-up failure in the script the supervisor never stops,
/// however long the script and whatever else it holds.
pub proof fn never_exits_without_setup_failure(start: SupervisorState, events: Seq<Event>)
    requires
        !(start is Failed),
        forall|i: int| 0 <= i < events.len() ==> !(#[trigger] events[i]).is_setup_failure(),
    ensures
        !(state_after(start, events) is Failed),
        forall|i: int| 0 <= i < events.len() ==> !((#[trigger] trace(start, events)[i]).command is Halt),
    decreases events.len(),
{
    trace_len(start, events);
    if events.len() > 0 {
        let front = events.drop_last();
        never_exits_without_setup_failure(start, front);
        trace_len(start, front);
        assert(!events.last().is_setup_failure());
        only_setup_failures_are_fatal(state_after(start, front), events.last());
        assert forall|i: int| 0 <= i < events.len() implies !((#[trigger] trace(
            start,
            events,
        )[i]).command is Halt) by {
            if i < front.len() {
                assert(trace(start, events)[i] == trace(start, front)[i]);
            }
        }
    }
}

/// A script produces one step for each event.
pub proof fn trace_len(start: SupervisorState, events: Seq<Event>)
    ensures
        trace(start, events).len() == events.len(),
    decreases events.len(),
{
    if events.len() > 0 {
        trace_len(start, events.drop_last());
    }
}

/// The step that the event at `i` of a script produces is the transition from
/// the state that the events before it lead to.
pub proof fn trace_index(start: SupervisorState, events: Seq<Event>, i: int)
    requires
        0 <= i < events.len(),
    ensures
        trace(start, events).len() == events.len(),
        trace(start, events)[i] == next(state_after(start, events.take(i)), events[i]),
    decreases events.len(),
{
    trace_len(start, events);
    let front = events.drop_last();
    trace_len(start, front);
    if i == events.len() - 1 {
        assert(events.take(i) =~= front);
    } else {
        trace_index(start, front, i);
        assert(front.take(i) =~= events.take(i));
    }
}

/// The script of `n` failed attempts to connect, each followed by the end of
/// its pause, then one attempt that succeeds and a link that is reported up.
pub open spec fn retries_then_success(n: nat, cause: WifiError) -> Seq<Event> {
    Seq::new(
        2 * n + 2,
        |i: int|
            if i == 2 * n + 1 {
                Event::Link(LinkState::Connected)
            } else if i == 2 * n {
                Event::Connected
            } else if i % 2 == 0 {
                Event::ConnectFailed(cause)
            } else {
                Event::Paused
            },
    )
}

/// Where the supervisor stands after the first `k` events of that script.
proof fn retry_states(n: nat, cause: WifiError, k: int)
    requires
        0 <= k <= 2 * n + 2,
    ensures
        state_after(SupervisorState::Connecting, retries_then_success(n, cause).take(k)) == (if k
            == 2 * n + 2 {
            SupervisorState::Monitoring
        } else if k == 2 * n + 1 {
            SupervisorState::Probing
        } else if k % 2 == 0 {
            SupervisorState::Connecting
        } else {
            SupervisorState::Pausing
        }),
    decreases k,
{
    let script = retries_then_success(n, cause);
    if k > 0 {
        retry_states(n, cause, k - 1);
        assert(script.take(k).drop_last() =~= script.take(k - 1));
        assert(script.take(k).last() == script[k - 1]);
    }
}

/// Liveness under failure: however many attempts to connect fail in a row,
/// the supervisor keeps trying at the fixed pace, and the attempt that
/// succeeds brings it to monitoring exactly once, at the last step.
pub proof fn retries_end_in_monitoring(n: nat, cause: WifiError)
    ensures
        trace(SupervisorState::Connecting, retries_then_success(n, cause)).len() == 2 * n + 2,
        forall|i: int|
            0 <= i < 2 * n + 1 ==> !((#[trigger] trace(
                SupervisorState::Connecting,
                retries_then_success(n, cause),
            )[i]).state is Monitoring),
        forall|i: int|
            0 <= i < 2 * n ==> (#[trigger] trace(
                SupervisorState::Connecting,
                retries_then_success(n, cause),
            )[i]).command == (if i % 2 == 0 {
                Command::Pause(RETRY_DELAY_SECS)
            } else {
                Command::Connect
            }),
        trace(SupervisorState::Connecting, retries_then_success(n, cause))[2 * n as int + 1].state
            is Monitoring,
{
    let script = retries_then_success(n, cause);
    let start = SupervisorState::Connecting;
    trace_len(start, script);
    assert forall|i: int| 0 <= i < 2 * n + 2 implies (#[trigger] trace(start, script)[i]) == next(
        state_after(start, script.take(i)),
        script[i],
    ) by {
        trace_index(start, script, i);
    }
    assert forall|i: int| 0 <= i < 2 * n + 1 implies !((#[trigger] trace(start, script)[i]).state
        is Monitoring) by {
        retry_states(n, cause, i);
    }
    assert forall|i: int| 0 <= i < 2 * n implies (#[trigger] trace(start, script)[i]).command == (if i
        % 2 == 0 {
        Command::Pause(RETRY_DELAY_SECS)
    } else {
        Command::Connect
    }) by {
        retry_states(n, cause, i);
    }
    retry_states(n, cause, 2 * n as int + 1);
}

/// The driver is told to disconnect in exactly one situation: while the link
/// is monitored, on a beacon timeout that came without a disconnection. A
/// reported disconnection never leads to it. The attempt to connect that
/// follows a lost link is never the answer to the loss itself nor to the end
/// of the disconnect: it comes only once the pause is over.
pub proof fn disconnect_only_on_beacon_timeout(state: SupervisorState, event: Event)
    ensures
        next(state, event).command is Disconnect <==> (state is Monitoring
            && event.is_bare_beacon_timeout()),
        next(state, event).command is Connect <==> ((state is Pausing && event is Paused) || (
        state is Probing && event.is_link_not_up())),
        next(state, event).command matches Command::Pause(secs) ==> secs == RETRY_DELAY_SECS,
{
}

/// A script without a bare beacon timeout never has the driver told to
/// disconnect.
pub proof fn no_disconnect_without_beacon_timeout(start: SupervisorState, events: Seq<Event>)
    requires
        forall|i: int| 0 <= i < events.len() ==> !(#[trigger] events[i]).is_bare_beacon_timeout(),
    ensures
        forall|i: int| 0 <= i < events.len() ==> !((#[trigger] trace(start, events)[i]).command is Disconnect),
    decreases events.len(),
{
    trace_len(start, events);
    if events.len() > 0 {
        let front = events.drop_last();
        no_disconnect_without_beacon_timeout(start, front);
        trace_len(start, front);
        disconnect_only_on_beacon_timeout(state_after(start, front), events.last());
        assert forall|i: int| 0 <= i < events.len() implies !((#[trigger] trace(
            start,
            events,
        )[i]).command is Disconnect) by {
            if i < front.len() {
                assert(trace(start, events)[i] == trace(start, front)[i]);
            } else {
                assert(!events[i].is_bare_beacon_timeout());
            }
        }
    }
}

} // verus!
