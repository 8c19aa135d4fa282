//! The one-shot fetch: wait for the network, resolve the host, open the secure
//! session, send one request, take the headers, stream the body into a
//! bounded buffer, close. The pipeline decides; its caller performs each
//! command and hands the result back as an event.

use vstd::prelude::*;
use crate::buffer::{fitting, overwrite, ResponseBuffer};
use crate::cause::DnsError;
use crate::error::{Error, TlsError};

verus! {

/// The capacity of the buffer in which the response's head is parsed.
pub const HEADER_CAPACITY: usize = 1024;

/// The capacity of the buffer that takes the response's body.
pub const BODY_CAPACITY: usize = 32768;

/// An IPv4 address, as its four bytes in network order.
#[derive(Clone, Copy, Debug, PartialEq, Eq, Structural)]
pub struct Ipv4(pub u32);

/// What to fetch: the host, the port of its HTTPS service, and the address of
/// the resource.
#[derive(Debug, PartialEq, Eq)]
pub struct Target {
    pub hostname: String,
    pub port: u16,
    pub uri: String,
}

/// The method of a request.
#[derive(Clone, Copy, Debug, PartialEq, Eq, Structural)]
pub enum Method {
    Get,
}

/// The one request of a fetch.
#[derive(Debug, PartialEq, Eq)]
pub struct Request {
    pub method: Method,
    /// Whether the connection is to be kept for another request. It never is.
    pub keep_alive: bool,
    pub uri: String,
    /// The value of the `Host` header, the only header sent.
    pub host: String,
}

/// A version of the TLS protocol.
#[derive(Clone, Copy, Debug, PartialEq, Eq, Structural)]
pub enum TlsVersion {
    Tls1_2,
}

/// How the secure session is set up.
#[derive(Debug, PartialEq, Eq)]
pub struct SessionPlan {
    /// Where the socket connects.
    pub address: Ipv4,
    pub port: u16,
    /// The name that the server's certificate is validated against. It is
    /// the host's name, not the address.
    pub server_name: String,
    /// The least protocol version that is accepted.
    pub min_version: TlsVersion,
    /// Whether a client certificate is presented. None is.
    pub client_certificate: bool,
}

/// Which result the pipeline waits for.
#[derive(Clone, Copy, Debug, PartialEq, Eq, Structural)]
pub enum Stage {
    AwaitingNetwork,
    Resolving,
    OpeningSession,
    SendingRequest,
    AwaitingResponse,
    ReadingHeaders,
    ReadingBody,
    Closing,
    /// The body is captured and the connection released.
    Done,
    /// A stage failed; no later stage runs.
    Failed,
}

/// What the pipeline asks for next.
#[derive(Clone, Copy, Debug, PartialEq, Eq, Structural)]
pub enum PipelineCommand {
    /// Block until an IPv4 configuration is acquired.
    AwaitNetwork,
    /// Resolve the host's name to an IPv4 address.
    Resolve,
    /// Build the transport and the secure session to this address and port.
    OpenSession { address: Ipv4, port: u16 },
    /// Send the one GET request.
    SendRequest,
    /// Wait for the status line and headers.
    AwaitResponse,
    /// Hand over the parsed headers.
    ReadHeaders,
    /// Read at most `max` bytes of the body.
    ReadBody { max: usize },
    /// Release the connection; a failure to do so does not matter.
    Close,
    /// Report the captured body.
    Finish,
    /// Stop and report the failure.
    Abort,
    /// Nothing new: the event was not the awaited one.
    Idle,
}

/// A result handed back to the pipeline.
#[derive(Debug, PartialEq, Eq)]
pub enum PipelineEvent {
    NetworkUp,
    Resolved(Ipv4),
    ResolveFailed(DnsError),
    SessionOpened,
    SessionFailed(TlsError),
    RequestSent,
    RequestFailed,
    ResponseStarted,
    ResponseFailed,
    /// The response's headers, each a name and a value.
    Headers(Vec<(String, String)>),
    HeadersMissing,
    /// What one read of the body returned; empty at the end of the stream.
    BodyRead(Vec<u8>),
    BodyReadFailed,
    Closed,
    CloseFailed,
}

/// A fetch in progress.
#[derive(Debug)]
pub struct Pipeline {
    pub target: Target,
    pub stage: Stage,
    pub header_lines: Vec<String>,
    pub body: ResponseBuffer,
    pub failure: Option<Error>,
}

/// What one event leads to: the stage, the command, and the failure raised.
pub struct Outcome {
    pub stage: Stage,
    pub command: PipelineCommand,
    pub raised: Option<Error>,
}

/// The outcome of moving on to `stage` with `command`.
pub open spec fn proceed(stage: Stage, command: PipelineCommand) -> Outcome {
    Outcome { stage, command, raised: None }
}

/// The outcome of failing with `cause`.
pub open spec fn fail(cause: Error) -> Outcome {
    Outcome { stage: Stage::Failed, command: PipelineCommand::Abort, raised: Some(cause) }
}

/// The outcome of starting or continuing to read the body with `room` left:
/// one more read of at most `room` bytes, or the close where none is left.
pub open spec fn read_or_close(room: nat) -> Outcome {
    if room == 0 {
        proceed(Stage::Closing, PipelineCommand::Close)
    } else {
        proceed(Stage::ReadingBody, PipelineCommand::ReadBody { max: room as usize })
    }
}

/// The transition relation, for a body buffer with `room` left. The first
/// failure ends the run; an event that the stage does not wait for changes
/// nothing.
pub open spec fn next(stage: Stage, port: u16, room: nat, event: PipelineEvent) -> Outcome {
    match (stage, event) {
        (Stage::AwaitingNetwork, PipelineEvent::NetworkUp) => proceed(
            Stage::Resolving,
            PipelineCommand::Resolve,
        ),
        (Stage::Resolving, PipelineEvent::Resolved(address)) => proceed(
            Stage::OpeningSession,
            PipelineCommand::OpenSession { address, port },
        ),
        (Stage::Resolving, PipelineEvent::ResolveFailed(e)) => fail(Error::Dns(e)),
        (Stage::OpeningSession, PipelineEvent::SessionOpened) => proceed(
            Stage::SendingRequest,
            PipelineCommand::SendRequest,
        ),
        (Stage::OpeningSession, PipelineEvent::SessionFailed(e)) => fail(Error::Tls(e)),
        (Stage::SendingRequest, PipelineEvent::RequestSent) => proceed(
            Stage::AwaitingResponse,
            PipelineCommand::AwaitResponse,
        ),
        (Stage::SendingRequest, PipelineEvent::RequestFailed) => fail(Error::AdHoc("http request error!")),
        (Stage::AwaitingResponse, PipelineEvent::ResponseStarted) => proceed(
            Stage::ReadingHeaders,
            PipelineCommand::ReadHeaders,
        ),
        (Stage::AwaitingResponse, PipelineEvent::ResponseFailed) => fail(
            Error::AdHoc("http response error!"),
        ),
        (Stage::ReadingHeaders, PipelineEvent::Headers(_)) => read_or_close(room),
        (Stage::ReadingHeaders, PipelineEvent::HeadersMissing) => fail(
            Error::AdHoc("failed to read response headers!"),
        ),
        (Stage::ReadingBody, PipelineEvent::BodyRead(chunk)) => if chunk@.len() == 0 {
            proceed(Stage::Closing, PipelineCommand::Close)
        } else {
            read_or_close((room - fitting(chunk@.len(), room)) as nat)
        },
        (Stage::ReadingBody, PipelineEvent::BodyReadFailed) => proceed(
            Stage::Closing,
            PipelineCommand::Close,
        ),
        (Stage::Closing, PipelineEvent::Closed) => proceed(Stage::Done, PipelineCommand::Finish),
        (Stage::Closing, PipelineEvent::CloseFailed) => proceed(Stage::Done, PipelineCommand::Finish),
        (Stage::Done, _) => proceed(Stage::Done, PipelineCommand::Finish),
        (Stage::Failed, _) => proceed(Stage::Failed, PipelineCommand::Abort),
        _ => proceed(stage, PipelineCommand::Idle),
    }
}

/// The certificate chain as the session library takes it: the encoded chain
/// with one zero byte behind it.
pub fn null_terminated(chain: &[u8]) -> (terminated: Vec<u8>)
    ensures
        terminated@ == chain@.push(0u8),
{
    let mut terminated: Vec<u8> = Vec::new();
    let mut i: usize = 0;
    while i < chain.len()
        invariant
            i <= chain.len(),
            terminated@ == chain@.take(i as int),
        decreases chain.len() - i,
    {
        terminated.push(chain[i]);
        i = i + 1;
        assert(terminated@ =~= chain@.take(i as int));
    }
    terminated.push(0u8);
    assert(terminated@ =~= chain@.push(0u8));
    terminated
}

/// The line that reports one header.
pub open spec fn header_line(name: Seq<char>, value: Seq<char>) -> Seq<char> {
    name + ": "@ + value
}

/// The texts of some lines.
pub open spec fn texts(lines: Seq<String>) -> Seq<Seq<char>> {
    Seq::new(lines.len(), |i: int| lines[i]@)
}

/// The lines that report some headers, in their order.
pub open spec fn lines_of(headers: Seq<(String, String)>) -> Seq<Seq<char>> {
    Seq::new(headers.len(), |i: int| header_line(headers[i].0@, headers[i].1@))
}

/// The header lines after an event: those of the headers that arrive while
/// they are awaited, else those that were there.
pub open spec fn next_lines(stage: Stage, lines: Seq<Seq<char>>, event: PipelineEvent) -> Seq<Seq<char>> {
    match (stage, event) {
        (Stage::ReadingHeaders, PipelineEvent::Headers(h)) => lines_of(h@),
        _ => lines,
    }
}

/// The written bytes after an event: a read that arrives while the body is
/// read is put behind them, cut at the room that is left.
pub open spec fn next_captured(stage: Stage, captured: Seq<u8>, room: nat, event: PipelineEvent) -> Seq<u8> {
    match (stage, event) {
        (Stage::ReadingBody, PipelineEvent::BodyRead(chunk)) => captured + chunk@.take(
            fitting(chunk@.len(), room) as int,
        ),
        _ => captured,
    }
}

/// The bytes of the region after an event: a read that arrives while the
/// body is read is written behind what was written, cut at the room.
pub open spec fn next_region(stage: Stage, region: Seq<u8>, filled: nat, event: PipelineEvent) -> Seq<u8> {
    match (stage, event) {
        (Stage::ReadingBody, PipelineEvent::BodyRead(chunk)) => overwrite(
            region,
            filled as int,
            chunk@.take(fitting(chunk@.len(), (region.len() - filled) as nat) as int),
        ),
        _ => region,
    }
}

/// How much of the region is written after an event.
pub open spec fn next_filled(stage: Stage, filled: nat, room: nat, event: PipelineEvent) -> nat {
    match (stage, event) {
        (Stage::ReadingBody, PipelineEvent::BodyRead(chunk)) => filled + fitting(chunk@.len(), room),
        _ => filled,
    }
}

/// What a fetch has come to: its stage, the body's region and how much of it
/// is written, the header lines, and the failure if there is one.
pub struct Snapshot {
    pub stage: Stage,
    pub region: Seq<u8>,
    pub filled: nat,
    pub lines: Seq<Seq<char>>,
    pub failure: Option<Error>,
}

impl Snapshot {
    /// The room that is left in the body's region.
    pub open spec fn room(self) -> nat {
        (self.region.len() - self.filled) as nat
    }

    /// The snapshot after one event.
    pub open spec fn after(self, port: u16, event: PipelineEvent) -> Snapshot {
        Snapshot {
            stage: next(self.stage, port, self.room(), event).stage,
            region: next_region(self.stage, self.region, self.filled, event),
            filled: next_filled(self.stage, self.filled, self.room(), event),
            lines: next_lines(self.stage, self.lines, event),
            failure: match next(self.stage, port, self.room(), event).raised {
                Some(cause) => Some(cause),
                None => self.failure,
            },
        }
    }

    /// The snapshot after a script of events, taken in order.
    pub open spec fn after_all(self, port: u16, events: Seq<PipelineEvent>) -> Snapshot
        decreases events.len(),
    {
        if events.len() == 0 {
            self
        } else {
            self.after_all(port, events.drop_last()).after(port, events.last())
        }
    }

    /// The commands that a script of events is answered with, one for each.
    pub open spec fn commands(self, port: u16, events: Seq<PipelineEvent>) -> Seq<PipelineCommand>
        decreases events.len(),
    {
        if events.len() == 0 {
            Seq::empty()
        } else {
            let before = self.after_all(port, events.drop_last());
            self.commands(port, events.drop_last()).push(
                next(before.stage, port, before.room(), events.last()).command,
            )
        }
    }
}

/// Renders the lines that report some headers.
pub fn render_headers(headers: &Vec<(String, String)>) -> (lines: Vec<String>)
    ensures
        texts(lines@) == lines_of(headers@),
{
    let mut lines: Vec<String> = Vec::new();
    let mut i: usize = 0;
    while i < headers.len()
        invariant
            i <= headers.len(),
            lines@.len() == i,
            texts(lines@) == lines_of(headers@.take(i as int)),
        decreases headers.len() - i,
    {
        let mut line = String::from_str(headers[i].0.as_str());
        line.append(": ");
        line.append(headers[i].1.as_str());
        assert(line@ =~= header_line(headers@[i as int].0@, headers@[i as int].1@));
        let ghost before = lines@;
        let ghost text = line@;
        lines.push(line);
        i = i + 1;
        proof {
            let upto = headers@.take(i as int);
            assert forall|k: int| 0 <= k < i implies texts(lines@)[k] == lines_of(upto)[k] by {
                if k < i - 1 {
                    assert(texts(before)[k] == lines_of(headers@.take(i - 1))[k]);
                    assert(lines@[k] == before[k]);
                    assert(upto[k] == headers@.take(i - 1)[k]);
                } else {
                    assert(lines@[k]@ == text);
                    assert(upto[k] == headers@[k]);
                }
            }
            assert(texts(lines@) =~= lines_of(upto));
        }
    }
    proof {
        assert(headers@.take(i as int) =~= headers@);
    }
    lines
}

impl PipelineEvent {
    /// The length of what a read of the body returned, if this is one.
    pub open spec fn read_len(self) -> Option<nat> {
        match self {
            PipelineEvent::BodyRead(chunk) => Some(chunk@.len()),
            _ => None,
        }
    }

    /// The cause of a failed resolution, if this is one.
    pub open spec fn resolve_failure(self) -> Option<DnsError> {
        match self {
            PipelineEvent::ResolveFailed(e) => Some(e),
            _ => None,
        }
    }
}

/// The body is read within bounds: a read is asked for only while room is
/// left, and never for more than the room; the first read of no bytes ends
/// the reading, and so does the read that fills the buffer, whether or not
/// the stream has more.
pub proof fn body_reads_stay_in_bounds(stage: Stage, port: u16, room: nat, event: PipelineEvent, max: usize)
    requires
        room <= usize::MAX,
    ensures
        next(stage, port, room, event).command == (PipelineCommand::ReadBody { max }) ==> 0 < max
            <= room && next(stage, port, room, event).stage is ReadingBody,
        next(stage, port, room, event).command == (PipelineCommand::ReadBody { max }) && stage
            is ReadingBody ==> event.read_len() is Some && max + event.read_len().unwrap() == room,
        stage is ReadingBody && event.read_len() == Some(0nat) ==> next(stage, port, room, event)
            == proceed(Stage::Closing, PipelineCommand::Close),
        stage is ReadingBody && event.read_len() is Some && event.read_len().unwrap() >= room
            ==> next(stage, port, room, event) == proceed(Stage::Closing, PipelineCommand::Close),
        stage is ReadingBody && event.read_len() is Some ==> !(next(stage, port, room, event).stage
            is Failed),
{
}

/// The stages run in their order and the first failure ends the run: each
/// command that reaches out is issued only on the success of the stage
/// before it; a failed resolution is reported as such; and once a stage has
/// failed, every event is answered by the same refusal.
pub proof fn first_failure_stops_the_run(stage: Stage, port: u16, room: nat, event: PipelineEvent)
    ensures
        stage is Resolving && event.resolve_failure() is Some ==> next(stage, port, room, event)
            == fail(Error::Dns(event.resolve_failure().unwrap())),
        stage is Failed ==> next(stage, port, room, event) == proceed(
            Stage::Failed,
            PipelineCommand::Abort,
        ),
        next(stage, port, room, event).command is Resolve ==> stage is AwaitingNetwork,
        next(stage, port, room, event).command is OpenSession ==> stage is Resolving && event
            is Resolved,
        next(stage, port, room, event).command is SendRequest ==> stage is OpeningSession && event
            is SessionOpened,
        next(stage, port, room, event).command is AwaitResponse ==> stage is SendingRequest
            && event is RequestSent,
        next(stage, port, room, event).command is ReadHeaders ==> stage is AwaitingResponse
            && event is ResponseStarted,
        next(stage, port, room, event).command is ReadBody ==> (stage is ReadingHeaders && event
            is Headers) || (stage is ReadingBody && event is BodyRead),
        next(stage, port, room, event).raised is Some <==> next(stage, port, room, event).stage
            is Failed && !(stage is Failed),
{
}

impl Pipeline {
    /// Well-formedness: the body buffer is well-formed, a failure is recorded
    /// exactly in the failed stage, and while the body is read there is room.
    pub open spec fn wf(&self) -> bool {
        &&& self.body.wf()
        &&& self.failure is Some <==> self.stage is Failed
        &&& self.stage is ReadingBody ==> self.body.room() > 0
    }

    /// What this fetch has come to.
    pub open spec fn snapshot(&self) -> Snapshot {
        Snapshot {
            stage: self.stage,
            region: self.body.region(),
            filled: self.body.filled(),
            lines: texts(self.header_lines@),
            failure: self.failure,
        }
    }

    /// Starts the fetch of `target` into a body buffer of `capacity` bytes.
    /// The first command is to await the network.
    pub fn new(target: Target, capacity: usize) -> (started: (Pipeline, PipelineCommand))
        ensures
            started.0.wf(),
            started.0.stage == Stage::AwaitingNetwork,
            started.0.target == target,
            started.0.header_lines@.len() == 0,
            started.0.body.filled() == 0,
            started.0.body.region() == Seq::new(capacity as nat, |i: int| 0u8),
            started.0.failure is None,
            started.1 == PipelineCommand::AwaitNetwork,
    {
        let p = Pipeline {
            target,
            stage: Stage::AwaitingNetwork,
            header_lines: Vec::new(),
            body: ResponseBuffer::new(capacity),
            failure: None,
        };
        (p, PipelineCommand::AwaitNetwork)
    }

    /// The request to send when `SendRequest` is issued: one GET of the
    /// target's resource, with the host's name in the `Host` header, on a
    /// connection that is not kept.
    pub fn request(&self) -> (r: Request)
        ensures
            r.method == Method::Get,
            !r.keep_alive,
            r.uri@ == self.target.uri@,
            r.host@ == self.target.hostname@,
    {
        Request {
            method: Method::Get,
            keep_alive: false,
            uri: String::from_str(self.target.uri.as_str()),
            host: String::from_str(self.target.hostname.as_str()),
        }
    }

    /// The session to build when `OpenSession` is issued for `address`: to
    /// that address and the target's port, validated against the host's
    /// name, with TLS 1.2 at least and no client certificate.
    pub fn session(&self, address: Ipv4) -> (plan: SessionPlan)
        ensures
            plan.address == address,
            plan.port == self.target.port,
            plan.server_name@ == self.target.hostname@,
            plan.min_version == TlsVersion::Tls1_2,
            !plan.client_certificate,
    {
        SessionPlan {
            address,
            port: self.target.port,
            server_name: String::from_str(self.target.hostname.as_str()),
            min_version: TlsVersion::Tls1_2,
            client_certificate: false,
        }
    }

    /// The command for reading on, or for closing where no room is left.
    fn read_on(&mut self) -> (command: PipelineCommand)
        requires
            old(self).body.wf(),
        ensures
            final(self).stage == read_or_close(old(self).body.room()).stage,
            command == read_or_close(old(self).body.room()).command,
            final(self).target == old(self).target,
            final(self).header_lines == old(self).header_lines,
            final(self).body == old(self).body,
            final(self).failure == old(self).failure,
    {
        let room = self.body.remaining();
        if room == 0 {
            self.stage = Stage::Closing;
            PipelineCommand::Close
        } else {
            self.stage = Stage::ReadingBody;
            PipelineCommand::ReadBody { max: room }
        }
    }

    /// Records the first failure and stops.
    fn abort(&mut self, cause: Error) -> (command: PipelineCommand)
        ensures
            final(self).stage == Stage::Failed,
            final(self).failure == Some(cause),
            command == PipelineCommand::Abort,
            final(self).target == old(self).target,
            final(self).header_lines == old(self).header_lines,
            final(self).body == old(self).body,
    {
        self.stage = Stage::Failed;
        self.failure = Some(cause);
        PipelineCommand::Abort
    }

    /// Moves on to `stage`.
    fn go(&mut self, stage: Stage, command: PipelineCommand) -> (issued: PipelineCommand)
        ensures
            final(self).stage == stage,
            issued == command,
            final(self).failure == old(self).failure,
            final(self).target == old(self).target,
            final(self).header_lines == old(self).header_lines,
            final(self).body == old(self).body,
    {
        self.stage = stage;
        command
    }

    /// Takes one event and answers with the next command. The stage and the
    /// command follow `next`; a failure is recorded when it is raised and
    /// kept from then on; headers and body bytes are taken in as
    /// `next_lines`, `next_captured` and `next_region` say.
    pub fn advance(&mut self, event: &PipelineEvent) -> (command: PipelineCommand)
        requires
            old(self).wf(),
        ensures
            final(self).wf(),
            command == next(old(self).stage, old(self).target.port, old(self).body.room(), *event).command,
            final(self).snapshot() == old(self).snapshot().after(old(self).target.port, *event),
            final(self).body.captured() == next_captured(
                old(self).stage,
                old(self).body.captured(),
                old(self).body.room(),
                *event,
            ),
            final(self).target == old(self).target,
    {
        let idle = PipelineCommand::Idle;
        let command = match self.stage {
            Stage::AwaitingNetwork => match event {
                PipelineEvent::NetworkUp => self.go(Stage::Resolving, PipelineCommand::Resolve),
                _ => idle,
            },
            Stage::Resolving => match event {
                PipelineEvent::Resolved(address) => {
                    let port = self.target.port;
                    self.go(
                        Stage::OpeningSession,
                        PipelineCommand::OpenSession { address: *address, port },
                    )
                },
                PipelineEvent::ResolveFailed(e) => self.abort(Error::from(*e)),
                _ => idle,
            },
            Stage::OpeningSession => match event {
                PipelineEvent::SessionOpened => self.go(
                    Stage::SendingRequest,
                    PipelineCommand::SendRequest,
                ),
                PipelineEvent::SessionFailed(e) => self.abort(Error::from(*e)),
                _ => idle,
            },
            Stage::SendingRequest => match event {
                PipelineEvent::RequestSent => self.go(
                    Stage::AwaitingResponse,
                    PipelineCommand::AwaitResponse,
                ),
                PipelineEvent::RequestFailed => self.abort(Error::AdHoc("http request error!")),
                _ => idle,
            },
            Stage::AwaitingResponse => match event {
                PipelineEvent::ResponseStarted => self.go(
                    Stage::ReadingHeaders,
                    PipelineCommand::ReadHeaders,
                ),
                PipelineEvent::ResponseFailed => self.abort(Error::AdHoc("http response error!")),
                _ => idle,
            },
            Stage::ReadingHeaders => match event {
                PipelineEvent::Headers(headers) => {
                    self.header_lines = render_headers(headers);
                    self.read_on()
                },
                PipelineEvent::HeadersMissing => self.abort(
                    Error::AdHoc("failed to read response headers!"),
                ),
                _ => idle,
            },
            Stage::ReadingBody => match event {
                PipelineEvent::BodyRead(chunk) => {
                    if chunk.len() == 0 {
                        assert(chunk@.take(0) =~= Seq::<u8>::empty());
                        assert(self.body.region() =~= overwrite(
                            self.body.region(),
                            self.body.filled() as int,
                            Seq::<u8>::empty(),
                        ));
                        assert(self.body.captured() + Seq::<u8>::empty() =~= self.body.captured());
                        self.go(Stage::Closing, PipelineCommand::Close)
                    } else {
                        self.body.absorb(chunk.as_slice());
                        self.read_on()
                    }
                },
                PipelineEvent::BodyReadFailed => self.go(Stage::Closing, PipelineCommand::Close),
                _ => idle,
            },
            Stage::Closing => match event {
                PipelineEvent::Closed => self.go(Stage::Done, PipelineCommand::Finish),
                PipelineEvent::CloseFailed => self.go(Stage::Done, PipelineCommand::Finish),
                _ => idle,
            },
            Stage::Done => PipelineCommand::Finish,
            Stage::Failed => PipelineCommand::Abort,
        };
        proof {
            let before = old(self).snapshot();
            let after = before.after(old(self).target.port, *event);
            assert(before.region.take(before.filled as int) == old(self).body.captured());
            assert(self.snapshot().filled == after.filled);
            assert(self.snapshot().region == after.region);
        }
        command
    }

    /// Takes a script of events in order and returns the command that
    /// answered each.
    pub fn run(&mut self, events: &Vec<PipelineEvent>) -> (issued: Vec<PipelineCommand>)
        requires
            old(self).wf(),
        ensures
            final(self).wf(),
            issued@ == old(self).snapshot().commands(old(self).target.port, events@),
            final(self).snapshot() == old(self).snapshot().after_all(old(self).target.port, events@),
            final(self).target == old(self).target,
    {
        let mut issued: Vec<PipelineCommand> = Vec::new();
        let ghost start = self.snapshot();
        let ghost target = self.target;
        let ghost port = self.target.port;
        let mut i: usize = 0;
        while i < events.len()
            invariant
                i <= events.len(),
                self.wf(),
                self.target == target,
                port == target.port,
                issued@ == start.commands(port, events@.take(i as int)),
                self.snapshot() == start.after_all(port, events@.take(i as int)),
            decreases events.len() - i,
        {
            proof {
                let upto = events@.take(i + 1);
                assert(upto.drop_last() =~= events@.take(i as int));
                assert(upto.last() == events@[i as int]);
            }
            let command = self.advance(&events[i]);
            issued.push(command);
            i = i + 1;
        }
        proof {
            assert(events@.take(i as int) =~= events@);
        }
        issued
    }
}

/// Once a stage has failed, the failure stands whatever follows.
pub proof fn failure_is_final(start: Snapshot, port: u16, events: Seq<PipelineEvent>, k: int, i: int)
    requires
        0 <= k <= i <= events.len(),
        start.after_all(port, events.take(k)).stage is Failed,
    ensures
        start.after_all(port, events.take(i)).stage is Failed,
        start.after_all(port, events.take(i)).failure == start.after_all(port, events.take(k)).failure,
        start.after_all(port, events.take(i)).region == start.after_all(port, events.take(k)).region,
        start.after_all(port, events.take(i)).filled == start.after_all(port, events.take(k)).filled,
        start.after_all(port, events.take(i)).lines == start.after_all(port, events.take(k)).lines,
    decreases i - k,
{
    if k < i {
        failure_is_final(start, port, events, k, i - 1);
        assert(events.take(i).drop_last() =~= events.take(i - 1));
    }
}

/// The command that answers the event at `i` of a script is the one that
/// `next` gives in the snapshot that the events before it lead to.
pub proof fn command_at(start: Snapshot, port: u16, events: Seq<PipelineEvent>, i: int)
    requires
        0 <= i < events.len(),
    ensures
        start.commands(port, events).len() == events.len(),
        start.commands(port, events)[i] == next(
            start.after_all(port, events.take(i)).stage,
            port,
            start.after_all(port, events.take(i)).room(),
            events[i],
        ).command,
    decreases events.len(),
{
    let front = events.drop_last();
    commands_len(start, port, events);
    commands_len(start, port, front);
    if i == events.len() - 1 {
        assert(events.take(i) =~= front);
    } else {
        command_at(start, port, front, i);
        assert(front.take(i) =~= events.take(i));
    }
}

/// A script is answered with one command for each event.
pub proof fn commands_len(start: Snapshot, port: u16, events: Seq<PipelineEvent>)
    ensures
        start.commands(port, events).len() == events.len(),
    decreases events.len(),
{
    if events.len() > 0 {
        commands_len(start, port, events.drop_last());
    }
}

/// A failed resolution ends the run: where the event at `k` of a script is a
/// failure to resolve that arrives while the resolution is awaited, that
/// event and every later one are answered by the refusal, so that no
/// session is opened, no request sent and nothing read; the failure that
/// stands at the end is the resolution's, and neither headers nor body
/// bytes have been taken in since.
pub proof fn failed_resolution_ends_the_run(
    start: Snapshot,
    port: u16,
    events: Seq<PipelineEvent>,
    k: int,
    cause: DnsError,
)
    requires
        0 <= k < events.len(),
        start.after_all(port, events.take(k)).stage is Resolving,
        events[k].resolve_failure() == Some(cause),
    ensures
        forall|i: int|
            k <= i < events.len() ==> (#[trigger] start.commands(port, events)[i])
                == PipelineCommand::Abort,
        start.after_all(port, events).stage is Failed,
        start.after_all(port, events).failure == Some(Error::Dns(cause)),
        start.after_all(port, events).filled == start.after_all(port, events.take(k)).filled,
        start.after_all(port, events).lines == start.after_all(port, events.take(k)).lines,
{
    let failed = start.after_all(port, events.take(k + 1));
    assert(events.take(k + 1).drop_last() =~= events.take(k));
    assert(events.take(k + 1).last() == events[k]);
    assert(failed.stage is Failed);
    assert forall|i: int| k <= i < events.len() implies (#[trigger] start.commands(port, events)[i])
        == PipelineCommand::Abort by {
        command_at(start, port, events, i);
        if i > k {
            failure_is_final(start, port, events, k + 1, i);
        }
    }
    failure_is_final(start, port, events, k + 1, events.len() as int);
    assert(events.take(events.len() as int) =~= events);
}

impl PipelineCommand {
    /// The most that this command lets a read return, if it asks for a read.
    pub open spec fn read_max(self) -> Option<usize> {
        match self {
            PipelineCommand::ReadBody { max } => Some(max),
            _ => None,
        }
    }
}

/// No script makes the written part outgrow the region, nor changes the
/// region's length.
pub proof fn region_is_never_outgrown(start: Snapshot, port: u16, events: Seq<PipelineEvent>)
    requires
        start.filled <= start.region.len(),
    ensures
        start.after_all(port, events).filled <= start.after_all(port, events).region.len(),
        start.after_all(port, events).region.len() == start.region.len(),
        start.after_all(port, events).filled >= start.filled,
    decreases events.len(),
{
    if events.len() > 0 {
        region_is_never_outgrown(start, port, events.drop_last());
    }
}

/// Every read that is asked for fits: in any script, a command to read
/// names exactly the room that is left at that moment, which is not zero.
pub proof fn reads_fit_the_room(start: Snapshot, port: u16, events: Seq<PipelineEvent>, i: int)
    requires
        start.filled <= start.region.len() <= usize::MAX,
        0 <= i < events.len(),
    ensures
        start.commands(port, events)[i].read_max() is Some ==> {
            &&& start.commands(port, events)[i].read_max().unwrap() > 0
            &&& start.commands(port, events)[i].read_max().unwrap() == start.after_all(
                port,
                events.take(i + 1),
            ).room()
        },
{
    command_at(start, port, events, i);
    region_is_never_outgrown(start, port, events.take(i));
    assert(events.take(i + 1).drop_last() =~= events.take(i));
    assert(events.take(i + 1).last() == events[i]);
}

/// Once the body's reading is over it never resumes, and nothing more is
/// written.
pub proof fn reading_never_resumes(start: Snapshot, port: u16, events: Seq<PipelineEvent>, k: int, i: int)
    requires
        0 <= k <= i <= events.len(),
        start.after_all(port, events.take(k)).stage is Closing || start.after_all(
            port,
            events.take(k),
        ).stage is Done,
    ensures
        start.after_all(port, events.take(i)).stage is Closing || start.after_all(
            port,
            events.take(i),
        ).stage is Done,
        start.after_all(port, events.take(i)).filled == start.after_all(port, events.take(k)).filled,
        start.after_all(port, events.take(i)).region == start.after_all(port, events.take(k)).region,
        start.after_all(port, events.take(i)).failure == start.after_all(port, events.take(k)).failure,
    decreases i - k,
{
    if k < i {
        reading_never_resumes(start, port, events, k, i - 1);
        assert(events.take(i).drop_last() =~= events.take(i - 1));
    }
}

/// The first read of no bytes ends the body: where the event at `k` of a
/// script is such a read, arriving while the body is read, it is answered by
/// the close, no later event is answered by a read, and what was written
/// before it is all that is written at the end.
pub proof fn empty_read_ends_the_body(start: Snapshot, port: u16, events: Seq<PipelineEvent>, k: int)
    requires
        0 <= k < events.len(),
        start.after_all(port, events.take(k)).stage is ReadingBody,
        events[k].read_len() == Some(0nat),
    ensures
        start.commands(port, events)[k] == PipelineCommand::Close,
        forall|i: int|
            k < i < events.len() ==> (#[trigger] start.commands(port, events)[i]).read_max() is None,
        start.after_all(port, events).filled == start.after_all(port, events.take(k)).filled,
        !(start.after_all(port, events).stage is Failed),
{
    assert(events.take(k + 1).drop_last() =~= events.take(k));
    assert(events.take(k + 1).last() == events[k]);
    command_at(start, port, events, k);
    assert forall|i: int| k < i < events.len() implies (#[trigger] start.commands(
        port,
        events,
    )[i]).read_max() is None by {
        command_at(start, port, events, i);
        reading_never_resumes(start, port, events, k + 1, i);
    }
    reading_never_resumes(start, port, events, k + 1, events.len() as int);
    assert(events.take(events.len() as int) =~= events);
}

} // verus!
