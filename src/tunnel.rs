//! The decisions of the SSH tunnel: how to authenticate at the bastion, what
//! the accept loop and each proxied stream do on every event, and the
//! tunnel-wide abort that ends them all.

use vstd::prelude::*;
use crate::connection::SshIdentity;
use crate::error::ConnectError;
use crate::event::DisconnectCase;

verus! {

/// How the tunnel authenticates at the bastion.
#[derive(Clone, Copy, Debug, PartialEq, Eq, Structural)]
pub enum AuthMethod {
    PublicKey,
    Password,
    /// No identity given: the session goes on unauthenticated.
    NoAuth,
}

/// A private key wins over a password.
pub open spec fn auth_method_of(identity: Option<SshIdentity>) -> AuthMethod {
    match identity {
        Some(id) => if id.key.is_some() {
            AuthMethod::PublicKey
        } else if id.password.is_some() {
            AuthMethod::Password
        } else {
            AuthMethod::NoAuth
        },
        None => AuthMethod::NoAuth,
    }
}

/// Picks how to authenticate with the configured identity.
pub fn auth_method(identity: &Option<SshIdentity>) -> (r: AuthMethod)
    ensures
        r == auth_method_of(*identity),
{
    match identity {
        Some(id) => if id.key.is_some() {
            AuthMethod::PublicKey
        } else if id.password.is_some() {
            AuthMethod::Password
        } else {
            AuthMethod::NoAuth
        },
        None => AuthMethod::NoAuth,
    }
}

/// The bastion's answer to an authentication attempt: refused credentials
/// are an authentication failure, told apart from transport failures.
pub fn auth_result(accepted: bool) -> (r: Result<(), ConnectError>)
    ensures
        r.is_ok() == accepted,
        !accepted ==> r == Err::<(), ConnectError>(ConnectError::AuthFailure),
{
    if accepted {
        Ok(())
    } else {
        Err(ConnectError::AuthFailure)
    }
}

/// What the accept loop sees.
#[derive(Clone, Copy, Debug, PartialEq, Eq, Structural)]
pub enum AcceptEvent {
    /// A local client connected.
    Connection,
    /// The direct-tcpip channel for that client is open.
    ChannelOpened,
    /// The channel could not be opened.
    ChannelOpenFailed,
    /// The local listener failed.
    ListenerFailed,
}

/// What the accept loop does next.
#[derive(Clone, Copy, Debug, PartialEq, Eq, Structural)]
pub enum AcceptStep {
    /// Ask the bastion for a direct-tcpip channel to the target.
    OpenChannel,
    /// Run the stream's two copy loops as a task of its own.
    SpawnStream,
    /// Report the failure to the session's owner and go on accepting.
    ReportAndContinue,
    /// Report the failure to the session's owner and stop accepting.
    ReportAndStop,
    /// Stop accepting without a report: the tunnel was aborted.
    Stop,
}

/// The accept loop's answer to an event; once aborted it only stops.
pub open spec fn accept_step_of(aborted: bool, event: AcceptEvent) -> AcceptStep {
    if aborted {
        AcceptStep::Stop
    } else {
        match event {
            AcceptEvent::Connection => AcceptStep::OpenChannel,
            AcceptEvent::ChannelOpened => AcceptStep::SpawnStream,
            AcceptEvent::ChannelOpenFailed => AcceptStep::ReportAndContinue,
            AcceptEvent::ListenerFailed => AcceptStep::ReportAndStop,
        }
    }
}

/// What one proxied stream sees.
#[derive(Clone, Copy, Debug, PartialEq, Eq, Structural)]
pub enum StreamEvent {
    /// The local socket gave this many bytes; 0 means it reached its end.
    TcpRead(usize),
    /// The local socket had nothing yet.
    TcpWouldBlock,
    TcpReadFailed,
    /// The channel gave data.
    ChannelData,
    /// The channel sent EOF or closed.
    ChannelEnded,
    /// The channel sent something else.
    ChannelOther,
    /// Writing to either side failed.
    WriteFailed,
    /// The tunnel-wide abort fired.
    Abort,
}

/// What one proxied stream does next.
#[derive(Clone, Copy, Debug, PartialEq, Eq, Structural)]
pub enum StreamStep {
    ForwardToChannel,
    ForwardToTcp,
    KeepGoing,
    /// Send EOF on the channel, then close it, and end the stream.
    CloseChannel,
    /// Shut the local socket down and end the stream.
    ShutdownTcp,
    /// End the stream; both halves go down together.
    Stop,
}

/// The step ends the stream.
pub open spec fn ends_stream(s: StreamStep) -> bool {
    s == StreamStep::CloseChannel || s == StreamStep::ShutdownTcp || s == StreamStep::Stop
}

/// A stream's answer to an event.
pub open spec fn stream_step_of(event: StreamEvent) -> StreamStep {
    match event {
        StreamEvent::TcpRead(n) => if n == 0 {
            StreamStep::CloseChannel
        } else {
            StreamStep::ForwardToChannel
        },
        StreamEvent::TcpWouldBlock => StreamStep::KeepGoing,
        StreamEvent::TcpReadFailed => StreamStep::Stop,
        StreamEvent::ChannelData => StreamStep::ForwardToTcp,
        StreamEvent::ChannelEnded => StreamStep::ShutdownTcp,
        StreamEvent::ChannelOther => StreamStep::KeepGoing,
        StreamEvent::WriteFailed => StreamStep::Stop,
        StreamEvent::Abort => StreamStep::Stop,
    }
}

/// Decides a proxied stream's next step.
pub fn stream_step(event: StreamEvent) -> (r: StreamStep)
    ensures
        r == stream_step_of(event),
{
    match event {
        StreamEvent::TcpRead(n) => if n == 0 {
            StreamStep::CloseChannel
        } else {
            StreamStep::ForwardToChannel
        },
        StreamEvent::TcpWouldBlock => StreamStep::KeepGoing,
        StreamEvent::TcpReadFailed => StreamStep::Stop,
        StreamEvent::ChannelData => StreamStep::ForwardToTcp,
        StreamEvent::ChannelEnded => StreamStep::ShutdownTcp,
        StreamEvent::ChannelOther => StreamStep::KeepGoing,
        StreamEvent::WriteFailed => StreamStep::Stop,
        StreamEvent::Abort => StreamStep::Stop,
    }
}

/// The state of a tunnel, as plain values.
pub struct TunnelView {
    pub local_port: u16,
    pub aborted: bool,
}

/// The state after an abort is signalled.
pub open spec fn aborted_state(v: TunnelView) -> TunnelView {
    TunnelView { aborted: true, ..v }
}

/// The tunnel's local endpoint and its abort broadcast.
pub struct TunnelControl {
    local_port: u16,
    aborted: bool,
}

impl View for TunnelControl {
    type V = TunnelView;

    closed spec fn view(&self) -> TunnelView {
        TunnelView { local_port: self.local_port, aborted: self.aborted }
    }
}

impl TunnelControl {
    /// A running tunnel that listens on `local_port`.
    pub fn new(local_port: u16) -> (r: TunnelControl)
        ensures
            r@ == (TunnelView { local_port, aborted: false }),
    {
        TunnelControl { local_port, aborted: false }
    }

    /// The local port clients connect to; it never changes.
    pub fn get_proxy_port(&self) -> (r: u16)
        ensures
            r == self@.local_port,
    {
        self.local_port
    }

    /// Whether the abort was signalled.
    pub fn is_aborted(&self) -> (r: bool)
        ensures
            r == self@.aborted,
    {
        self.aborted
    }

    /// Signals the abort; `true` when this call is the one that fired the
    /// broadcast, `false` when it had fired already.
    pub fn abort(&mut self) -> (r: bool)
        ensures
            final(self)@ == aborted_state(old(self)@),
            r == !old(self)@.aborted,
    {
        let fired = !self.aborted;
        self.aborted = true;
        fired
    }

    /// The accept loop's next step.
    pub fn accept_step(&self, event: AcceptEvent) -> (r: AcceptStep)
        ensures
            r == accept_step_of(self@.aborted, event),
    {
        if self.aborted {
            AcceptStep::Stop
        } else {
            match event {
                AcceptEvent::Connection => AcceptStep::OpenChannel,
                AcceptEvent::ChannelOpened => AcceptStep::SpawnStream,
                AcceptEvent::ChannelOpenFailed => AcceptStep::ReportAndContinue,
                AcceptEvent::ListenerFailed => AcceptStep::ReportAndStop,
            }
        }
    }
}

/// Signalling the abort twice is the same as once, and keeps the port;
/// after it the accept loop stops on whatever comes next, and every stream
/// ends on the abort it observes, so no new connection is proxied.
pub proof fn lemma_abort_idempotent(v: TunnelView)
    ensures
        aborted_state(aborted_state(v)) == aborted_state(v),
        aborted_state(v).local_port == v.local_port,
        forall|e: AcceptEvent| accept_step_of(aborted_state(v).aborted, e) == AcceptStep::Stop,
        ends_stream(stream_step_of(StreamEvent::Abort)),
{
}

/// A channel that cannot be opened is reported and the accept loop goes on;
/// an end of input on either side, a read failure or a write failure ends
/// the stream.
pub proof fn lemma_stream_failures_isolated()
    ensures
        accept_step_of(false, AcceptEvent::ChannelOpenFailed) == AcceptStep::ReportAndContinue,
        ends_stream(stream_step_of(StreamEvent::TcpRead(0))),
        ends_stream(stream_step_of(StreamEvent::ChannelEnded)),
        ends_stream(stream_step_of(StreamEvent::TcpReadFailed)),
        ends_stream(stream_step_of(StreamEvent::WriteFailed)),
{
}

/// What the SSH layer reports when the bastion connection ends: nothing when
/// the server closed it in order, else the error that ended it.
pub fn disconnect_report(server_closed: bool, error_text: String) -> (r: Option<DisconnectCase>)
    ensures
        server_closed ==> r.is_none(),
        !server_closed ==> r == Some(DisconnectCase::SshDisconnected(error_text)),
{
    if server_closed {
        None
    } else {
        Some(DisconnectCase::SshDisconnected(error_text))
    }
}

/// The address the etcd client dials: the configured server, or the
/// tunnel's local end on the loopback address when a tunnel runs.
pub fn dial_target(host: &String, port: u16, tunnel_port: Option<u16>) -> (r: (String, u16))
    ensures
        tunnel_port.is_none() ==> r.0@ == host@ && r.1 == port,
        tunnel_port.is_some() ==> r.0@ == "127.0.0.1"@ && r.1 == tunnel_port.unwrap(),
{
    match tunnel_port {
        Some(p) => ("127.0.0.1".to_owned(), p),
        None => (host.clone(), port),
    }
}

} // verus!
