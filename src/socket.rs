//! The connection process: channel discovery, then a nonblocking connect on
//! the caller's socket, then a check of the handshake's end.
//!
//! Like the discovery, the process does no I/O: `pending` names the native
//! call to make, `advance` decides from its outcome. The socket stays the
//! caller's; the process holds only its descriptor.
use vstd::prelude::*;
use crate::addr::{BtAddr, host_byteorder};
use crate::error::{BtError, create_error_from_errno, is_errno_error};
use crate::sdp::{
    DiscoveryState,
    QueryRFCOMMChannel,
    QueryRFCOMMChannelStatus,
    SdpCall,
    SdpOutcome,
    answers,
    is_stage_call,
    next_stage,
    step_error,
    step_status,
};

verus! {

/// Address family of Bluetooth sockets.
pub const AF_BLUETOOTH: u16 = 31;

/// Error number of a nonblocking connect that has begun and not ended.
pub const EINPROGRESS: i32 = 115;

/// Error number of a query on a socket that is not connected.
pub const ENOTCONN: i32 = 107;

pub const CONNECT_FAILED: &'static str = "Failed to connect() to target device";

pub const PEER_QUERY_FAILED: &'static str = "getpeername() failed";

/// Which readiness of a descriptor to wait for.
#[derive(Clone, Copy, Debug, PartialEq, Eq, Structural)]
pub enum Direction {
    Readable,
    Writable,
}

/// What needs to happen to advance an asynchronous process to its next state.
#[derive(Clone, Copy, Debug, PartialEq, Eq, Structural)]
pub enum BtAsync {
    /// Wait for the descriptor to become ready in the direction given, then
    /// make the pending call. The descriptor is good until the next step.
    WaitFor(i32, Direction),
    /// Make the pending call at once.
    Proceed,
    /// The process has completed.
    Done,
}

/// The stages of a connection.
#[derive(Clone, Copy, Debug, PartialEq, Eq, Structural)]
pub enum ConnectionState {
    DiscoveringChannel,
    Connecting,
    Done,
}

/// Where a connection stands, finer than `ConnectionState`.
#[derive(Clone, Copy, Debug, PartialEq, Eq, Structural)]
pub enum ConnectPhase {
    /// The discovery runs.
    Discovering,
    /// The channel is known; the connect is to be made.
    ChannelFound(u8),
    /// The connect was made; whether it ended well is to be asked.
    AwaitingPeer,
    /// The peer query said "not connected"; the error is to be read.
    PeerLost,
    /// The process has ended, well or not.
    Finished,
}

/// The protocol address of an RFCOMM connect.
#[derive(Clone, Copy, Debug, PartialEq, Eq)]
pub struct SockaddrRc {
    pub family: u16,
    /// The device, in host byte order.
    pub bdaddr: BtAddr,
    pub channel: u8,
}

/// The native call that the process needs.
#[derive(Clone, Copy, Debug, PartialEq, Eq)]
pub enum ConnectCall {
    /// A call of the discovery's session.
    Sdp(SdpCall),
    /// A nonblocking connect of `socket` to `address`.
    Connect { socket: i32, address: SockaddrRc },
    /// A query of the peer of `socket`.
    PeerName(i32),
    /// A read of one byte from `socket`, to learn its pending error.
    ReadPending(i32),
}

/// The outcome of the native call that `pending` named.
#[derive(Clone, Debug, PartialEq, Eq)]
pub enum ConnectOutcome {
    /// The outcome of a call of the discovery's session.
    Sdp(SdpOutcome),
    /// The call returned without error.
    Succeeded,
    /// The call failed with this error number.
    Failed(i32),
}

pub open spec fn connection_state(p: ConnectPhase) -> ConnectionState {
    match p {
        ConnectPhase::Discovering | ConnectPhase::ChannelFound(_) => {
            ConnectionState::DiscoveringChannel
        },
        ConnectPhase::AwaitingPeer | ConnectPhase::PeerLost => ConnectionState::Connecting,
        ConnectPhase::Finished => ConnectionState::Done,
    }
}

/// Manages the connection of a socket to the RFCOMM service of a device.
#[derive(Debug)]
pub struct BtSocketConnect {
    addr: BtAddr,
    socket: i32,
    phase: ConnectPhase,
    query: QueryRFCOMMChannel,
}

impl BtSocketConnect {
    /// The device, in host byte order.
    pub closed spec fn target(&self) -> Seq<u8> {
        self.addr@
    }

    /// The caller's socket.
    pub closed spec fn sock(&self) -> i32 {
        self.socket
    }

    pub closed spec fn current(&self) -> ConnectPhase {
        self.phase
    }

    /// The discovery of the channel.
    pub closed spec fn discovery(&self) -> QueryRFCOMMChannel {
        self.query
    }

    /// The discovery runs while, and only while, the process is in its
    /// first phase, and it asks for the same device.
    pub open spec fn wf(&self) -> bool {
        &&& (self.current() == ConnectPhase::Discovering <==> self.discovery().stage()
            != DiscoveryState::Done)
        &&& self.discovery().target() == self.target()
    }

    /// Whether `o` can be the outcome of the call that the process makes now.
    pub open spec fn answered_by(&self, o: ConnectOutcome) -> bool {
        match self.current() {
            ConnectPhase::Discovering => o matches ConnectOutcome::Sdp(so) && answers(
                self.discovery().stage(),
                so,
            ),
            ConnectPhase::Finished => false,
            _ => o is Succeeded || o is Failed,
        }
    }

    /// A connection of `socket`, which the caller has created nonblocking
    /// and keeps owning, to the device `addr` (in network byte order).
    pub fn new(socket: i32, addr: BtAddr) -> (r: Self)
        ensures
            r.wf(),
            r.target() == host_byteorder(addr@),
            r.discovery().target() == host_byteorder(addr@),
            r.sock() == socket,
            r.current() == ConnectPhase::Discovering,
            r.discovery().stage() == DiscoveryState::New,
    {
        let addr = addr.convert_host_byteorder();
        BtSocketConnect {
            addr,
            socket,
            phase: ConnectPhase::Discovering,
            query: QueryRFCOMMChannel::new(addr),
        }
    }

    /// The stage of the connection.
    pub fn state(&self) -> (r: ConnectionState)
        ensures
            r == connection_state(self.current()),
    {
        match self.phase {
            ConnectPhase::Discovering | ConnectPhase::ChannelFound(_) => {
                ConnectionState::DiscoveringChannel
            },
            ConnectPhase::AwaitingPeer | ConnectPhase::PeerLost => ConnectionState::Connecting,
            ConnectPhase::Finished => ConnectionState::Done,
        }
    }

    /// Whether the discovery's native session is open; the caller releases
    /// it when this turns false.
    pub fn holds_session(&self) -> (r: bool)
        ensures
            r == (self.discovery().stage() == DiscoveryState::Connecting || self.discovery().stage()
                == DiscoveryState::AwaitingResponse),
    {
        self.query.holds_session()
    }

    /// The native call that the process needs now.
    pub fn pending(&self) -> (r: ConnectCall)
        requires
            self.wf(),
            self.current() != ConnectPhase::Finished,
        ensures
            match self.current() {
                ConnectPhase::Discovering => r matches ConnectCall::Sdp(c) && is_stage_call(
                    self.discovery().stage(),
                    self.target(),
                    c,
                ),
                ConnectPhase::ChannelFound(ch) => r matches ConnectCall::Connect {
                    socket,
                    address,
                } && socket == self.sock() && address.family == AF_BLUETOOTH && address.bdaddr@
                    == self.target() && address.channel == ch,
                ConnectPhase::AwaitingPeer => r == ConnectCall::PeerName(self.sock()),
                ConnectPhase::PeerLost => r == ConnectCall::ReadPending(self.sock()),
                ConnectPhase::Finished => false,
            },
    {
        match self.phase {
            ConnectPhase::Discovering => ConnectCall::Sdp(self.query.pending()),
            ConnectPhase::ChannelFound(ch) => ConnectCall::Connect {
                socket: self.socket,
                address: SockaddrRc { family: AF_BLUETOOTH, bdaddr: self.addr, channel: ch },
            },
            ConnectPhase::AwaitingPeer => ConnectCall::PeerName(self.socket),
            _ => ConnectCall::ReadPending(self.socket),
        }
    }

    /// Whether `outcome` can be the outcome of the call that the process
    /// makes now.
    pub fn accepts(&self, outcome: &ConnectOutcome) -> (r: bool)
        requires
            self.wf(),
        ensures
            r == self.answered_by(*outcome),
    {
        match (self.phase, outcome) {
            (ConnectPhase::Discovering, ConnectOutcome::Sdp(o)) => self.query.accepts(o),
            (ConnectPhase::Discovering, _) => false,
            (ConnectPhase::Finished, _) => false,
            (_, ConnectOutcome::Sdp(_)) => false,
            _ => true,
        }
    }

    /// Advances the connection by the outcome of the call that `pending`
    /// named.
    ///
    /// While the discovery runs, its requests to wait are passed on; its
    /// error ends the process; its channel makes the connect the next call.
    /// A connect that returns, or reports that it is in progress, is waited
    /// on until the socket is writable; then a peer query tells success from
    /// failure, and after "not connected" a read gives the socket's error.
    pub fn advance(&mut self, outcome: ConnectOutcome) -> (r: Result<BtAsync, BtError>)
        requires
            old(self).wf(),
            old(self).answered_by(outcome),
        ensures
            final(self).wf(),
            final(self).target() == old(self).target(),
            final(self).discovery().target() == old(self).target(),
            final(self).sock() == old(self).sock(),
            match (old(self).current(), outcome) {
                (ConnectPhase::Discovering, ConnectOutcome::Sdp(o)) => {
                    let q = old(self).discovery();
                    &&& final(self).discovery().stage() == next_stage(q.stage(), o)
                    &&& match step_status(q.stage(), q.fd(), o) {
                        Some(QueryRFCOMMChannelStatus::WaitReadable(fd)) => {
                            &&& final(self).current() == ConnectPhase::Discovering
                            &&& r == Ok::<BtAsync, BtError>(BtAsync::WaitFor(fd, Direction::Readable))
                        },
                        Some(QueryRFCOMMChannelStatus::WaitWritable(fd)) => {
                            &&& final(self).current() == ConnectPhase::Discovering
                            &&& r == Ok::<BtAsync, BtError>(BtAsync::WaitFor(fd, Direction::Writable))
                        },
                        Some(QueryRFCOMMChannelStatus::Done(ch)) => {
                            &&& final(self).current() == ConnectPhase::ChannelFound(ch)
                            &&& r == Ok::<BtAsync, BtError>(BtAsync::Proceed)
                        },
                        None => {
                            &&& final(self).current() == ConnectPhase::Finished
                            &&& r matches Err(e) && step_error(q.stage(), o, e)
                        },
                    }
                },
                (ConnectPhase::ChannelFound(_), ConnectOutcome::Failed(code)) => if code
                    == EINPROGRESS {
                    &&& final(self).current() == ConnectPhase::AwaitingPeer
                    &&& r == Ok::<BtAsync, BtError>(
                        BtAsync::WaitFor(old(self).sock(), Direction::Writable),
                    )
                } else {
                    &&& final(self).current() == ConnectPhase::Finished
                    &&& r matches Err(e) && is_errno_error(e, CONNECT_FAILED@, code)
                },
                (ConnectPhase::ChannelFound(_), _) => {
                    &&& final(self).current() == ConnectPhase::AwaitingPeer
                    &&& r == Ok::<BtAsync, BtError>(
                        BtAsync::WaitFor(old(self).sock(), Direction::Writable),
                    )
                },
                (ConnectPhase::AwaitingPeer, ConnectOutcome::Failed(code)) => if code == ENOTCONN {
                    &&& final(self).current() == ConnectPhase::PeerLost
                    &&& r == Ok::<BtAsync, BtError>(BtAsync::Proceed)
                } else {
                    &&& final(self).current() == ConnectPhase::Finished
                    &&& r matches Err(e) && is_errno_error(e, PEER_QUERY_FAILED@, code)
                },
                (ConnectPhase::AwaitingPeer, _) => {
                    &&& final(self).current() == ConnectPhase::Finished
                    &&& r == Ok::<BtAsync, BtError>(BtAsync::Done)
                },
                (ConnectPhase::PeerLost, ConnectOutcome::Failed(code)) => {
                    &&& final(self).current() == ConnectPhase::Finished
                    &&& r matches Err(e) && is_errno_error(e, CONNECT_FAILED@, code)
                },
                (ConnectPhase::PeerLost, _) => {
                    &&& final(self).current() == ConnectPhase::Finished
                    &&& r matches Err(e) && is_errno_error(e, CONNECT_FAILED@, ENOTCONN)
                },
                _ => false,
            },
    {
        match self.phase {
            ConnectPhase::Discovering => {
                let o = match outcome {
                    ConnectOutcome::Sdp(o) => o,
                    // Not reached: while the discovery runs, only its
                    // outcomes are taken.
                    _ => {
                        return Err(BtError::Unknown);
                    },
                };
                match self.query.advance(o) {
                    Ok(QueryRFCOMMChannelStatus::WaitReadable(fd)) => Ok(
                        BtAsync::WaitFor(fd, Direction::Readable),
                    ),
                    Ok(QueryRFCOMMChannelStatus::WaitWritable(fd)) => Ok(
                        BtAsync::WaitFor(fd, Direction::Writable),
                    ),
                    Ok(QueryRFCOMMChannelStatus::Done(ch)) => {
                        self.phase = ConnectPhase::ChannelFound(ch);
                        Ok(BtAsync::Proceed)
                    },
                    Err(e) => {
                        self.phase = ConnectPhase::Finished;
                        Err(e)
                    },
                }
            },
            ConnectPhase::ChannelFound(_) => match outcome {
                ConnectOutcome::Failed(code) => {
                    if code == EINPROGRESS {
                        self.phase = ConnectPhase::AwaitingPeer;
                        Ok(BtAsync::WaitFor(self.socket, Direction::Writable))
                    } else {
                        self.phase = ConnectPhase::Finished;
                        Err(create_error_from_errno(CONNECT_FAILED, code))
                    }
                },
                _ => {
                    self.phase = ConnectPhase::AwaitingPeer;
                    Ok(BtAsync::WaitFor(self.socket, Direction::Writable))
                },
            },
            ConnectPhase::AwaitingPeer => match outcome {
                ConnectOutcome::Failed(code) => {
                    if code == ENOTCONN {
                        self.phase = ConnectPhase::PeerLost;
                        Ok(BtAsync::Proceed)
                    } else {
                        self.phase = ConnectPhase::Finished;
                        Err(create_error_from_errno(PEER_QUERY_FAILED, code))
                    }
                },
                _ => {
                    self.phase = ConnectPhase::Finished;
                    Ok(BtAsync::Done)
                },
            },
            _ => {
                // The read succeeded, so the socket holds no error of its
                // own: the connection is still not made.
                let code = match outcome {
                    ConnectOutcome::Failed(code) => code,
                    _ => ENOTCONN,
                };
                self.phase = ConnectPhase::Finished;
                Err(create_error_from_errno(CONNECT_FAILED, code))
            },
        }
    }
}

/// Stepping a connection process that is done is rejected: for every
/// outcome, the precondition of `advance` is false, so no call can return a
/// stale result.
pub proof fn lemma_finished_connection_takes_no_step(c: BtSocketConnect, o: ConnectOutcome)
    requires
        connection_state(c.current()) == ConnectionState::Done,
    ensures
        !(c.wf() && c.answered_by(o)),
{
}

} // verus!
