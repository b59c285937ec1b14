//! Discovery of the RFCOMM channel that a remote device's serial-port service
//! is bound to, over a nonblocking SDP session.
//!
//! The machine does no I/O. `pending` names the native call to make in the
//! current stage; its caller makes it and hands the outcome to `advance`,
//! which decides the next stage and what to wait for. The caller holds the
//! native session and releases it as soon as `holds_session` turns false.
use vstd::prelude::*;
use vstd::string::StringExecFns;
use crate::addr::BtAddr;
use crate::error::{BtError, create_error_from_errno, is_errno_error};
use crate::sdp_data::{Scan, response_scan, scan_response};

verus! {

/// How the attribute ids of a search are given.
#[derive(Clone, Copy, Debug, PartialEq, Eq, Structural)]
pub enum SdpAttrReqType {
    /// Each id on its own.
    Individual,
    /// Ranges of ids.
    Range,
}

/// Session flag that makes the session nonblocking.
pub const SDP_NON_BLOCKING: u32 = 0x04;

/// Service class UUID of the serial port profile.
pub const SERIAL_PORT_PROFILE: u16 = 0x1101;

/// The attribute id range that covers every attribute.
pub const ALL_ATTRIBUTES: u32 = 0x0000FFFF;

/// Messages of the discovery's errors.
pub const OPEN_FAILED: &'static str = "sdp_connect(): Bluetooth device not accessible";

pub const SEND_FAILED: &'static str =
    "sdp_service_search_attr_async(): Sending service record search request failed";

pub const SEARCH_FAILED: &'static str = "sdp_service_search_attr_async(): Service record search failed";

pub const PROCESS_FAILED: &'static str = "sdp_process(): Processing the search response failed";

pub const PROTOCOL_ERROR: &'static str = "sdp_service_search_attr_async(): Protocol error: ";

pub const NO_RFCOMM: &'static str = "No RFCOMM service on remote device";

pub const MALFORMED: &'static str = "SDP response is not a sequence of service records";

/// The stages of a channel discovery, which only move forward.
#[derive(Clone, Copy, Debug, PartialEq, Eq, Structural)]
pub enum DiscoveryState {
    New,
    Connecting,
    AwaitingResponse,
    Done,
}

/// What a step of the discovery asks for.
#[derive(Clone, Copy, Debug, PartialEq, Eq, Structural)]
pub enum QueryRFCOMMChannelStatus {
    /// Wait until the session's descriptor is readable.
    WaitReadable(i32),
    /// Wait until the session's descriptor is writable.
    WaitWritable(i32),
    /// The channel was found.
    Done(u8),
}

/// The native call that the current stage needs.
#[derive(Clone, Copy, Debug, PartialEq, Eq)]
pub enum SdpCall {
    /// Open a session from the adapter `local` to the device `remote`, both
    /// in host byte order.
    Connect { local: BtAddr, remote: BtAddr, flags: u32 },
    /// Submit a search for the service class `service`, asking for the
    /// attribute ids in `attr_range`.
    Search { service: u16, req_type: SdpAttrReqType, attr_range: u32 },
    /// Drive one unit of protocol processing on the session.
    Process,
}

/// The end of a search transaction, as the session reported it.
#[derive(Clone, Debug, PartialEq, Eq)]
pub struct SdpReply {
    /// The transaction's status: 0 for success, 1 to 5 for the SDP error
    /// codes, anything else for a failure of the session.
    pub status: u16,
    /// The response's attribute lists.
    pub payload: Vec<u8>,
    /// The session's error number, read when the transaction ended.
    pub session_error: i32,
}

/// The outcome of the native call that `pending` named.
#[derive(Clone, Debug, PartialEq, Eq)]
pub enum SdpOutcome {
    /// The session is open; its descriptor.
    Opened(i32),
    /// The search request was sent.
    Submitted,
    /// The transaction is still going on.
    InProgress,
    /// The transaction ended.
    Finished(SdpReply),
    /// The call failed with this error number.
    Failed(i32),
}

/// Text of the SDP error codes 1 to 5.
pub open spec fn status_text(status: u16) -> Seq<char> {
    if status == 1 {
        "Invalid version"@
    } else if status == 2 {
        "Invalid record handle"@
    } else if status == 3 {
        "Invalid syntax"@
    } else if status == 4 {
        "Invalid PDU size"@
    } else {
        "Invalid CState"@
    }
}

/// The channel that a finished transaction gives, if any.
pub open spec fn reply_channel(reply: SdpReply) -> Option<u8> {
    if reply.status == 0 {
        match response_scan(reply.payload@) {
            Scan::Found(c) => Some(c),
            _ => None,
        }
    } else {
        None
    }
}

/// What a parse of `payload` returns.
pub open spec fn parse_result(payload: Seq<u8>, r: Result<u8, BtError>) -> bool {
    match response_scan(payload) {
        Scan::Found(c) => r == Ok::<u8, BtError>(c),
        Scan::Absent => r matches Err(BtError::NotFound(m)) && m@ == NO_RFCOMM@,
        Scan::Malformed => r matches Err(BtError::Malformed(m)) && m@ == MALFORMED@,
    }
}

/// What a finished transaction gives.
pub open spec fn reply_result(reply: SdpReply, r: Result<u8, BtError>) -> bool {
    if reply.status == 0 {
        parse_result(reply.payload@, r)
    } else if 1 <= reply.status <= 5 {
        r matches Err(BtError::Protocol(m)) && m@ == PROTOCOL_ERROR@ + status_text(reply.status)
    } else {
        r matches Err(e) && is_errno_error(e, SEARCH_FAILED@, reply.session_error)
    }
}

/// Whether `o` is an outcome of the call that stage `s` makes.
pub open spec fn answers(s: DiscoveryState, o: SdpOutcome) -> bool {
    match s {
        DiscoveryState::New => o is Opened || o is Failed,
        DiscoveryState::Connecting => o is Submitted || o is Failed,
        DiscoveryState::AwaitingResponse => o is InProgress || o is Finished || o is Failed,
        DiscoveryState::Done => false,
    }
}

/// The status that a step from stage `s` with session descriptor `fd` and
/// outcome `o` returns, where it succeeds.
pub open spec fn step_status(s: DiscoveryState, fd: i32, o: SdpOutcome) -> Option<
    QueryRFCOMMChannelStatus,
> {
    match (s, o) {
        (DiscoveryState::New, SdpOutcome::Opened(new_fd)) => Some(
            QueryRFCOMMChannelStatus::WaitWritable(new_fd),
        ),
        (DiscoveryState::Connecting, SdpOutcome::Submitted) => Some(
            QueryRFCOMMChannelStatus::WaitReadable(fd),
        ),
        (DiscoveryState::AwaitingResponse, SdpOutcome::InProgress) => Some(
            QueryRFCOMMChannelStatus::WaitReadable(fd),
        ),
        (DiscoveryState::AwaitingResponse, SdpOutcome::Finished(reply)) => match reply_channel(
            reply,
        ) {
            Some(c) => Some(QueryRFCOMMChannelStatus::Done(c)),
            None => None,
        },
        _ => None,
    }
}

/// The error that a failing step from stage `s` with outcome `o` returns.
pub open spec fn step_error(s: DiscoveryState, o: SdpOutcome, e: BtError) -> bool {
    match (s, o) {
        (DiscoveryState::New, SdpOutcome::Failed(code)) => is_errno_error(e, OPEN_FAILED@, code),
        (DiscoveryState::Connecting, SdpOutcome::Failed(code)) => is_errno_error(
            e,
            SEND_FAILED@,
            code,
        ),
        (DiscoveryState::AwaitingResponse, SdpOutcome::Failed(code)) => is_errno_error(
            e,
            PROCESS_FAILED@,
            code,
        ),
        (DiscoveryState::AwaitingResponse, SdpOutcome::Finished(reply)) => reply_result(
            reply,
            Err(e),
        ),
        _ => false,
    }
}

/// The stage after a step from `s` with outcome `o`: every failure, and the
/// end of the transaction, lead to `Done`.
pub open spec fn next_stage(s: DiscoveryState, o: SdpOutcome) -> DiscoveryState {
    match (s, o) {
        (DiscoveryState::New, SdpOutcome::Opened(_)) => DiscoveryState::Connecting,
        (DiscoveryState::Connecting, SdpOutcome::Submitted) => DiscoveryState::AwaitingResponse,
        (DiscoveryState::AwaitingResponse, SdpOutcome::InProgress) => {
            DiscoveryState::AwaitingResponse
        },
        _ => DiscoveryState::Done,
    }
}

/// Whether `c` is the call that stage `s` makes toward the device `target`
/// (in host byte order).
pub open spec fn is_stage_call(s: DiscoveryState, target: Seq<u8>, c: SdpCall) -> bool {
    match s {
        DiscoveryState::New => c matches SdpCall::Connect { local, remote, flags } && local@ == seq![
            0u8,
            0u8,
            0u8,
            0u8,
            0u8,
            0u8,
        ] && remote@ == target && flags == SDP_NON_BLOCKING,
        DiscoveryState::Connecting => c == SdpCall::Search {
            service: SERIAL_PORT_PROFILE,
            req_type: SdpAttrReqType::Range,
            attr_range: ALL_ATTRIBUTES,
        },
        DiscoveryState::AwaitingResponse => c is Process,
        DiscoveryState::Done => false,
    }
}

/// Finds the RFCOMM channel of the serial-port service of one device.
#[derive(Debug)]
pub struct QueryRFCOMMChannel {
    addr: BtAddr,
    session_fd: i32,
    state: DiscoveryState,
}

impl QueryRFCOMMChannel {
    /// The device asked, in host byte order.
    pub closed spec fn target(&self) -> Seq<u8> {
        self.addr@
    }

    /// The current stage.
    pub closed spec fn stage(&self) -> DiscoveryState {
        self.state
    }

    /// The descriptor of the open session.
    pub closed spec fn fd(&self) -> i32 {
        self.session_fd
    }

    /// A discovery of the device `addr`, given in host byte order.
    pub fn new(addr: BtAddr) -> (r: Self)
        ensures
            r.target() == addr@,
            r.stage() == DiscoveryState::New,
    {
        QueryRFCOMMChannel { addr, session_fd: -1, state: DiscoveryState::New }
    }

    /// The current stage.
    pub fn state(&self) -> (r: DiscoveryState)
        ensures
            r == self.stage(),
    {
        self.state
    }

    /// Whether the native session is open and owned by this discovery: from
    /// a successful open until the discovery is done or has failed.
    pub fn holds_session(&self) -> (r: bool)
        ensures
            r == (self.stage() == DiscoveryState::Connecting || self.stage()
                == DiscoveryState::AwaitingResponse),
    {
        match self.state {
            DiscoveryState::Connecting | DiscoveryState::AwaitingResponse => true,
            _ => false,
        }
    }

    /// The native call that the current stage needs.
    pub fn pending(&self) -> (r: SdpCall)
        requires
            self.stage() != DiscoveryState::Done,
        ensures
            is_stage_call(self.stage(), self.target(), r),
    {
        match self.state {
            DiscoveryState::New => {
                let r = SdpCall::Connect {
                    local: BtAddr::any(),
                    remote: self.addr,
                    flags: SDP_NON_BLOCKING,
                };
                r
            },
            DiscoveryState::Connecting => SdpCall::Search {
                service: SERIAL_PORT_PROFILE,
                req_type: SdpAttrReqType::Range,
                attr_range: ALL_ATTRIBUTES,
            },
            _ => SdpCall::Process,
        }
    }

    /// Whether `outcome` can be the outcome of the call that the current
    /// stage makes.
    pub fn accepts(&self, outcome: &SdpOutcome) -> (r: bool)
        ensures
            r == answers(self.stage(), *outcome),
    {
        match (self.state, outcome) {
            (DiscoveryState::New, SdpOutcome::Opened(_)) => true,
            (DiscoveryState::Connecting, SdpOutcome::Submitted) => true,
            (DiscoveryState::AwaitingResponse, SdpOutcome::InProgress) => true,
            (DiscoveryState::AwaitingResponse, SdpOutcome::Finished(_)) => true,
            (DiscoveryState::Done, _) => false,
            (_, SdpOutcome::Failed(_)) => true,
            _ => false,
        }
    }

    /// Parses a service search response into the RFCOMM channel of its first
    /// record, in buffer order, that names one.
    pub fn parse_response(response: &[u8]) -> (r: Result<u8, BtError>)
        ensures
            parse_result(response@, r),
    {
        match scan_response(response) {
            Scan::Found(c) => Ok(c),
            Scan::Absent => Err(BtError::NotFound(String::from_str(NO_RFCOMM))),
            Scan::Malformed => Err(BtError::Malformed(String::from_str(MALFORMED))),
        }
    }

    /// The channel, or the error, that a finished search transaction gives.
    pub fn reply_result(reply: &SdpReply) -> (r: Result<u8, BtError>)
        ensures
            reply_result(*reply, r),
    {
        if reply.status == 0 {
            return Self::parse_response(reply.payload.as_slice());
        }
        if reply.status > 5 {
            return Err(create_error_from_errno(SEARCH_FAILED, reply.session_error));
        }
        let text = if reply.status == 1 {
            "Invalid version"
        } else if reply.status == 2 {
            "Invalid record handle"
        } else if reply.status == 3 {
            "Invalid syntax"
        } else if reply.status == 4 {
            "Invalid PDU size"
        } else {
            "Invalid CState"
        };
        let mut m = String::from_str(PROTOCOL_ERROR);
        m.append(text);
        Err(BtError::Protocol(m))
    }

    /// Moves the discovery on by the outcome of the call that `pending` named.
    pub fn advance(&mut self, outcome: SdpOutcome) -> (r: Result<QueryRFCOMMChannelStatus, BtError>)
        requires
            old(self).stage() != DiscoveryState::Done,
            answers(old(self).stage(), outcome),
        ensures
            final(self).target() == old(self).target(),
            final(self).stage() == next_stage(old(self).stage(), outcome),
            final(self).stage() == DiscoveryState::Connecting ==> (outcome matches SdpOutcome::Opened(
                fd,
            ) && final(self).fd() == fd),
            final(self).stage() == DiscoveryState::AwaitingResponse ==> final(self).fd() == old(
                self,
            ).fd(),
            match step_status(old(self).stage(), old(self).fd(), outcome) {
                Some(s) => r == Ok::<QueryRFCOMMChannelStatus, BtError>(s),
                None => r matches Err(e) && step_error(old(self).stage(), outcome, e),
            },
    {
        match outcome {
            SdpOutcome::Opened(fd) => {
                self.session_fd = fd;
                self.state = DiscoveryState::Connecting;
                Ok(QueryRFCOMMChannelStatus::WaitWritable(fd))
            },
            SdpOutcome::Submitted => {
                self.state = DiscoveryState::AwaitingResponse;
                Ok(QueryRFCOMMChannelStatus::WaitReadable(self.session_fd))
            },
            SdpOutcome::InProgress => Ok(QueryRFCOMMChannelStatus::WaitReadable(self.session_fd)),
            SdpOutcome::Finished(reply) => {
                self.state = DiscoveryState::Done;
                match Self::reply_result(&reply) {
                    Ok(c) => Ok(QueryRFCOMMChannelStatus::Done(c)),
                    Err(e) => Err(e),
                }
            },
            SdpOutcome::Failed(code) => {
                let message = match self.state {
                    DiscoveryState::New => OPEN_FAILED,
                    DiscoveryState::Connecting => SEND_FAILED,
                    _ => PROCESS_FAILED,
                };
                self.state = DiscoveryState::Done;
                Err(create_error_from_errno(message, code))
            },
        }
    }
}


/// The order of the discovery's stages.
pub open spec fn stage_rank(s: DiscoveryState) -> int {
    match s {
        DiscoveryState::New => 0,
        DiscoveryState::Connecting => 1,
        DiscoveryState::AwaitingResponse => 2,
        DiscoveryState::Done => 3,
    }
}

/// The stages of a discovery only move forward: a step either leads to a
/// later stage, or keeps the discovery waiting for a transaction that is
/// still in progress.
pub proof fn lemma_stages_move_forward(s: DiscoveryState, o: SdpOutcome)
    requires
        answers(s, o),
    ensures
        stage_rank(next_stage(s, o)) >= stage_rank(s),
        next_stage(s, o) == s ==> (s == DiscoveryState::AwaitingResponse && o is InProgress),
{
}

/// Stepping a discovery that is done is rejected: for every outcome, the
/// precondition of `advance` is false, so no call can return a stale result.
pub proof fn lemma_done_discovery_takes_no_step(q: QueryRFCOMMChannel, o: SdpOutcome)
    requires
        q.stage() == DiscoveryState::Done,
    ensures
        !(q.stage() != DiscoveryState::Done && answers(q.stage(), o)),
{
}

} // verus!
