//! The relay session: obtaining the header bytes (early data or first
//! message), authenticating, and the state machine that drives the duplex
//! pump between the message transport and the remote stream.

use crate::text::spec_address_text;
use crate::vless::{
    copy_range, get_vless_response_header, process_vless_header, spec_decode, DecodeError,
    VlessCommand, VLESS_VERSION,
};
use vstd::prelude::*;

verus! {

/// Why a session terminated abnormally. Every failure closes exactly this
/// one session.
#[derive(Debug, Clone, Copy, PartialEq, Eq, Structural)]
pub enum SessionError {
    /// The header failed to decode or to authenticate.
    Decode(DecodeError),
    /// The early-data string is not valid standard base64.
    InvalidEarlyData,
    /// Neither early data nor a first binary message supplied header bytes.
    NoHeaderData,
    /// A UDP command for a port other than the reserved DNS port.
    UnsupportedUdpPort(u16),
    /// DNS-over-UDP tunnelling is deliberately unimplemented.
    DnsNotImplemented,
    /// The transport delivered a non-binary message while relaying.
    NonBinaryMessage,
    /// The transport reported an error while relaying.
    TransportFailed,
    /// Reading from the remote stream failed.
    RemoteFailed,
}

/// What the standard (non-URL-safe) base64 alphabet decodes a string to;
/// `None` when the string is not valid standard base64.
pub uninterp spec fn b64_standard_decode(s: Seq<char>) -> Option<Seq<u8>>;

/// Relies on `base64::engine::general_purpose::STANDARD.decode`: the result
/// is a function of the input characters alone, `Ok` exactly on valid
/// standard base64.
#[verifier::external_body]
fn base64_decode_standard(s: &str) -> (r: Option<Vec<u8>>)
    ensures
        r is Some <==> b64_standard_decode(s@) is Some,
        r is Some ==> r.unwrap()@ == b64_standard_decode(s@).unwrap(),
{
    match base64::Engine::decode(&base64::engine::general_purpose::STANDARD, s) {
        Ok(v) => Some(v),
        Err(_) => None,
    }
}

/// The first discrete event the transport delivered, for sessions without
/// early data.
#[derive(Debug)]
pub enum FirstMessage {
    /// A complete binary message.
    Binary(Vec<u8>),
    /// A message that was not binary.
    NonBinary,
    /// The transport closed or failed before any message.
    Absent,
}

/// The raw header-prefixed byte buffer, from whichever source is available:
/// the base64 early data when present, otherwise the first binary message.
/// Either path feeds the same downstream decoding.
pub fn obtain_header_bytes(early_data: Option<String>, first: FirstMessage) -> (r: Result<
    Vec<u8>,
    SessionError,
>)
    ensures
        match early_data {
            Some(d) => match b64_standard_decode(d@) {
                Some(bytes) => r matches Ok(v) && v@ == bytes,
                None => r == Err::<Vec<u8>, SessionError>(SessionError::InvalidEarlyData),
            },
            None => match first {
                FirstMessage::Binary(b) => r matches Ok(v) && v@ == b@,
                _ => r == Err::<Vec<u8>, SessionError>(SessionError::NoHeaderData),
            },
        },
{
    match early_data {
        Some(d) => match base64_decode_standard(d.as_str()) {
            Some(v) => Ok(v),
            None => Err(SessionError::InvalidEarlyData),
        },
        None => match first {
            FirstMessage::Binary(b) => Ok(b),
            FirstMessage::NonBinary => Err(SessionError::NoHeaderData),
            FirstMessage::Absent => Err(SessionError::NoHeaderData),
        },
    }
}

/// Lifecycle of a session. Any failure goes directly to `Closed`.
#[derive(Debug, Clone, Copy, PartialEq, Eq, Structural)]
pub enum SessionState {
    Authenticating,
    Connecting,
    Relaying,
    Closed,
}

/// What the caller needs in order to open the remote connection.
#[derive(Debug)]
pub struct ConnectRequest {
    /// Canonical text of the target address, usable as a connection target.
    pub host: String,
    pub port: u16,
    /// Payload bytes that arrived bundled beyond the header; they must be
    /// written to the remote connection right after connecting.
    pub initial_data: Vec<u8>,
}

/// One discrete event from the message transport while relaying.
#[derive(Debug)]
pub enum TransportEvent {
    /// A complete binary message.
    Binary(Vec<u8>),
    /// A non-binary (e.g. text) message: a protocol violation.
    NonBinary,
    /// The transport signalled an orderly close.
    Close,
    /// The event stream ended without a close signal.
    Ended,
    /// A transport-level error.
    Failed,
}

/// The outcome of one read from the remote stream while relaying.
#[derive(Debug)]
pub enum RemoteEvent {
    /// Bytes read from the remote stream; empty means end of file.
    Data(Vec<u8>),
    /// A read error.
    Failed,
}

/// What the caller must do after handing one event to the session.
#[derive(Debug)]
pub enum RelayAction {
    /// Write these bytes to the remote stream, in full and in order.
    ForwardToRemote(Vec<u8>),
    /// Send these bytes to the transport as one discrete binary message.
    ForwardToClient(Vec<u8>),
    /// Orderly termination: close both ends; not an error.
    Finish,
    /// Fatal termination: close both ends and report the error.
    Fail(SessionError),
}

/// One relay session. It owns the lifecycle state and the expected identity;
/// the caller owns the transport and the remote connection and performs the
/// actions this state machine decides. The two transcripts record every
/// payload byte the session has decided to forward, in order, so each byte
/// of each direction is forwarded exactly once and in order.
pub struct Session {
    pub state: SessionState,
    pub user_id: [u8; 16],
    /// All payload bytes decided for the remote stream, in order: the
    /// leftover bytes bundled with the header, then each binary message.
    pub to_remote: Ghost<Seq<u8>>,
    /// All payload bytes decided for the client transport, in order.
    pub to_client: Ghost<Seq<u8>>,
}

impl Session {
    /// A fresh session awaiting its header bytes.
    pub fn new(user_id: [u8; 16]) -> (s: Session)
        ensures
            s.state == SessionState::Authenticating,
            s.user_id == user_id,
            s.to_remote@ == Seq::<u8>::empty(),
            s.to_client@ == Seq::<u8>::empty(),
    {
        Session {
            state: SessionState::Authenticating,
            user_id,
            to_remote: Ghost(Seq::empty()),
            to_client: Ghost(Seq::empty()),
        }
    }

    /// Decode and authenticate the header, apply the command policy (only
    /// Tcp proceeds; Udp is rejected, and even for the DNS port the path is
    /// deliberately unimplemented), and split off the leftover payload.
    pub fn authenticate(&mut self, header_bytes: &Vec<u8>) -> (r: Result<
        ConnectRequest,
        SessionError,
    >)
        requires
            old(self).state == SessionState::Authenticating,
        ensures
            final(self).user_id == old(self).user_id,
            final(self).to_client@ == old(self).to_client@,
            match spec_decode(header_bytes@, old(self).user_id@) {
                Err(e) => final(self).state == SessionState::Closed && final(self).to_remote@
                    == old(self).to_remote@ && r == Err::<ConnectRequest, SessionError>(
                    SessionError::Decode(e),
                ),
                Ok(h) => if h.command == VlessCommand::Udp {
                    final(self).state == SessionState::Closed && final(self).to_remote@ == old(self).to_remote@ && r == Err::<ConnectRequest, SessionError>(
                        if h.port != 53 {
                            SessionError::UnsupportedUdpPort(h.port)
                        } else {
                            SessionError::DnsNotImplemented
                        },
                    )
                } else {
                    final(self).state == SessionState::Connecting && final(self).to_remote@ == old(self).to_remote@ + header_bytes@.subrange(h.len, header_bytes@.len() as int) && (
                    r matches Ok(req) && req.host@ == spec_address_text(h.address) && req.port
                        == h.port && req.initial_data@ == header_bytes@.subrange(
                        h.len,
                        header_bytes@.len() as int,
                    ))
                },
            },
    {
        match process_vless_header(header_bytes.as_slice(), &self.user_id) {
            Err(e) => {
                self.state = SessionState::Closed;
                Err(SessionError::Decode(e))
            },
            Ok(h) => {
                if h.command == VlessCommand::Udp {
                    self.state = SessionState::Closed;
                    if h.port != 53 {
                        Err(SessionError::UnsupportedUdpPort(h.port))
                    } else {
                        Err(SessionError::DnsNotImplemented)
                    }
                } else {
                    let host = h.address.to_text();
                    let initial_data = copy_range(
                        header_bytes.as_slice(),
                        h.len,
                        header_bytes.len(),
                    );
                    proof {
                        self.to_remote@ = self.to_remote@ + initial_data@;
                    }
                    self.state = SessionState::Connecting;
                    Ok(ConnectRequest { host, port: h.port, initial_data })
                }
            },
        }
    }

    /// The remote connection is open: enter `Relaying` and hand back the
    /// fixed acceptance response, to be sent to the client before any data
    /// flows.
    pub fn connected(&mut self) -> (resp: Vec<u8>)
        requires
            old(self).state == SessionState::Connecting,
        ensures
            final(self).state == SessionState::Relaying,
            final(self).user_id == old(self).user_id,
            final(self).to_remote@ == old(self).to_remote@,
            final(self).to_client@ == old(self).to_client@,
            resp@ == seq![VLESS_VERSION, 0u8],
    {
        self.state = SessionState::Relaying;
        get_vless_response_header()
    }

    /// Tear the session down, from any state; terminal.
    pub fn close(&mut self)
        ensures
            final(self).state == SessionState::Closed,
            final(self).user_id == old(self).user_id,
            final(self).to_remote@ == old(self).to_remote@,
            final(self).to_client@ == old(self).to_client@,
    {
        self.state = SessionState::Closed;
    }

    /// Handle one transport event while relaying: a binary message is
    /// forwarded to the remote stream byte-for-byte, with no reframing; an
    /// orderly close or the end of the event stream finishes the session; a
    /// non-binary message or a transport error is fatal and forwards
    /// nothing.
    pub fn on_transport_event(&mut self, ev: TransportEvent) -> (a: RelayAction)
        requires
            old(self).state == SessionState::Relaying,
        ensures
            final(self).user_id == old(self).user_id,
            final(self).to_client@ == old(self).to_client@,
            match ev {
                TransportEvent::Binary(b) => final(self).state == SessionState::Relaying && final(self).to_remote@ == old(self).to_remote@ + b@ && (
                a matches RelayAction::ForwardToRemote(f) && f@ == b@),
                TransportEvent::NonBinary => final(self).state == SessionState::Closed && final(self).to_remote@ == old(self).to_remote@ && (a matches RelayAction::Fail(e) && e
                    == SessionError::NonBinaryMessage),
                TransportEvent::Close => final(self).state == SessionState::Closed && final(self).to_remote@ == old(self).to_remote@ && (a matches RelayAction::Finish),
                TransportEvent::Ended => final(self).state == SessionState::Closed && final(self).to_remote@ == old(self).to_remote@ && (a matches RelayAction::Finish),
                TransportEvent::Failed => final(self).state == SessionState::Closed && final(self).to_remote@ == old(self).to_remote@ && (a matches RelayAction::Fail(e) && e
                    == SessionError::TransportFailed),
            },
    {
        match ev {
            TransportEvent::Binary(b) => {
                proof {
                    self.to_remote@ = self.to_remote@ + b@;
                }
                RelayAction::ForwardToRemote(b)
            },
            TransportEvent::NonBinary => {
                self.state = SessionState::Closed;
                RelayAction::Fail(SessionError::NonBinaryMessage)
            },
            TransportEvent::Close => {
                self.state = SessionState::Closed;
                RelayAction::Finish
            },
            TransportEvent::Ended => {
                self.state = SessionState::Closed;
                RelayAction::Finish
            },
            TransportEvent::Failed => {
                self.state = SessionState::Closed;
                RelayAction::Fail(SessionError::TransportFailed)
            },
        }
    }

    /// Handle one remote read while relaying: bytes are forwarded to the
    /// transport as one discrete message, preserving the read boundary; a
    /// zero-length read is end of file and finishes the session cleanly; a
    /// read error is fatal.
    pub fn on_remote_event(&mut self, ev: RemoteEvent) -> (a: RelayAction)
        requires
            old(self).state == SessionState::Relaying,
        ensures
            final(self).user_id == old(self).user_id,
            final(self).to_remote@ == old(self).to_remote@,
            match ev {
                RemoteEvent::Data(b) => if b@.len() == 0 {
                    final(self).state == SessionState::Closed && final(self).to_client@ == old(self).to_client@ && (a matches RelayAction::Finish)
                } else {
                    final(self).state == SessionState::Relaying && final(self).to_client@ == old(self).to_client@ + b@ && (a matches RelayAction::ForwardToClient(f) && f@ == b@)
                },
                RemoteEvent::Failed => final(self).state == SessionState::Closed && final(self).to_client@ == old(self).to_client@ && (a matches RelayAction::Fail(e) && e
                    == SessionError::RemoteFailed),
            },
    {
        match ev {
            RemoteEvent::Data(b) => {
                if b.len() == 0 {
                    self.state = SessionState::Closed;
                    RelayAction::Finish
                } else {
                    proof {
                        self.to_client@ = self.to_client@ + b@;
                    }
                    RelayAction::ForwardToClient(b)
                }
            },
            RemoteEvent::Failed => {
                self.state = SessionState::Closed;
                RelayAction::Fail(SessionError::RemoteFailed)
            },
        }
    }
}

} // verus!
