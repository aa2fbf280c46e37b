//! The decisions of the socket client the CLI subcommands use: how the
//! version handshake is judged, and which line of the daemon's answers is
//! the response to a request. The socket itself is the program's.
use vstd::prelude::*;

use crate::ipc::{ErrorKind, Response, ResponseView, ServerMessage, MAX_LINE_BYTES, PROTOCOL_VERSION};
use crate::text::{owned, push_decimal, push_str, spec_decimal};

verus! {

/// Why talking to the daemon failed.
#[derive(Clone, Debug)]
pub enum ClientError {
    /// The socket failed; the I/O error's text.
    Io(String),
    /// The daemon answered something this client cannot accept.
    Protocol(String),
}

pub enum ClientErrorView {
    Io(Seq<char>),
    Protocol(Seq<char>),
}

impl View for ClientError {
    type V = ClientErrorView;

    open spec fn view(&self) -> ClientErrorView {
        match self {
            ClientError::Io(message) => ClientErrorView::Io(message@),
            ClientError::Protocol(message) => ClientErrorView::Protocol(message@),
        }
    }
}

impl ClientError {
    /// How the error reads to a user.
    pub open spec fn spec_describe(self) -> Seq<char> {
        match self {
            ClientError::Io(message) => "io error talking to daemon: "@ + message@,
            ClientError::Protocol(message) => "protocol error: "@ + message@,
        }
    }

    pub fn describe(&self) -> (r: String)
        ensures
            r@ == self.spec_describe(),
    {
        match self {
            ClientError::Io(message) => {
                let mut r = owned("io error talking to daemon: ");
                push_str(&mut r, message.as_str());
                r
            },
            ClientError::Protocol(message) => {
                let mut r = owned("protocol error: ");
                push_str(&mut r, message.as_str());
                r
            },
        }
    }
}

/// What the answer to the version handshake means.
#[derive(Debug)]
pub enum HandshakeVerdict {
    /// Both sides speak this protocol version.
    Agreed,
    /// The daemon predates the handshake (it could not parse `Hello`): go on,
    /// with a warning.
    DaemonPredatesHandshake,
    /// The daemon speaks another protocol version.
    Refused(ClientError),
    /// Anything else came back; the caller reports what it was.
    Unexpected,
}

/// The refusal for a daemon speaking another protocol version.
pub open spec fn spec_version_refusal(daemon_version: Seq<char>, protocol_version: u32) -> Seq<char> {
    "daemon "@ + daemon_version + " speaks protocol v"@ + spec_decimal(protocol_version as nat) + ", this CLI speaks v"@
        + spec_decimal(PROTOCOL_VERSION as nat) + "; update the older side"@
}

/// Judge the daemon's answer to `Hello`: a `Hello` of this version agrees,
/// of another version is refused; an `InvalidRequest` error means a daemon
/// older than the handshake; anything else is unexpected.
pub fn judge_handshake(response: &Response) -> (v: HandshakeVerdict)
    ensures
        match response@ {
            ResponseView::Hello { protocol_version, daemon_version } => if protocol_version == PROTOCOL_VERSION {
                v is Agreed
            } else {
                v matches HandshakeVerdict::Refused(e) && e@ == ClientErrorView::Protocol(
                    spec_version_refusal(daemon_version, protocol_version),
                )
            },
            ResponseView::Error { kind, .. } => if kind == ErrorKind::InvalidRequest {
                v is DaemonPredatesHandshake
            } else {
                v is Unexpected
            },
            _ => v is Unexpected,
        },
{
    match response {
        Response::Hello { protocol_version, daemon_version } => {
            if *protocol_version == PROTOCOL_VERSION {
                HandshakeVerdict::Agreed
            } else {
                let mut m = owned("daemon ");
                push_str(&mut m, daemon_version.as_str());
                push_str(&mut m, " speaks protocol v");
                push_decimal(&mut m, *protocol_version as u64);
                push_str(&mut m, ", this CLI speaks v");
                push_decimal(&mut m, PROTOCOL_VERSION as u64);
                push_str(&mut m, "; update the older side");
                HandshakeVerdict::Refused(ClientError::Protocol(m))
            }
        },
        Response::Error { kind, .. } => {
            if *kind == ErrorKind::InvalidRequest {
                HandshakeVerdict::DaemonPredatesHandshake
            } else {
                HandshakeVerdict::Unexpected
            }
        },
        _ => HandshakeVerdict::Unexpected,
    }
}

/// What a line read while waiting for a response calls for.
pub enum ReplyStep {
    /// This is the response.
    Take(Response),
    /// An event, not a response: read on.
    Skip,
    /// The wait ends in an error.
    Fail(ClientError),
}

/// The refusal of a response whose id is not the request's.
pub open spec fn spec_id_mismatch(response_id: u64, envelope_id: u64) -> Seq<char> {
    "response id "@ + spec_decimal(response_id as nat) + " does not match request id "@ + spec_decimal(
        envelope_id as nat,
    )
}

/// Decide what a parsed line means while waiting for the response to
/// request `envelope_id`. Events are skipped. A response with the request's
/// id is taken; so is an error with id 0 where `accept_unattributed_error`
/// (id 0 marks a request the daemon could not parse at all); any other
/// response is a mismatch.
pub fn reply_step(envelope_id: u64, accept_unattributed_error: bool, message: ServerMessage) -> (s: ReplyStep)
    ensures
        match message {
            ServerMessage::Event(_) => s is Skip,
            ServerMessage::Response(envelope) => {
                if (accept_unattributed_error && envelope.id == 0 && envelope.resp@ is Error)
                    || envelope.id == envelope_id {
                    s matches ReplyStep::Take(r) && r@ == envelope.resp@
                } else {
                    s matches ReplyStep::Fail(e) && e@ == ClientErrorView::Protocol(
                        spec_id_mismatch(envelope.id, envelope_id),
                    )
                }
            },
        },
{
    match message {
        ServerMessage::Event(_) => ReplyStep::Skip,
        ServerMessage::Response(envelope) => {
            let unattributed_error = envelope.id == 0 && match &envelope.resp {
                Response::Error { .. } => true,
                _ => false,
            };
            if accept_unattributed_error && unattributed_error {
                return ReplyStep::Take(envelope.resp);
            }
            if envelope.id != envelope_id {
                let mut m = owned("response id ");
                push_decimal(&mut m, envelope.id);
                push_str(&mut m, " does not match request id ");
                push_decimal(&mut m, envelope_id);
                return ReplyStep::Fail(ClientError::Protocol(m));
            }
            ReplyStep::Take(envelope.resp)
        },
    }
}

/// The refusal of a line by its length: an empty read means the daemon
/// closed the connection; a line over the protocol's limit is refused.
pub fn line_refusal(bytes_read: usize) -> (r: Option<ClientError>)
    ensures
        bytes_read == 0 ==> (r matches Some(e) && e@ == ClientErrorView::Protocol("daemon closed the connection"@)),
        bytes_read > MAX_LINE_BYTES ==> (r matches Some(e) && e@ == ClientErrorView::Protocol(
            "daemon sent a line over "@ + spec_decimal(MAX_LINE_BYTES as nat) + " bytes"@,
        )),
        0 < bytes_read <= MAX_LINE_BYTES ==> r is None,
{
    if bytes_read == 0 {
        return Some(ClientError::Protocol(owned("daemon closed the connection")));
    }
    if bytes_read > MAX_LINE_BYTES {
        let mut m = owned("daemon sent a line over ");
        push_decimal(&mut m, MAX_LINE_BYTES as u64);
        push_str(&mut m, " bytes");
        return Some(ClientError::Protocol(m));
    }
    None
}

} // verus!
