//! The decisions of the daemon's socket server: whether a socket file in
//! the way belongs to a running daemon, and what each line a client sends
//! calls for. Reading, writing and threads are the program's.
use vstd::prelude::*;

use crate::ipc::{ErrorKind, Response, ResponseEnvelope, ResponseView, MAX_LINE_BYTES};
use crate::text::{owned, push_decimal, push_str, spec_decimal, spec_trim, trim_str};

verus! {

/// How connecting to a socket file that is in the way went.
#[derive(Clone, Copy, Debug, PartialEq, Eq, Structural)]
pub enum ProbeOutcome {
    /// Something answered: a daemon is running.
    Connected,
    /// The connection was refused: the file is stale.
    Refused,
    /// Anything else (permissions, an interruption).
    Failed,
}

/// What to do after binding the daemon socket failed.
#[derive(Clone, Copy, Debug, PartialEq, Eq, Structural)]
pub enum BindStep {
    /// Another daemon owns the socket.
    AlreadyRunning,
    /// The file is stale: remove it and bind again.
    ReplaceStale,
    /// Give up with the error at hand.
    Fail,
}

/// Only a refused connection proves a socket file dead; any other probe
/// failure must not unlink what may be a live daemon's socket. A bind
/// failure other than the address being in use is final.
pub fn after_bind_failure(address_in_use: bool, probe: ProbeOutcome) -> (s: BindStep)
    ensures
        !address_in_use ==> s == BindStep::Fail,
        address_in_use && probe == ProbeOutcome::Connected ==> s == BindStep::AlreadyRunning,
        address_in_use && probe == ProbeOutcome::Refused ==> s == BindStep::ReplaceStale,
        address_in_use && probe == ProbeOutcome::Failed ==> s == BindStep::Fail,
{
    if !address_in_use {
        return BindStep::Fail;
    }
    match probe {
        ProbeOutcome::Connected => BindStep::AlreadyRunning,
        ProbeOutcome::Refused => BindStep::ReplaceStale,
        ProbeOutcome::Failed => BindStep::Fail,
    }
}

/// The answer to a line the daemon could not take: an `InvalidRequest`
/// error under id 0, which marks a request that could not be attributed.
pub fn protocol_error(message: String) -> (e: ResponseEnvelope)
    ensures
        e.id == 0,
        e.resp@ == (ResponseView::Error { kind: ErrorKind::InvalidRequest, message: message@ }),
{
    ResponseEnvelope { id: 0, resp: Response::Error { kind: ErrorKind::InvalidRequest, message } }
}

/// The answer to a line that is not a request.
pub fn parse_failure(parse_error: &str) -> (e: ResponseEnvelope)
    ensures
        e.id == 0,
        e.resp@ == (ResponseView::Error {
            kind: ErrorKind::InvalidRequest,
            message: "could not parse request: "@ + parse_error@,
        }),
{
    let mut message = owned("could not parse request: ");
    push_str(&mut message, parse_error);
    protocol_error(message)
}

/// What a line read from a client calls for.
pub enum LineStep {
    /// End of stream: the client closed the connection.
    Closed,
    /// The line is over the limit: answer this and close.
    TooLong(ResponseEnvelope),
    /// Nothing but whitespace: read on.
    Blank,
    /// A request to parse: the line trimmed.
    Parse(String),
}

/// Decide what a line of `bytes_read` bytes holding `line` calls for.
pub fn reader_line_step(bytes_read: usize, line: &str) -> (s: LineStep)
    ensures
        bytes_read == 0 ==> s is Closed,
        bytes_read > MAX_LINE_BYTES ==> (s matches LineStep::TooLong(e) && e.id == 0 && e.resp@ == (ResponseView::Error {
            kind: ErrorKind::InvalidRequest,
            message: "line exceeds "@ + spec_decimal(MAX_LINE_BYTES as nat) + " bytes"@,
        })),
        0 < bytes_read <= MAX_LINE_BYTES && spec_trim(line@).len() == 0 ==> s is Blank,
        0 < bytes_read <= MAX_LINE_BYTES && spec_trim(line@).len() > 0 ==> (s matches LineStep::Parse(t) && t@
            == spec_trim(line@)),
{
    if bytes_read == 0 {
        return LineStep::Closed;
    }
    if bytes_read > MAX_LINE_BYTES {
        let mut message = owned("line exceeds ");
        push_decimal(&mut message, MAX_LINE_BYTES as u64);
        push_str(&mut message, " bytes");
        return LineStep::TooLong(protocol_error(message));
    }
    let trimmed = trim_str(line);
    let chars = crate::text::chars_of(trimmed.as_str());
    if chars.len() == 0 {
        return LineStep::Blank;
    }
    LineStep::Parse(trimmed)
}

} // verus!
