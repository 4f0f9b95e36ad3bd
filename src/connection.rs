use vstd::prelude::*;
use vstd::string::*;
use crate::protocol::{Request, Response};
use crate::scrollback::{render, ScrollbackBuffer};

verus! {

/// What a connection observed next: an inbound request, or a chunk of the
/// broadcast output stream.
#[derive(Debug, Clone)]
pub enum ConnectionEvent {
    /// A request decoded from the bytes of one read.
    Request(Request),
    /// One read whose bytes did not decode as a request.
    Malformed,
    /// The peer closed its side, or reading from it failed.
    Closed,
    /// The next chunk of the child's output.
    Output(Vec<u8>),
    /// The connection fell behind; this many chunks were skipped and it goes
    /// on from the oldest one still held.
    Lagged(u64),
    /// The output stream has ended.
    OutputEnded,
}

/// What the connection does about an event.
#[derive(Debug, Clone, PartialEq, Eq)]
pub enum ConnectionAction {
    /// Send this response.
    Reply(Response),
    /// Write `data` to the master descriptor `fd`, then reply with
    /// `inject_reply` of the outcome and `data`: success only where every
    /// byte of `data` went out.
    WriteMaster { fd: i32, data: String },
    /// Query the controlling terminal's size, then reply with `Response::Size`.
    QuerySize,
    /// Send nothing and wait for the next event.
    Wait,
    /// End the connection.
    Close,
}

/// The message of the reply to an injection when no master descriptor exists.
pub open spec fn no_master_message() -> Seq<char> {
    "No master descriptor"@
}

pub open spec fn is_stream_event(ev: ConnectionEvent) -> bool {
    ev is Output || ev is Lagged || ev is OutputEnded
}

/// The action for an event of the broadcast stream.
pub open spec fn stream_action(ev: ConnectionEvent) -> ConnectionAction {
    match ev {
        ConnectionEvent::Output(data) => ConnectionAction::Reply(Response::Output { data }),
        ConnectionEvent::OutputEnded => ConnectionAction::Close,
        _ => ConnectionAction::Wait,
    }
}

/// Decides the one response (or none) that a connection owes for an event.
/// `master_fd` is the numeric value of the pty master, if one exists.
pub fn next_action(event: ConnectionEvent, screen: &ScrollbackBuffer, master_fd: Option<i32>) -> (r:
    ConnectionAction)
    requires
        screen.wf(),
    ensures
        is_stream_event(event) ==> r == stream_action(event),
        event is Malformed ==> r is Wait,
        event is Closed ==> r is Close,
        event is Request ==> match event->Request_0 {
            Request::GetScrollback { lines } => match r {
                ConnectionAction::Reply(Response::Scrollback { content }) => content@ == render(
                    screen@,
                    lines,
                ),
                _ => false,
            },
            Request::GetCursor => r == ConnectionAction::Reply(
                Response::Cursor { row: screen@.row as usize, col: screen@.col as usize },
            ),
            Request::Inject { data } => match master_fd {
                None => match r {
                    ConnectionAction::Reply(Response::Error { message }) => message@
                        == no_master_message(),
                    _ => false,
                },
                Some(fd) => r == ConnectionAction::WriteMaster { fd, data },
            },
            Request::GetSize => r is QuerySize,
            Request::Subscribe => r == ConnectionAction::Reply(Response::Subscribed),
        },
{
    match event {
        ConnectionEvent::Request(request) => match request {
            Request::GetScrollback { lines } => {
                let content = screen.get_lines(lines);
                ConnectionAction::Reply(Response::Scrollback { content })
            },
            Request::GetCursor => {
                let (row, col) = screen.cursor_position();
                ConnectionAction::Reply(Response::Cursor { row, col })
            },
            Request::Inject { data } => match master_fd {
                Some(fd) => ConnectionAction::WriteMaster { fd, data },
                None => ConnectionAction::Reply(
                    Response::Error { message: String::from_str("No master descriptor") },
                ),
            },
            Request::GetSize => ConnectionAction::QuerySize,
            Request::Subscribe => ConnectionAction::Reply(Response::Subscribed),
        },
        ConnectionEvent::Malformed => ConnectionAction::Wait,
        ConnectionEvent::Closed => ConnectionAction::Close,
        ConnectionEvent::Output(data) => ConnectionAction::Reply(Response::Output { data }),
        ConnectionEvent::Lagged(_) => ConnectionAction::Wait,
        ConnectionEvent::OutputEnded => ConnectionAction::Close,
    }
}

/// The message of the reply to an injection whose write took only part of the data.
pub open spec fn short_write_message() -> Seq<char> {
    "Short write to the master descriptor"@
}

/// The reply to an injection of `data`, from the outcome of the write to the
/// master: the number of bytes written, or the reason it failed. Success
/// only where all of `data`'s bytes were written.
pub fn inject_reply(outcome: Result<usize, String>, data: &str) -> (r: Response)
    ensures
        r == Response::Success <==> outcome == Ok::<usize, String>(data.len()),
        outcome is Err ==> r == (Response::Error { message: outcome->Err_0 }),
        outcome is Ok && outcome->Ok_0 != data.len() ==> match r {
            Response::Error { message } => message@ == short_write_message(),
            _ => false,
        },
{
    match outcome {
        Ok(n) => {
            if n == data.len() {
                Response::Success
            } else {
                Response::Error { message: String::from_str("Short write to the master descriptor") }
            }
        },
        Err(message) => Response::Error { message },
    }
}

/// The chunks that a run of stream events delivers, in order.
pub open spec fn delivered(evs: Seq<ConnectionEvent>) -> Seq<Vec<u8>>
    decreases evs.len(),
{
    if evs.len() == 0 {
        Seq::empty()
    } else {
        let rest = delivered(evs.drop_last());
        match evs.last() {
            ConnectionEvent::Output(data) => rest.push(data),
            _ => rest,
        }
    }
}

/// The responses that a connection sends for a run of events, in order.
pub open spec fn replies(evs: Seq<ConnectionEvent>) -> Seq<Response>
    decreases evs.len(),
{
    if evs.len() == 0 {
        Seq::empty()
    } else {
        let rest = replies(evs.drop_last());
        match stream_action(evs.last()) {
            ConnectionAction::Reply(resp) => rest.push(resp),
            _ => rest,
        }
    }
}

proof fn lemma_replies_are_outputs(evs: Seq<ConnectionEvent>)
    requires
        forall|i: int| 0 <= i < evs.len() ==> is_stream_event(#[trigger] evs[i]),
    ensures
        replies(evs) == delivered(evs).map_values(|data: Vec<u8>| Response::Output { data }),
    decreases evs.len(),
{
    if evs.len() > 0 {
        let init = evs.drop_last();
        assert forall|i: int| 0 <= i < init.len() implies is_stream_event(#[trigger] init[i]) by {
            assert(init[i] == evs[i]);
        }
        lemma_replies_are_outputs(init);
        assert(is_stream_event(evs[evs.len() - 1]));
        assert(replies(evs) =~= delivered(evs).map_values(|data: Vec<u8>| Response::Output { data }));
    }
}

/// A connection relays the output stream as it receives it: one `output`
/// message per chunk, with the chunk's bytes unchanged and in the order of
/// the stream, and nothing for a lag notice; so two connections that receive
/// the same chunks send the same `output` messages in the same order.
pub proof fn lemma_output_relayed_in_order(evs: Seq<ConnectionEvent>, other: Seq<ConnectionEvent>)
    requires
        forall|i: int| 0 <= i < evs.len() ==> is_stream_event(#[trigger] evs[i]),
        forall|i: int| 0 <= i < other.len() ==> is_stream_event(#[trigger] other[i]),
    ensures
        replies(evs).len() == delivered(evs).len(),
        forall|i: int|
            0 <= i < replies(evs).len() ==> #[trigger] replies(evs)[i] == (Response::Output {
                data: delivered(evs)[i],
            }),
        delivered(evs) == delivered(other) ==> replies(evs) == replies(other),
{
    lemma_replies_are_outputs(evs);
    lemma_replies_are_outputs(other);
}

} // verus!
