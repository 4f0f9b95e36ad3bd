use vstd::prelude::*;

verus! {

/// A request sent by a controller over a session's endpoint.
#[derive(Debug, Clone)]
pub enum Request {
    /// The last `lines` completed lines of the scrollback (all for `None`).
    GetScrollback { lines: Option<usize> },
    /// The cursor position.
    GetCursor,
    /// Text to write to the terminal as if typed.
    Inject { data: String },
    /// The size of the controlling terminal.
    GetSize,
    /// Acknowledgement only: every connection receives output once connected.
    Subscribe,
}

/// A message sent to a controller; each goes out followed by one newline.
#[derive(Debug, Clone, PartialEq, Eq)]
pub enum Response {
    Scrollback { content: String },
    Cursor { row: usize, col: usize },
    Size { rows: u16, cols: u16 },
    /// A chunk of the child's output.
    Output { data: Vec<u8> },
    Subscribed,
    /// The request was carried out.
    Success,
    Error { message: String },
}

/// Terminates an encoded message with the newline that separates messages.
pub fn frame(payload: Vec<u8>) -> (r: Vec<u8>)
    ensures
        r@ == payload@.push(0x0a),
{
    let mut r = payload;
    r.push(0x0a);
    r
}

} // verus!
