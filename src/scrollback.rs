use vstd::prelude::*;
use vstd::string::*;

verus! {

/// Number of completed lines kept by a fresh buffer.
pub const DEFAULT_SCROLLBACK_LINES: usize = 10000;

/// Longest in-progress line, in characters; further printable bytes are dropped.
pub const MAX_LINE_LENGTH: usize = 4096;

/// Abstract state of a scrollback buffer.
pub ghost struct ScrollView {
    /// Completed lines, oldest first.
    pub lines: Seq<Seq<char>>,
    /// The line being written.
    pub current: Seq<char>,
    pub row: nat,
    pub col: nat,
    /// How many completed lines are retained.
    pub max_lines: nat,
}

/// The states that a buffer can reach.
pub open spec fn view_inv(v: ScrollView) -> bool {
    &&& v.lines.len() <= v.max_lines
    &&& v.max_lines <= DEFAULT_SCROLLBACK_LINES
    &&& v.row == v.lines.len()
    &&& v.col <= v.current.len()
    &&& v.current.len() <= MAX_LINE_LENGTH
}

/// Drops the oldest lines until at most `max_lines` remain; the row follows,
/// never going below zero.
pub open spec fn evict(v: ScrollView) -> ScrollView
    decreases v.lines.len(),
{
    if v.lines.len() > v.max_lines && v.lines.len() > 0 {
        evict(
            ScrollView {
                lines: v.lines.subrange(1, v.lines.len() as int),
                row: if v.row > 0 { (v.row - 1) as nat } else { 0 },
                ..v
            },
        )
    } else {
        v
    }
}

pub open spec fn is_printable(b: u8) -> bool {
    0x20 <= b && b < 0x7f
}

/// The effect of one output byte.
pub open spec fn step(v: ScrollView, b: u8) -> ScrollView {
    if b == 0x0a {
        evict(
            ScrollView {
                lines: v.lines.push(v.current),
                current: Seq::empty(),
                row: v.row + 1,
                col: 0,
                ..v
            },
        )
    } else if b == 0x0d {
        ScrollView { col: 0, ..v }
    } else if b == 0x08 {
        if v.col > 0 {
            let c = (v.col - 1) as nat;
            ScrollView {
                col: c,
                current: if c < v.current.len() {
                    v.current.remove(c as int)
                } else {
                    v.current
                },
                ..v
            }
        } else {
            v
        }
    } else if is_printable(b) {
        if v.current.len() < MAX_LINE_LENGTH {
            ScrollView { current: v.current.push(b as char), col: v.col + 1, ..v }
        } else {
            v
        }
    } else {
        // escape, and every other byte, is consumed without effect
        v
    }
}

/// The effect of a run of output bytes, applied in order.
pub open spec fn feed(v: ScrollView, bytes: Seq<u8>) -> ScrollView
    decreases bytes.len(),
{
    if bytes.len() == 0 {
        v
    } else {
        step(feed(v, bytes.drop_last()), bytes.last())
    }
}

/// The effect of a series of pushes, applied in order.
pub open spec fn feed_all(v: ScrollView, chunks: Seq<Seq<u8>>) -> ScrollView
    decreases chunks.len(),
{
    if chunks.len() == 0 {
        v
    } else {
        feed(feed_all(v, chunks.drop_last()), chunks.last())
    }
}

/// Completed lines joined by single newlines.
pub open spec fn join_lines(ls: Seq<Seq<char>>) -> Seq<char>
    decreases ls.len(),
{
    if ls.len() == 0 {
        Seq::empty()
    } else if ls.len() == 1 {
        ls[0]
    } else {
        join_lines(ls.drop_last()) + seq!['\n'] + ls.last()
    }
}

/// Index of the first completed line that a request for `count` lines shows.
pub open spec fn first_shown(n: nat, count: Option<usize>) -> nat {
    match count {
        None => 0,
        Some(c) => if c >= n { 0 } else { (n - c) as nat },
    }
}

/// Text of the most recent `count` completed lines (all of them for `None`),
/// followed by the in-progress line when it is not empty.
pub open spec fn render(v: ScrollView, count: Option<usize>) -> Seq<char> {
    let body = join_lines(v.lines.subrange(first_shown(v.lines.len(), count) as int, v.lines.len() as int));
    if v.current.len() == 0 {
        body
    } else if body.len() == 0 {
        v.current
    } else {
        body + seq!['\n'] + v.current
    }
}

proof fn lemma_evict(v: ScrollView)
    requires
        v.lines.len() <= v.max_lines + 1,
        v.max_lines <= DEFAULT_SCROLLBACK_LINES,
        v.row == v.lines.len(),
        v.col <= v.current.len(),
        v.current.len() <= MAX_LINE_LENGTH,
    ensures
        view_inv(evict(v)),
        evict(v).max_lines == v.max_lines,
        evict(v).current == v.current,
        evict(v).col == v.col,
    decreases v.lines.len(),
{
    if v.lines.len() > v.max_lines && v.lines.len() > 0 {
        lemma_evict(
            ScrollView {
                lines: v.lines.subrange(1, v.lines.len() as int),
                row: if v.row > 0 { (v.row - 1) as nat } else { 0 },
                ..v
            },
        );
    }
}

proof fn lemma_step_inv(v: ScrollView, b: u8)
    requires
        view_inv(v),
    ensures
        view_inv(step(v, b)),
        step(v, b).max_lines == v.max_lines,
{
    if b == 0x0a {
        lemma_evict(
            ScrollView {
                lines: v.lines.push(v.current),
                current: Seq::empty(),
                row: v.row + 1,
                col: 0,
                ..v
            },
        );
    }
}

/// Every byte run keeps a buffer within its line cap, with the row equal to
/// the number of retained lines.
pub proof fn lemma_feed_inv(v: ScrollView, bytes: Seq<u8>)
    requires
        view_inv(v),
    ensures
        view_inv(feed(v, bytes)),
        feed(v, bytes).max_lines == v.max_lines,
    decreases bytes.len(),
{
    if bytes.len() > 0 {
        lemma_feed_inv(v, bytes.drop_last());
        lemma_step_inv(feed(v, bytes.drop_last()), bytes.last());
    }
}

/// However many pushes a buffer takes, and however far they go past its cap,
/// it never holds more completed lines than the cap, and the cursor row
/// stays the (non-negative) number of lines held.
pub proof fn lemma_line_cap_holds(v: ScrollView, chunks: Seq<Seq<u8>>)
    requires
        view_inv(v),
    ensures
        feed_all(v, chunks).lines.len() <= v.max_lines,
        feed_all(v, chunks).row == feed_all(v, chunks).lines.len(),
        feed_all(v, chunks).row >= 0,
        view_inv(feed_all(v, chunks)),
        feed_all(v, chunks).max_lines == v.max_lines,
    decreases chunks.len(),
{
    if chunks.len() > 0 {
        lemma_line_cap_holds(v, chunks.drop_last());
        lemma_feed_inv(feed_all(v, chunks.drop_last()), chunks.last());
    }
}

/// Relies on String::push: the character is appended at the end.
#[verifier::external_body]
fn push_char(s: &mut String, c: char)
    ensures
        final(s)@ == old(s)@.push(c),
{
    s.push(c)
}

fn chars_to_string(cs: &Vec<char>) -> (r: String)
    ensures
        r@ == cs@,
{
    let mut r = String::new();
    let mut i: usize = 0;
    while i < cs.len()
        invariant
            i <= cs.len(),
            r@ == cs@.subrange(0, i as int),
        decreases cs.len() - i,
    {
        push_char(&mut r, cs[i]);
        i = i + 1;
        assert(r@ =~= cs@.subrange(0, i as int));
    }
    assert(r@ =~= cs@);
    r
}

/// A line-oriented record of terminal output: completed lines (oldest
/// evicted first), the line in progress, and a cursor.
pub struct ScrollbackBuffer {
    lines: Vec<String>,
    current_line: Vec<char>,
    cursor_row: usize,
    cursor_col: usize,
    max_lines: usize,
}

impl View for ScrollbackBuffer {
    type V = ScrollView;

    closed spec fn view(&self) -> ScrollView {
        ScrollView {
            lines: self.lines@.map_values(|l: String| l@),
            current: self.current_line@,
            row: self.cursor_row as nat,
            col: self.cursor_col as nat,
            max_lines: self.max_lines as nat,
        }
    }
}

impl ScrollbackBuffer {
    pub open spec fn wf(&self) -> bool {
        view_inv(self@)
    }

    /// An empty buffer that keeps the default number of lines.
    pub fn new() -> (r: Self)
        ensures
            r.wf(),
            r@.lines == Seq::<Seq<char>>::empty(),
            r@.current == Seq::<char>::empty(),
            r@.row == 0,
            r@.col == 0,
            r@.max_lines == DEFAULT_SCROLLBACK_LINES,
    {
        let r = ScrollbackBuffer {
            lines: Vec::new(),
            current_line: Vec::new(),
            cursor_row: 0,
            cursor_col: 0,
            max_lines: DEFAULT_SCROLLBACK_LINES,
        };
        assert(r@.lines =~= Seq::<Seq<char>>::empty());
        r
    }

    /// Completes the line in progress, then evicts the oldest lines over the cap.
    fn complete_line(&mut self)
        requires
            old(self).wf(),
        ensures
            final(self)@ == step(old(self)@, 0x0a),
            final(self).wf(),
    {
        proof {
            lemma_step_inv(self@, 0x0a);
        }
        let ghost v0 = self@;
        let line = chars_to_string(&self.current_line);
        self.lines.push(line);
        self.current_line = Vec::new();
        self.cursor_row = self.cursor_row + 1;
        self.cursor_col = 0;
        let ghost pushed = ScrollView {
            lines: v0.lines.push(v0.current),
            current: Seq::empty(),
            row: v0.row + 1,
            col: 0,
            ..v0
        };
        assert(self@.lines =~= pushed.lines);
        assert(self@.current =~= pushed.current);
        assert(self@ == pushed);
        while self.lines.len() > self.max_lines
            invariant
                evict(self@) == evict(pushed),
                self@.max_lines == v0.max_lines,
                self@.lines.len() <= v0.max_lines + 1,
                v0.max_lines <= DEFAULT_SCROLLBACK_LINES,
            decreases self.lines.len(),
        {
            let ghost before = self@;
            self.lines.remove(0);
            if self.cursor_row > 0 {
                self.cursor_row = self.cursor_row - 1;
            }
            assert(self@.lines =~= before.lines.subrange(1, before.lines.len() as int));
        }
    }

    /// Applies output bytes in order: newline completes a line, carriage
    /// return moves to column zero, backspace steps back and deletes,
    /// printable ASCII is appended while the line is under the length limit,
    /// and every other byte (escape included) is dropped.
    pub fn push(&mut self, data: &[u8])
        requires
            old(self).wf(),
        ensures
            final(self).wf(),
            final(self)@ == feed(old(self)@, data@),
    {
        let ghost v0 = self@;
        let mut i: usize = 0;
        while i < data.len()
            invariant
                i <= data@.len(),
                self.wf(),
                self@ == feed(v0, data@.subrange(0, i as int)),
            decreases data.len() - i,
        {
            let byte = data[i];
            let ghost before = self@;
            proof {
                lemma_step_inv(before, byte);
            }
            if byte == 0x0a {
                self.complete_line();
            } else if byte == 0x0d {
                self.cursor_col = 0;
            } else if byte == 0x08 {
                if self.cursor_col > 0 {
                    self.cursor_col = self.cursor_col - 1;
                    if self.cursor_col < self.current_line.len() {
                        self.current_line.remove(self.cursor_col);
                    }
                }
            } else if byte == 0x1b {
                // an escape sequence is not interpreted
            } else if 0x20 <= byte && byte < 0x7f {
                if self.current_line.len() < MAX_LINE_LENGTH {
                    self.current_line.push(byte as char);
                    self.cursor_col = self.cursor_col + 1;
                }
            }
            assert(self@ == step(before, byte));
            assert(data@.subrange(0, i + 1).drop_last() =~= data@.subrange(0, i as int));
            i = i + 1;
        }
        assert(data@.subrange(0, data@.len() as int) =~= data@);
    }

    /// The most recent `count` completed lines (all of them for `None`),
    /// joined by newlines, then the in-progress line if it is not empty,
    /// after a newline only where text precedes it.
    pub fn get_lines(&self, count: Option<usize>) -> (r: String)
        requires
            self.wf(),
        ensures
            r@ == render(self@, count),
    {
        let n = self.lines.len();
        let count = match count {
            Some(c) => c,
            None => n + 1,
        };
        let start: usize = if count >= n { 0 } else { n - count };
        let ghost shown = self@.lines.subrange(start as int, n as int);
        let mut result = String::new();
        let mut i: usize = start;
        while i < n
            invariant
                start <= i <= n,
                n == self.lines.len(),
                result@ == join_lines(self@.lines.subrange(start as int, i as int)),
            decreases n - i,
        {
            let ghost sub = self@.lines.subrange(start as int, i + 1);
            assert(sub.drop_last() =~= self@.lines.subrange(start as int, i as int));
            if i > start {
                push_char(&mut result, '\n');
            } else {
                assert(sub =~= seq![self@.lines[i as int]]);
            }
            result.append(self.lines[i].as_str());
            i = i + 1;
        }
        if self.current_line.len() > 0 {
            if !result.as_str().is_empty() {
                push_char(&mut result, '\n');
            }
            let tail = chars_to_string(&self.current_line);
            result.append(tail.as_str());
        }
        result
    }

    /// The cursor as (row, column).
    pub fn cursor_position(&self) -> (r: (usize, usize))
        ensures
            r.0 == self@.row,
            r.1 == self@.col,
    {
        (self.cursor_row, self.cursor_col)
    }

    /// Forgets all lines and puts the cursor at the origin.
    pub fn clear(&mut self)
        requires
            old(self).wf(),
        ensures
            final(self).wf(),
            final(self)@ == (ScrollView {
                lines: Seq::empty(),
                current: Seq::empty(),
                row: 0,
                col: 0,
                max_lines: old(self)@.max_lines,
            }),
    {
        self.lines.clear();
        self.current_line.clear();
        self.cursor_row = 0;
        self.cursor_col = 0;
        assert(self@.lines =~= Seq::<Seq<char>>::empty());
    }
}

} // verus!
