use vstd::prelude::*;
use vstd::string::*;

verus! {

/// One of the two inputs of the relay loop.
#[derive(Debug, Clone, Copy, PartialEq, Eq)]
pub enum Source {
    /// The pty master: the child's output.
    Master,
    /// The process's own standard input: the operator's keystrokes.
    Input,
}

/// How a read from a source ended.
#[derive(Debug, Clone, Copy, PartialEq, Eq)]
pub enum ReadOutcome {
    /// This many bytes were read; zero means end of stream.
    Bytes(usize),
    /// The read failed.
    Failed,
}

/// The relay loop's next move.
#[derive(Debug, Clone, Copy, PartialEq, Eq)]
pub enum LoopAction {
    /// Child output: record it in the terminal state, publish it to the
    /// broadcast stream, then write it to standard output and flush.
    Relay,
    /// Operator input: write it unchanged to the pty master.
    Forward,
    /// Wait for the next read.
    Continue,
    /// Leave the loop with this status; zero is success.
    Finish(i32),
}

/// The move after a read. End of stream, and a failed read, end the loop
/// successfully; bytes are relayed from the master and forwarded from input.
pub fn on_read(source: Source, outcome: ReadOutcome) -> (r: LoopAction)
    ensures
        r == (match outcome {
            ReadOutcome::Bytes(n) => if n == 0 {
                LoopAction::Finish(0)
            } else if source is Master {
                LoopAction::Relay
            } else {
                LoopAction::Forward
            },
            ReadOutcome::Failed => LoopAction::Finish(0),
        }),
{
    match outcome {
        ReadOutcome::Bytes(n) => {
            if n == 0 {
                LoopAction::Finish(0)
            } else {
                match source {
                    Source::Master => LoopAction::Relay,
                    Source::Input => LoopAction::Forward,
                }
            }
        },
        ReadOutcome::Failed => LoopAction::Finish(0),
    }
}

/// The move after relaying or forwarding bytes: a failed write ends the
/// loop with a failure status.
pub fn on_write(written: bool) -> (r: LoopAction)
    ensures
        r == (if written { LoopAction::Continue } else { LoopAction::Finish(1) }),
{
    if written {
        LoopAction::Continue
    } else {
        LoopAction::Finish(1)
    }
}

/// How one wait for the child ended.
#[derive(Debug, Clone, Copy, PartialEq, Eq)]
pub enum WaitOutcome {
    /// The child exited with this code.
    Exited(i32),
    /// The child was terminated by this signal number.
    Signaled(u8),
    /// The child changed state without terminating.
    Changed,
    /// The wait was interrupted.
    Interrupted,
    /// The wait failed.
    Failed,
}

/// The child's status from one wait, or `None` where the wait must be
/// repeated: an exit gives its code, a signal `128 + signal`, a failed wait 1.
pub fn child_status(outcome: WaitOutcome) -> (r: Option<i32>)
    ensures
        r == (match outcome {
            WaitOutcome::Exited(code) => Some(code),
            WaitOutcome::Signaled(sig) => Some((128 + sig) as i32),
            WaitOutcome::Changed => None,
            WaitOutcome::Interrupted => None,
            WaitOutcome::Failed => Some(1i32),
        }),
{
    match outcome {
        WaitOutcome::Exited(code) => Some(code),
        WaitOutcome::Signaled(sig) => Some(128 + sig as i32),
        WaitOutcome::Changed => None,
        WaitOutcome::Interrupted => None,
        WaitOutcome::Failed => Some(1),
    }
}

/// The process's exit status from the loop's status and the child's: zero
/// only when both are zero; otherwise the low byte of the child's status,
/// made 1 where that byte would read as success.
pub fn exit_status(loop_status: i32, child: i32) -> (r: u8)
    ensures
        r == 0 <==> (loop_status == 0 && child == 0),
        r == (if loop_status == 0 && child == 0 {
            0u8
        } else if child as u8 == 0 {
            1u8
        } else {
            child as u8
        }),
{
    let low = child as u8;
    if loop_status == 0 && child == 0 {
        0
    } else if low == 0 {
        1
    } else {
        low
    }
}

/// The command to run in the session: the one given, or else the user's
/// shell, or else `/bin/sh`.
pub fn resolve_command(args: Vec<String>, shell: Option<String>) -> (r: Vec<String>)
    ensures
        args@.len() > 0 ==> r@ == args@,
        args@.len() == 0 ==> r@.len() == 1,
        args@.len() == 0 && shell is Some ==> r@[0] == shell->Some_0,
        args@.len() == 0 && shell is None ==> r@[0]@ == "/bin/sh"@,
{
    if args.len() > 0 {
        args
    } else {
        let program = match shell {
            Some(s) => s,
            None => String::from_str("/bin/sh"),
        };
        let mut r: Vec<String> = Vec::new();
        r.push(program);
        r
    }
}

} // verus!
