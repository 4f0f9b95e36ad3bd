use record::connection::{inject_reply, next_action, ConnectionAction, ConnectionEvent};
use record::protocol::{frame, Request, Response};
use record::scrollback::ScrollbackBuffer;
use record::supervisor::{
    child_status, exit_status, on_read, on_write, resolve_command, LoopAction, ReadOutcome, Source,
    WaitOutcome,
};

fn screen() -> ScrollbackBuffer {
    let mut buf = ScrollbackBuffer::new();
    buf.push(b"line1\nline2\nline3\nline4\n");
    buf
}

#[test]
fn scrollback_request_reads_state() {
    let buf = screen();
    let ev = ConnectionEvent::Request(Request::GetScrollback { lines: Some(2) });
    assert_eq!(
        next_action(ev, &buf, None),
        ConnectionAction::Reply(Response::Scrollback { content: "line3\nline4".to_string() })
    );
    let ev = ConnectionEvent::Request(Request::GetScrollback { lines: None });
    assert_eq!(
        next_action(ev, &buf, None),
        ConnectionAction::Reply(Response::Scrollback {
            content: "line1\nline2\nline3\nline4".to_string()
        })
    );
}

#[test]
fn cursor_request_reads_state() {
    let mut buf = ScrollbackBuffer::new();
    buf.push(b"hello\nworld");
    let ev = ConnectionEvent::Request(Request::GetCursor);
    assert_eq!(
        next_action(ev, &buf, Some(3)),
        ConnectionAction::Reply(Response::Cursor { row: 1, col: 5 })
    );
}

#[test]
fn inject_without_master_is_an_error() {
    let buf = ScrollbackBuffer::new();
    let ev = ConnectionEvent::Request(Request::Inject { data: "ls\n".to_string() });
    assert_eq!(
        next_action(ev, &buf, None),
        ConnectionAction::Reply(Response::Error { message: "No master descriptor".to_string() })
    );
}

#[test]
fn inject_with_master_writes_it() {
    let buf = ScrollbackBuffer::new();
    let ev = ConnectionEvent::Request(Request::Inject { data: "ls\n".to_string() });
    assert_eq!(
        next_action(ev, &buf, Some(7)),
        ConnectionAction::WriteMaster { fd: 7, data: "ls\n".to_string() }
    );
    assert_eq!(inject_reply(Ok(3), "ls\n"), Response::Success);
    assert_eq!(
        inject_reply(Ok(1), "ab"),
        Response::Error { message: "Short write to the master descriptor".to_string() }
    );
    assert_eq!(
        inject_reply(Ok(0), "ab"),
        Response::Error { message: "Short write to the master descriptor".to_string() }
    );
    assert_eq!(inject_reply(Ok(0), ""), Response::Success);
    assert_eq!(inject_reply(Ok(2), "\u{e9}"), Response::Success);
    assert_eq!(
        inject_reply(Err("Bad file descriptor".to_string()), "ls\n"),
        Response::Error { message: "Bad file descriptor".to_string() }
    );
}

#[test]
fn size_and_subscribe_requests() {
    let buf = ScrollbackBuffer::new();
    assert_eq!(
        next_action(ConnectionEvent::Request(Request::GetSize), &buf, None),
        ConnectionAction::QuerySize
    );
    assert_eq!(
        next_action(ConnectionEvent::Request(Request::Subscribe), &buf, None),
        ConnectionAction::Reply(Response::Subscribed)
    );
}

#[test]
fn malformed_request_gets_no_reply() {
    let buf = ScrollbackBuffer::new();
    assert_eq!(next_action(ConnectionEvent::Malformed, &buf, None), ConnectionAction::Wait);
    assert_eq!(next_action(ConnectionEvent::Closed, &buf, None), ConnectionAction::Close);
}

#[test]
fn output_chunks_relayed_identically_to_every_connection() {
    let buf = ScrollbackBuffer::new();
    let stream = vec![
        ConnectionEvent::Output(b"one".to_vec()),
        ConnectionEvent::Output(b"two".to_vec()),
        ConnectionEvent::Output(b"three".to_vec()),
    ];
    let lagging = vec![
        ConnectionEvent::Lagged(1),
        ConnectionEvent::Output(b"two".to_vec()),
        ConnectionEvent::Output(b"three".to_vec()),
    ];
    let run = |evs: &Vec<ConnectionEvent>| -> Vec<Response> {
        evs.iter()
            .filter_map(|e| match next_action(e.clone(), &buf, None) {
                ConnectionAction::Reply(r) => Some(r),
                _ => None,
            })
            .collect()
    };
    let a = run(&stream);
    let b = run(&stream);
    assert_eq!(a, b);
    assert_eq!(
        a,
        vec![
            Response::Output { data: b"one".to_vec() },
            Response::Output { data: b"two".to_vec() },
            Response::Output { data: b"three".to_vec() },
        ]
    );
    assert_eq!(run(&lagging), a[1..].to_vec());
    assert_eq!(next_action(ConnectionEvent::OutputEnded, &buf, None), ConnectionAction::Close);
}

#[test]
fn frame_appends_one_newline() {
    assert_eq!(frame(b"{\"type\":\"ok\"}".to_vec()), b"{\"type\":\"ok\"}\n".to_vec());
    assert_eq!(frame(Vec::new()), b"\n".to_vec());
}

#[test]
fn relay_loop_decisions() {
    assert_eq!(on_read(Source::Master, ReadOutcome::Bytes(5)), LoopAction::Relay);
    assert_eq!(on_read(Source::Input, ReadOutcome::Bytes(5)), LoopAction::Forward);
    assert_eq!(on_read(Source::Master, ReadOutcome::Bytes(0)), LoopAction::Finish(0));
    assert_eq!(on_read(Source::Input, ReadOutcome::Bytes(0)), LoopAction::Finish(0));
    assert_eq!(on_read(Source::Master, ReadOutcome::Failed), LoopAction::Finish(0));
    assert_eq!(on_read(Source::Input, ReadOutcome::Failed), LoopAction::Finish(0));
    assert_eq!(on_write(true), LoopAction::Continue);
    assert_eq!(on_write(false), LoopAction::Finish(1));
}

#[test]
fn child_status_mapping() {
    assert_eq!(child_status(WaitOutcome::Exited(3)), Some(3));
    assert_eq!(child_status(WaitOutcome::Signaled(9)), Some(137));
    assert_eq!(child_status(WaitOutcome::Interrupted), None);
    assert_eq!(child_status(WaitOutcome::Changed), None);
    assert_eq!(child_status(WaitOutcome::Failed), Some(1));
}

#[test]
fn exit_status_combines_loop_and_child() {
    assert_eq!(exit_status(0, 0), 0);
    assert_eq!(exit_status(0, 2), 2);
    assert_eq!(exit_status(1, 0), 1);
    assert_eq!(exit_status(1, 137), 137);
    assert_eq!(exit_status(0, 256), 1);
}

#[test]
fn command_falls_back_to_shell() {
    let given = vec!["vim".to_string(), "notes.txt".to_string()];
    assert_eq!(resolve_command(given.clone(), Some("/bin/zsh".to_string())), given);
    assert_eq!(resolve_command(Vec::new(), Some("/bin/zsh".to_string())), vec!["/bin/zsh".to_string()]);
    assert_eq!(resolve_command(Vec::new(), None), vec!["/bin/sh".to_string()]);
}
