use maestro::model::{PtySize, TerminalError, DEFAULT_COLS, DEFAULT_ROWS};
use maestro::shell::shell_command;
use maestro::terminal::{ReadOutcome, TerminalManager};

fn id(s: &str) -> String {
    s.to_string()
}

fn live(manager: &mut TerminalManager<u32>, segment: &str, handle: u32) {
    assert_eq!(manager.create(id(segment), Ok(handle)), Ok(()));
}

#[test]
fn create_spawn_write_read_resize_close_scenario() {
    let mut m: TerminalManager<u32> = TerminalManager::new();
    let t1 = id("t1");
    assert_eq!(m.open_request(&t1), Some(PtySize { rows: 24, cols: 80 }));
    assert_eq!(m.create(t1.clone(), Ok(7)), Ok(()));
    assert_eq!(m.spawn_request(&t1), Ok(true));
    assert_eq!(m.spawn_finished(&t1, Ok(())), Ok(()));
    assert_eq!(m.write(&t1, "echo hi\n"), Ok(()));
    assert_eq!(m.take_input(&t1), Ok(b"echo hi\n".to_vec()));
    assert_eq!(m.feed_output(&t1, b"echo hi\r\nhi\r\n".to_vec()), Ok(()));
    match m.read(&t1) {
        Ok(ReadOutcome::Data(text)) => assert!(text.contains("hi")),
        other => panic!("unexpected read result {:?}", other),
    }
    assert_eq!(m.resize(&t1, 40, 120), Ok(PtySize { rows: 40, cols: 120 }));
    let closed = m.close(&t1).expect("session was live");
    assert_eq!(*closed.pty(), 7);
    assert_eq!(m.write(&t1, "x"), Err(TerminalError::SessionNotFound));
}

#[test]
fn default_size_is_24_by_80() {
    assert_eq!(DEFAULT_ROWS, 24);
    assert_eq!(DEFAULT_COLS, 80);
    let mut m: TerminalManager<u32> = TerminalManager::new();
    live(&mut m, "a", 1);
    assert_eq!(m.session(&id("a")).unwrap().size(), PtySize { rows: 24, cols: 80 });
}

#[test]
fn second_create_keeps_the_first_session() {
    let mut m: TerminalManager<u32> = TerminalManager::new();
    live(&mut m, "a", 1);
    assert_eq!(m.open_request(&id("a")), None);
    assert_eq!(m.create(id("a"), Ok(2)), Ok(()));
    assert_eq!(m.len(), 1);
    assert_eq!(*m.session(&id("a")).unwrap().pty(), 1);
}

#[test]
fn failed_open_reports_pty_open_error() {
    let mut m: TerminalManager<u32> = TerminalManager::new();
    let r = m.create(id("a"), Err("no ptys left".to_string()));
    assert_eq!(r, Err(TerminalError::PtyOpenError("no ptys left".to_string())));
    assert!(!m.contains(&id("a")));
    assert_eq!(m.len(), 0);
}

#[test]
fn spawn_happens_once() {
    let mut m: TerminalManager<u32> = TerminalManager::new();
    live(&mut m, "a", 1);
    assert_eq!(m.spawn_request(&id("a")), Ok(true));
    assert_eq!(m.spawn_finished(&id("a"), Ok(())), Ok(()));
    assert_eq!(m.spawn_request(&id("a")), Ok(false));
    assert!(m.session(&id("a")).unwrap().is_spawned());
}

#[test]
fn failed_spawn_can_be_retried() {
    let mut m: TerminalManager<u32> = TerminalManager::new();
    live(&mut m, "a", 1);
    let r = m.spawn_finished(&id("a"), Err("no such file".to_string()));
    assert_eq!(r, Err(TerminalError::SpawnFailure("no such file".to_string())));
    assert_eq!(m.spawn_request(&id("a")), Ok(true));
    assert_eq!(m.spawn_finished(&id("a"), Ok(())), Ok(()));
    assert_eq!(m.spawn_request(&id("a")), Ok(false));
}

#[test]
fn unknown_segment_is_not_found() {
    let mut m: TerminalManager<u32> = TerminalManager::new();
    let x = id("missing");
    assert_eq!(m.spawn_request(&x), Err(TerminalError::SessionNotFound));
    assert_eq!(m.spawn_finished(&x, Ok(())), Err(TerminalError::SessionNotFound));
    assert_eq!(m.write(&x, "ls\n"), Err(TerminalError::SessionNotFound));
    assert_eq!(m.read(&x), Err(TerminalError::SessionNotFound));
    assert_eq!(m.resize(&x, 10, 10), Err(TerminalError::SessionNotFound));
    assert_eq!(m.feed_output(&x, vec![b'a']), Err(TerminalError::SessionNotFound));
    assert_eq!(m.mark_exited(&x), Err(TerminalError::SessionNotFound));
    assert_eq!(m.take_input(&x), Err(TerminalError::SessionNotFound));
}

#[test]
fn segments_are_isolated() {
    let mut m: TerminalManager<u32> = TerminalManager::new();
    live(&mut m, "a", 1);
    live(&mut m, "b", 2);
    assert_eq!(m.write(&id("a"), "only a\n"), Ok(()));
    assert_eq!(m.feed_output(&id("a"), b"out a".to_vec()), Ok(()));
    assert_eq!(m.take_input(&id("b")), Ok(Vec::new()));
    assert_eq!(m.read(&id("b")), Ok(ReadOutcome::NoData));
    assert_eq!(m.read(&id("a")), Ok(ReadOutcome::Data("out a".to_string())));
    assert_eq!(m.take_input(&id("a")), Ok(b"only a\n".to_vec()));
}

#[test]
fn writes_are_delivered_in_order() {
    let mut m: TerminalManager<u32> = TerminalManager::new();
    live(&mut m, "a", 1);
    assert_eq!(m.write(&id("a"), "w1"), Ok(()));
    assert_eq!(m.write(&id("a"), "w2"), Ok(()));
    assert_eq!(m.write(&id("a"), "w3"), Ok(()));
    assert_eq!(m.take_input(&id("a")), Ok(b"w1w2w3".to_vec()));
    assert_eq!(m.take_input(&id("a")), Ok(Vec::new()));
}

#[test]
fn write_queues_utf8_bytes() {
    let mut m: TerminalManager<u32> = TerminalManager::new();
    live(&mut m, "a", 1);
    assert_eq!(m.write(&id("a"), "é"), Ok(()));
    assert_eq!(m.take_input(&id("a")), Ok(vec![0xC3, 0xA9]));
}

#[test]
fn closed_segment_is_not_found_and_close_is_idempotent() {
    let mut m: TerminalManager<u32> = TerminalManager::new();
    live(&mut m, "a", 1);
    live(&mut m, "b", 2);
    assert!(m.close(&id("a")).is_some());
    assert!(m.close(&id("a")).is_none());
    assert!(m.close(&id("never")).is_none());
    assert_eq!(m.write(&id("a"), "x"), Err(TerminalError::SessionNotFound));
    assert_eq!(m.read(&id("a")), Err(TerminalError::SessionNotFound));
    assert_eq!(m.resize(&id("a"), 1, 1), Err(TerminalError::SessionNotFound));
    assert!(m.contains(&id("b")));
    assert_eq!(m.len(), 1);
}

#[test]
fn close_hands_back_the_handles() {
    let mut m: TerminalManager<String> = TerminalManager::new();
    assert_eq!(m.create(id("a"), Ok("pty-a".to_string())), Ok(()));
    let session = m.close(&id("a")).unwrap();
    assert_eq!(session.segment_id(), "a");
    assert_eq!(session.into_pty(), "pty-a".to_string());
}

#[test]
fn exit_is_reported_after_pending_output() {
    let mut m: TerminalManager<u32> = TerminalManager::new();
    live(&mut m, "a", 1);
    assert_eq!(m.feed_output(&id("a"), b"bye\r\n".to_vec()), Ok(()));
    assert_eq!(m.mark_exited(&id("a")), Ok(()));
    assert_eq!(m.read(&id("a")), Ok(ReadOutcome::Data("bye\r\n".to_string())));
    assert_eq!(m.read(&id("a")), Ok(ReadOutcome::Exited));
    assert_eq!(m.read(&id("a")), Ok(ReadOutcome::Exited));
}

#[test]
fn empty_poll_reports_no_data() {
    let mut m: TerminalManager<u32> = TerminalManager::new();
    live(&mut m, "a", 1);
    assert_eq!(m.read(&id("a")), Ok(ReadOutcome::NoData));
}

#[test]
fn split_character_is_deferred_until_complete() {
    let mut m: TerminalManager<u32> = TerminalManager::new();
    live(&mut m, "a", 1);
    assert_eq!(m.feed_output(&id("a"), vec![b'o', b'k', 0xE2, 0x82]), Ok(()));
    assert_eq!(m.read(&id("a")), Err(TerminalError::InvalidEncoding));
    assert_eq!(m.read(&id("a")), Err(TerminalError::InvalidEncoding));
    assert_eq!(m.feed_output(&id("a"), vec![0xAC]), Ok(()));
    assert_eq!(m.read(&id("a")), Ok(ReadOutcome::Data("ok€".to_string())));
    assert_eq!(m.read(&id("a")), Ok(ReadOutcome::NoData));
}

#[test]
fn invalid_bytes_stay_pending() {
    let mut m: TerminalManager<u32> = TerminalManager::new();
    live(&mut m, "a", 1);
    assert_eq!(m.feed_output(&id("a"), vec![0xFF, b'a']), Ok(()));
    assert_eq!(m.read(&id("a")), Err(TerminalError::InvalidEncoding));
    assert_eq!(m.mark_exited(&id("a")), Ok(()));
    assert_eq!(m.read(&id("a")), Err(TerminalError::InvalidEncoding));
}

#[test]
fn resize_records_the_size() {
    let mut m: TerminalManager<u32> = TerminalManager::new();
    live(&mut m, "a", 1);
    assert_eq!(m.resize(&id("a"), 40, 120), Ok(PtySize { rows: 40, cols: 120 }));
    assert_eq!(m.session(&id("a")).unwrap().size(), PtySize { rows: 40, cols: 120 });
}

#[test]
fn windows_shell_is_powershell() {
    let cmd = shell_command(true, Some("/bin/zsh".to_string()));
    assert_eq!(cmd.program, "powershell.exe");
    assert_eq!(cmd.term, "cygwin");
}

#[test]
fn unix_shell_comes_from_the_environment() {
    let cmd = shell_command(false, Some("/bin/zsh".to_string()));
    assert_eq!(cmd.program, "/bin/zsh");
    assert_eq!(cmd.term, "xterm-256color");
}

#[test]
fn unix_shell_falls_back_to_bash() {
    let cmd = shell_command(false, None);
    assert_eq!(cmd.program, "/bin/bash");
    assert_eq!(cmd.term, "xterm-256color");
}
