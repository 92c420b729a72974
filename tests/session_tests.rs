use terminal::channel::{ChannelError, Command, CommandChannel};
use terminal::collaborator::{ConnectionId, Model, ServerId};
use terminal::event_loop::{IoEventLoop, LoopAction, LoopEvent, Phase};
use terminal::grid::GridModel;
use terminal::render::project;
use terminal::session::{grid_size_for, Status, ZedTerminal};

fn row_text(grid: &GridModel, row: usize) -> String {
    let lines = project(&grid.snapshot());
    lines[row].iter().collect::<String>()
}

fn written_bytes(acts: &[LoopAction]) -> Vec<u8> {
    let mut out = Vec::new();
    for a in acts {
        if let LoopAction::Write(b) = a {
            out.extend_from_slice(b);
        }
    }
    out
}

#[test]
fn new_grid_is_blank_and_sized() {
    let grid = GridModel::new(10, 3);
    let snap = grid.snapshot();
    assert_eq!(snap.columns, 10);
    assert_eq!(snap.rows, 3);
    assert_eq!(snap.cells.len(), 30);
    assert!(snap.cells.iter().all(|c| *c == ' '));
}

#[test]
fn applied_text_lands_in_row_zero() {
    let mut grid = GridModel::new(20, 4);
    grid.apply(b"hi");
    assert_eq!(row_text(&grid, 0), format!("hi{}", " ".repeat(18)));
    assert_eq!(row_text(&grid, 1), " ".repeat(20));
}

#[test]
fn escape_sequence_split_across_reads_is_parsed() {
    let mut grid = GridModel::new(10, 2);
    let mut lp = IoEventLoop::new();
    let events = vec![
        LoopEvent::Read(b"ab".to_vec()),
        LoopEvent::Read(b"c\x1b[".to_vec()),
        LoopEvent::Read(b"1mde".to_vec()),
    ];
    let acts = lp.run(&mut grid, events);
    assert_eq!(acts.len(), 3);
    assert_eq!(lp.phase(), Phase::Running);
    assert_eq!(row_text(&grid, 0), "abcde     ");
}

#[test]
fn reads_are_applied_in_order() {
    let mut grid = GridModel::new(8, 2);
    let mut lp = IoEventLoop::new();
    let events = vec![
        LoopEvent::Read(b"12".to_vec()),
        LoopEvent::TransientError,
        LoopEvent::Read(b"34".to_vec()),
        LoopEvent::Read(b"56".to_vec()),
    ];
    lp.run(&mut grid, events);
    assert_eq!(row_text(&grid, 0), "123456  ");
}

#[test]
fn process_exit_reports_status_and_keeps_output() {
    let mut session = ZedTerminal::new();
    let mut grid = GridModel::new(20, 5);
    let mut lp = IoEventLoop::new();
    let a = lp.handle(&mut grid, LoopEvent::Read(b"hi\r\n".to_vec()));
    assert!(matches!(a, LoopAction::Idle));
    let a = lp.handle(&mut grid, LoopEvent::Closed);
    assert!(matches!(a, LoopAction::Idle));
    assert_eq!(lp.phase(), Phase::Draining);
    let a = lp.handle(&mut grid, LoopEvent::Read(b"!".to_vec()));
    assert!(matches!(a, LoopAction::Idle));
    let a = lp.handle(&mut grid, LoopEvent::Drained);
    assert!(matches!(a, LoopAction::Exit));
    assert_eq!(lp.phase(), Phase::Stopped);
    session.mark_exited(0);
    assert_eq!(session.status(), Status::Exited(0));
    assert!(row_text(&grid, 0).starts_with("hi"));
    assert!(row_text(&grid, 1).starts_with("!"));
}

#[test]
fn keystrokes_are_written_exactly() {
    let mut session = ZedTerminal::new();
    assert_eq!(session.send(b"ls\n".to_vec()), Ok(()));
    let mut grid = GridModel::new(10, 2);
    let mut lp = IoEventLoop::new();
    let cmd = session.next_command().unwrap();
    match lp.handle(&mut grid, LoopEvent::Command(cmd)) {
        LoopAction::Write(b) => assert_eq!(b, vec![b'l', b's', b'\n']),
        _ => panic!("expected a write"),
    }
    assert!(session.next_command().is_none());
}

#[test]
fn back_to_back_resizes_end_at_the_last() {
    let mut grid = GridModel::new(10, 5);
    grid.resize(80, 24);
    grid.resize(40, 12);
    let snap = grid.snapshot();
    assert_eq!((snap.columns, snap.rows), (40, 12));
    assert_eq!(snap.cells.len(), 480);
    assert_eq!(project(&snap).len(), 12);
    assert!(project(&snap).iter().all(|l| l.len() == 40));
}

#[test]
fn resize_commands_resize_grid_before_pty() {
    let mut session = ZedTerminal::new();
    session.resize(80, 24).unwrap();
    session.resize(40, 12).unwrap();
    let mut grid = GridModel::new(10, 5);
    let mut lp = IoEventLoop::new();
    let mut acts = Vec::new();
    while let Some(cmd) = session.next_command() {
        acts.push(lp.handle(&mut grid, LoopEvent::Command(cmd)));
        let snap = grid.snapshot();
        assert_eq!(snap.cells.len(), snap.columns as usize * snap.rows as usize);
    }
    assert!(matches!(acts[0], LoopAction::ResizePty { columns: 80, rows: 24 }));
    assert!(matches!(acts[1], LoopAction::ResizePty { columns: 40, rows: 12 }));
    assert_eq!((grid.columns(), grid.rows()), (40, 12));
}

#[test]
fn zero_size_resize_is_ignored() {
    let mut grid = GridModel::new(10, 5);
    let mut lp = IoEventLoop::new();
    let a = lp.handle(&mut grid, LoopEvent::Command(Command::Resize { columns: 0, rows: 7 }));
    assert!(matches!(a, LoopAction::Idle));
    assert_eq!((grid.columns(), grid.rows()), (10, 5));
    let a = lp.handle(&mut grid, LoopEvent::Command(Command::Resize { columns: 1, rows: 7 }));
    assert!(matches!(a, LoopAction::Idle));
    assert_eq!((grid.columns(), grid.rows()), (10, 5));
}

#[test]
fn send_after_exit_reports_closed() {
    let mut session = ZedTerminal::new();
    session.mark_exited(1);
    assert_eq!(session.send(b"x".to_vec()), Err(ChannelError::Closed));
    assert_eq!(session.close(), Err(ChannelError::Closed));
    assert_eq!(session.resize(3, 3), Err(ChannelError::Closed));
    assert!(session.next_command().is_none());
}

#[test]
fn shutdown_stops_writes_but_drains_reads() {
    let mut grid = GridModel::new(10, 2);
    let mut lp = IoEventLoop::new();
    let events = vec![
        LoopEvent::Command(Command::Input(b"a".to_vec())),
        LoopEvent::Command(Command::Shutdown),
        LoopEvent::Read(b"xy".to_vec()),
        LoopEvent::Command(Command::Input(b"b".to_vec())),
        LoopEvent::Read(b"z".to_vec()),
        LoopEvent::Drained,
        LoopEvent::Read(b"late".to_vec()),
    ];
    let acts = lp.run(&mut grid, events);
    assert_eq!(written_bytes(&acts), b"a".to_vec());
    assert!(matches!(acts[5], LoopAction::Exit));
    assert!(matches!(acts[6], LoopAction::Idle));
    assert_eq!(lp.phase(), Phase::Stopped);
    assert_eq!(row_text(&grid, 0), "xyz       ");
}

#[test]
fn fatal_error_stops_the_loop() {
    let mut grid = GridModel::new(4, 1);
    let mut lp = IoEventLoop::new();
    assert!(matches!(lp.handle(&mut grid, LoopEvent::Drained), LoopAction::Idle));
    assert!(matches!(lp.handle(&mut grid, LoopEvent::TransientError), LoopAction::Idle));
    assert_eq!(lp.phase(), Phase::Running);
    assert!(matches!(lp.handle(&mut grid, LoopEvent::Fatal), LoopAction::Exit));
    assert_eq!(lp.phase(), Phase::Stopped);
}

#[test]
fn channel_keeps_order() {
    let mut ch = CommandChannel::new();
    ch.send(Command::Input(vec![1])).unwrap();
    ch.send(Command::Input(vec![2])).unwrap();
    assert_eq!(ch.len(), 2);
    assert!(matches!(ch.recv(), Some(Command::Input(b)) if b == vec![1]));
    ch.send(Command::Resize { columns: 5, rows: 5 }).unwrap();
    ch.send(Command::Shutdown).unwrap();
    assert!(ch.is_closed());
    assert_eq!(ch.send(Command::Input(vec![3])), Err(ChannelError::Closed));
    assert_eq!(ch.len(), 2);
    assert!(matches!(ch.recv(), Some(Command::Resize { columns: 5, rows: 5 })));
    assert!(matches!(ch.recv(), Some(Command::Shutdown)));
    assert!(ch.recv().is_none());
    ch.close();
    assert!(ch.is_closed());
    assert_eq!(ch.send(Command::Shutdown), Err(ChannelError::Closed));
}

#[test]
fn session_title_defaults_and_changes() {
    let mut session = ZedTerminal::new();
    assert_eq!(session.title(), "Terminal");
    assert_eq!(session.status(), Status::Running);
    session.set_title("vim".to_string());
    assert_eq!(session.title(), "vim");
}

#[test]
fn pixel_bounds_become_cells() {
    assert_eq!(grid_size_for(800, 600, 10, 20), (80, 30));
    assert_eq!(grid_size_for(805, 619, 10, 20), (80, 30));
    assert_eq!(grid_size_for(0, 5, 10, 20), (2, 1));
    assert_eq!(grid_size_for(15, 5, 10, 1), (2, 5));
    assert_eq!(grid_size_for(u32::MAX, 100, 1, 1), (65535, 100));
}

#[test]
fn project_splits_rows() {
    let mut grid = GridModel::new(3, 2);
    grid.apply(b"abcdef");
    let lines = project(&grid.snapshot());
    assert_eq!(lines.len(), 2);
    assert_eq!(lines[0], vec!['a', 'b', 'c']);
    assert_eq!(lines[1], vec!['d', 'e', 'f']);
}

#[test]
fn connection_reads_ids_as_unsigned() {
    let m = Model {
        id: 1,
        buffer_id: 2,
        connection_id: 7,
        connection_server_id: ServerId(3),
        connection_lost: false,
        user_id: 4,
        replica_id: 5,
    };
    assert_eq!(m.connection(), ConnectionId { owner_id: 3, id: 7 });
    let n = Model { connection_id: -1, connection_server_id: ServerId(-2), ..m };
    assert_eq!(n.connection(), ConnectionId { owner_id: 4294967294, id: 4294967295 });
}

#[test]
fn out_of_bounds_cells_read_as_none() {
    let mut grid = GridModel::new(4, 2);
    grid.apply(b"wxyz12");
    let snap = grid.snapshot();
    assert_eq!(snap.char_at(0, 0), Some('w'));
    assert_eq!(snap.char_at(0, 3), Some('z'));
    assert_eq!(snap.char_at(1, 1), Some('2'));
    assert_eq!(snap.char_at(1, 4), None);
    assert_eq!(snap.char_at(2, 0), None);
    grid.resize(2, 1);
    let small = grid.snapshot();
    assert_eq!(small.cells.len(), 2);
    assert_eq!(small.char_at(1, 1), None);
}

#[test]
fn input_after_shutdown_is_refused() {
    let mut session = ZedTerminal::new();
    assert_eq!(session.send(b"a".to_vec()), Ok(()));
    assert_eq!(session.resize(10, 4), Ok(()));
    assert_eq!(session.send(b"c".to_vec()), Ok(()));
    assert_eq!(session.close(), Ok(()));
    assert_eq!(session.send(b"b".to_vec()), Err(ChannelError::Closed));
    assert_eq!(session.resize(10, 10), Err(ChannelError::Closed));
    assert!(matches!(session.next_command(), Some(Command::Resize { columns: 10, rows: 4 })));
    assert!(matches!(session.next_command(), Some(Command::Shutdown)));
    assert!(session.next_command().is_none());
}

#[test]
fn nothing_is_written_after_close() {
    let mut session = ZedTerminal::new();
    session.send(b"ls\n".to_vec()).unwrap();
    session.close().unwrap();
    let mut grid = GridModel::new(10, 2);
    let mut lp = IoEventLoop::new();
    let mut acts = Vec::new();
    while let Some(cmd) = session.next_command() {
        acts.push(lp.handle(&mut grid, LoopEvent::Command(cmd)));
    }
    acts.push(lp.handle(&mut grid, LoopEvent::Read(b"ok".to_vec())));
    acts.push(lp.handle(&mut grid, LoopEvent::Drained));
    assert!(written_bytes(&acts).is_empty());
    assert!(matches!(acts.last(), Some(LoopAction::Exit)));
    assert_eq!(row_text(&grid, 0), "ok        ");
}

#[test]
fn too_small_resize_is_refused() {
    let mut session = ZedTerminal::new();
    assert_eq!(session.resize(1, 10), Err(ChannelError::TooSmall));
    assert_eq!(session.resize(10, 0), Err(ChannelError::TooSmall));
    assert!(session.next_command().is_none());
    assert_eq!(session.resize(2, 1), Ok(()));
}

#[test]
fn end_of_stream_drains_before_stopping() {
    let mut grid = GridModel::new(6, 1);
    let mut lp = IoEventLoop::new();
    let events = vec![
        LoopEvent::Read(b"ab".to_vec()),
        LoopEvent::Closed,
        LoopEvent::Command(Command::Input(b"q".to_vec())),
        LoopEvent::Read(b"cd".to_vec()),
        LoopEvent::Closed,
    ];
    let acts = lp.run(&mut grid, events);
    assert!(written_bytes(&acts).is_empty());
    assert!(matches!(acts[1], LoopAction::Idle));
    assert!(matches!(acts[4], LoopAction::Exit));
    assert_eq!(lp.phase(), Phase::Stopped);
    assert_eq!(row_text(&grid, 0), "abcd  ");
}

#[test]
fn wide_characters_fit_in_two_columns() {
    let mut grid = GridModel::new(2, 2);
    grid.apply("\u{4e2d}\u{6587}".as_bytes());
    let snap = grid.snapshot();
    assert_eq!(snap.char_at(0, 0), Some('\u{4e2d}'));
    assert_eq!(snap.char_at(1, 0), Some('\u{6587}'));
    grid.resize(3, 2);
    grid.resize(2, 2);
    assert_eq!(grid.snapshot().cells.len(), 4);
}
