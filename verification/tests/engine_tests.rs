use bssh::app::{App, FileEntry};
use bssh::browser::{
    browser_step, format_size, get_parent_path, handle_input_key, set_files, BrowserCommand,
    InputAction,
};
use bssh::errors::{SessionError, SetupStep};
use bssh::forward::{shell_command, shell_escape, ForwardPhase, ShellForwardState, DETACH_BYTE};
use bssh::keys::Key;
use bssh::listing::{build_listing, join_path, prepare_listing, StatInfo};
use bssh::session::{
    collect_exec, exec_result, parse_connection_string, resolve_key_path, Channel, ChannelKind,
    ConnectOutcome, ConnectionInfo, ExecEvent, TransportSession,
};
use bssh::text::parse_u16;

#[test]
fn test_connect_then_file_channel_reused() {
    // A valid destination with a key the server accepts: the session
    // comes up authenticated, the file-transfer channel opens once and
    // every later request hands back the same channel.
    let info = ConnectionInfo {
        host: "host".to_string(),
        port: 22,
        username: "user".to_string(),
        key_path: None,
    };
    let mut session = TransportSession::establish(info, ConnectOutcome::Authenticated).unwrap();
    assert!(session.valid);
    assert_eq!(session.channels_opened, 0);

    let first = session.open_file_channel(None).unwrap();
    assert_eq!(first.id, 0);
    assert_eq!(first.kind, ChannelKind::FileTransferSubsystem);
    assert_eq!(session.channels_opened, 1);

    let again = session.open_file_channel(None).unwrap();
    assert_eq!(again.id, first.id);
    assert_eq!(session.channels_opened, 1);

    let third = session.open_file_channel(None).unwrap();
    assert_eq!(third.id, first.id);
    assert_eq!(session.channels_opened, 1);
}

#[test]
fn test_connect_failures_map_to_error_kinds() {
    let info = ConnectionInfo {
        host: "host".to_string(),
        port: 22,
        username: "user".to_string(),
        key_path: None,
    };
    let r = TransportSession::establish(info.clone(), ConnectOutcome::HandshakeFailed);
    assert!(matches!(r, Err(SessionError::Transport(_))));
    let r = TransportSession::establish(info.clone(), ConnectOutcome::KeyUnavailable);
    assert!(matches!(r, Err(SessionError::Auth(_))));
    let r = TransportSession::establish(info, ConnectOutcome::KeyRejected);
    assert!(matches!(r, Err(SessionError::Auth(_))));
}

#[test]
fn test_invalidated_session_opens_nothing() {
    let info = ConnectionInfo {
        host: "host".to_string(),
        port: 22,
        username: "user".to_string(),
        key_path: None,
    };
    let mut session = TransportSession::establish(info, ConnectOutcome::Authenticated).unwrap();
    session.invalidate();
    let r = session.open_channel(ChannelKind::OneShotExec, None);
    assert!(matches!(r, Err(SessionError::Transport(_))));
    let r = session.open_file_channel(None);
    assert!(matches!(r, Err(SessionError::Transport(_))));
}

#[test]
fn test_channel_setup_failure_names_the_step() {
    let info = ConnectionInfo {
        host: "host".to_string(),
        port: 22,
        username: "user".to_string(),
        key_path: None,
    };
    let mut session = TransportSession::establish(info, ConnectOutcome::Authenticated).unwrap();
    let r = session.open_channel(ChannelKind::InteractiveShell, Some(SetupStep::RequestPty));
    match r {
        Err(SessionError::ChannelSetup(step)) => assert_eq!(step, SetupStep::RequestPty),
        _ => panic!("expected a channel setup error"),
    }
    // The failed attempt consumed nothing; the next open still works.
    let c = session.open_channel(ChannelKind::InteractiveShell, None).unwrap();
    assert_eq!(c.id, 0);
}

#[test]
fn test_listing_sorted_directories_first() {
    // Directories before files, each group lexicographic by name, and a
    // parent entry because the path is not the root.
    let names = vec![
        "zeta.txt".to_string(),
        "alpha".to_string(),
        ".".to_string(),
        "beta.txt".to_string(),
        "..".to_string(),
        "delta".to_string(),
    ];
    let prepared = prepare_listing("/srv", names);
    assert_eq!(prepared.len(), 4);
    let stats = vec![
        Some(StatInfo { is_dir: false, size: 10, modified: Some(5) }),
        Some(StatInfo { is_dir: true, size: 0, modified: None }),
        Some(StatInfo { is_dir: false, size: 20, modified: None }),
        Some(StatInfo { is_dir: true, size: 0, modified: None }),
    ];
    let listing = build_listing("/srv", prepared, stats);
    let names: Vec<&str> = listing.iter().map(|e| e.name.as_str()).collect();
    assert_eq!(names, vec!["..", "alpha", "delta", "beta.txt", "zeta.txt"]);
    assert!(listing[0].is_dir && listing[1].is_dir && listing[2].is_dir);
    assert!(!listing[3].is_dir && !listing[4].is_dir);
    assert_eq!(listing[4].path, "/srv/zeta.txt");
}

#[test]
fn test_listing_root_has_no_parent_entry() {
    let prepared = prepare_listing("/", vec!["etc".to_string(), "bin".to_string()]);
    let stats = vec![
        Some(StatInfo { is_dir: true, size: 0, modified: None }),
        Some(StatInfo { is_dir: true, size: 0, modified: None }),
    ];
    let listing = build_listing("/", prepared, stats);
    assert_eq!(listing.len(), 2);
    assert_eq!(listing[0].name, "bin");
    assert_eq!(listing[1].name, "etc");
    assert_eq!(listing[0].path, "/bin");
}

#[test]
fn test_listing_partial_stat_failure_is_isolated() {
    // One entry's metadata lookup fails: that entry falls back to a
    // regular file of size zero, the others keep their own values.
    let prepared = prepare_listing(
        "/data",
        vec!["good".to_string(), "broken".to_string(), "fine.txt".to_string()],
    );
    let stats = vec![
        Some(StatInfo { is_dir: true, size: 0, modified: Some(7) }),
        None,
        Some(StatInfo { is_dir: false, size: 999, modified: Some(8) }),
    ];
    let listing = build_listing("/data", prepared, stats);
    let broken = listing.iter().find(|e| e.name == "broken").unwrap();
    assert!(!broken.is_dir);
    assert_eq!(broken.size, 0);
    assert_eq!(broken.modified, None);
    assert_eq!(broken.path, "/data/broken");
    let good = listing.iter().find(|e| e.name == "good").unwrap();
    assert!(good.is_dir);
    assert_eq!(good.modified, Some(7));
    let fine = listing.iter().find(|e| e.name == "fine.txt").unwrap();
    assert_eq!(fine.size, 999);
    assert_eq!(fine.modified, Some(8));
}

#[test]
fn test_join_path_handles_trailing_slash() {
    assert_eq!(join_path("/", "etc"), "/etc");
    assert_eq!(join_path("/srv", "a"), "/srv/a");
    assert_eq!(join_path("/srv/", "a"), "/srv/a");
}

#[test]
fn test_transfer_round_trip_boundary_sizes() {
    // Upload then download round-trips byte for byte at the boundary
    // sizes around the 32 KiB block.
    let chunk = 32768usize;
    for n in [0usize, 1, chunk - 1, chunk, chunk + 1, 2 * chunk - 1, 2 * chunk, 2 * chunk + 1] {
        let payload: Vec<u8> = (0..n).map(|i| (i % 251) as u8).collect();
        let blocks = bssh::transfer::split_chunks(&payload);
        for (k, b) in blocks.iter().enumerate() {
            assert!(b.len() <= chunk);
            assert!(!b.is_empty());
            if k + 1 < blocks.len() {
                assert_eq!(b.len(), chunk);
            }
        }
        let back = bssh::transfer::concat_chunks(&blocks);
        assert_eq!(back, payload);
    }
}

#[test]
fn test_forwarder_detach_suspends_and_resumes_same_channel() {
    // The detach byte while forwarding suspends the loop without
    // closing the channel; the bytes queued before it are still owed to
    // the remote side, and resume continues the same shell.
    let channel = Channel { id: 7, kind: ChannelKind::InteractiveShell };
    let mut fwd = ShellForwardState::new(channel);
    fwd.resume().unwrap();
    assert_eq!(fwd.phase, ForwardPhase::Forwarding);

    let chunk = vec![b'l', b's', b'\n', DETACH_BYTE, b'x'];
    let (flush, detached) = fwd.on_local_input(&chunk);
    assert!(detached);
    assert_eq!(flush, vec![b'l', b's', b'\n']);
    assert_eq!(fwd.phase, ForwardPhase::Suspended);
    assert!(fwd.active);
    assert_eq!(fwd.channel.id, 7);

    fwd.resume().unwrap();
    assert_eq!(fwd.phase, ForwardPhase::Forwarding);
    assert_eq!(fwd.channel.id, 7);
}

#[test]
fn test_forwarder_plain_input_is_flushed_whole() {
    let channel = Channel { id: 1, kind: ChannelKind::InteractiveShell };
    let mut fwd = ShellForwardState::new(channel);
    fwd.resume().unwrap();
    let chunk = vec![1u8, 2, 3];
    let (flush, detached) = fwd.on_local_input(&chunk);
    assert!(!detached);
    assert_eq!(flush, chunk);
    assert_eq!(fwd.phase, ForwardPhase::Forwarding);
}

#[test]
fn test_forwarder_remote_exit_terminates_for_good() {
    // Remote shell exit terminates the forwarder; any further resume
    // fails with its own error instead of silently doing nothing.
    let channel = Channel { id: 3, kind: ChannelKind::InteractiveShell };
    let mut fwd = ShellForwardState::new(channel);
    fwd.resume().unwrap();
    fwd.on_remote_closed();
    assert_eq!(fwd.phase, ForwardPhase::Terminated);
    assert!(!fwd.active);
    let r = fwd.resume();
    match r {
        Err(SessionError::RemoteOperation(m)) => {
            assert_eq!(m, "the remote shell has exited");
        },
        _ => panic!("expected a refusal"),
    }
    assert_eq!(fwd.phase, ForwardPhase::Terminated);
}

#[test]
fn test_forwarder_double_start_is_refused() {
    let channel = Channel { id: 3, kind: ChannelKind::InteractiveShell };
    let mut fwd = ShellForwardState::new(channel);
    fwd.resume().unwrap();
    let r = fwd.resume();
    assert!(matches!(r, Err(SessionError::RemoteOperation(_))));
}

#[test]
fn test_scenario_connect_list_rename() {
    // Connect to user@host:22 with a valid key, list the root and see
    // directories first; after a rename the fresh listing shows the new
    // name and not the old one.
    let (user, host, port) =
        parse_connection_string("user@host:22", "fallback").unwrap();
    assert_eq!(user, "user");
    assert_eq!(host, "host");
    assert_eq!(port, 22);

    let info = ConnectionInfo { host, port, username: user, key_path: None };
    let mut session = TransportSession::establish(info, ConnectOutcome::Authenticated).unwrap();
    session.open_file_channel(None).unwrap();

    let prepared = prepare_listing("/", vec!["tmp".to_string(), "a.txt".to_string()]);
    let stats = vec![
        Some(StatInfo { is_dir: true, size: 0, modified: None }),
        Some(StatInfo { is_dir: false, size: 4, modified: None }),
    ];
    let listing = build_listing("/", prepared, stats);
    assert!(listing[0].is_dir);
    assert_eq!(listing[0].name, "tmp");

    // The remote side renames /tmp/a.txt to /tmp/b.txt; a fresh listing
    // of /tmp reflects it.
    let prepared = prepare_listing("/tmp", vec!["b.txt".to_string()]);
    let stats = vec![Some(StatInfo { is_dir: false, size: 4, modified: None })];
    let listing = build_listing("/tmp", prepared, stats);
    let names: Vec<&str> = listing.iter().map(|e| e.name.as_str()).collect();
    assert!(names.contains(&"b.txt"));
    assert!(!names.contains(&"a.txt"));
}

#[test]
fn test_parse_connection_string_forms() {
    let (u, h, p) = parse_connection_string("example.org", "me").unwrap();
    assert_eq!((u.as_str(), h.as_str(), p), ("me", "example.org", 22));
    let (u, h, p) = parse_connection_string("root@example.org", "me").unwrap();
    assert_eq!((u.as_str(), h.as_str(), p), ("root", "example.org", 22));
    let (u, h, p) = parse_connection_string("root@example.org:2222", "me").unwrap();
    assert_eq!((u.as_str(), h.as_str(), p), ("root", "example.org", 2222));
    assert!(parse_connection_string("host:notaport", "me").is_err());
    assert!(parse_connection_string("host:99999", "me").is_err());
}

#[test]
fn test_parse_u16_accepts_ports_only() {
    assert_eq!(parse_u16("0"), Some(0));
    assert_eq!(parse_u16("22"), Some(22));
    assert_eq!(parse_u16("+8022"), Some(8022));
    assert_eq!(parse_u16("65535"), Some(65535));
    assert_eq!(parse_u16("65536"), None);
    assert_eq!(parse_u16(""), None);
    assert_eq!(parse_u16("+"), None);
    assert_eq!(parse_u16("12a"), None);
    assert_eq!(parse_u16("-1"), None);
}

#[test]
fn test_resolve_key_path_default() {
    assert_eq!(resolve_key_path(&None, "/home/me"), "/home/me/.ssh/id_rsa");
    assert_eq!(
        resolve_key_path(&Some("/tmp/key".to_string()), "/home/me"),
        "/tmp/key"
    );
}

#[test]
fn test_exec_collection_and_result() {
    let events = vec![
        ExecEvent::Data(vec![b'h', b'i']),
        ExecEvent::Other,
        ExecEvent::Data(vec![b'!', b'\n']),
        ExecEvent::ExitStatus(0),
    ];
    let outcome = collect_exec(events);
    assert_eq!(outcome.output, b"hi!\n".to_vec());
    assert_eq!(outcome.exit_code, Some(0));
    let ok = exec_result(outcome).unwrap();
    assert_eq!(ok, b"hi!\n".to_vec());

    let failing = collect_exec(vec![
        ExecEvent::Data(vec![b'x']),
        ExecEvent::ExitStatus(3),
    ]);
    let r = exec_result(failing);
    match r {
        Err(SessionError::RemoteOperation(m)) => assert!(m.contains("3")),
        _ => panic!("expected a remote operation error"),
    }
}

#[test]
fn test_error_messages_name_the_failure() {
    assert_eq!(
        SessionError::Transport("boom".to_string()).message(),
        "Transport error: boom"
    );
    assert_eq!(
        SessionError::Auth("no key".to_string()).message(),
        "Authentication failed: no key"
    );
    assert_eq!(
        SessionError::ChannelSetup(SetupStep::NegotiateSubsystem).message(),
        "Channel setup failed at subsystem negotiation"
    );
    assert_eq!(
        SessionError::RemoteOperation("gone".to_string()).message(),
        "Remote operation failed: gone"
    );
    assert_eq!(
        SessionError::LocalIo("disk".to_string()).message(),
        "Local I/O error: disk"
    );
}

#[test]
fn test_shell_escape_quotes() {
    assert_eq!(shell_escape("plain"), "'plain'");
    assert_eq!(shell_escape("has space"), "'has space'");
    assert_eq!(shell_escape("it's"), "'it'\\''s'");
    assert_eq!(shell_command("/var/www"), "cd '/var/www' && exec $SHELL -l");
}

#[test]
fn test_get_parent_path_cases() {
    assert_eq!(get_parent_path("/"), "/");
    assert_eq!(get_parent_path("/etc"), "/");
    assert_eq!(get_parent_path("/etc/ssh"), "/etc");
    assert_eq!(get_parent_path("/etc/ssh/"), "/etc");
    assert_eq!(get_parent_path("relative"), "/");
}

#[test]
fn test_format_size_values() {
    assert_eq!(format_size(0), "0 B");
    assert_eq!(format_size(512), "512 B");
    assert_eq!(format_size(1023), "1023 B");
    assert_eq!(format_size(1024), "1.0 KB");
    assert_eq!(format_size(1536), "1.5 KB");
    assert_eq!(format_size(1024 * 1024), "1.0 MB");
    assert_eq!(format_size(5 * 1024 * 1024 * 1024), "5.0 GB");
    assert_eq!(format_size(3 * 1024 * 1024 * 1024 * 1024), "3.0 TB");
}

#[test]
fn test_app_selection_wraps() {
    let mut app = App::new();
    assert_eq!(app.current_path, "/");
    app.select_next();
    assert_eq!(app.selected_index, 0);

    app.files = vec![
        FileEntry {
            name: "a".to_string(),
            path: "/a".to_string(),
            is_dir: false,
            size: 0,
            modified: None,
            permissions: None,
        },
        FileEntry {
            name: "b".to_string(),
            path: "/b".to_string(),
            is_dir: true,
            size: 0,
            modified: None,
            permissions: None,
        },
    ];
    app.select_next();
    assert_eq!(app.selected_index, 1);
    app.select_next();
    assert_eq!(app.selected_index, 0);
    app.select_previous();
    assert_eq!(app.selected_index, 1);
    assert_eq!(app.get_selected_file().unwrap().name, "b");
}

#[test]
fn test_browser_enter_directory_asks_for_listing() {
    let mut app = App::new();
    app.current_path = "/srv".to_string();
    app.files = vec![FileEntry {
        name: "..".to_string(),
        path: "..".to_string(),
        is_dir: true,
        size: 0,
        modified: None,
        permissions: None,
    }];
    app.selected_index = 0;
    let cmd = browser_step(&mut app, InputAction::Enter);
    match cmd {
        BrowserCommand::ListDirectory(p) => assert_eq!(p, "/"),
        _ => panic!("expected a listing request"),
    }
    assert_eq!(app.current_path, "/");
    assert_eq!(app.selected_index, 0);
}

#[test]
fn test_browser_keys_map_to_actions() {
    assert!(matches!(handle_input_key(Key::Char('k'), false), InputAction::MoveUp));
    assert!(matches!(handle_input_key(Key::Down, false), InputAction::MoveDown));
    assert!(matches!(handle_input_key(Key::Char('q'), true), InputAction::Quit));
    assert!(matches!(handle_input_key(Key::Char('q'), false), InputAction::Idle));
    assert!(matches!(handle_input_key(Key::Char('d'), false), InputAction::Download));
    assert!(matches!(handle_input_key(Key::Delete, false), InputAction::Delete));
}

#[test]
fn test_set_files_clamps_selection() {
    let mut app = App::new();
    app.selected_index = 5;
    let files = vec![FileEntry {
        name: "only".to_string(),
        path: "/only".to_string(),
        is_dir: false,
        size: 1,
        modified: None,
        permissions: None,
    }];
    set_files(&mut app, files);
    assert_eq!(app.selected_index, 0);
    set_files(&mut app, Vec::new());
    assert_eq!(app.selected_index, 0);
}
