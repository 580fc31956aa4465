use std::sync::mpsc;

use shell_escape_fs::fs::{FileKind, FsEntry, FsError, LookupReply, ShellEscapeFs};
use shell_escape_fs::shell::{Command, ExecutionResult, FinishedCommand, FinishedExecution};

fn make_fs() -> (ShellEscapeFs, mpsc::Receiver<Command>, mpsc::Sender<FinishedCommand>) {
    let (cmd_tx, cmd_rx) = mpsc::channel();
    let (res_tx, res_rx) = mpsc::channel();
    (ShellEscapeFs::new(cmd_tx, res_rx), cmd_rx, res_tx)
}

fn lookup_inode(fs: &mut ShellEscapeFs, name: &[u8]) -> u64 {
    match fs.lookup(1, name) {
        Ok(LookupReply::File(e)) => e.inode,
        other => panic!("expected a file for {:?}, got {:?}", name, other.is_ok()),
    }
}

fn append_hex(fs: &mut ShellEscapeFs, name: &[u8]) {
    let ino = lookup_inode(fs, name);
    assert_eq!(fs.read_file(ino, 0, 4096).unwrap(), b"!");
}

fn read_all(fs: &mut ShellEscapeFs, ino: u64) -> Vec<u8> {
    fs.read_file(ino, 0, 1 << 20).unwrap()
}

#[test]
fn empty_exec_is_a_no_op() {
    let (mut fs, cmd_rx, _res_tx) = make_fs();
    let exec_ino = fs.exec_file_inode;
    assert_eq!(fs.read_file(exec_ino, 0, 4096).unwrap(), b"!");
    assert!(cmd_rx.try_recv().is_err());
    assert!(fs.decoded_command_buffer.is_empty());
    assert_eq!(fs.exec_file_inode, exec_ino);
    let log_ino = fs.log_file_inode;
    let log = read_all(&mut fs, log_ino);
    assert!(String::from_utf8_lossy(&log).contains("Ignoring execution"));
}

#[test]
fn two_byte_append_exec_wait() {
    let (mut fs, cmd_rx, res_tx) = make_fs();
    append_hex(&mut fs, b"ab");
    assert_eq!(fs.decoded_command_buffer, vec![0xab]);
    append_hex(&mut fs, b"cd");
    assert_eq!(fs.decoded_command_buffer, vec![0xab, 0xcd]);

    let exec_ino = fs.exec_file_inode;
    assert_eq!(fs.read_file(exec_ino, 0, 4096).unwrap(), b"!");
    match cmd_rx.try_recv().unwrap() {
        Command::Execute(payload) => assert_eq!(payload, vec![0xab, 0xcd]),
        Command::TerminateAll => panic!("expected an execute"),
    }
    assert!(fs.decoded_command_buffer.is_empty());
    assert_ne!(fs.exec_file_inode, exec_ino);

    res_tx
        .send(FinishedCommand::Execution(FinishedExecution {
            command: vec![0xab, 0xcd, b'\n'],
            result: ExecutionResult::FailedToSpawn("No such file or directory".to_string()),
        }))
        .unwrap();
    let wait_ino = fs.wait_file_inode;
    assert_eq!(fs.read_file(wait_ino, 0, 4096).unwrap(), b"!");
    assert_ne!(fs.wait_file_inode, wait_ino);

    let diag_ino = fs.diagnostics_file_inode;
    let diag = read_all(&mut fs, diag_ino);
    let v: serde_json::Value = serde_json::from_slice(&diag).unwrap();
    assert_eq!(v["result"]["ran"], serde_json::Value::Bool(false));
    assert_eq!(v["result"]["error"], "Failed to spawn");
    assert_eq!(v["result"]["message"], "No such file or directory");
    let stdout_ino = fs.stdout_file_inode;
    let stderr_ino = fs.stderr_file_inode;
    assert!(read_all(&mut fs, stdout_ino).is_empty());
    assert!(read_all(&mut fs, stderr_ino).is_empty());
}

#[test]
fn successful_command() {
    let (mut fs, cmd_rx, res_tx) = make_fs();
    append_hex(&mut fs, b"6563686f206869");
    assert_eq!(fs.decoded_command_buffer, b"echo hi".to_vec());
    let exec_ino = fs.exec_file_inode;
    assert_eq!(fs.read_file(exec_ino, 0, 4096).unwrap(), b"!");
    match cmd_rx.try_recv().unwrap() {
        Command::Execute(payload) => assert_eq!(payload, b"echo hi".to_vec()),
        Command::TerminateAll => panic!("expected an execute"),
    }
    res_tx
        .send(FinishedCommand::Execution(FinishedExecution {
            command: b"echo hi\n".to_vec(),
            result: ExecutionResult::Ran {
                error_code: 0,
                stdout: b"hi\n".to_vec(),
                stderr: Vec::new(),
            },
        }))
        .unwrap();
    let wait_ino = fs.wait_file_inode;
    assert_eq!(fs.read_file(wait_ino, 0, 4096).unwrap(), b"!");

    let diag_ino = fs.diagnostics_file_inode;
    let diag = read_all(&mut fs, diag_ino);
    let v: serde_json::Value = serde_json::from_slice(&diag).unwrap();
    assert_eq!(v["command"], "echo hi\n");
    assert_eq!(v["result"]["ran"], serde_json::Value::Bool(true));
    assert_eq!(v["result"]["error_code"], 0);
    let stdout_ino = fs.stdout_file_inode;
    let stderr_ino = fs.stderr_file_inode;
    assert_eq!(read_all(&mut fs, stdout_ino), b"hi\n");
    assert!(read_all(&mut fs, stderr_ino).is_empty());
}

#[test]
fn nonce_prefix_defeats_caching() {
    let (mut fs, _cmd_rx, _res_tx) = make_fs();
    append_hex(&mut fs, b"ff");
    let n1 = lookup_inode(&mut fs, b"n1_exec");
    let n2 = lookup_inode(&mut fs, b"n2_exec");
    assert_eq!(n1, fs.exec_file_inode);
    assert_eq!(n2, fs.exec_file_inode);
    assert_eq!(fs.read_file(n1, 0, 4096).unwrap(), b"!");
    assert_ne!(fs.exec_file_inode, n1);
    let n2_after = lookup_inode(&mut fs, b"n2_exec");
    assert_eq!(n2_after, fs.exec_file_inode);
    assert_ne!(n2_after, n2);
}

#[test]
fn extension_stripped() {
    let (mut fs, _cmd_rx, _res_tx) = make_fs();
    match fs.lookup(1, b"deadbeef.dat") {
        Ok(LookupReply::File(e)) => match e.entry {
            FsEntry::AppendDataFile(payload) => assert_eq!(payload, b"deadbeef".to_vec()),
            _ => panic!("expected an append file"),
        },
        _ => panic!("expected a file"),
    }
}

#[test]
fn reset_drains_in_flight() {
    let (mut fs, cmd_rx, res_tx) = make_fs();
    for name in [b"aa".as_slice(), b"bb".as_slice(), b"cc".as_slice()] {
        append_hex(&mut fs, name);
        let exec_ino = fs.exec_file_inode;
        assert_eq!(fs.read_file(exec_ino, 0, 4096).unwrap(), b"!");
    }
    for _ in 0..3 {
        match cmd_rx.try_recv().unwrap() {
            Command::Execute(_) => {}
            Command::TerminateAll => panic!("expected an execute"),
        }
    }
    append_hex(&mut fs, b"ff");
    assert_eq!(fs.decoded_command_buffer, vec![0xff]);

    for payload in [b"aa".as_slice(), b"bb".as_slice(), b"cc".as_slice()] {
        res_tx
            .send(FinishedCommand::Execution(FinishedExecution {
                command: payload.to_vec(),
                result: ExecutionResult::FailedToSpawn("cancelled".to_string()),
            }))
            .unwrap();
    }
    res_tx.send(FinishedCommand::Termination).unwrap();

    let reset_ino = fs.reset_file_inode;
    assert_eq!(fs.read_file(reset_ino, 0, 4096).unwrap(), b"!");
    match cmd_rx.try_recv().unwrap() {
        Command::TerminateAll => {}
        Command::Execute(_) => panic!("expected a terminate-all"),
    }
    assert!(fs.decoded_command_buffer.is_empty());
    assert_ne!(fs.reset_file_inode, reset_ino);
    let log_ino = fs.log_file_inode;
    let log = read_all(&mut fs, log_ino);
    assert!(String::from_utf8_lossy(&log).contains("Terminating"));
}

#[test]
fn lookup_returns_current_bindings() {
    let (mut fs, _cmd_rx, _res_tx) = make_fs();
    assert_eq!(lookup_inode(&mut fs, b"exec"), fs.exec_file_inode);
    assert_eq!(lookup_inode(&mut fs, b"wait"), fs.wait_file_inode);
    assert_eq!(lookup_inode(&mut fs, b"reset"), fs.reset_file_inode);
    assert_eq!(lookup_inode(&mut fs, b"diagnostics"), fs.diagnostics_file_inode);
    assert_eq!(lookup_inode(&mut fs, b"stdout"), fs.stdout_file_inode);
    assert_eq!(lookup_inode(&mut fs, b"stderr"), fs.stderr_file_inode);
    assert_eq!(lookup_inode(&mut fs, b"log"), fs.log_file_inode);
    assert_eq!(fs.exec_file_inode, 256);
    assert_eq!(fs.log_file_inode, 262);
}

#[test]
fn lookup_rejects_unknown_names() {
    let (mut fs, _cmd_rx, _res_tx) = make_fs();
    assert_eq!(fs.lookup(1, b"nope").unwrap_err(), FsError::NoSuchEntry);
    assert_eq!(fs.lookup(1, b"DEADBEEF").unwrap_err(), FsError::NoSuchEntry);
    assert_eq!(fs.lookup(1, b"").unwrap_err(), FsError::NoSuchEntry);
}

#[test]
fn lookup_dot_resolves_to_root() {
    let (mut fs, _cmd_rx, _res_tx) = make_fs();
    assert!(matches!(fs.lookup(1, b"."), Ok(LookupReply::RootDir)));
    assert!(matches!(fs.lookup(1, b"nonce_."), Ok(LookupReply::RootDir)));
}

#[test]
fn getattr_reports_stored_entries() {
    let (mut fs, _cmd_rx, _res_tx) = make_fs();
    let root = fs.getattr(1).unwrap();
    assert_eq!(root.ino, 1);
    assert_eq!(root.kind, FileKind::Directory);
    assert_eq!(root.perm, 0o555);

    let ino = lookup_inode(&mut fs, b"ab");
    let attrs = fs.getattr(ino).unwrap();
    assert_eq!(attrs.ino, ino);
    assert_eq!(attrs.size, 1);
    assert_eq!(attrs.kind, FileKind::RegularFile);
    assert_eq!(attrs.perm, 0o444);

    assert!(fs.getattr(9999).is_none());
}

#[test]
fn result_read_returns_exact_slice() {
    let (mut fs, _cmd_rx, res_tx) = make_fs();
    res_tx
        .send(FinishedCommand::Execution(FinishedExecution {
            command: b"x".to_vec(),
            result: ExecutionResult::Ran {
                error_code: 0,
                stdout: b"0123456789".to_vec(),
                stderr: Vec::new(),
            },
        }))
        .unwrap();
    let wait_ino = fs.wait_file_inode;
    fs.read_file(wait_ino, 0, 1).unwrap();
    let stdout_ino = fs.stdout_file_inode;
    assert_eq!(fs.read_file(stdout_ino, 2, 3).unwrap(), b"234");
    assert_eq!(fs.read_file(stdout_ino, 8, 10).unwrap(), b"89");
    assert_eq!(fs.read_file(stdout_ino, 0, 10).unwrap(), b"0123456789");
    assert_eq!(fs.read_file(stdout_ino, 10, 5).unwrap(), b"");
    assert_eq!(fs.read_file(stdout_ino, 20, 5).unwrap(), b"");
}

#[test]
fn zero_length_read_triggers_nothing() {
    let (mut fs, cmd_rx, _res_tx) = make_fs();
    let ino = lookup_inode(&mut fs, b"ab");
    assert_eq!(fs.read_file(ino, 0, 0).unwrap(), b"");
    assert!(fs.decoded_command_buffer.is_empty());
    assert_eq!(fs.read_file(ino, 5, 10).unwrap(), b"");
    assert!(fs.decoded_command_buffer.is_empty());
    assert!(cmd_rx.try_recv().is_err());
}

#[test]
fn read_unknown_inode_fails() {
    let (mut fs, _cmd_rx, _res_tx) = make_fs();
    assert_eq!(fs.read_file(9999, 0, 10).unwrap_err(), FsError::NoSuchEntry);
}

#[test]
fn wait_rejects_stray_termination() {
    let (mut fs, _cmd_rx, res_tx) = make_fs();
    res_tx.send(FinishedCommand::Termination).unwrap();
    let wait_ino = fs.wait_file_inode;
    assert_eq!(
        fs.read_file(wait_ino, 0, 10).unwrap_err(),
        FsError::UnexpectedTermination
    );
}

#[test]
fn readdir_lists_the_seven_named_files() {
    let (fs, _cmd_rx, _res_tx) = make_fs();
    let entries = fs.readdir(1, 0, 0);
    assert_eq!(entries.len(), 9);
    let names: Vec<Vec<u8>> = entries.iter().map(|e| e.name.clone()).collect();
    assert_eq!(
        names,
        vec![
            b".".to_vec(),
            b"..".to_vec(),
            b"exec".to_vec(),
            b"wait".to_vec(),
            b"reset".to_vec(),
            b"diagnostics".to_vec(),
            b"stdout".to_vec(),
            b"stderr".to_vec(),
            b"log".to_vec(),
        ]
    );
    assert_eq!(entries[0].ino, 1);
    assert_eq!(entries[0].kind, FileKind::Directory);
    assert_eq!(entries[2].ino, fs.exec_file_inode);
    assert_eq!(entries[8].ino, fs.log_file_inode);
    let tail = fs.readdir(1, 0, 7);
    assert_eq!(tail.len(), 2);
    assert_eq!(tail[0].name, b"stderr".to_vec());
    let past = fs.readdir(1, 0, 12);
    assert!(past.is_empty());
}

#[test]
fn append_log_line_shows_buffer() {
    let (mut fs, _cmd_rx, _res_tx) = make_fs();
    append_hex(&mut fs, b"6869");
    let log_ino = fs.log_file_inode;
    let log = read_all(&mut fs, log_ino);
    let text = String::from_utf8_lossy(&log).to_string();
    assert!(text.contains("[buf=hi] Appended"));
}

#[test]
fn closed_command_channel_is_reported() {
    let (mut fs, cmd_rx, _res_tx) = make_fs();
    drop(cmd_rx);
    append_hex(&mut fs, b"ff");
    let exec_ino = fs.exec_file_inode;
    assert_eq!(
        fs.read_file(exec_ino, 0, 10).unwrap_err(),
        FsError::ChannelClosed
    );
}

#[test]
fn closed_result_channel_is_reported() {
    let (mut fs, _cmd_rx, res_tx) = make_fs();
    drop(res_tx);
    let wait_ino = fs.wait_file_inode;
    assert_eq!(
        fs.read_file(wait_ino, 0, 10).unwrap_err(),
        FsError::ChannelClosed
    );
}

#[test]
fn nonce_and_extension_are_both_stripped() {
    let (mut fs, _cmd_rx, _res_tx) = make_fs();
    match fs.lookup(1, b"nonce_ab.dat") {
        Ok(LookupReply::File(e)) => match e.entry {
            FsEntry::AppendDataFile(payload) => assert_eq!(payload, b"ab".to_vec()),
            _ => panic!("expected an append file"),
        },
        _ => panic!("expected a file"),
    }
    match fs.lookup(1, b"ab_cd") {
        Ok(LookupReply::File(e)) => match e.entry {
            FsEntry::AppendDataFile(payload) => assert_eq!(payload, b"cd".to_vec()),
            _ => panic!("expected an append file"),
        },
        _ => panic!("expected a file"),
    }
    assert_eq!(lookup_inode(&mut fs, b"x_y_exec"), fs.exec_file_inode);
}
