use shell_escape_fs::shell::{prepare_command, ExecutionResult, FinishedExecution};

#[test]
fn diagnostics_json_for_a_ran_command() {
    let fe = FinishedExecution {
        command: b"echo hi".to_vec(),
        result: ExecutionResult::Ran {
            error_code: 0,
            stdout: b"hi\n".to_vec(),
            stderr: Vec::new(),
        },
    };
    assert_eq!(
        fe.summarize_into_json(),
        br#"{"command":"echo hi","result":{"ran":true,"error_code":0}}"#.to_vec()
    );
}

#[test]
fn diagnostics_json_for_a_negative_exit_code() {
    let fe = FinishedExecution {
        command: b"x".to_vec(),
        result: ExecutionResult::Ran {
            error_code: -127,
            stdout: Vec::new(),
            stderr: Vec::new(),
        },
    };
    assert_eq!(
        fe.summarize_into_json(),
        br#"{"command":"x","result":{"ran":true,"error_code":-127}}"#.to_vec()
    );
}

#[test]
fn diagnostics_json_escapes_the_message() {
    let fe = FinishedExecution {
        command: b"x".to_vec(),
        result: ExecutionResult::FailedToSpawn("a \"quoted\" failure".to_string()),
    };
    assert_eq!(
        fe.summarize_into_json(),
        br#"{"command":"x","result":{"ran":false,"error":"Failed to spawn","message":"a \"quoted\" failure"}}"#
            .to_vec()
    );
}

#[test]
fn diagnostics_json_replaces_invalid_utf8() {
    let fe = FinishedExecution {
        command: vec![0xab, 0xcd],
        result: ExecutionResult::FailedToWait("gone".to_string()),
    };
    let json = fe.summarize_into_json();
    let v: serde_json::Value = serde_json::from_slice(&json).unwrap();
    assert_eq!(v["command"], "\u{fffd}\u{fffd}");
    assert_eq!(v["result"]["error"], "Failed to wait");
    assert_eq!(v["result"]["message"], "gone");
}

#[test]
fn prepare_command_appends_one_newline() {
    assert_eq!(prepare_command(b"echo hi".to_vec()), b"echo hi\n".to_vec());
    assert_eq!(prepare_command(Vec::new()), b"\n".to_vec());
}
