use ollama_gateway::outcome::{
    installed_outcome, locate_outcome, ready_outcome, run_outcome, ProcessReport,
};

fn exited(success: bool, stdout: &[u8], stderr: &[u8]) -> ProcessReport {
    ProcessReport::Exited { success, stdout: stdout.to_vec(), stderr: stderr.to_vec() }
}

fn launch_failed() -> ProcessReport {
    ProcessReport::LaunchFailed("No such file or directory (os error 2)".to_string())
}

#[test]
fn successful_run_returns_output() {
    let r = run_outcome(exited(true, b"The sky is blue.\n", b"warning"));
    assert_eq!(r, Ok("The sky is blue.\n".to_string()));
}

#[test]
fn successful_run_with_empty_output() {
    assert_eq!(run_outcome(exited(true, b"", b"")), Ok(String::new()));
}

#[test]
fn output_is_decoded_lossily() {
    let r = run_outcome(exited(true, &[b'o', b'k', 0xFF, b'!'], b""));
    assert_eq!(r, Ok("ok\u{FFFD}!".to_string()));
    let e = run_outcome(exited(false, b"", &[0xC3]));
    assert_eq!(e, Err("\u{FFFD}".to_string()));
}

#[test]
fn failed_run_returns_error_stream() {
    let r = run_outcome(exited(false, b"partial", b"model not found"));
    assert_eq!(r, Err("model not found".to_string()));
}

#[test]
fn failed_run_with_empty_error_stream() {
    assert_eq!(run_outcome(exited(false, b"partial", b"")), Err(String::new()));
}

#[test]
fn stream_failure_is_reported() {
    let r = run_outcome(ProcessReport::StreamFailed("Broken pipe (os error 32)".to_string()));
    assert_eq!(r, Err("Broken pipe (os error 32)".to_string()));
}

#[test]
fn launch_failure_fails_every_run_operation() {
    let msg = "No such file or directory (os error 2)".to_string();
    assert_eq!(run_outcome(launch_failed()), Err(msg.clone()));
    assert_eq!(installed_outcome(launch_failed()), Err(msg.clone()));
    assert_eq!(ready_outcome(launch_failed()), Err(msg.clone()));
    assert_eq!(locate_outcome(launch_failed()), Err(msg));
}

#[test]
fn installed_needs_success_and_output() {
    assert_eq!(installed_outcome(exited(true, b"ollama version is 0.5.7\n", b"")), Ok(true));
    assert_eq!(installed_outcome(exited(true, b"", b"nothing printed")), Err("nothing printed".to_string()));
    assert_eq!(installed_outcome(exited(false, b"x", b"not found")), Err("not found".to_string()));
}

#[test]
fn ready_follows_exit_status_only() {
    assert_eq!(ready_outcome(exited(true, b"", b"")), Ok(true));
    assert_eq!(ready_outcome(exited(false, b"", b"error")), Ok(false));
}

#[test]
fn locate_returns_first_line_trimmed() {
    let r = locate_outcome(exited(true, b"/usr/local/bin/ollama\n", b""));
    assert_eq!(r, Ok("/usr/local/bin/ollama".to_string()));
    let w = locate_outcome(exited(
        true,
        b"C:\\Users\\me\\AppData\\Local\\Programs\\Ollama\\ollama.exe\r\nC:\\other\\ollama.exe\r\n",
        b"",
    ));
    assert_eq!(w, Ok("C:\\Users\\me\\AppData\\Local\\Programs\\Ollama\\ollama.exe".to_string()));
}

#[test]
fn locate_trims_surrounding_whitespace() {
    let r = locate_outcome(exited(true, " \t/opt/ollama \u{3000}\n\n".as_bytes(), b""));
    assert_eq!(r, Ok("/opt/ollama".to_string()));
    assert_eq!(locate_outcome(exited(true, b"", b"")), Ok(String::new()));
    assert_eq!(locate_outcome(exited(true, b"\nsecond", b"")), Ok(String::new()));
}

#[test]
fn locate_failure_returns_error_stream() {
    let r = locate_outcome(exited(false, b"", b"INFO: Could not find files"));
    assert_eq!(r, Err("INFO: Could not find files".to_string()));
}
