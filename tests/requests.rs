use ollama_gateway::invocation::{
    check_model_ready_request, check_tool_installed_request, command_line, locate_tool_request,
    run_prompt_request, wrap, wrapping_for, Invocation, Platform, Wrapping,
};

fn strings(v: &[&str]) -> Vec<String> {
    v.iter().map(|s| s.to_string()).collect()
}

fn assert_invocation(inv: &Invocation, program: &str, args: &[&str], input: Option<&[u8]>) {
    assert_eq!(inv.program, program);
    assert_eq!(inv.args, strings(args));
    assert_eq!(inv.input.as_deref(), input);
}

#[test]
fn prompt_without_model_uses_default_model() {
    let inv = run_prompt_request("Why is the sky blue?", None);
    assert_invocation(&inv, "ollama", &["run", "deepseek-r1:7b"], Some(b"Why is the sky blue?"));
}

#[test]
fn prompt_with_model_uses_that_model() {
    let inv = run_prompt_request("hi", Some("deepseek-r1:14b".to_string()));
    assert_invocation(&inv, "ollama", &["run", "deepseek-r1:14b"], Some(b"hi"));
}

#[test]
fn prompt_bytes_are_utf8_of_prompt() {
    let inv = run_prompt_request("héllo", None);
    assert_eq!(inv.input, Some("héllo".as_bytes().to_vec()));
    let empty = run_prompt_request("", None);
    assert_eq!(empty.input, Some(Vec::new()));
}

#[test]
fn installed_probe_is_direct_on_unix() {
    let inv = check_tool_installed_request(Platform::Unix);
    assert_invocation(&inv, "ollama", &["--version"], None);
}

#[test]
fn installed_probe_goes_through_shell_on_windows() {
    let inv = check_tool_installed_request(Platform::Windows);
    assert_invocation(&inv, "powershell", &["-Command", "ollama --version"], None);
}

#[test]
fn ready_probe_asks_about_default_model() {
    let unix = check_model_ready_request(Platform::Unix);
    assert_invocation(&unix, "ollama", &["ps", "deepseek-r1:7b"], None);
    let windows = check_model_ready_request(Platform::Windows);
    assert_invocation(&windows, "powershell", &["-Command", "ollama ps deepseek-r1:7b"], None);
}

#[test]
fn locate_probe_uses_platform_command() {
    assert_invocation(&locate_tool_request(Platform::Unix), "which", &["ollama"], None);
    assert_invocation(&locate_tool_request(Platform::Windows), "where", &["ollama"], None);
}

#[test]
fn wrapping_depends_on_platform() {
    assert_eq!(wrapping_for(Platform::Windows), Wrapping::Shell);
    assert_eq!(wrapping_for(Platform::Unix), Wrapping::Direct);
}

#[test]
fn command_line_joins_with_single_spaces() {
    assert_eq!(command_line(&Vec::new()), "");
    assert_eq!(command_line(&strings(&["one"])), "one");
    assert_eq!(command_line(&strings(&["a", "b c", "d"])), "a b c d");
}

#[test]
fn direct_wrap_keeps_program_args_and_input() {
    let inv = wrap(Wrapping::Direct, "tool", strings(&["x", "y"]), Some(vec![1, 2]));
    assert_invocation(&inv, "tool", &["x", "y"], Some(&[1, 2]));
}

#[test]
fn shell_wrap_without_args() {
    let inv = wrap(Wrapping::Shell, "tool", Vec::new(), None);
    assert_invocation(&inv, "powershell", &["-Command", "tool"], None);
}
