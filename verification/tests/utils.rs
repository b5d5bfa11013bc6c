use oss_porter_core::utils::{
    check_tool_exists, failure_of, run_command_capture, run_git_command, run_in_order, Invocation,
    Launch, Next, ProcessOutput, ToolProbe,
};
use oss_porter_core::PorterError;

fn args(items: &[&str]) -> Vec<String> {
    items.iter().map(|s| s.to_string()).collect()
}

fn exited(success: bool, stdout: &[u8], stderr: &[u8]) -> Launch {
    Launch::Exited(ProcessOutput {
        success,
        status: if success { "exit status: 0".to_string() } else { "exit status: 2".to_string() },
        stdout: stdout.to_vec(),
        stderr: stderr.to_vec(),
    })
}

#[test]
fn successful_exit_yields_the_output() {
    let launch = exited(true, b"hello", b"note");
    let out = run_command_capture("tool", &args(&["a", "b"]), "/tmp", &launch).unwrap();
    assert!(out.success);
    assert_eq!(out.status, "exit status: 0");
    assert_eq!(out.stdout, b"hello".to_vec());
    assert_eq!(out.stderr, b"note".to_vec());
}

#[test]
fn failed_exit_carries_command_directory_status_and_output() {
    let launch = exited(false, b"partial", b"went wrong");
    match run_command_capture("tool", &args(&["one", "two words", "3"]), "/tmp/x", &launch) {
        Err(PorterError::GitCommand { cmd, cwd, status, stdout, stderr }) => {
            assert_eq!(cmd, "tool one two words 3");
            assert_eq!(cwd, "/tmp/x");
            assert_eq!(status, "exit status: 2");
            assert_eq!(stdout, "partial");
            assert_eq!(stderr, "went wrong");
        }
        other => panic!("unexpected: {:?}", other),
    }
}

#[test]
fn command_line_without_arguments_keeps_the_space() {
    match run_command_capture("tool", &args(&[]), "/", &exited(false, b"", b"")) {
        Err(PorterError::GitCommand { cmd, .. }) => assert_eq!(cmd, "tool "),
        other => panic!("unexpected: {:?}", other),
    }
}

#[test]
fn malformed_output_is_decoded_with_replacement_characters() {
    let launch = exited(false, &[0x68, 0x69, 0xff], &[0xc3, 0x28, b'!']);
    match run_git_command(&args(&["status"]), "/repo", &launch) {
        Err(PorterError::GitCommand { cmd, stdout, stderr, .. }) => {
            assert_eq!(cmd, "git status");
            assert_eq!(stdout, "hi\u{fffd}");
            assert_eq!(stderr, "\u{fffd}(!");
        }
        other => panic!("unexpected: {:?}", other),
    }
}

#[test]
fn well_formed_multibyte_output_is_kept() {
    let launch = exited(false, "gr\u{fc}\u{df}e \u{1f600}".as_bytes(), b"");
    match run_git_command(&args(&["x"]), "/repo", &launch) {
        Err(PorterError::GitCommand { stdout, .. }) => assert_eq!(stdout, "gr\u{fc}\u{df}e \u{1f600}"),
        other => panic!("unexpected: {:?}", other),
    }
}

#[test]
fn launches_that_did_not_exit_are_errors() {
    match run_git_command(&args(&["x"]), "/repo", &Launch::SpawnFailed("denied".to_string())) {
        Err(PorterError::Io { detail, path }) => {
            assert_eq!(detail, "denied");
            assert_eq!(path, "/repo");
        }
        other => panic!("unexpected: {:?}", other),
    }
    match failure_of("/repo", &Launch::StdinFailed("pipe".to_string())) {
        Some(PorterError::Io { detail, path }) => {
            assert_eq!(detail, "pipe");
            assert_eq!(path, "stdin");
        }
        other => panic!("unexpected: {:?}", other),
    }
    assert!(matches!(
        failure_of("/repo", &Launch::StdinWriterPanicked),
        Some(PorterError::GitOperation(_))
    ));
    assert!(failure_of("/repo", &exited(false, b"", b"")).is_none());
}

#[test]
fn tool_probe_is_judged() {
    assert!(check_tool_exists("git", &ToolProbe::Ran { success: true }).is_ok());
    match check_tool_exists("git", &ToolProbe::Ran { success: false }) {
        Err(PorterError::ToolNotFound(message)) => {
            assert_eq!(message, "Tool 'git' command check failed.")
        }
        other => panic!("unexpected: {:?}", other),
    }
    match check_tool_exists("git-filter-repo", &ToolProbe::NotFound) {
        Err(PorterError::ToolNotFound(name)) => assert_eq!(name, "git-filter-repo"),
        other => panic!("unexpected: {:?}", other),
    }
    match check_tool_exists("git", &ToolProbe::Failed("permission denied".to_string())) {
        Err(PorterError::Io { detail, path }) => {
            assert_eq!(detail, "permission denied");
            assert_eq!(path, "git");
        }
        other => panic!("unexpected: {:?}", other),
    }
}

fn command(name: &str) -> Invocation {
    Invocation { program: "git".to_string(), args: args(&[name]), cwd: "/r".to_string(), stdin: None }
}

#[test]
fn commands_in_order_skip_the_replies_before_from() {
    let replies = vec![exited(false, b"", b"ignored"), exited(true, b"", b"")];
    match run_in_order(vec![command("a"), command("b")], &replies, 1) {
        Next::Run(next) => assert_eq!(next.args, vec!["b"]),
        other => panic!("unexpected: {:?}", other),
    }
    assert!(matches!(run_in_order(vec![], &replies, 2), Next::Done(Ok(()))));
    match run_in_order(vec![command("a"), command("b")], &replies, 0) {
        Next::Done(Err(PorterError::GitCommand { cmd, .. })) => assert_eq!(cmd, "git a"),
        other => panic!("unexpected: {:?}", other),
    }
}

#[test]
fn error_messages_read_as_intended() {
    assert_eq!(PorterError::Config("bad".to_string()).message(), "Configuration Error: bad");
    assert_eq!(
        PorterError::ConfigNotFound("/home/u/.oss-porter.toml".to_string()).message(),
        "Configuration file not found at path: /home/u/.oss-porter.toml\nConsider running `oss-porter config init` to create a default file."
    );
    assert_eq!(
        PorterError::Io { detail: "denied".to_string(), path: "/x".to_string() }.message(),
        "I/O Error accessing '/x': denied"
    );
    assert_eq!(
        PorterError::FsExtra("copy".to_string()).message(),
        "Filesystem operation failed: copy"
    );
    assert_eq!(
        PorterError::GitCommand {
            cmd: "git x".to_string(),
            cwd: "/r".to_string(),
            status: "exit status: 1".to_string(),
            stdout: "o".to_string(),
            stderr: "e".to_string(),
        }
        .message(),
        "Git command failed.\n Command: git x\n CWD: /r\n Status: exit status: 1\n Stdout: o\n Stderr: e"
    );
    assert_eq!(
        PorterError::GitOperation("nope".to_string()).message(),
        "Git operation failed: nope"
    );
    assert_eq!(
        PorterError::PathNotFound("/p".to_string()).message(),
        "Required path not found: /p"
    );
    assert_eq!(
        PorterError::OutputPathExists("/o".to_string()).message(),
        "Output path already exists and is not empty: /o"
    );
    assert_eq!(
        PorterError::ToolNotFound("git".to_string()).message(),
        "Required external tool 'git' not found in PATH. Please install it."
    );
    assert_eq!(
        PorterError::SecretsFound("s".to_string()).message(),
        "Secrets Scan Warning: s"
    );
    assert_eq!(
        PorterError::InternalDependency("d".to_string()).message(),
        "Dependency Check Warning: d"
    );
    assert_eq!(
        PorterError::TomlParse { detail: "line 1".to_string(), path: "/c".to_string() }.message(),
        "Failed to parse TOML file '/c': line 1"
    );
    assert_eq!(
        PorterError::TomlSerialize("x".to_string()).message(),
        "Failed to serialize TOML data: x"
    );
    assert_eq!(
        PorterError::TempDir { detail: "full".to_string() }.message(),
        "Failed to create/access temporary directory: full"
    );
}

#[test]
fn missing_standard_input_is_reported() {
    match failure_of("/repo", &Launch::StdinUnavailable) {
        Some(PorterError::GitOperation(message)) => {
            assert_eq!(message, "Failed to open stdin for git am")
        }
        other => panic!("unexpected: {:?}", other),
    }
}
