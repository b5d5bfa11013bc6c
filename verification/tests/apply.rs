use oss_porter_core::update::{
    abort_apply_session, apply_commit_to_output, get_commit_diff_relative, output_shows_conflict,
    relative_flag, ApplyResult,
};
use oss_porter_core::utils::{Launch, Next, ProcessOutput};
use oss_porter_core::{HistoryMode, PorterError, ProjectConfig};

fn sample_config() -> ProjectConfig {
    ProjectConfig {
        internal_repo_path: "/work/internal".to_string(),
        project_subdir: "libs/widget".to_string(),
        output_path: "/work/public".to_string(),
        public_repo_url: None,
        history_mode: HistoryMode::CleanSlate,
        license: None,
        internal_branch: "main".to_string(),
        public_branch: "main".to_string(),
    }
}

fn exited(success: bool, stdout: &str, stderr: &str) -> Launch {
    Launch::Exited(ProcessOutput {
        success,
        status: if success { "exit status: 0".to_string() } else { "exit status: 128".to_string() },
        stdout: stdout.as_bytes().to_vec(),
        stderr: stderr.as_bytes().to_vec(),
    })
}

#[test]
fn apply_begins_by_writing_the_patch() {
    match apply_commit_to_output(&sample_config(), "c1", &vec![]) {
        Next::Run(command) => {
            assert_eq!(command.program, "git");
            assert_eq!(
                command.args,
                vec![
                    "format-patch",
                    "--stdout",
                    "-1",
                    "c1",
                    "--relative=libs/widget",
                    "--",
                    "libs/widget",
                ]
            );
            assert_eq!(command.cwd, "/work/internal");
            assert!(command.stdin.is_none());
        }
        other => panic!("unexpected: {:?}", other),
    }
}

#[test]
fn empty_patch_is_success_without_apply() {
    let replies = vec![exited(true, "", "")];
    match apply_commit_to_output(&sample_config(), "c1", &replies) {
        Next::Done(Ok(result)) => assert_eq!(result, ApplyResult::Success),
        other => panic!("unexpected: {:?}", other),
    }
}

#[test]
fn patch_is_fed_to_the_apply() {
    let replies = vec![exited(true, "From c1\npatch body\n", "")];
    match apply_commit_to_output(&sample_config(), "c1", &replies) {
        Next::Run(command) => {
            assert_eq!(command.program, "git");
            assert_eq!(
                command.args,
                vec!["am", "--keep-cr", "--committer-date-is-author-date", "--3way"]
            );
            assert_eq!(command.cwd, "/work/public");
            assert_eq!(command.stdin, Some(b"From c1\npatch body\n".to_vec()));
        }
        other => panic!("unexpected: {:?}", other),
    }
}

#[test]
fn patch_bytes_pass_through_unchanged() {
    let raw: Vec<u8> = vec![0x46, 0xff, 0xfe, 0x00, 0x0a];
    let replies = vec![Launch::Exited(ProcessOutput {
        success: true,
        status: "exit status: 0".to_string(),
        stdout: raw.clone(),
        stderr: vec![],
    })];
    match apply_commit_to_output(&sample_config(), "c1", &replies) {
        Next::Run(command) => assert_eq!(command.stdin, Some(raw)),
        other => panic!("unexpected: {:?}", other),
    }
}

#[test]
fn failed_patch_command_is_an_error() {
    let replies = vec![exited(false, "", "fatal: bad object c1")];
    match apply_commit_to_output(&sample_config(), "c1", &replies) {
        Next::Done(Err(PorterError::GitCommand { cmd, stderr, .. })) => {
            assert_eq!(
                cmd,
                "git format-patch --stdout -1 c1 --relative=libs/widget -- libs/widget"
            );
            assert_eq!(stderr, "fatal: bad object c1");
        }
        other => panic!("unexpected: {:?}", other),
    }
}

#[test]
fn clean_apply_is_success() {
    let replies = vec![exited(true, "patch", ""), exited(true, "Applying: x", "")];
    match apply_commit_to_output(&sample_config(), "c1", &replies) {
        Next::Done(Ok(result)) => assert_eq!(result, ApplyResult::Success),
        other => panic!("unexpected: {:?}", other),
    }
}

#[test]
fn conflict_is_left_paused() {
    let replies = vec![
        exited(true, "patch", ""),
        exited(false, "Applying: x\nCONFLICT (content): Merge conflict in a.rs", "error: Failed to merge"),
    ];
    match apply_commit_to_output(&sample_config(), "c1", &replies) {
        Next::Done(Ok(result)) => assert_eq!(result, ApplyResult::Conflict),
        other => panic!("unexpected: {:?}", other),
    }
}

#[test]
fn conflict_hint_in_stderr_counts() {
    let replies = vec![
        exited(true, "patch", ""),
        exited(false, "", "hint: When you have resolved this problem, run \"git am --continue\"."),
    ];
    match apply_commit_to_output(&sample_config(), "c1", &replies) {
        Next::Done(Ok(result)) => assert_eq!(result, ApplyResult::Conflict),
        other => panic!("unexpected: {:?}", other),
    }
}

#[test]
fn other_failure_is_aborted_then_reported() {
    let mut replies = vec![
        exited(true, "patch", ""),
        exited(false, "", "fatal: unable to write index"),
    ];
    match apply_commit_to_output(&sample_config(), "c1", &replies) {
        Next::Run(command) => {
            assert_eq!(command.args, vec!["am", "--abort"]);
            assert_eq!(command.cwd, "/work/public");
        }
        other => panic!("unexpected: {:?}", other),
    }
    replies.push(exited(false, "", "abort failed too"));
    match apply_commit_to_output(&sample_config(), "c1", &replies) {
        Next::Done(Ok(result)) => {
            assert_eq!(result, ApplyResult::Failure("fatal: unable to write index".to_string()))
        }
        other => panic!("unexpected: {:?}", other),
    }
}

#[test]
fn apply_that_cannot_start_is_an_io_error() {
    let replies = vec![exited(true, "patch", ""), Launch::SpawnFailed("no such file".to_string())];
    match apply_commit_to_output(&sample_config(), "c1", &replies) {
        Next::Done(Err(PorterError::Io { detail, path })) => {
            assert_eq!(detail, "no such file");
            assert_eq!(path, "/work/public");
        }
        other => panic!("unexpected: {:?}", other),
    }
}

#[test]
fn unwritten_patch_is_an_io_error_on_stdin() {
    let replies = vec![exited(true, "patch", ""), Launch::StdinFailed("broken pipe".to_string())];
    match apply_commit_to_output(&sample_config(), "c1", &replies) {
        Next::Done(Err(PorterError::Io { detail, path })) => {
            assert_eq!(detail, "broken pipe");
            assert_eq!(path, "stdin");
        }
        other => panic!("unexpected: {:?}", other),
    }
}

#[test]
fn dead_patch_writer_is_reported() {
    let replies = vec![exited(true, "patch", ""), Launch::StdinWriterPanicked];
    match apply_commit_to_output(&sample_config(), "c1", &replies) {
        Next::Done(Err(PorterError::GitOperation(message))) => {
            assert_eq!(message, "Patch writing thread panicked")
        }
        other => panic!("unexpected: {:?}", other),
    }
}

#[test]
fn conflict_markers_are_told_from_other_output() {
    assert!(output_shows_conflict("Patch failed to apply", ""));
    assert!(output_shows_conflict("", "Patch failed to apply at 0001"));
    assert!(output_shows_conflict("a conflict here", ""));
    assert!(output_shows_conflict("", "run git am --continue"));
    assert!(!output_shows_conflict("CONFLICT", "Conflict"));
    assert!(!output_shows_conflict("", ""));
    assert!(!output_shows_conflict("git am --abort", "patch does not apply"));
}

#[test]
fn diff_is_asked_for_and_returned() {
    let config = sample_config();
    match get_commit_diff_relative(&config, "c9", &vec![]) {
        Next::Run(command) => {
            assert_eq!(
                command.args,
                vec!["diff", "--color=always", "c9~..c9", "--relative=libs/widget", "libs/widget"]
            );
            assert_eq!(command.cwd, "/work/internal");
        }
        other => panic!("unexpected: {:?}", other),
    }
    match get_commit_diff_relative(&config, "c9", &vec![exited(true, "+added\n", "")]) {
        Next::Done(Ok(text)) => assert_eq!(text, "+added\n"),
        other => panic!("unexpected: {:?}", other),
    }
    assert!(matches!(
        get_commit_diff_relative(&config, "c9", &vec![exited(false, "", "bad")]),
        Next::Done(Err(PorterError::GitCommand { .. }))
    ));
}

#[test]
fn diff_with_malformed_bytes_is_decoded_with_replacement() {
    let reply = Launch::Exited(ProcessOutput {
        success: true,
        status: "exit status: 0".to_string(),
        stdout: vec![b'a', 0xff, b'b'],
        stderr: vec![],
    });
    match get_commit_diff_relative(&sample_config(), "c9", &vec![reply]) {
        Next::Done(Ok(text)) => assert_eq!(text, "a\u{fffd}b"),
        other => panic!("unexpected: {:?}", other),
    }
}

#[test]
fn abort_runs_four_commands_in_order() {
    let config = sample_config();
    let mut replies: Vec<Launch> = vec![];
    let expected = ["am", "cherry-pick", "rebase", "merge"];
    for operation in expected {
        match abort_apply_session(&config, &replies) {
            Next::Run(command) => {
                assert_eq!(command.program, "git");
                assert_eq!(command.args, vec![operation, "--abort", "--quiet"]);
                assert_eq!(command.cwd, "/work/public");
            }
            other => panic!("unexpected: {:?}", other),
        }
        replies.push(exited(true, "", ""));
    }
    assert!(matches!(abort_apply_session(&config, &replies), Next::Done(Ok(()))));
}

#[test]
fn abort_stops_at_the_first_failure() {
    let config = sample_config();
    let replies = vec![exited(true, "", ""), exited(false, "", "no cherry-pick in progress")];
    match abort_apply_session(&config, &replies) {
        Next::Done(Err(PorterError::GitCommand { cmd, .. })) => {
            assert_eq!(cmd, "git cherry-pick --abort --quiet")
        }
        other => panic!("unexpected: {:?}", other),
    }
}

#[test]
fn paths_are_made_relative_to_the_tracked_subdirectory() {
    assert_eq!(relative_flag("libs/widget"), "--relative=libs/widget");
    assert_eq!(relative_flag("libs/widget/"), "--relative=libs/widget/");
    assert_eq!(relative_flag("./libs/widget"), "--relative=libs/widget");
    assert_eq!(relative_flag("././x"), "--relative=x");
    assert_eq!(relative_flag("./"), "--relative");
    assert_eq!(relative_flag("./."), "--relative");
    assert_eq!(relative_flag(".hidden/x"), "--relative=.hidden/x");
    assert_eq!(relative_flag("."), "--relative");
    assert_eq!(relative_flag(""), "--relative");
}

#[test]
fn whole_repository_is_relocated_as_it_is() {
    let mut config = sample_config();
    config.project_subdir = ".".to_string();
    match apply_commit_to_output(&config, "c1", &vec![]) {
        Next::Run(command) => assert_eq!(
            command.args,
            vec!["format-patch", "--stdout", "-1", "c1", "--relative", "--", "."]
        ),
        other => panic!("unexpected: {:?}", other),
    }
}
