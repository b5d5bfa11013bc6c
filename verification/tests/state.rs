use oss_porter_core::state::{
    commit_state_file_change, cursor_without_parsing, get_internal_state_file_path,
    read_last_synced_commit, text_is_blank, write_last_synced_commit, StateFileContent,
    STATE_FILE_NAME,
};
use oss_porter_core::utils::{Launch, Next, ProcessOutput};
use oss_porter_core::{HistoryMode, PorterError, ProjectConfig};

fn config_with(repo: &str, subdir: &str) -> ProjectConfig {
    ProjectConfig {
        internal_repo_path: repo.to_string(),
        project_subdir: subdir.to_string(),
        output_path: "/work/public".to_string(),
        public_repo_url: None,
        history_mode: HistoryMode::CleanSlate,
        license: None,
        internal_branch: "main".to_string(),
        public_branch: "main".to_string(),
    }
}

fn exited(success: bool, stdout: &str, stderr: &str) -> Launch {
    Launch::Exited(ProcessOutput {
        success,
        status: if success { "exit status: 0".to_string() } else { "exit status: 1".to_string() },
        stdout: stdout.as_bytes().to_vec(),
        stderr: stderr.as_bytes().to_vec(),
    })
}

#[test]
fn record_lives_in_the_tracked_subdirectory() {
    assert_eq!(STATE_FILE_NAME, ".sync_state");
    assert_eq!(
        get_internal_state_file_path(&config_with("/work/internal", "libs/widget")),
        "/work/internal/libs/widget/.sync_state"
    );
    assert_eq!(
        get_internal_state_file_path(&config_with("/work/internal/", "libs/widget/")),
        "/work/internal/libs/widget/.sync_state"
    );
    assert_eq!(
        get_internal_state_file_path(&config_with("/work/internal", ".")),
        "/work/internal/./.sync_state"
    );
    assert_eq!(
        get_internal_state_file_path(&config_with("/work/internal", "/elsewhere")),
        "/elsewhere/.sync_state"
    );
    assert_eq!(get_internal_state_file_path(&config_with("", "sub")), "sub/.sync_state");
}

#[test]
fn missing_and_blank_files_hold_no_cursor() {
    assert_eq!(cursor_without_parsing(None), Some(None));
    assert_eq!(cursor_without_parsing(Some("")), Some(None));
    assert_eq!(cursor_without_parsing(Some("  \n\t ")), Some(None));
    assert_eq!(cursor_without_parsing(Some("last_synced_internal_commit = \"abc\"\n")), None);
}

#[test]
fn blank_identifier_is_no_cursor() {
    let none = StateFileContent { last_synced_internal_commit: None };
    assert_eq!(read_last_synced_commit(none), None);
    let empty = StateFileContent { last_synced_internal_commit: Some(String::new()) };
    assert_eq!(read_last_synced_commit(empty), None);
    let blank = StateFileContent { last_synced_internal_commit: Some(" \t\u{a0}".to_string()) };
    assert_eq!(read_last_synced_commit(blank), None);
    let padded = StateFileContent { last_synced_internal_commit: Some(" abc ".to_string()) };
    assert_eq!(read_last_synced_commit(padded), Some(" abc ".to_string()));
}

#[test]
fn cursor_round_trips() {
    let record = write_last_synced_commit(Some("0123abcd"));
    assert_eq!(record.last_synced_internal_commit, Some("0123abcd".to_string()));
    assert_eq!(read_last_synced_commit(record), Some("0123abcd".to_string()));
    let cleared = write_last_synced_commit(None);
    assert_eq!(cleared.last_synced_internal_commit, None);
    assert_eq!(read_last_synced_commit(cleared), None);
}

#[test]
fn blankness_follows_unicode_whitespace() {
    assert!(text_is_blank(""));
    assert!(text_is_blank(" \t\r\n\u{0b}\u{0c}\u{85}\u{a0}\u{1680}\u{2003}\u{2028}\u{2029}\u{202f}\u{205f}\u{3000}"));
    assert!(!text_is_blank(" x "));
    assert!(!text_is_blank("\u{200b}"));
    assert!(!text_is_blank("\u{1c}"));
}

#[test]
fn unchanged_record_is_not_committed() {
    let config = config_with("/work/internal", "libs/widget");
    match commit_state_file_change(&config, Some("abc"), &vec![]) {
        Next::Run(command) => {
            assert_eq!(command.program, "git");
            assert_eq!(command.args, vec!["status", "--porcelain", ".sync_state"]);
            assert_eq!(command.cwd, "/work/internal/libs/widget");
        }
        other => panic!("unexpected: {:?}", other),
    }
    assert!(matches!(
        commit_state_file_change(&config, Some("abc"), &vec![exited(true, " \n", "")]),
        Next::Done(Ok(()))
    ));
}

#[test]
fn changed_record_is_staged_and_committed() {
    let config = config_with("/work/internal", "libs/widget");
    let mut replies = vec![exited(true, " M .sync_state\n", "")];
    match commit_state_file_change(&config, Some("abc"), &replies) {
        Next::Run(command) => {
            assert_eq!(command.args, vec!["add", ".sync_state"]);
            assert_eq!(command.cwd, "/work/internal/libs/widget");
        }
        other => panic!("unexpected: {:?}", other),
    }
    replies.push(exited(true, "", ""));
    match commit_state_file_change(&config, Some("abc"), &replies) {
        Next::Run(command) => {
            assert_eq!(
                command.args,
                vec!["commit", "-m", "chore(oss-porter): Update sync state to abc"]
            );
            assert_eq!(command.cwd, "/work/internal/libs/widget");
        }
        other => panic!("unexpected: {:?}", other),
    }
    replies.push(exited(true, "", ""));
    assert!(matches!(commit_state_file_change(&config, Some("abc"), &replies), Next::Done(Ok(()))));
}

#[test]
fn cleared_cursor_is_named_in_the_message() {
    let config = config_with("/work/internal", "libs/widget");
    let replies = vec![exited(true, "?? .sync_state\n", ""), exited(true, "", "")];
    match commit_state_file_change(&config, None, &replies) {
        Next::Run(command) => assert_eq!(
            command.args,
            vec!["commit", "-m", "chore(oss-porter): Update sync state to <none>"]
        ),
        other => panic!("unexpected: {:?}", other),
    }
}

#[test]
fn failed_status_or_commit_is_reported() {
    let config = config_with("/work/internal", "libs/widget");
    match commit_state_file_change(&config, Some("abc"), &vec![exited(false, "", "not a repo")]) {
        Next::Done(Err(PorterError::GitCommand { cmd, cwd, .. })) => {
            assert_eq!(cmd, "git status --porcelain .sync_state");
            assert_eq!(cwd, "/work/internal/libs/widget");
        }
        other => panic!("unexpected: {:?}", other),
    }
    let replies = vec![
        exited(true, " M .sync_state\n", ""),
        exited(true, "", ""),
        exited(false, "", "nothing to commit"),
    ];
    match commit_state_file_change(&config, Some("abc"), &replies) {
        Next::Done(Err(PorterError::GitCommand { cmd, stderr, .. })) => {
            assert_eq!(cmd, "git commit -m chore(oss-porter): Update sync state to abc");
            assert_eq!(stderr, "nothing to commit");
        }
        other => panic!("unexpected: {:?}", other),
    }
}
