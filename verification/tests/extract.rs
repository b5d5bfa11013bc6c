use oss_porter_core::extract::{
    clone_and_filter, commit_cleanup, commit_initial, detach_origin, extract_clean_slate,
    extract_preserve_history, initialize_repository, license_file_named, report_findings,
    Carried, Extraction, HistoryProbe, TargetProbe,
    license_file_name, license_placeholder, line_is_suspect, needs_license_file,
    path_is_excluded, scan_text, secrets_warning, validate_target, TargetAction,
    GITIGNORE_CONTENT,
};
use oss_porter_core::utils::{Launch, Next, ProcessOutput, ToolProbe};
use oss_porter_core::{ExtractionResult, HistoryMode, PorterError, ProjectConfig};

fn sample_config() -> ProjectConfig {
    ProjectConfig {
        internal_repo_path: "/work/internal".to_string(),
        project_subdir: "libs/widget".to_string(),
        output_path: "/work/public".to_string(),
        public_repo_url: None,
        history_mode: HistoryMode::Preserve,
        license: Some("mit".to_string()),
        internal_branch: "main".to_string(),
        public_branch: "main".to_string(),
    }
}

fn exited(success: bool, stdout: &str, stderr: &str) -> Launch {
    Launch::Exited(ProcessOutput {
        success,
        status: if success { "exit status: 0".to_string() } else { "exit status: 1".to_string() },
        stdout: stdout.as_bytes().to_vec(),
        stderr: stderr.as_bytes().to_vec(),
    })
}

#[test]
fn suspect_lines_are_recognised() {
    assert!(line_is_suspect("api_key = \"abc123\""));
    assert!(line_is_suspect("  PASSWORD: 'hunter2'"));
    assert!(line_is_suspect("let Secret='x';"));
    assert!(line_is_suspect("apikey=\"k\""));
    assert!(line_is_suspect("token ABCDEFGHIJKLMNOPQRSTUVWXYZabcdefghijklmn0123"));
    assert!(!line_is_suspect("password = unquoted"));
    assert!(!line_is_suspect("let x = 1;"));
    assert!(!line_is_suspect("short ABCDEFGHIJKLMNOPQRSTUVWXYZabcdefghijklm"));
    assert!(!line_is_suspect("password"));
    assert!(!line_is_suspect(""));
}

#[test]
fn scan_reports_each_suspect_line_once_with_its_number() {
    let content = "fn main() {}\nlet password = \"p\"; // ABCDEFGHIJKLMNOPQRSTUVWXYZabcdefghijklmn0123\n\nsecret: 'x'\r\nlast";
    assert_eq!(
        scan_text("src/main.rs", content),
        vec![
            "Potential secret found in src/main.rs:2".to_string(),
            "Potential secret found in src/main.rs:4".to_string(),
        ]
    );
    assert!(scan_text("empty", "").is_empty());
}

#[test]
fn scan_numbers_lines_past_nine() {
    let mut content = String::new();
    for _ in 0..11 {
        content.push_str("nothing\n");
    }
    content.push_str("api_key: \"k\"\n");
    assert_eq!(scan_text("f", &content), vec!["Potential secret found in f:12".to_string()]);
}

#[test]
fn build_and_repository_directories_are_left_out() {
    assert!(path_is_excluded("/out/target/debug/x"));
    assert!(path_is_excluded("target"));
    assert!(path_is_excluded("/out/.git/config"));
    assert!(path_is_excluded("a/.git"));
    assert!(!path_is_excluded("/out/src/target.rs"));
    assert!(!path_is_excluded("/out/targets/x"));
    assert!(!path_is_excluded("/out/.github/x"));
    assert!(!path_is_excluded(""));
}

#[test]
fn target_is_judged_from_what_is_on_disk() {
    match validate_target("/src", false, "/out", false, false) {
        Err(PorterError::PathNotFound(p)) => assert_eq!(p, "/src"),
        other => panic!("unexpected: {:?}", other),
    }
    match validate_target("/src", true, "/out", true, true) {
        Err(PorterError::OutputPathExists(p)) => assert_eq!(p, "/out"),
        other => panic!("unexpected: {:?}", other),
    }
    assert_eq!(validate_target("/src", true, "/out", false, false).unwrap(), TargetAction::Create);
    assert_eq!(validate_target("/src", true, "/out", true, false).unwrap(), TargetAction::UseAsIs);
    assert_eq!(validate_target("/src", true, "/out", false, true).unwrap(), TargetAction::Create);
}

#[test]
fn license_file_is_named_in_uppercase() {
    assert_eq!(license_file_name("mit"), "LICENSE-MIT");
    assert_eq!(license_file_name("Apache-2.0"), "LICENSE-APACHE-2.0");
    assert_eq!(license_file_name("stra\u{df}e"), "LICENSE-STRASSE");
    assert_eq!(license_placeholder("mit"), "Placeholder for mit License Text.");
}

#[test]
fn license_file_is_written_only_where_none_exists() {
    assert!(needs_license_file(Some("MIT"), false, false));
    assert!(!needs_license_file(Some("MIT"), true, false));
    assert!(!needs_license_file(Some("MIT"), false, true));
    assert!(!needs_license_file(None, false, false));
}

#[test]
fn ignore_file_has_the_basic_rules() {
    assert_eq!(GITIGNORE_CONTENT, "/target\nCargo.lock\n");
}

#[test]
fn scan_note_names_the_count() {
    assert_eq!(secrets_warning(0, false), None);
    assert_eq!(secrets_warning(0, true), None);
    assert_eq!(
        secrets_warning(3, false),
        Some("Warning: 3 potential secrets found during basic scan.".to_string())
    );
    assert_eq!(
        secrets_warning(12, true),
        Some("Warning: 12 potential secrets found during basic scan of final code state.".to_string())
    );
}

#[test]
fn repository_is_initialised_and_first_commit_made() {
    let config = sample_config();
    match initialize_repository(&config, &vec![]) {
        Next::Run(command) => {
            assert_eq!(command.args, vec!["init"]);
            assert_eq!(command.cwd, "/work/public");
        }
        other => panic!("unexpected: {:?}", other),
    }
    assert!(matches!(initialize_repository(&config, &vec![exited(true, "", "")]), Next::Done(Ok(()))));
    let mut replies: Vec<Launch> = vec![];
    match commit_initial("widget", &config, &replies) {
        Next::Run(command) => assert_eq!(command.args, vec!["add", "."]),
        other => panic!("unexpected: {:?}", other),
    }
    replies.push(exited(true, "", ""));
    match commit_initial("widget", &config, &replies) {
        Next::Run(command) => assert_eq!(
            command.args,
            vec!["commit", "-m", "Initial commit of open source project 'widget'"]
        ),
        other => panic!("unexpected: {:?}", other),
    }
    replies.push(exited(true, "", ""));
    assert!(matches!(commit_initial("widget", &config, &replies), Next::Done(Ok(()))));
}

#[test]
fn clone_is_filtered_to_the_subdirectory() {
    let config = sample_config();
    let mut replies: Vec<Launch> = vec![];
    match clone_and_filter(&config, "/tmp/w", &replies) {
        Next::Run(command) => {
            assert_eq!(command.program, "git");
            assert_eq!(command.args, vec!["clone", "--no-local", "--bare", "/work/internal", "."]);
            assert_eq!(command.cwd, "/tmp/w");
        }
        other => panic!("unexpected: {:?}", other),
    }
    replies.push(exited(true, "", ""));
    match clone_and_filter(&config, "/tmp/w", &replies) {
        Next::Run(command) => {
            assert_eq!(command.args, vec!["clone", "--no-local", "/work/internal", "."])
        }
        other => panic!("unexpected: {:?}", other),
    }
    replies.push(exited(true, "", ""));
    match clone_and_filter(&config, "/tmp/w", &replies) {
        Next::Run(command) => {
            assert_eq!(command.program, "git-filter-repo");
            assert_eq!(command.args, vec!["--path", "libs/widget", "--force"]);
            assert_eq!(command.cwd, "/tmp/w");
        }
        other => panic!("unexpected: {:?}", other),
    }
    replies.push(exited(false, "", "filter failed"));
    match clone_and_filter(&config, "/tmp/w", &replies) {
        Next::Done(Err(PorterError::GitCommand { cmd, .. })) => {
            assert_eq!(cmd, "git-filter-repo --path libs/widget --force")
        }
        other => panic!("unexpected: {:?}", other),
    }
}

#[test]
fn origin_is_detached_without_failing() {
    let config = sample_config();
    match detach_origin(&config, &vec![]) {
        Next::Run(command) => assert_eq!(command.args, vec!["remote", "rm", "origin"]),
        other => panic!("unexpected: {:?}", other),
    }
    assert!(matches!(detach_origin(&config, &vec![exited(true, "", "")]), Next::Done(Ok(true))));
    assert!(matches!(
        detach_origin(&config, &vec![exited(false, "", "no such remote")]),
        Next::Done(Ok(false))
    ));
}

#[test]
fn cleanup_commit_is_made_only_for_changes() {
    let config = sample_config();
    match commit_cleanup(&config, &vec![]) {
        Next::Run(command) => assert_eq!(command.args, vec!["status", "--porcelain"]),
        other => panic!("unexpected: {:?}", other),
    }
    assert!(matches!(commit_cleanup(&config, &vec![exited(true, "\n", "")]), Next::Done(Ok(false))));
    let mut replies = vec![exited(true, "?? LICENSE-MIT\n", "")];
    match commit_cleanup(&config, &replies) {
        Next::Run(command) => assert_eq!(command.args, vec!["add", "LICENSE*", ".gitignore"]),
        other => panic!("unexpected: {:?}", other),
    }
    replies.push(exited(true, "", ""));
    match commit_cleanup(&config, &replies) {
        Next::Run(command) => assert_eq!(
            command.args,
            vec!["commit", "-m", "chore: Add license and/or gitignore after history filtering"]
        ),
        other => panic!("unexpected: {:?}", other),
    }
    replies.push(exited(true, "", ""));
    assert!(matches!(commit_cleanup(&config, &replies), Next::Done(Ok(true))));
    assert!(matches!(
        commit_cleanup(&config, &vec![exited(false, "", "x")]),
        Next::Done(Err(PorterError::GitCommand { .. }))
    ));
}

fn free_target() -> TargetProbe {
    TargetProbe { source_exists: true, output_exists: false, output_has_entries: false }
}

fn report_of(step: Extraction) -> ExtractionResult {
    match step {
        Extraction::Done(Ok(report)) => report,
        other => panic!("unexpected: {:?}", other),
    }
}

#[test]
fn clean_slate_is_refused_for_an_output_path_with_entries() {
    let config = sample_config();
    let found = TargetProbe { source_exists: true, output_exists: true, output_has_entries: true };
    for carried in [None, Some(vec!["x".to_string()])] {
        match extract_clean_slate("widget", &config, &found, carried) {
            Extraction::Done(Err(PorterError::OutputPathExists(path))) => {
                assert_eq!(path, "/work/public")
            }
            other => panic!("unexpected: {:?}", other),
        }
    }
}

#[test]
fn clean_slate_is_refused_for_a_missing_source() {
    let config = sample_config();
    let found = TargetProbe { source_exists: false, output_exists: true, output_has_entries: true };
    match extract_clean_slate("widget", &config, &found, None) {
        Extraction::Done(Err(PorterError::PathNotFound(path))) => {
            assert_eq!(path, "/work/internal/libs/widget")
        }
        other => panic!("unexpected: {:?}", other),
    }
}

#[test]
fn clean_slate_is_carried_out_then_reported() {
    let config = sample_config();
    assert!(matches!(
        extract_clean_slate("widget", &config, &free_target(), None),
        Extraction::Carry(TargetAction::Create)
    ));
    let empty = TargetProbe { source_exists: true, output_exists: true, output_has_entries: false };
    assert!(matches!(
        extract_clean_slate("widget", &config, &empty, None),
        Extraction::Carry(TargetAction::UseAsIs)
    ));
    let report = report_of(extract_clean_slate("widget", &config, &free_target(), Some(vec![])));
    assert_eq!(report.project_id, "widget");
    assert_eq!(report.output_path, "/work/public");
    assert_eq!(
        report.messages,
        vec![
            "Copied project files from /work/internal/libs/widget",
            "Initialized Git repository.",
            "Created initial Git commit.",
        ]
    );
    assert!(report.secrets_found.is_empty());
    let found = vec![
        "Potential secret found in a:1".to_string(),
        "Potential secret found in b:2".to_string(),
    ];
    let report =
        report_of(extract_clean_slate("widget", &config, &free_target(), Some(found.clone())));
    assert_eq!(
        report.messages,
        vec![
            "Copied project files from /work/internal/libs/widget",
            "Initialized Git repository.",
            "Warning: 2 potential secrets found during basic scan.",
            "Created initial Git commit.",
        ]
    );
    assert_eq!(report.secrets_found, found);
}

fn ready() -> HistoryProbe {
    HistoryProbe {
        git: ToolProbe::Ran { success: true },
        filter_repo: ToolProbe::Ran { success: true },
        repository_root: true,
        target: free_target(),
    }
}

fn carried(origin_removed: bool, cleanup_committed: bool, secrets: Vec<String>) -> Carried {
    Carried {
        work_dir: "/tmp/w".to_string(),
        origin_removed,
        cleanup_committed,
        secrets_found: secrets,
    }
}

#[test]
fn history_extraction_needs_its_tools() {
    let config = sample_config();
    let mut found = ready();
    found.git = ToolProbe::NotFound;
    found.filter_repo = ToolProbe::NotFound;
    found.repository_root = false;
    match extract_preserve_history("widget", &config, &found, None) {
        Extraction::Done(Err(PorterError::ToolNotFound(tool))) => assert_eq!(tool, "git"),
        other => panic!("unexpected: {:?}", other),
    }
    found.git = ToolProbe::Ran { success: true };
    match extract_preserve_history("widget", &config, &found, None) {
        Extraction::Done(Err(PorterError::ToolNotFound(tool))) => {
            assert_eq!(tool, "git-filter-repo")
        }
        other => panic!("unexpected: {:?}", other),
    }
}

#[test]
fn history_extraction_needs_a_repository_root() {
    let config = sample_config();
    let mut found = ready();
    found.repository_root = false;
    for done in [None, Some(carried(true, true, vec![]))] {
        match extract_preserve_history("widget", &config, &found, done) {
            Extraction::Done(Err(PorterError::GitOperation(message))) => assert_eq!(
                message,
                "Internal repo path '/work/internal' does not appear to be a git repository root."
            ),
            other => panic!("unexpected: {:?}", other),
        }
    }
}

#[test]
fn history_extraction_is_refused_for_an_output_path_with_entries() {
    let config = sample_config();
    let mut found = ready();
    found.target = TargetProbe { source_exists: true, output_exists: true, output_has_entries: true };
    assert!(matches!(
        extract_preserve_history("widget", &config, &found, None),
        Extraction::Done(Err(PorterError::OutputPathExists(_)))
    ));
    found.target.source_exists = false;
    assert!(matches!(
        extract_preserve_history("widget", &config, &found, None),
        Extraction::Done(Err(PorterError::PathNotFound(_)))
    ));
}

#[test]
fn history_report_lists_the_steps_that_happened() {
    let config = sample_config();
    assert!(matches!(
        extract_preserve_history("widget", &config, &ready(), None),
        Extraction::Carry(TargetAction::Create)
    ));
    let report = report_of(extract_preserve_history(
        "widget",
        &config,
        &ready(),
        Some(carried(true, true, vec!["x".to_string()])),
    ));
    assert_eq!(
        report.messages,
        vec![
            "Checked prerequisites (git, git-filter-repo).",
            "Created temporary clone in /tmp/w",
            "Ran git-filter-repo on path 'libs/widget'",
            "Moved filtered content to /work/public",
            "Removed original 'origin' remote.",
            "Created cleanup commit for license/gitignore.",
            "Warning: 1 potential secrets found during basic scan of final code state.",
        ]
    );
    let report = report_of(extract_preserve_history(
        "widget",
        &config,
        &ready(),
        Some(carried(false, false, vec![])),
    ));
    assert_eq!(
        report.messages,
        vec![
            "Checked prerequisites (git, git-filter-repo).",
            "Created temporary clone in /tmp/w",
            "Ran git-filter-repo on path 'libs/widget'",
            "Moved filtered content to /work/public",
        ]
    );
    assert_eq!(report.project_id, "widget");
    assert_eq!(report.output_path, "/work/public");
}

#[test]
fn findings_follow_the_flags_of_the_lines() {
    assert_eq!(
        report_findings("a/b.rs", &vec![false, true, true, false]),
        vec![
            "Potential secret found in a/b.rs:2".to_string(),
            "Potential secret found in a/b.rs:3".to_string(),
        ]
    );
    assert!(report_findings("a/b.rs", &vec![]).is_empty());
    assert!(report_findings("a/b.rs", &vec![false, false]).is_empty());
}

#[test]
fn license_file_name_is_prefixed() {
    assert_eq!(license_file_named("MIT"), "LICENSE-MIT");
    assert_eq!(license_file_named(""), "LICENSE-");
}
