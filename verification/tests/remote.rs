use oss_porter_core::remote::{inspect_remotes, push_to_remote, OriginState};
use oss_porter_core::utils::{Launch, Next, ProcessOutput};
use oss_porter_core::{HistoryMode, PorterError, ProjectConfig};

fn config_with(url: Option<&str>) -> ProjectConfig {
    ProjectConfig {
        internal_repo_path: "/work/internal".to_string(),
        project_subdir: "libs/widget".to_string(),
        output_path: "/work/public".to_string(),
        public_repo_url: url.map(|u| u.to_string()),
        history_mode: HistoryMode::CleanSlate,
        license: None,
        internal_branch: "main".to_string(),
        public_branch: "release".to_string(),
    }
}

fn exited(success: bool, stdout: &str, stderr: &str) -> Launch {
    Launch::Exited(ProcessOutput {
        success,
        status: if success { "exit status: 0".to_string() } else { "exit status: 1".to_string() },
        stdout: stdout.as_bytes().to_vec(),
        stderr: stderr.as_bytes().to_vec(),
    })
}

const URL: &str = "git@example.com:org/widget.git";

#[test]
fn remotes_listing_is_read_for_origin() {
    assert!(matches!(inspect_remotes("", URL), OriginState::Absent));
    assert!(matches!(
        inspect_remotes("upstream\thttps://x (fetch)\nupstream\thttps://x (push)\n", URL),
        OriginState::Absent
    ));
    assert!(matches!(
        inspect_remotes(
            "origin\tgit@example.com:org/widget.git (fetch)\norigin\tgit@example.com:org/widget.git (push)\n",
            URL
        ),
        OriginState::Matches
    ));
    match inspect_remotes("origin  https://other (fetch)\n", URL) {
        OriginState::PointsElsewhere(found) => assert_eq!(found, "https://other"),
        _ => panic!("expected a mismatch"),
    }
    match inspect_remotes(
        "origin git@example.com:org/widget.git (fetch)\norigin https://push-elsewhere (push)\n",
        URL,
    ) {
        OriginState::PointsElsewhere(found) => assert_eq!(found, "https://push-elsewhere"),
        _ => panic!("expected a mismatch"),
    }
    assert!(matches!(inspect_remotes("origin\n", URL), OriginState::Absent));
    assert!(matches!(inspect_remotes("originx https://other\n", URL), OriginState::Absent));
}

#[test]
fn push_needs_a_repository() {
    match push_to_remote("widget", &config_with(Some(URL)), false, &vec![]) {
        Next::Done(Err(PorterError::GitOperation(message))) => assert_eq!(
            message,
            "Output path '/work/public' is not a Git repository. Cannot push."
        ),
        other => panic!("unexpected: {:?}", other),
    }
}

#[test]
fn push_needs_a_public_address() {
    match push_to_remote("widget", &config_with(None), true, &vec![]) {
        Next::Done(Err(PorterError::Config(message))) => assert_eq!(
            message,
            "Project 'widget' does not have 'public_repo_url' configured. Cannot push."
        ),
        other => panic!("unexpected: {:?}", other),
    }
}

#[test]
fn push_adds_a_missing_origin() {
    let config = config_with(Some(URL));
    let mut replies: Vec<Launch> = vec![];
    match push_to_remote("widget", &config, true, &replies) {
        Next::Run(command) => {
            assert_eq!(command.args, vec!["remote", "-v"]);
            assert_eq!(command.cwd, "/work/public");
        }
        other => panic!("unexpected: {:?}", other),
    }
    replies.push(exited(true, "", ""));
    match push_to_remote("widget", &config, true, &replies) {
        Next::Run(command) => assert_eq!(command.args, vec!["remote", "add", "origin", URL]),
        other => panic!("unexpected: {:?}", other),
    }
    replies.push(exited(true, "", ""));
    match push_to_remote("widget", &config, true, &replies) {
        Next::Run(command) => {
            assert_eq!(command.args, vec!["push", "-u", "origin", "release:release"])
        }
        other => panic!("unexpected: {:?}", other),
    }
    replies.push(exited(true, "", "Everything up-to-date"));
    assert!(matches!(push_to_remote("widget", &config, true, &replies), Next::Done(Ok(()))));
}

#[test]
fn push_uses_a_matching_origin() {
    let config = config_with(Some(URL));
    let listing = format!("origin\t{} (fetch)\norigin\t{} (push)\n", URL, URL);
    let mut replies = vec![exited(true, &listing, "")];
    match push_to_remote("widget", &config, true, &replies) {
        Next::Run(command) => {
            assert_eq!(command.args, vec!["push", "-u", "origin", "release:release"])
        }
        other => panic!("unexpected: {:?}", other),
    }
    replies.push(exited(false, "", "rejected"));
    match push_to_remote("widget", &config, true, &replies) {
        Next::Done(Err(PorterError::GitCommand { cmd, stderr, .. })) => {
            assert_eq!(cmd, "git push -u origin release:release");
            assert_eq!(stderr, "rejected");
        }
        other => panic!("unexpected: {:?}", other),
    }
}

#[test]
fn push_refuses_a_wrong_origin() {
    let config = config_with(Some(URL));
    let replies = vec![exited(true, "origin\thttps://other (fetch)\n", "")];
    match push_to_remote("widget", &config, true, &replies) {
        Next::Done(Err(PorterError::GitOperation(message))) => assert_eq!(
            message,
            "Git remote 'origin' in '/work/public' exists but points to the wrong URL ('https://other'). Expected 'git@example.com:org/widget.git'. Please fix manually."
        ),
        other => panic!("unexpected: {:?}", other),
    }
}

#[test]
fn push_reports_a_failed_listing() {
    let config = config_with(Some(URL));
    assert!(matches!(
        push_to_remote("widget", &config, true, &vec![exited(false, "", "fatal")]),
        Next::Done(Err(PorterError::GitCommand { .. }))
    ));
}
