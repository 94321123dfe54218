use repo_manager::error::ProviderError;
use repo_manager::models::common::{IssueCreate, Label, Milestone};
use repo_manager::providers::github;
use repo_manager::providers::gitlab;

fn label(color: &str) -> Label {
    Label {
        name: "test_label".to_string(),
        color: color.to_string(),
        description: Some("Test label".to_string()),
    }
}

#[test]
fn github_strips_hash_from_color() {
    let payload = github::github_label(&label("#ff0000"));
    assert_eq!(payload.name, "test_label");
    assert_eq!(payload.color, "ff0000");
    assert_eq!(payload.description, Some("Test label".to_string()));
}

#[test]
fn gitlab_sends_color_unchanged() {
    let payload = gitlab::gitlab_label(&label("#ff0000"));
    assert_eq!(payload.name, "test_label");
    assert_eq!(payload.color, "#ff0000");
    assert_eq!(payload.description, Some("Test label".to_string()));
}

#[test]
fn strip_hash_handles_edge_cases() {
    assert_eq!(github::strip_hash_from_color("ff0000"), "ff0000");
    assert_eq!(github::strip_hash_from_color("##aabbcc"), "aabbcc");
    assert_eq!(github::strip_hash_from_color(""), "");
    assert_eq!(github::strip_hash_from_color("#"), "");
}

#[test]
fn github_milestone_gains_midnight_utc_suffix() {
    let m = Milestone {
        name: "v0.1.0".to_string(),
        version: "0.1.0".to_string(),
        deadline: "2024-12-31".to_string(),
        description: "Test milestone".to_string(),
    };
    let payload = github::github_milestone(&m);
    assert_eq!(payload.title, "v0.1.0");
    assert_eq!(payload.description, "Test milestone");
    assert_eq!(payload.due_on, "2024-12-31T00:00:00Z");
    assert_eq!(payload.state, "open");
}

#[test]
fn gitlab_milestone_keeps_date_verbatim() {
    let m = Milestone {
        name: "v0.1.0".to_string(),
        version: "0.1.0".to_string(),
        deadline: "2024-12-31".to_string(),
        description: "Test milestone".to_string(),
    };
    let payload = gitlab::gitlab_milestone(&m);
    assert_eq!(payload.title, "v0.1.0");
    assert_eq!(payload.due_date, "2024-12-31");
}

#[test]
fn github_issue_payload_has_no_milestone() {
    let create = IssueCreate {
        title: "T".to_string(),
        description: "body".to_string(),
        labels: vec!["a".to_string()],
    };
    let payload = github::github_issue(create);
    assert_eq!(payload.title, "T");
    assert_eq!(payload.body, "body");
    assert_eq!(payload.milestone, None);
    assert_eq!(payload.labels, vec!["a".to_string()]);
    assert!(payload.assignees.is_empty());
}

#[test]
fn github_setup_issue_carries_milestone_id() {
    let payload = github::github_setup_issue(
        "T".to_string(),
        "body".to_string(),
        7,
        vec!["a".to_string()],
    );
    assert_eq!(payload.milestone, Some(7));
}

#[test]
fn gitlab_setup_issue_carries_milestone_id() {
    let payload = gitlab::gitlab_setup_issue(
        "T".to_string(),
        "body".to_string(),
        7,
        vec!["a".to_string()],
    );
    assert_eq!(payload.milestone_id, 7);
    assert_eq!(payload.description, "body");
}

#[test]
fn dependency_comment_renders_decimal_ids() {
    assert_eq!(github::dependency_comment(42), "Depends on #42");
    assert_eq!(github::dependency_comment(0), "Depends on #0");
    assert_eq!(github::dependency_comment(1234567890123), "Depends on #1234567890123");
    assert_eq!(github::dependency_comment(-5), "Depends on #-5");
    assert_eq!(
        github::dependency_comment(i64::MIN),
        "Depends on #-9223372036854775808"
    );
}

#[test]
fn error_messages_name_their_kind() {
    let detail = "d".to_string();
    assert_eq!(ProviderError::Api(detail.clone()).message(), "API error: d");
    assert_eq!(ProviderError::Config(detail.clone()).message(), "Configuration error: d");
    assert_eq!(ProviderError::Auth(detail.clone()).message(), "Authentication error: d");
    assert_eq!(ProviderError::NotFound(detail.clone()).message(), "Resource not found: d");
    assert_eq!(ProviderError::RateLimit(detail.clone()).message(), "Rate limit exceeded: d");
    assert_eq!(ProviderError::Network(detail.clone()).message(), "Network error: d");
    assert_eq!(ProviderError::Validation(detail.clone()).message(), "Validation error: d");
    assert_eq!(ProviderError::Json(detail.clone()).message(), "JSON error: d");
    assert_eq!(ProviderError::Io(detail).message(), "IO error: d");
}
