use repo_manager::models::common::{Issue, IssueCreate, IssueDescription, Label, Section};

#[test]
fn test_label_creation() {
    let label = Label {
        name: "test".to_string(),
        color: "#ff0000".to_string(),
        description: Some("Test label".to_string()),
    };

    assert_eq!(label.name, "test");
    assert_eq!(label.color, "#ff0000");
    assert_eq!(label.description, Some("Test label".to_string()));
}

#[test]
fn test_issue_description_to_markdown() {
    let description = IssueDescription {
        sections: vec![Section {
            title: "## Test".to_string(),
            content: vec!["Line 1".to_string(), "Line 2".to_string()],
        }],
    };

    let markdown = description.to_markdown();
    assert!(markdown.contains("## Test"));
    assert!(markdown.contains("Line 1"));
    assert!(markdown.contains("Line 2"));
}

#[test]
fn to_markdown_renders_single_section_exactly() {
    let description = IssueDescription {
        sections: vec![Section {
            title: "## Objectif".to_string(),
            content: vec!["Test objective".to_string()],
        }],
    };

    assert_eq!(description.to_markdown(), "## Objectif\nTest objective\n");
}

#[test]
fn to_markdown_is_idempotent_on_repeated_calls() {
    let description = IssueDescription {
        sections: vec![
            Section { title: "## A".to_string(), content: vec!["one".to_string()] },
            Section { title: "## B".to_string(), content: vec!["two".to_string()] },
        ],
    };

    let first = description.to_markdown();
    let second = description.to_markdown();
    assert_eq!(first, second);
}

#[test]
fn to_markdown_separates_sections_with_one_blank_line() {
    let description = IssueDescription {
        sections: vec![
            Section { title: "## A".to_string(), content: vec!["one".to_string()] },
            Section { title: "## B".to_string(), content: vec!["two".to_string()] },
        ],
    };

    assert_eq!(description.to_markdown(), "## A\none\n\n## B\ntwo\n");
}

#[test]
fn to_markdown_of_empty_description_is_empty() {
    let description = IssueDescription { sections: vec![] };
    assert_eq!(description.to_markdown(), "");
}

#[test]
fn to_issue_body_joins_sections_with_blank_lines() {
    let description = IssueDescription {
        sections: vec![
            Section {
                title: "## A".to_string(),
                content: vec!["one".to_string(), "two".to_string()],
            },
            Section { title: "## B".to_string(), content: vec!["three".to_string()] },
        ],
    };

    assert_eq!(description.to_issue_body(), "## A\none\ntwo\n\n## B\nthree");
}

#[test]
fn issue_create_renders_description() {
    let issue = Issue {
        title: "Fix it".to_string(),
        labels: vec!["bug".to_string()],
        description: IssueDescription {
            sections: vec![Section {
                title: "## Why".to_string(),
                content: vec!["because".to_string()],
            }],
        },
    };

    let create = IssueCreate::from_issue(issue);
    assert_eq!(create.title, "Fix it");
    assert_eq!(create.description, "## Why\nbecause\n");
    assert_eq!(create.labels, vec!["bug".to_string()]);
}
