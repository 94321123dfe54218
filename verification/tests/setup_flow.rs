use repo_manager::error::ProviderError;
use repo_manager::models::common::{
    IssueDescription, Milestone, Project, ProjectIssue, Section,
};
use repo_manager::setup::{SetupRun, SetupStep};

fn milestone(name: &str, version: &str) -> Milestone {
    Milestone {
        name: name.to_string(),
        version: version.to_string(),
        deadline: "2024-12-31".to_string(),
        description: "Test milestone".to_string(),
    }
}

fn project_issue(title: &str, version: &str, dependencies: Vec<&str>) -> ProjectIssue {
    ProjectIssue {
        title: title.to_string(),
        milestone: version.to_string(),
        estimate: "1d".to_string(),
        sprint: 1,
        dependencies: dependencies.into_iter().map(|d| d.to_string()).collect(),
        labels: vec!["test".to_string()],
        description: IssueDescription {
            sections: vec![Section {
                title: "## Objectif".to_string(),
                content: vec!["Test objective".to_string()],
            }],
        },
    }
}

#[test]
fn full_setup_run_in_phase_order() {
    let project = Project {
        name: "Test Project".to_string(),
        version: "0.1.0".to_string(),
        milestones: vec![milestone("v0.1.0", "0.1.0")],
        issues: vec![
            project_issue("A", "0.1.0", vec![]),
            project_issue("B", "0.1.0", vec!["A"]),
        ],
    };

    let mut run = SetupRun::new(project);

    match run.next_step() {
        Ok(SetupStep::CreateMilestone { index, milestone }) => {
            assert_eq!(index, 0);
            assert_eq!(milestone.name, "v0.1.0");
            assert_eq!(milestone.deadline, "2024-12-31");
        }
        other => panic!("expected the milestone phase first, got {:?}", step_name(&other)),
    }
    run.milestone_created(7);
    assert_eq!(run.milestone_id_of(&"0.1.0".to_string()), Some(7));

    match run.next_step() {
        Ok(SetupStep::CreateIssue { index, title, body, milestone_id, labels }) => {
            assert_eq!(index, 0);
            assert_eq!(title, "A");
            assert_eq!(body, "## Objectif\nTest objective");
            assert_eq!(milestone_id, 7);
            assert_eq!(labels, vec!["test".to_string()]);
        }
        other => panic!("expected the first issue next, got {:?}", step_name(&other)),
    }
    run.issue_created(101);

    match run.next_step() {
        Ok(SetupStep::CreateIssue { index, title, milestone_id, .. }) => {
            assert_eq!(index, 1);
            assert_eq!(title, "B");
            assert_eq!(milestone_id, 7);
        }
        other => panic!("expected the second issue next, got {:?}", step_name(&other)),
    }
    run.issue_created(102);
    assert_eq!(run.issue_id_of(&"A".to_string()), Some(101));
    assert_eq!(run.issue_id_of(&"B".to_string()), Some(102));

    match run.next_step() {
        Ok(SetupStep::CreateLink { from_id, to_id }) => {
            assert_eq!(from_id, 102);
            assert_eq!(to_id, 101);
        }
        other => panic!("expected exactly one link call, got {:?}", step_name(&other)),
    }
    run.link_created();

    assert!(matches!(run.next_step(), Ok(SetupStep::Done)));
}

#[test]
fn missing_milestone_version_fails_with_not_found() {
    let project = Project {
        name: "P".to_string(),
        version: "1.0".to_string(),
        milestones: vec![milestone("v1", "1.0")],
        issues: vec![project_issue("A", "2.0", vec![])],
    };

    let mut run = SetupRun::new(project);
    match run.next_step() {
        Ok(SetupStep::CreateMilestone { .. }) => {}
        other => panic!("expected the milestone phase first, got {:?}", step_name(&other)),
    }
    run.milestone_created(1);

    match run.next_step() {
        Err(ProviderError::NotFound(msg)) => {
            assert_eq!(msg, "Milestone not found: 2.0");
        }
        other => panic!("expected a NotFound error, got {:?}", step_name(&other)),
    }
}

#[test]
fn unmatched_dependency_is_skipped_silently() {
    let project = Project {
        name: "P".to_string(),
        version: "1.0".to_string(),
        milestones: vec![milestone("v1", "1.0")],
        issues: vec![project_issue("A", "1.0", vec!["No such issue"])],
    };

    let mut run = SetupRun::new(project);
    run.milestone_created(1);
    match run.next_step() {
        Ok(SetupStep::CreateIssue { .. }) => {}
        other => panic!("expected the issue phase, got {:?}", step_name(&other)),
    }
    run.issue_created(11);

    assert!(matches!(run.next_step(), Ok(SetupStep::Done)));
}

#[test]
fn empty_project_completes_immediately() {
    let project = Project {
        name: "P".to_string(),
        version: "1.0".to_string(),
        milestones: vec![],
        issues: vec![],
    };

    let run = SetupRun::new(project);
    assert!(matches!(run.next_step(), Ok(SetupStep::Done)));
}

#[test]
fn duplicate_versions_resolve_to_latest_milestone() {
    let project = Project {
        name: "P".to_string(),
        version: "1.0".to_string(),
        milestones: vec![milestone("first", "1.0"), milestone("second", "1.0")],
        issues: vec![project_issue("A", "1.0", vec![])],
    };

    let mut run = SetupRun::new(project);
    run.milestone_created(5);
    run.milestone_created(6);
    assert_eq!(run.milestone_id_of(&"1.0".to_string()), Some(6));

    match run.next_step() {
        Ok(SetupStep::CreateIssue { milestone_id, .. }) => assert_eq!(milestone_id, 6),
        other => panic!("expected the issue phase, got {:?}", step_name(&other)),
    }
}

fn drive_to_link_phase(project: Project) -> SetupRun {
    let mut run = SetupRun::new(project);
    loop {
        match run.next_step() {
            Ok(SetupStep::CreateMilestone { index, .. }) => {
                run.milestone_created(1000 + index as i64)
            }
            Ok(SetupStep::CreateIssue { index, .. }) => run.issue_created(2000 + index as i64),
            other => panic!("unexpected step before link phase: {:?}", step_name(&other)),
        }
        if matches!(run.next_step(), Ok(SetupStep::CreateLink { .. }) | Ok(SetupStep::Done)) {
            return run;
        }
    }
}

#[test]
fn unmatched_dependencies_are_skipped_within_a_list() {
    let project = Project {
        name: "P".to_string(),
        version: "1.0".to_string(),
        milestones: vec![milestone("v1", "1.0")],
        issues: vec![
            project_issue("A", "1.0", vec![]),
            project_issue("B", "1.0", vec!["X", "A", "Y"]),
        ],
    };

    let mut run = drive_to_link_phase(project);
    match run.next_step() {
        Ok(SetupStep::CreateLink { from_id, to_id }) => {
            assert_eq!(from_id, 2001);
            assert_eq!(to_id, 2000);
        }
        other => panic!("expected the one matching link, got {:?}", step_name(&other)),
    }
    run.link_created();
    assert!(matches!(run.next_step(), Ok(SetupStep::Done)));
}

#[test]
fn forward_dependencies_link_after_all_issues_exist() {
    let project = Project {
        name: "P".to_string(),
        version: "1.0".to_string(),
        milestones: vec![milestone("v1", "1.0")],
        issues: vec![
            project_issue("A", "1.0", vec!["B"]),
            project_issue("B", "1.0", vec![]),
        ],
    };

    let mut run = drive_to_link_phase(project);
    match run.next_step() {
        Ok(SetupStep::CreateLink { from_id, to_id }) => {
            assert_eq!(from_id, 2000);
            assert_eq!(to_id, 2001);
        }
        other => panic!("expected the forward link, got {:?}", step_name(&other)),
    }
    run.link_created();
    assert!(matches!(run.next_step(), Ok(SetupStep::Done)));
}

fn step_name(step: &Result<SetupStep, ProviderError>) -> String {
    match step {
        Ok(SetupStep::CreateMilestone { .. }) => "CreateMilestone".to_string(),
        Ok(SetupStep::CreateIssue { .. }) => "CreateIssue".to_string(),
        Ok(SetupStep::CreateLink { .. }) => "CreateLink".to_string(),
        Ok(SetupStep::Done) => "Done".to_string(),
        Err(e) => e.message(),
    }
}
