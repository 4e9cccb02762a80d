use aha_workflow::aha::{apply_outcome, Aha, SyncAction, SyncError, SyncEvent, SyncOutcome, SyncState};
use aha_workflow::github::PullRequest;
use aha_workflow::keys::{TrackerItemRef, TrackerKind};
use aha_workflow::options::Opt;
use aha_workflow::patch::{CustomField, TrackerItemSnapshot};

fn opt(dry_run: bool, silent: bool) -> Opt {
    Opt {
        repo: None,
        dry_run,
        silent,
        verbose: false,
        config_file: None,
        generate: false,
        pr_status: false,
        closed: false,
    }
}

fn aha(dry_run: bool, silent: bool) -> Aha {
    Aha::new("big".to_string(), "me@example.com".to_string(), opt(dry_run, silent))
}

fn pr(title: &str, labels: &[&str]) -> PullRequest {
    PullRequest {
        number: 9,
        name: title.to_string(),
        url: "https://github.com/o/r/pull/9".to_string(),
        labels: labels.iter().map(|l| l.to_string()).collect(),
    }
}

fn fresh_snapshot() -> TrackerItemSnapshot {
    TrackerItemSnapshot {
        url: "https://big.aha.io/features/FEAT-9".to_string(),
        assignee: None,
        workflow_status: "Ready to develop".to_string(),
        custom_fields: vec![],
    }
}

fn settled_snapshot() -> TrackerItemSnapshot {
    TrackerItemSnapshot {
        url: "https://big.aha.io/features/FEAT-9".to_string(),
        assignee: Some("alice".to_string()),
        workflow_status: "In code review".to_string(),
        custom_fields: vec![CustomField { name: "Pull Request".to_string(), value: "https://x".to_string() }],
    }
}

#[test]
fn end_to_end_fresh_feature() {
    let a = aha(false, false);
    let p = pr("FEAT-9: add retries", &["Needs code review"]);
    let (state, action) = a.sync_pr(&p);
    match &action {
        SyncAction::Fetch(item) => {
            assert_eq!(item.kind, TrackerKind::Feature);
            assert_eq!(item.key, "FEAT-9");
        }
        other => panic!("unexpected {:?}", other),
    }
    let (state, action) = a.sync_step(state, SyncEvent::Fetched(fresh_snapshot()), &p, &None);
    match &action {
        SyncAction::Notify { summary, body } => {
            assert_eq!(summary, "FEAT-9");
            assert_eq!(body, "https://big.aha.io/features/FEAT-9\nhttps://github.com/o/r/pull/9");
        }
        other => panic!("unexpected {:?}", other),
    }
    let (state, action) = a.sync_step(state, SyncEvent::Notified, &p, &None);
    match &action {
        SyncAction::Apply(item, patch) => {
            assert_eq!(item.key, "FEAT-9");
            assert_eq!(patch.assigned_to_user, Some("me@example.com".to_string()));
            assert_eq!(
                patch.custom_fields.as_ref().map(|c| c.github_url.clone()),
                Some("https://github.com/o/r/pull/9".to_string())
            );
            assert_eq!(
                patch.workflow_status.as_ref().map(|w| w.name.clone()),
                Some("In code review".to_string())
            );
        }
        other => panic!("unexpected {:?}", other),
    }
    let answer = SyncEvent::Answered("{\"feature\": {\"id\": \"1\"}}".to_string());
    let (state, action) = a.sync_step(state, answer, &p, &None);
    assert!(matches!(action, SyncAction::Finish(Ok(SyncOutcome::Updated))));
    assert!(matches!(state, SyncState::Done(Ok(SyncOutcome::Updated))));
}

#[test]
fn dry_run_never_applies() {
    let a = aha(true, false);
    let p = pr("FEAT-9: add retries", &["Needs code review"]);
    let (state, action) = a.sync_pr(&p);
    assert!(matches!(action, SyncAction::Fetch(_)));
    let (state, action) = a.sync_step(state, SyncEvent::Fetched(fresh_snapshot()), &p, &None);
    match &state {
        SyncState::Notifying { patch, .. } => {
            assert_eq!(patch.assigned_to_user, Some("me@example.com".to_string()));
            assert_eq!(
                patch.workflow_status.as_ref().map(|w| w.name.clone()),
                Some("In code review".to_string())
            );
        }
        other => panic!("unexpected {:?}", other),
    }
    assert!(matches!(action, SyncAction::Notify { .. }));
    let (state, action) = a.sync_step(state, SyncEvent::Notified, &p, &None);
    assert!(matches!(action, SyncAction::Finish(Ok(SyncOutcome::DryRun))));
    assert!(matches!(state, SyncState::Done(Ok(SyncOutcome::DryRun))));
}

#[test]
fn silent_run_skips_notification() {
    let a = aha(false, true);
    let p = pr("FEAT-9 retries", &[]);
    let (state, _) = a.sync_pr(&p);
    let (_, action) = a.sync_step(state, SyncEvent::Fetched(fresh_snapshot()), &p, &None);
    assert!(matches!(action, SyncAction::Apply(_, _)));
}

#[test]
fn silent_dry_run_finishes_after_fetch() {
    let a = aha(true, true);
    let p = pr("FEAT-9 retries", &[]);
    let (state, _) = a.sync_pr(&p);
    let (_, action) = a.sync_step(state, SyncEvent::Fetched(fresh_snapshot()), &p, &None);
    assert!(matches!(action, SyncAction::Finish(Ok(SyncOutcome::DryRun))));
}

#[test]
fn unmatched_title_is_skipped() {
    let a = aha(false, false);
    let (state, action) = a.sync_pr(&pr("add retries", &[]));
    assert!(matches!(action, SyncAction::Finish(Ok(SyncOutcome::Unmatched))));
    assert!(matches!(state, SyncState::Done(Ok(SyncOutcome::Unmatched))));
}

#[test]
fn settled_record_needs_no_write() {
    let a = aha(false, false);
    let p = pr("FEAT-9-2 add retries", &[]);
    let (state, action) = a.sync_pr(&p);
    match &action {
        SyncAction::Fetch(item) => assert_eq!(item.kind, TrackerKind::Requirement),
        other => panic!("unexpected {:?}", other),
    }
    let (_, action) = a.sync_step(state, SyncEvent::Fetched(settled_snapshot()), &p, &None);
    assert!(matches!(action, SyncAction::Finish(Ok(SyncOutcome::Unchanged))));
}

#[test]
fn fetch_failure_is_reported() {
    let a = aha(false, false);
    let p = pr("FEAT-9 add retries", &[]);
    let (state, _) = a.sync_pr(&p);
    let (_, action) = a.sync_step(state, SyncEvent::FetchFailed, &p, &None);
    match action {
        SyncAction::Finish(Err(SyncError::FetchFailure(item))) => assert_eq!(item.key, "FEAT-9"),
        other => panic!("unexpected {:?}", other),
    }
}

#[test]
fn apply_failure_is_reported() {
    let a = aha(false, true);
    let p = pr("FEAT-9 add retries", &[]);
    let (state, _) = a.sync_pr(&p);
    let (state, _) = a.sync_step(state, SyncEvent::Fetched(fresh_snapshot()), &p, &None);
    let (state, action) = a.sync_step(state, SyncEvent::ApplyFailed, &p, &None);
    match action {
        SyncAction::Finish(Err(SyncError::ApplyFailure(item))) => assert_eq!(item.key, "FEAT-9"),
        other => panic!("unexpected {:?}", other),
    }
    assert!(matches!(state, SyncState::Done(Err(_))));
}

#[test]
fn unexpected_event_repeats_pending_action() {
    let a = aha(false, false);
    let p = pr("FEAT-9 add retries", &[]);
    let (state, _) = a.sync_pr(&p);
    let (state, action) = a.sync_step(state, SyncEvent::Answered("{}".to_string()), &p, &None);
    assert!(matches!(state, SyncState::Fetching(_)));
    assert!(matches!(action, SyncAction::Fetch(_)));
}

#[test]
fn addresses_follow_the_kind() {
    let a = aha(false, false);
    let f = TrackerItemRef { kind: TrackerKind::Feature, key: "FEAT-9".to_string() };
    let r = TrackerItemRef { kind: TrackerKind::Requirement, key: "FEAT-9-2".to_string() };
    assert_eq!(a.fetch_url(&f), "https://big.aha.io/api/v1/feature/FEAT-9");
    assert_eq!(a.update_url(&f), "https://big.aha.io/api/v1/features/FEAT-9");
    assert_eq!(a.fetch_url(&r), "https://big.aha.io/api/v1/requirement/FEAT-9-2");
    assert_eq!(a.update_url(&r), "https://big.aha.io/api/v1/requirements/FEAT-9-2");
    assert_eq!(a.record_field(TrackerKind::Feature), "feature");
    assert_eq!(a.record_field(TrackerKind::Requirement), "requirement");
}

#[test]
fn label_mapping_through_aha() {
    let a = aha(false, false);
    let labels = vec!["In development".to_string(), "Ready".to_string()];
    assert_eq!(a.status_for_labels(&labels, &None), Some("Ready to ship".to_string()));
    let t = a.type_from_name(" HIVE-6-12 add auth").unwrap();
    assert_eq!((t.kind, t.key), (TrackerKind::Requirement, "HIVE-6-12".to_string()));
}

#[test]
fn answer_that_is_not_json_fails_the_write() {
    let a = aha(false, true);
    let p = pr("FEAT-9 add retries", &[]);
    let (state, _) = a.sync_pr(&p);
    let (state, action) = a.sync_step(state, SyncEvent::Fetched(fresh_snapshot()), &p, &None);
    assert!(matches!(action, SyncAction::Apply(_, _)));
    let answer = SyncEvent::Answered("<html>Bad gateway</html>".to_string());
    let (_, action) = a.sync_step(state, answer, &p, &None);
    match action {
        SyncAction::Finish(Err(SyncError::ApplyFailure(item))) => assert_eq!(item.key, "FEAT-9"),
        other => panic!("unexpected {:?}", other),
    }
}

#[test]
fn empty_answer_fails_the_write() {
    let a = aha(false, true);
    let p = pr("FEAT-9 add retries", &[]);
    let (state, _) = a.sync_pr(&p);
    let (state, _) = a.sync_step(state, SyncEvent::Fetched(fresh_snapshot()), &p, &None);
    let (_, action) = a.sync_step(state, SyncEvent::Answered(String::new()), &p, &None);
    assert!(matches!(action, SyncAction::Finish(Err(SyncError::ApplyFailure(_)))));
}

#[test]
fn outcome_of_a_write() {
    let item = TrackerItemRef { kind: TrackerKind::Requirement, key: "R-1-2".to_string() };
    let (state, action) = apply_outcome(item.clone(), true);
    assert!(matches!(state, SyncState::Done(Ok(SyncOutcome::Updated))));
    assert!(matches!(action, SyncAction::Finish(Ok(SyncOutcome::Updated))));
    let (_, action) = apply_outcome(item, false);
    match action {
        SyncAction::Finish(Err(SyncError::ApplyFailure(i))) => {
            assert_eq!((i.kind, i.key), (TrackerKind::Requirement, "R-1-2".to_string()))
        }
        other => panic!("unexpected {:?}", other),
    }
}
