use process_priority_enforcer::config::AppPriorityConfig;
use process_priority_enforcer::monitor::{
    watch_event_action, FileChangeKind, ProcessAction, ProcessEvent, ProcessOutcome, ProcessStage,
    WatchAction,
};
use process_priority_enforcer::priority::CpuPriority;
use process_priority_enforcer::process::HandleOpenType;

#[test]
fn creation_or_modification_reloads_once() {
    let batch = Ok(vec![FileChangeKind::Other, FileChangeKind::Modify, FileChangeKind::Create]);
    assert_eq!(watch_event_action(&batch), WatchAction::Reload);
    assert_eq!(watch_event_action(&Ok(vec![FileChangeKind::Create])), WatchAction::Reload);
}

#[test]
fn other_events_are_ignored() {
    assert_eq!(watch_event_action(&Ok(vec![FileChangeKind::Other])), WatchAction::Ignore);
    assert_eq!(watch_event_action(&Ok(vec![])), WatchAction::Ignore);
}

#[test]
fn watcher_errors_are_reported() {
    assert_eq!(
        watch_event_action(&Err("boom".to_string())),
        WatchAction::ReportError("boom".to_string())
    );
}

fn run(events: &[ProcessEvent]) -> (ProcessStage, Vec<ProcessAction>) {
    let mut stage = ProcessStage::Start;
    let mut actions = vec![];
    for e in events {
        let (next, action) = stage.step(*e);
        stage = next;
        actions.push(action);
    }
    (stage, actions)
}

fn cfg() -> AppPriorityConfig {
    AppPriorityConfig { cpu: Some(CpuPriority::VeryLow), io: None, power: None }
}

#[test]
fn matched_process_gets_its_priorities() {
    let (stage, actions) = run(&[
        ProcessEvent::Begin,
        ProcessEvent::HandleOpened,
        ProcessEvent::Matched(Some(cfg())),
        ProcessEvent::HandleOpened,
        ProcessEvent::Applied,
    ]);
    assert_eq!(stage, ProcessStage::Finished);
    assert_eq!(
        actions,
        vec![
            ProcessAction::OpenHandle(HandleOpenType::QueryInfo),
            ProcessAction::ReadImagePathAndMatch,
            ProcessAction::OpenHandle(HandleOpenType::SetInfo),
            ProcessAction::ApplyPriorities(cfg()),
            ProcessAction::Finish(ProcessOutcome::Updated(cfg())),
        ]
    );
}

#[test]
fn unmatched_process_is_skipped() {
    let (_, actions) = run(&[ProcessEvent::Begin, ProcessEvent::HandleOpened, ProcessEvent::Matched(None)]);
    assert_eq!(actions.last(), Some(&ProcessAction::Finish(ProcessOutcome::Skipped)));
    let (_, actions) = run(&[ProcessEvent::Begin, ProcessEvent::HandleOpenFailed]);
    assert_eq!(actions.last(), Some(&ProcessAction::Finish(ProcessOutcome::Skipped)));
    let (_, actions) = run(&[ProcessEvent::Begin, ProcessEvent::HandleOpened, ProcessEvent::ImagePathFailed]);
    assert_eq!(actions.last(), Some(&ProcessAction::Finish(ProcessOutcome::Skipped)));
}

#[test]
fn failures_after_match_are_reported() {
    let (_, actions) = run(&[
        ProcessEvent::Begin,
        ProcessEvent::HandleOpened,
        ProcessEvent::Matched(Some(cfg())),
        ProcessEvent::HandleOpenFailed,
    ]);
    assert_eq!(actions.last(), Some(&ProcessAction::Finish(ProcessOutcome::SetHandleFailed(cfg()))));
    let (_, actions) = run(&[
        ProcessEvent::Begin,
        ProcessEvent::HandleOpened,
        ProcessEvent::Matched(Some(cfg())),
        ProcessEvent::HandleOpened,
        ProcessEvent::ApplyFailed,
    ]);
    assert_eq!(actions.last(), Some(&ProcessAction::Finish(ProcessOutcome::ApplyFailed(cfg()))));
}
