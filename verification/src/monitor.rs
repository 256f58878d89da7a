//! Decisions of the two loops of the program: the configuration watcher,
//! which decides when to reload the configuration, and the handling of one
//! process, which decides, step by step, whether and how its priorities are
//! changed. The steps themselves (opening handles, reading the image path,
//! applying priorities) are carried out by the caller.

use vstd::prelude::*;
use crate::config::AppPriorityConfig;
use crate::process::HandleOpenType;

verus! {

/// The kind of a file-system event on the configuration file.
#[derive(Debug, Clone, Copy, PartialEq, Eq, Structural)]
pub enum FileChangeKind {
    /// The file was created.
    Create,
    /// The file was modified.
    Modify,
    /// Anything else (access, removal, ...).
    Other,
}

/// What the watcher does with one batch of debounced events.
#[derive(Debug, PartialEq, Eq)]
pub enum WatchAction {
    /// Read the configuration again, once.
    Reload,
    /// Nothing to do.
    Ignore,
    /// Report the watcher's error.
    ReportError(String),
}

/// The kind of event that makes the configuration be read again.
pub open spec fn triggers_reload(kind: FileChangeKind) -> bool {
    kind is Create || kind is Modify
}

/// Whether any of the events calls for a reload.
fn any_triggers_reload(kinds: &Vec<FileChangeKind>) -> (r: bool)
    ensures
        r <==> exists|i: int| 0 <= i < kinds@.len() && triggers_reload(#[trigger] kinds@[i]),
        r <==> exists|i: int| 0 <= i < kinds@.len()
            && (#[trigger] kinds@[i] == FileChangeKind::Create || kinds@[i] == FileChangeKind::Modify),
{
    let mut i: usize = 0;
    while i < kinds.len()
        invariant
            i <= kinds@.len(),
            forall|j: int| 0 <= j < i ==> !triggers_reload(#[trigger] kinds@[j]),
        decreases kinds@.len() - i,
    {
        match kinds[i] {
            FileChangeKind::Create | FileChangeKind::Modify => {
                assert(triggers_reload(kinds@[i as int]));
                return true;
            },
            FileChangeKind::Other => {},
        }
        i = i + 1;
    }
    false
}

/// A batch of events calls for a reload exactly when one of them is a
/// creation or a modification of the file; other events never do.
pub proof fn lemma_reload_kinds(kinds: Seq<FileChangeKind>)
    ensures
        (exists|i: int| 0 <= i < kinds.len() && triggers_reload(#[trigger] kinds[i]))
            <==> (exists|i: int| 0 <= i < kinds.len()
                && (#[trigger] kinds[i] == FileChangeKind::Create || kinds[i] == FileChangeKind::Modify)),
        forall|k: FileChangeKind| triggers_reload(k) ==> k != FileChangeKind::Other,
        triggers_reload(FileChangeKind::Create) && triggers_reload(FileChangeKind::Modify),
{
    if exists|i: int| 0 <= i < kinds.len() && triggers_reload(#[trigger] kinds[i]) {
        let i = choose|i: int| 0 <= i < kinds.len() && triggers_reload(#[trigger] kinds[i]);
        assert(kinds[i] == FileChangeKind::Create || kinds[i] == FileChangeKind::Modify);
    }
    if exists|i: int| 0 <= i < kinds.len()
        && (#[trigger] kinds[i] == FileChangeKind::Create || kinds[i] == FileChangeKind::Modify) {
        let i = choose|i: int| 0 <= i < kinds.len()
            && (#[trigger] kinds[i] == FileChangeKind::Create || kinds[i] == FileChangeKind::Modify);
        assert(triggers_reload(kinds[i]));
    }
}

/// Decides what to do with a batch of debounced events (or the watcher's
/// error): a batch with at least one creation or modification leads to
/// exactly one reload, however many such events it holds; other batches are
/// ignored; errors are reported.
pub fn watch_event_action(event: &Result<Vec<FileChangeKind>, String>) -> (a: WatchAction)
    ensures
        event is Ok ==> (a is Reload <==> exists|i: int| 0 <= i < event->Ok_0@.len()
            && triggers_reload(#[trigger] event->Ok_0@[i])),
        event is Ok ==> (a is Reload <==> exists|i: int| 0 <= i < event->Ok_0@.len()
            && (#[trigger] event->Ok_0@[i] == FileChangeKind::Create || event->Ok_0@[i] == FileChangeKind::Modify)),
        event is Ok ==> (a is Reload || a is Ignore),
        event is Err ==> (a matches WatchAction::ReportError(r) && r@ == event->Err_0@),
{
    match event {
        Ok(kinds) => if any_triggers_reload(kinds) {
            WatchAction::Reload
        } else {
            WatchAction::Ignore
        },
        Err(m) => WatchAction::ReportError(m.clone()),
    }
}


/// Where the handling of one process stands.
#[derive(Debug, Clone, Copy, PartialEq, Eq, Structural)]
pub enum ProcessStage {
    /// Nothing has been done yet.
    Start,
    /// A handle for querying the process has been asked for.
    AwaitQueryHandle,
    /// The image path has been asked for, to be matched against the groups.
    AwaitMatch,
    /// The process matched these priorities; a handle for changing them has
    /// been asked for.
    AwaitSetHandle(AppPriorityConfig),
    /// These priorities are being applied.
    AwaitApply(AppPriorityConfig),
    /// The handling is over.
    Finished,
}

/// What the last step reported.
#[derive(Debug, Clone, Copy, PartialEq, Eq, Structural)]
pub enum ProcessEvent {
    /// The handling begins.
    Begin,
    /// The handle asked for was opened.
    HandleOpened,
    /// The handle asked for could not be opened.
    HandleOpenFailed,
    /// The image path could not be read.
    ImagePathFailed,
    /// The image path was read and matched: the priorities of the first
    /// matching group, or `None`.
    Matched(Option<AppPriorityConfig>),
    /// The priorities were applied.
    Applied,
    /// Applying the priorities failed.
    ApplyFailed,
}

/// How the handling of a process ended.
#[derive(Debug, Clone, Copy, PartialEq, Eq, Structural)]
pub enum ProcessOutcome {
    /// The process was left alone: it could not be inspected, or no group
    /// matched it.
    Skipped,
    /// It matched, but no handle for changing its priorities could be opened.
    SetHandleFailed(AppPriorityConfig),
    /// Its priorities were changed to these.
    Updated(AppPriorityConfig),
    /// Applying these priorities failed.
    ApplyFailed(AppPriorityConfig),
}

/// The next step to carry out.
#[derive(Debug, Clone, Copy, PartialEq, Eq, Structural)]
pub enum ProcessAction {
    /// Open a handle to the process with this access.
    OpenHandle(HandleOpenType),
    /// Read the image path and match it against the groups.
    ReadImagePathAndMatch,
    /// Apply these priorities through the handle opened for setting.
    ApplyPriorities(AppPriorityConfig),
    /// Stop, with this outcome.
    Finish(ProcessOutcome),
}

/// One step of the handling of a process: from where it stands and what the
/// last step reported, where it goes and what to do next.
pub open spec fn process_step_spec(stage: ProcessStage, event: ProcessEvent) -> (ProcessStage, ProcessAction) {
    match (stage, event) {
        (ProcessStage::Start, _) =>
            (ProcessStage::AwaitQueryHandle, ProcessAction::OpenHandle(HandleOpenType::QueryInfo)),
        (ProcessStage::AwaitQueryHandle, ProcessEvent::HandleOpened) =>
            (ProcessStage::AwaitMatch, ProcessAction::ReadImagePathAndMatch),
        (ProcessStage::AwaitMatch, ProcessEvent::Matched(Some(c))) =>
            (ProcessStage::AwaitSetHandle(c), ProcessAction::OpenHandle(HandleOpenType::SetInfo)),
        (ProcessStage::AwaitSetHandle(c), ProcessEvent::HandleOpened) =>
            (ProcessStage::AwaitApply(c), ProcessAction::ApplyPriorities(c)),
        (ProcessStage::AwaitSetHandle(c), _) =>
            (ProcessStage::Finished, ProcessAction::Finish(ProcessOutcome::SetHandleFailed(c))),
        (ProcessStage::AwaitApply(c), ProcessEvent::Applied) =>
            (ProcessStage::Finished, ProcessAction::Finish(ProcessOutcome::Updated(c))),
        (ProcessStage::AwaitApply(c), _) =>
            (ProcessStage::Finished, ProcessAction::Finish(ProcessOutcome::ApplyFailed(c))),
        _ => (ProcessStage::Finished, ProcessAction::Finish(ProcessOutcome::Skipped)),
    }
}

impl ProcessStage {
    /// One step of the handling of a process. A process is inspected through
    /// a query handle; only if its image path matches a group is a handle
    /// for changing it opened, and then exactly the matched priorities are
    /// applied. Any failure before the match leaves the process alone.
    pub fn step(self, event: ProcessEvent) -> (r: (ProcessStage, ProcessAction))
        ensures
            r == process_step_spec(self, event),
            self is Start ==> r == (ProcessStage::AwaitQueryHandle, ProcessAction::OpenHandle(HandleOpenType::QueryInfo)),
            self is AwaitQueryHandle && event is HandleOpened
                ==> r == (ProcessStage::AwaitMatch, ProcessAction::ReadImagePathAndMatch),
            self is AwaitMatch && event is Matched && event->Matched_0 is Some
                ==> r == (ProcessStage::AwaitSetHandle(event->Matched_0->Some_0),
                    ProcessAction::OpenHandle(HandleOpenType::SetInfo)),
            self is AwaitSetHandle && event is HandleOpened
                ==> r == (ProcessStage::AwaitApply(self->AwaitSetHandle_0),
                    ProcessAction::ApplyPriorities(self->AwaitSetHandle_0)),
            self is AwaitApply && event is Applied
                ==> r == (ProcessStage::Finished, ProcessAction::Finish(ProcessOutcome::Updated(self->AwaitApply_0))),
    {
        match (self, event) {
            (ProcessStage::Start, _) =>
                (ProcessStage::AwaitQueryHandle, ProcessAction::OpenHandle(HandleOpenType::QueryInfo)),
            (ProcessStage::AwaitQueryHandle, ProcessEvent::HandleOpened) =>
                (ProcessStage::AwaitMatch, ProcessAction::ReadImagePathAndMatch),
            (ProcessStage::AwaitMatch, ProcessEvent::Matched(Some(c))) =>
                (ProcessStage::AwaitSetHandle(c), ProcessAction::OpenHandle(HandleOpenType::SetInfo)),
            (ProcessStage::AwaitSetHandle(c), ProcessEvent::HandleOpened) =>
                (ProcessStage::AwaitApply(c), ProcessAction::ApplyPriorities(c)),
            (ProcessStage::AwaitSetHandle(c), _) =>
                (ProcessStage::Finished, ProcessAction::Finish(ProcessOutcome::SetHandleFailed(c))),
            (ProcessStage::AwaitApply(c), ProcessEvent::Applied) =>
                (ProcessStage::Finished, ProcessAction::Finish(ProcessOutcome::Updated(c))),
            (ProcessStage::AwaitApply(c), _) =>
                (ProcessStage::Finished, ProcessAction::Finish(ProcessOutcome::ApplyFailed(c))),
            _ => (ProcessStage::Finished, ProcessAction::Finish(ProcessOutcome::Skipped)),
        }
    }
}

/// The stage reached, and the actions issued, when the handling starts at
/// `Start` and the events arrive in order.
pub open spec fn process_run(events: Seq<ProcessEvent>) -> (ProcessStage, Seq<ProcessAction>)
    decreases events.len(),
{
    if events.len() == 0 {
        (ProcessStage::Start, Seq::empty())
    } else {
        let (stage, actions) = process_run(events.drop_last());
        let (next, action) = process_step_spec(stage, events.last());
        (next, actions.push(action))
    }
}

/// The priorities that a stage carries, if any.
pub open spec fn stage_priorities(stage: ProcessStage) -> Option<AppPriorityConfig> {
    match stage {
        ProcessStage::AwaitSetHandle(c) => Some(c),
        ProcessStage::AwaitApply(c) => Some(c),
        _ => None,
    }
}

proof fn lemma_process_run_priorities(events: Seq<ProcessEvent>)
    ensures
        ({
            let (stage, actions) = process_run(events);
            &&& stage_priorities(stage) matches Some(c) ==> events.contains(ProcessEvent::Matched(Some(c)))
            &&& forall|i: int| 0 <= i < actions.len() ==>
                (#[trigger] actions[i] matches ProcessAction::ApplyPriorities(c)
                    ==> events.contains(ProcessEvent::Matched(Some(c))))
            &&& forall|i: int| 0 <= i < actions.len() ==>
                (#[trigger] actions[i] == ProcessAction::OpenHandle(HandleOpenType::SetInfo)
                    ==> exists|c: AppPriorityConfig| events.contains(ProcessEvent::Matched(Some(c))))
        }),
    decreases events.len(),
{
    if events.len() > 0 {
        let prefix = events.drop_last();
        lemma_process_run_priorities(prefix);
        let (stage, actions) = process_run(prefix);
        let (next, action) = process_step_spec(stage, events.last());
        assert forall|e: ProcessEvent| prefix.contains(e) implies events.contains(e) by {
            let k = choose|k: int| 0 <= k < prefix.len() && prefix[k] == e;
            assert(events[k] == e);
        }
        assert(events.contains(events.last())) by {
            assert(events[events.len() - 1] == events.last());
        }
        let all = actions.push(action);
        assert forall|i: int| 0 <= i < all.len() && (#[trigger] all[i] is ApplyPriorities) implies
            events.contains(ProcessEvent::Matched(Some(all[i]->ApplyPriorities_0))) by {
            if i < actions.len() {
                assert(all[i] == actions[i]);
            }
        }
        assert forall|i: int| 0 <= i < all.len()
            && #[trigger] all[i] == ProcessAction::OpenHandle(HandleOpenType::SetInfo) implies
            exists|c: AppPriorityConfig| events.contains(ProcessEvent::Matched(Some(c))) by {
            if i < actions.len() {
                assert(all[i] == actions[i]);
            } else {
                let c = stage_priorities(next)->Some_0;
                assert(events.contains(ProcessEvent::Matched(Some(c))));
            }
        }
    }
}

/// Matching processes receive the configured priorities, and only they do:
/// whatever the steps report, a handle for changing a process is asked for
/// only after its image path matched a group, and the priorities applied are
/// always ones that a match produced.
pub proof fn lemma_only_matched_priorities_are_applied(events: Seq<ProcessEvent>)
    ensures
        forall|i: int| 0 <= i < process_run(events).1.len() ==>
            (#[trigger] process_run(events).1[i] matches ProcessAction::ApplyPriorities(c)
                ==> events.contains(ProcessEvent::Matched(Some(c)))),
        forall|i: int| 0 <= i < process_run(events).1.len() ==>
            (#[trigger] process_run(events).1[i] == ProcessAction::OpenHandle(HandleOpenType::SetInfo)
                ==> exists|c: AppPriorityConfig| events.contains(ProcessEvent::Matched(Some(c)))),
{
    lemma_process_run_priorities(events);
}


/// A process whose image path matched a group, and for which every step
/// succeeds, gets exactly that group's priorities, whichever of them the
/// group sets: the handling opens a query handle, reads and matches the
/// path, opens a handle for setting, applies the matched priorities, and
/// ends with the process updated to them.
pub proof fn lemma_matched_process_is_updated(c: AppPriorityConfig)
    ensures
        process_run(seq![
            ProcessEvent::Begin,
            ProcessEvent::HandleOpened,
            ProcessEvent::Matched(Some(c)),
            ProcessEvent::HandleOpened,
            ProcessEvent::Applied,
        ]) == (ProcessStage::Finished, seq![
            ProcessAction::OpenHandle(HandleOpenType::QueryInfo),
            ProcessAction::ReadImagePathAndMatch,
            ProcessAction::OpenHandle(HandleOpenType::SetInfo),
            ProcessAction::ApplyPriorities(c),
            ProcessAction::Finish(ProcessOutcome::Updated(c)),
        ]),
{
    let e = seq![
        ProcessEvent::Begin,
        ProcessEvent::HandleOpened,
        ProcessEvent::Matched(Some(c)),
        ProcessEvent::HandleOpened,
        ProcessEvent::Applied,
    ];
    reveal_with_fuel(process_run, 6);
    assert(e.drop_last() =~= seq![ProcessEvent::Begin, ProcessEvent::HandleOpened, ProcessEvent::Matched(Some(c)), ProcessEvent::HandleOpened]);
    assert(e.drop_last().drop_last() =~= seq![ProcessEvent::Begin, ProcessEvent::HandleOpened, ProcessEvent::Matched(Some(c))]);
    assert(e.drop_last().drop_last().drop_last() =~= seq![ProcessEvent::Begin, ProcessEvent::HandleOpened]);
    assert(e.drop_last().drop_last().drop_last().drop_last() =~= seq![ProcessEvent::Begin]);
    assert(e.drop_last().drop_last().drop_last().drop_last().drop_last() =~= Seq::<ProcessEvent>::empty());
    assert(process_run(e).1 =~= seq![
        ProcessAction::OpenHandle(HandleOpenType::QueryInfo),
        ProcessAction::ReadImagePathAndMatch,
        ProcessAction::OpenHandle(HandleOpenType::SetInfo),
        ProcessAction::ApplyPriorities(c),
        ProcessAction::Finish(ProcessOutcome::Updated(c)),
    ]);
}

} // verus!
