use vstd::prelude::*;

verus! {

/// When an export task is run.
#[derive(Clone, Copy, Debug, PartialEq, Eq, Structural)]
pub enum TaskWhen {
    /// Never run the task.
    Never,
    /// Run the task when a document is saved.
    OnSave,
    /// Run the task when a document is edited.
    OnType,
    /// Run the task when a document is saved and it has a title.
    OnDocumentHasTitle,
}

/// What triggered a compilation: the events that a compile snapshot carries.
#[derive(Clone, Copy, Debug, PartialEq, Eq, Structural)]
pub struct CompileSignal {
    /// The entry file of the project changed.
    pub by_entry_update: bool,
    /// A document was edited in memory.
    pub by_mem_events: bool,
    /// A file was changed on disk (saved).
    pub by_fs_events: bool,
}

/// The decision whether a task with the given timing runs on the given
/// signal. `None` means that the answer depends on a document that is not
/// at hand.
pub open spec fn spec_needs_run(
    signal: CompileSignal,
    timing: Option<TaskWhen>,
    doc_has_title: Option<bool>,
) -> Option<bool> {
    let when = match timing {
        Some(w) => w,
        None => TaskWhen::Never,
    };
    if when != TaskWhen::Never && signal.by_entry_update {
        Some(true)
    } else {
        match when {
            TaskWhen::Never => Some(false),
            TaskWhen::OnType => Some(signal.by_mem_events),
            TaskWhen::OnSave => Some(signal.by_fs_events),
            TaskWhen::OnDocumentHasTitle => if signal.by_fs_events {
                doc_has_title
            } else {
                Some(false)
            },
        }
    }
}

/// Timing decisions shared by the export tasks.
pub struct ExportTimings;

impl ExportTimings {
    /// Whether a task with timing `timing` runs on `signal`. The document's
    /// title is only consulted for `OnDocumentHasTitle` on a save; there
    /// `doc_has_title` is `None` when no document is at hand, and so is the
    /// result.
    pub fn needs_run(signal: CompileSignal, timing: Option<TaskWhen>, doc_has_title: Option<bool>) -> (res: Option<bool>)
        ensures
            res == spec_needs_run(signal, timing, doc_has_title),
    {
        let when = match timing {
            Some(w) => w,
            None => TaskWhen::Never,
        };
        let is_never = match when {
            TaskWhen::Never => true,
            _ => false,
        };
        if !is_never && signal.by_entry_update {
            return Some(true);
        }
        match when {
            TaskWhen::Never => Some(false),
            TaskWhen::OnType => Some(signal.by_mem_events),
            TaskWhen::OnSave => Some(signal.by_fs_events),
            TaskWhen::OnDocumentHasTitle => {
                if signal.by_fs_events {
                    doc_has_title
                } else {
                    Some(false)
                }
            },
        }
    }
}

/// The decision of an export task configured with `when`: a decision that
/// depends on a document that is not at hand counts as "do not run".
pub open spec fn spec_export_needs_run(signal: CompileSignal, when: TaskWhen, doc_has_title: Option<bool>) -> bool {
    match spec_needs_run(signal, Some(when), doc_has_title) {
        Some(b) => b,
        None => false,
    }
}

impl ExportTimings {
    /// Whether an export task configured with `when` runs on `signal`;
    /// `false` where the decision needs a document that is not at hand.
    pub fn export_needs_run(signal: CompileSignal, when: TaskWhen, doc_has_title: Option<bool>) -> (res: bool)
        ensures
            res == spec_export_needs_run(signal, when, doc_has_title),
    {
        match Self::needs_run(signal, Some(when), doc_has_title) {
            Some(b) => b,
            None => false,
        }
    }
}

/// A task that is never to run, or has no timing, does not run, whatever
/// the signal and the document.
pub proof fn lemma_never_runs(signal: CompileSignal, doc_has_title: Option<bool>)
    ensures
        spec_needs_run(signal, None, doc_has_title) == Some(false),
        spec_needs_run(signal, Some(TaskWhen::Never), doc_has_title) == Some(false),
{
}

/// An update of the entry file runs every task that is not `Never`.
pub proof fn lemma_entry_update_runs(signal: CompileSignal, timing: TaskWhen, doc_has_title: Option<bool>)
    requires
        signal.by_entry_update,
        timing != TaskWhen::Never,
    ensures
        spec_needs_run(signal, Some(timing), doc_has_title) == Some(true),
{
}

/// Without an entry update, an `OnType` task runs exactly on edits and an
/// `OnSave` task exactly on saves.
pub proof fn lemma_edit_and_save(signal: CompileSignal, doc_has_title: Option<bool>)
    requires
        !signal.by_entry_update,
    ensures
        spec_needs_run(signal, Some(TaskWhen::OnType), doc_has_title) == Some(signal.by_mem_events),
        spec_needs_run(signal, Some(TaskWhen::OnSave), doc_has_title) == Some(signal.by_fs_events),
{
}

/// Without an entry update, an `OnDocumentHasTitle` task runs on a save
/// exactly when the document has a title, and not at all without a save.
pub proof fn lemma_title_decides(signal: CompileSignal, has_title: bool)
    requires
        !signal.by_entry_update,
    ensures
        signal.by_fs_events ==> spec_needs_run(signal, Some(TaskWhen::OnDocumentHasTitle), Some(has_title))
            == Some(has_title),
        !signal.by_fs_events ==> spec_needs_run(signal, Some(TaskWhen::OnDocumentHasTitle), Some(has_title))
            == Some(false),
{
}

/// An `OnDocumentHasTitle` task runs only on a save (or an entry update):
/// without either it does not run, whatever is known of the document.
pub proof fn lemma_title_task_needs_save(signal: CompileSignal, doc_has_title: Option<bool>)
    requires
        !signal.by_entry_update,
        !signal.by_fs_events,
    ensures
        spec_needs_run(signal, Some(TaskWhen::OnDocumentHasTitle), doc_has_title) == Some(false),
{
}

/// A task runs only on some event: a decision to run needs an entry update,
/// an edit for `OnType`, or a save for `OnSave` and `OnDocumentHasTitle`.
pub proof fn lemma_run_needs_event(signal: CompileSignal, timing: TaskWhen, doc_has_title: Option<bool>)
    requires
        spec_needs_run(signal, Some(timing), doc_has_title) == Some(true),
    ensures
        signal.by_entry_update || (timing == TaskWhen::OnType && signal.by_mem_events) || (
        timing == TaskWhen::OnSave && signal.by_fs_events) || (timing == TaskWhen::OnDocumentHasTitle
            && signal.by_fs_events && doc_has_title == Some(true)),
        timing != TaskWhen::Never,
{
}

/// The decision is left open exactly for an `OnDocumentHasTitle` task on a
/// save without an entry update when no document is at hand.
pub proof fn lemma_undecided(signal: CompileSignal, timing: Option<TaskWhen>, doc_has_title: Option<bool>)
    ensures
        spec_needs_run(signal, timing, doc_has_title) is None <==> {
            &&& timing == Some(TaskWhen::OnDocumentHasTitle)
            &&& !signal.by_entry_update
            &&& signal.by_fs_events
            &&& doc_has_title is None
        },
{
}

/// With no event at all, no task runs.
pub proof fn lemma_quiet_signal(timing: Option<TaskWhen>, doc_has_title: Option<bool>)
    ensures
        spec_needs_run(
            CompileSignal { by_entry_update: false, by_mem_events: false, by_fs_events: false },
            timing,
            doc_has_title,
        ) == Some(false),
{
}

} // verus!
