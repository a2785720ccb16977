//! File operations: what the user asked for, the elementary operations that
//! carry it out, their progress reports, and the texts that ask for
//! confirmation.  Performing an elementary operation on the disk is left to
//! the caller.

use vstd::prelude::*;
use crate::state::{AppState, FileOperation, PanelState, dotdot, is_dotdot};
use crate::paths;
use crate::text;

verus! {

/// An elementary file operation.
#[derive(Debug)]
pub enum Operation {
    Copy { src: String, dst: String },
    Move { src: String, dst: String },
    Delete { path: String },
    DeleteToTrash { path: String },
    RestoreFromTrash { path: String },
    CreateDir { path: String },
    Rename { old: String, new: String },
    CopyToClipboard { paths: Vec<String> },
    PasteFromClipboard { dst: String },
}

/// A progress report of an operation.
#[derive(Debug)]
pub enum OperationProgress {
    Started { operation: String },
    Progress { current: u64, total: u64, message: String },
    Completed { operation: String },
    Failed { operation: String, error: String },
}

/// The handler that performs operations on the local file system.
pub struct DefaultOperationHandler;

impl DefaultOperationHandler {
    /// Whether the handler takes an operation: it takes every one.
    pub fn can_execute(&self, _operation: &Operation) -> (r: bool)
        ensures
            r,
    {
        true
    }
}

/// A queue of operations to perform in order.
pub struct OperationQueue {
    operations: Vec<Operation>,
}

impl OperationQueue {
    /// The queued operations.
    pub closed spec fn queued(&self) -> Seq<Operation> {
        self.operations@
    }

    /// An empty queue.
    pub fn new() -> (r: Self)
        ensures
            r.queued().len() == 0,
    {
        OperationQueue { operations: Vec::new() }
    }

    /// Queues an operation.
    pub fn add(&mut self, operation: Operation)
        ensures
            final(self).queued() == old(self).queued().push(operation),
    {
        self.operations.push(operation);
    }

    /// Takes every queued operation out, in order, leaving the queue empty.
    pub fn drain(&mut self) -> (r: Vec<Operation>)
        ensures
            r@ == old(self).queued(),
            final(self).queued().len() == 0,
    {
        let mut out = Vec::new();
        std::mem::swap(&mut out, &mut self.operations);
        out
    }
}

/// The paths an operation on the active panel applies to: the marked files,
/// or else the entry under the cursor unless it is `..`.
pub open spec fn operation_targets(panel: PanelState) -> Option<Seq<String>> {
    if panel.marked_files@.len() > 0 {
        Some(panel.marked_files@)
    } else {
        match panel.current_entry_spec() {
            Some(e) => if e.name@ != dotdot() {
                Some(seq![e.path])
            } else {
                None
            },
            None => None,
        }
    }
}

/// The targets of an operation on a panel (see `operation_targets`).
fn targets(panel: &PanelState) -> (r: Option<Vec<String>>)
    ensures
        match operation_targets(*panel) {
            Some(t) => r matches Some(v) && v@ == t,
            None => r is None,
        },
{
    if panel.marked_files.len() > 0 {
        return Some(crate::config::clone_strings(&panel.marked_files));
    }
    match panel.current_entry() {
        Some(e) => {
            if is_dotdot(&e.name) {
                None
            } else {
                let mut v = Vec::new();
                v.push(e.path.clone());
                assert(v@ =~= seq![e.path]);
                Some(v)
            }
        },
        None => None,
    }
}

/// Prepares operations from the application state.
pub struct OperationManager {
    handler: DefaultOperationHandler,
}

impl OperationManager {
    /// A manager using the default handler.
    pub fn new() -> (r: Self) {
        OperationManager { handler: DefaultOperationHandler }
    }

    /// Copies the targets of the active panel into the other panel's directory.
    pub fn prepare_copy(state: &AppState) -> (r: Option<FileOperation>)
        ensures
            match operation_targets(state.active()) {
                Some(t) => r matches Some(FileOperation::Copy { sources, destination }) && sources@
                    == t && destination == state.inactive().current_dir,
                None => r is None,
            },
    {
        match targets(state.active_panel()) {
            Some(sources) => Some(
                FileOperation::Copy { sources, destination: state.inactive_panel().current_dir.clone() },
            ),
            None => None,
        }
    }

    /// Moves the targets of the active panel into the other panel's directory.
    pub fn prepare_move(state: &AppState) -> (r: Option<FileOperation>)
        ensures
            match operation_targets(state.active()) {
                Some(t) => r matches Some(FileOperation::Move { sources, destination }) && sources@
                    == t && destination == state.inactive().current_dir,
                None => r is None,
            },
    {
        match targets(state.active_panel()) {
            Some(sources) => Some(
                FileOperation::Move { sources, destination: state.inactive_panel().current_dir.clone() },
            ),
            None => None,
        }
    }

    /// Deletes the targets of the active panel.
    pub fn prepare_delete(state: &AppState) -> (r: Option<FileOperation>)
        ensures
            match operation_targets(state.active()) {
                Some(t) => r matches Some(FileOperation::Delete { targets }) && targets@ == t,
                None => r is None,
            },
    {
        match targets(state.active_panel()) {
            Some(targets) => Some(FileOperation::Delete { targets }),
            None => None,
        }
    }

    /// Moves the targets of the active panel to the trash.
    pub fn prepare_delete_to_trash(state: &AppState) -> (r: Option<FileOperation>)
        ensures
            match operation_targets(state.active()) {
                Some(t) => r matches Some(FileOperation::DeleteToTrash { targets }) && targets@ == t,
                None => r is None,
            },
    {
        match targets(state.active_panel()) {
            Some(targets) => Some(FileOperation::DeleteToTrash { targets }),
            None => None,
        }
    }

    /// Copies the targets of the active panel to the clipboard.
    pub fn prepare_copy_to_clipboard(state: &AppState) -> (r: Option<FileOperation>)
        ensures
            match operation_targets(state.active()) {
                Some(t) => r matches Some(FileOperation::CopyToClipboard { paths }) && paths@ == t,
                None => r is None,
            },
    {
        match targets(state.active_panel()) {
            Some(paths) => Some(FileOperation::CopyToClipboard { paths }),
            None => None,
        }
    }

    /// Pastes the clipboard into the active panel's directory.
    pub fn prepare_paste_from_clipboard(state: &AppState) -> (r: Option<FileOperation>)
        ensures
            r matches Some(FileOperation::PasteFromClipboard { destination }) && destination
                == state.active().current_dir,
    {
        Some(FileOperation::PasteFromClipboard { destination: state.active_panel().current_dir.clone() })
    }
}


/// The last component of a path, or the empty sequence.
pub open spec fn file_name_or_empty(p: Seq<char>) -> Seq<char> {
    match paths::path_file_name(p) {
        Some(n) => n,
        None => Seq::empty(),
    }
}

/// Where a source lands in a destination directory.
pub open spec fn landing_path(destination: Seq<char>, source: Seq<char>) -> Seq<char> {
    paths::path_join(destination, file_name_or_empty(source))
}

/// The new path of a renamed file: the new name beside the old path.
pub open spec fn renamed_path(old_path: Seq<char>, new_name: Seq<char>) -> Seq<char> {
    match paths::path_parent(old_path) {
        Some(p) => paths::path_join(p, new_name),
        None => new_name,
    }
}

/// The last component of a path, or `?`.
pub open spec fn display_name(p: Seq<char>) -> Seq<char> {
    match paths::path_file_name(p) {
        Some(n) => n,
        None => "?"@,
    }
}

/// Where a source lands in a destination directory.
fn landing(destination: &String, source: &String) -> (r: String)
    ensures
        r@ == landing_path(destination@, source@),
{
    let name = match paths::file_name(source.as_str()) {
        Some(n) => n,
        None => String::new(),
    };
    paths::join(destination.as_str(), name.as_str())
}

/// The last component of a path, or `?`.
fn display(p: &String) -> (r: String)
    ensures
        r@ == display_name(p@),
{
    match paths::file_name(p.as_str()) {
        Some(n) => n,
        None => String::from_str("?"),
    }
}

/// Sources copied or moved into a directory, one elementary operation each.
fn transfers(sources: &Vec<String>, destination: &String, copy: bool) -> (r: Vec<Operation>)
    ensures
        r@.len() == sources@.len(),
        forall|i: int|
            0 <= i < sources@.len() ==> (if copy {
                (#[trigger] r@[i] matches Operation::Copy { src, dst } && src@ == sources@[i]@ && dst@
                    == landing_path(destination@, sources@[i]@))
            } else {
                (r@[i] matches Operation::Move { src, dst } && src@ == sources@[i]@ && dst@
                    == landing_path(destination@, sources@[i]@))
            }),
{
    let mut r: Vec<Operation> = Vec::new();
    let mut i: usize = 0;
    while i < sources.len()
        invariant
            i <= sources@.len(),
            r@.len() == i,
            forall|j: int|
                0 <= j < i ==> (if copy {
                    (#[trigger] r@[j] matches Operation::Copy { src, dst } && src@ == sources@[j]@
                        && dst@ == landing_path(destination@, sources@[j]@))
                } else {
                    (r@[j] matches Operation::Move { src, dst } && src@ == sources@[j]@ && dst@
                        == landing_path(destination@, sources@[j]@))
                }),
        decreases sources@.len() - i,
    {
        let dst = landing(destination, &sources[i]);
        if copy {
            r.push(Operation::Copy { src: sources[i].clone(), dst });
        } else {
            r.push(Operation::Move { src: sources[i].clone(), dst });
        }
        i = i + 1;
    }
    r
}

/// One elementary operation per target.
fn per_target(targets: &Vec<String>, kind: u8) -> (r: Vec<Operation>)
    requires
        kind < 3,
    ensures
        r@.len() == targets@.len(),
        forall|i: int|
            0 <= i < targets@.len() ==> match #[trigger] r@[i] {
                Operation::Delete { path } => kind == 0 && path@ == targets@[i]@,
                Operation::DeleteToTrash { path } => kind == 1 && path@ == targets@[i]@,
                Operation::RestoreFromTrash { path } => kind == 2 && path@ == targets@[i]@,
                _ => false,
            },
{
    let mut r: Vec<Operation> = Vec::new();
    let mut i: usize = 0;
    while i < targets.len()
        invariant
            kind < 3,
            i <= targets@.len(),
            r@.len() == i,
            forall|j: int|
                0 <= j < i ==> match #[trigger] r@[j] {
                    Operation::Delete { path } => kind == 0 && path@ == targets@[j]@,
                    Operation::DeleteToTrash { path } => kind == 1 && path@ == targets@[j]@,
                    Operation::RestoreFromTrash { path } => kind == 2 && path@ == targets@[j]@,
                    _ => false,
                },
        decreases targets@.len() - i,
    {
        let path = targets[i].clone();
        if kind == 0 {
            r.push(Operation::Delete { path });
        } else if kind == 1 {
            r.push(Operation::DeleteToTrash { path });
        } else {
            r.push(Operation::RestoreFromTrash { path });
        }
        i = i + 1;
    }
    r
}

impl OperationManager {
    /// The elementary operations that carry out a confirmed operation, in the
    /// order they run: each source or target is one operation; a copy or move
    /// lands each source under its own name in the destination; a rename keeps
    /// the file in its directory.
    pub fn plan_operations(operation: &FileOperation) -> (r: Vec<Operation>)
        ensures
            match operation {
                FileOperation::Copy { sources, destination } => r@.len() == sources@.len()
                    && forall|i: int| 0 <= i < sources@.len() ==> (#[trigger] r@[i] matches Operation::Copy { src, dst }
                        && src@ == sources@[i]@ && dst@ == landing_path(destination@, sources@[i]@)),
                FileOperation::Move { sources, destination } => r@.len() == sources@.len()
                    && forall|i: int| 0 <= i < sources@.len() ==> (#[trigger] r@[i] matches Operation::Move { src, dst }
                        && src@ == sources@[i]@ && dst@ == landing_path(destination@, sources@[i]@)),
                FileOperation::Delete { targets } => r@.len() == targets@.len()
                    && forall|i: int| 0 <= i < targets@.len() ==> (#[trigger] r@[i] matches Operation::Delete { path }
                        && path@ == targets@[i]@),
                FileOperation::DeleteToTrash { targets } => r@.len() == targets@.len()
                    && forall|i: int| 0 <= i < targets@.len() ==> (#[trigger] r@[i] matches Operation::DeleteToTrash { path }
                        && path@ == targets@[i]@),
                FileOperation::RestoreFromTrash { targets } => r@.len() == targets@.len()
                    && forall|i: int| 0 <= i < targets@.len() ==> (#[trigger] r@[i] matches Operation::RestoreFromTrash { path }
                        && path@ == targets@[i]@),
                FileOperation::CopyToClipboard { paths } => r@.len() == 1
                    && (r@[0] matches Operation::CopyToClipboard { paths: p } && p@ == paths@),
                FileOperation::PasteFromClipboard { destination } => r@.len() == 1
                    && (r@[0] matches Operation::PasteFromClipboard { dst } && dst@ == destination@),
                FileOperation::CreateDir { path } => r@.len() == 1
                    && (r@[0] matches Operation::CreateDir { path: p } && p@ == path@),
                FileOperation::Rename { old_path, new_name } => r@.len() == 1
                    && (r@[0] matches Operation::Rename { old, new } && old@ == old_path@
                        && new@ == renamed_path(old_path@, new_name@)),
            },
    {
        match operation {
            FileOperation::Copy { sources, destination } => transfers(sources, destination, true),
            FileOperation::Move { sources, destination } => transfers(sources, destination, false),
            FileOperation::Delete { targets } => {
                let r = per_target(targets, 0);
                assert forall|i: int| 0 <= i < targets@.len() implies (#[trigger] r@[i] matches Operation::Delete { path }
                    && path@ == targets@[i]@) by {
                    assert(match r@[i] {
                        Operation::Delete { path } => 0u8 == 0 && path@ == targets@[i]@,
                        Operation::DeleteToTrash { path } => 0u8 == 1 && path@ == targets@[i]@,
                        Operation::RestoreFromTrash { path } => 0u8 == 2 && path@ == targets@[i]@,
                        _ => false,
                    });
                }
                r
            },
            FileOperation::DeleteToTrash { targets } => {
                let r = per_target(targets, 1);
                assert forall|i: int| 0 <= i < targets@.len() implies (#[trigger] r@[i] matches Operation::DeleteToTrash { path }
                    && path@ == targets@[i]@) by {
                    assert(match r@[i] {
                        Operation::Delete { path } => 1u8 == 0 && path@ == targets@[i]@,
                        Operation::DeleteToTrash { path } => 1u8 == 1 && path@ == targets@[i]@,
                        Operation::RestoreFromTrash { path } => 1u8 == 2 && path@ == targets@[i]@,
                        _ => false,
                    });
                }
                r
            },
            FileOperation::RestoreFromTrash { targets } => {
                let r = per_target(targets, 2);
                assert forall|i: int| 0 <= i < targets@.len() implies (#[trigger] r@[i] matches Operation::RestoreFromTrash { path }
                    && path@ == targets@[i]@) by {
                    assert(match r@[i] {
                        Operation::Delete { path } => 2u8 == 0 && path@ == targets@[i]@,
                        Operation::DeleteToTrash { path } => 2u8 == 1 && path@ == targets@[i]@,
                        Operation::RestoreFromTrash { path } => 2u8 == 2 && path@ == targets@[i]@,
                        _ => false,
                    });
                }
                r
            },
            FileOperation::CopyToClipboard { paths } => {
                let mut r = Vec::new();
                r.push(Operation::CopyToClipboard { paths: crate::config::clone_strings(paths) });
                r
            },
            FileOperation::PasteFromClipboard { destination } => {
                let mut r = Vec::new();
                r.push(Operation::PasteFromClipboard { dst: destination.clone() });
                r
            },
            FileOperation::CreateDir { path } => {
                let mut r = Vec::new();
                r.push(Operation::CreateDir { path: path.clone() });
                r
            },
            FileOperation::Rename { old_path, new_name } => {
                let new = match paths::parent(old_path.as_str()) {
                    Some(p) => paths::join(p.as_str(), new_name.as_str()),
                    None => new_name.clone(),
                };
                let mut r = Vec::new();
                r.push(Operation::Rename { old: old_path.clone(), new });
                r
            },
        }
    }

    /// The title and message of the dialog that asks to confirm an operation.
    pub fn confirm_dialog_text(operation: &FileOperation) -> (r: (String, String))
        ensures
            r.0@ == confirm_title(*operation),
            r.1@ == confirm_message(*operation),
    {
        match operation {
            FileOperation::Copy { sources, destination } => {
                let mut m = String::from_str("Copy ");
                m.append(text::decimal_string(sources.len() as u64).as_str());
                m.append(" item(s) to ");
                m.append(display(destination).as_str());
                m.append("?");
                (String::from_str("Confirm Copy"), m)
            },
            FileOperation::Move { sources, destination } => {
                let mut m = String::from_str("Move ");
                m.append(text::decimal_string(sources.len() as u64).as_str());
                m.append(" item(s) to ");
                m.append(display(destination).as_str());
                m.append("?");
                (String::from_str("Confirm Move"), m)
            },
            FileOperation::Delete { targets } => {
                let mut m = String::from_str("Delete ");
                m.append(text::decimal_string(targets.len() as u64).as_str());
                m.append(" item(s)? This cannot be undone.");
                (String::from_str("Confirm Delete"), m)
            },
            FileOperation::DeleteToTrash { targets } => {
                let mut m = String::from_str("Move ");
                m.append(text::decimal_string(targets.len() as u64).as_str());
                m.append(" item(s) to trash?");
                (String::from_str("Confirm Move to Trash"), m)
            },
            FileOperation::RestoreFromTrash { targets } => {
                let mut m = String::from_str("Restore ");
                m.append(text::decimal_string(targets.len() as u64).as_str());
                m.append(" item(s) from trash?");
                (String::from_str("Confirm Restore"), m)
            },
            FileOperation::CopyToClipboard { paths } => {
                let mut m = String::from_str("Copy ");
                m.append(text::decimal_string(paths.len() as u64).as_str());
                m.append(" item(s) to clipboard?");
                (String::from_str("Copy to Clipboard"), m)
            },
            FileOperation::PasteFromClipboard { destination } => {
                let mut m = String::from_str("Paste clipboard contents to ");
                m.append(display(destination).as_str());
                m.append("?");
                (String::from_str("Paste from Clipboard"), m)
            },
            FileOperation::CreateDir { path } => {
                let mut m = String::from_str("Create directory '");
                m.append(display(path).as_str());
                m.append("'?");
                (String::from_str("Create Directory"), m)
            },
            FileOperation::Rename { old_path, new_name } => {
                let mut m = String::from_str("Rename '");
                m.append(display(old_path).as_str());
                m.append("' to '");
                m.append(new_name.as_str());
                m.append("'?");
                (String::from_str("Rename"), m)
            },
        }
    }
}

/// The title of the confirmation dialog of an operation.
pub open spec fn confirm_title(op: FileOperation) -> Seq<char> {
    match op {
        FileOperation::Copy { .. } => "Confirm Copy"@,
        FileOperation::Move { .. } => "Confirm Move"@,
        FileOperation::Delete { .. } => "Confirm Delete"@,
        FileOperation::DeleteToTrash { .. } => "Confirm Move to Trash"@,
        FileOperation::RestoreFromTrash { .. } => "Confirm Restore"@,
        FileOperation::CopyToClipboard { .. } => "Copy to Clipboard"@,
        FileOperation::PasteFromClipboard { .. } => "Paste from Clipboard"@,
        FileOperation::CreateDir { .. } => "Create Directory"@,
        FileOperation::Rename { .. } => "Rename"@,
    }
}

/// The message of the confirmation dialog of an operation.
pub open spec fn confirm_message(op: FileOperation) -> Seq<char> {
    match op {
        FileOperation::Copy { sources, destination } => "Copy "@ + text::decimal(
            sources@.len(),
        ) + " item(s) to "@ + display_name(destination@) + "?"@,
        FileOperation::Move { sources, destination } => "Move "@ + text::decimal(
            sources@.len(),
        ) + " item(s) to "@ + display_name(destination@) + "?"@,
        FileOperation::Delete { targets } => "Delete "@ + text::decimal(targets@.len())
            + " item(s)? This cannot be undone."@,
        FileOperation::DeleteToTrash { targets } => "Move "@ + text::decimal(targets@.len())
            + " item(s) to trash?"@,
        FileOperation::RestoreFromTrash { targets } => "Restore "@ + text::decimal(targets@.len())
            + " item(s) from trash?"@,
        FileOperation::CopyToClipboard { paths } => "Copy "@ + text::decimal(paths@.len())
            + " item(s) to clipboard?"@,
        FileOperation::PasteFromClipboard { destination } => "Paste clipboard contents to "@
            + display_name(destination@) + "?"@,
        FileOperation::CreateDir { path } => "Create directory '"@ + display_name(path@) + "'?"@,
        FileOperation::Rename { old_path, new_name } => "Rename '"@ + display_name(old_path@)
            + "' to '"@ + new_name@ + "'?"@,
    }
}

/// Running the elementary operations of a plan in order: each one is
/// reported as started, then as completed or failed; the run stops at the
/// first failure, and succeeds when every operation completed.
pub struct OperationRun {
    count: usize,
    done: usize,
    failed: bool,
}

impl OperationRun {
    /// How many operations the plan holds.
    pub closed spec fn planned(&self) -> nat {
        self.count as nat
    }

    /// How many operations were carried out.
    pub closed spec fn finished(&self) -> nat {
        self.done as nat
    }

    /// Whether an operation failed.
    pub closed spec fn has_failed(&self) -> bool {
        self.failed
    }

    /// The run's invariant: no more operations carried out than planned.
    pub closed spec fn wf(&self) -> bool {
        self.done <= self.count
    }

    /// The operation to carry out next: the first not yet carried out,
    /// unless one failed.
    pub open spec fn next_index(&self) -> Option<nat> {
        if !self.has_failed() && self.finished() < self.planned() {
            Some(self.finished())
        } else {
            None
        }
    }

    /// A run of a plan of `count` operations, none carried out.
    pub fn new(count: usize) -> (r: Self)
        ensures
            r.wf(),
            r.planned() == count,
            r.finished() == 0,
            !r.has_failed(),
    {
        OperationRun { count, done: 0, failed: false }
    }

    /// The position in the plan of the operation to carry out next, if any.
    pub fn next_step(&self) -> (r: Option<usize>)
        requires
            self.wf(),
        ensures
            match self.next_index() {
                Some(i) => r == Some(i as usize),
                None => r is None,
            },
    {
        if !self.failed && self.done < self.count {
            Some(self.done)
        } else {
            None
        }
    }

    /// The report sent before the operation named `operation` is carried out.
    pub fn begin_step(&self, operation: String) -> (r: OperationProgress)
        ensures
            r == (OperationProgress::Started { operation }),
    {
        OperationProgress::Started { operation }
    }

    /// Records how the operation named `operation` ended and gives the report
    /// to send: completed, or failed with the error, which ends the run.
    pub fn end_step(&mut self, operation: String, outcome: Result<(), String>) -> (r: OperationProgress)
        requires
            old(self).wf(),
            old(self).next_index() is Some,
        ensures
            final(self).wf(),
            final(self).planned() == old(self).planned(),
            final(self).finished() == old(self).finished() + 1,
            final(self).has_failed() == outcome is Err,
            match outcome {
                Ok(()) => r == (OperationProgress::Completed { operation }),
                Err(error) => r == (OperationProgress::Failed { operation, error }),
            },
    {
        self.done = self.done + 1;
        match outcome {
            Ok(()) => OperationProgress::Completed { operation },
            Err(error) => {
                self.failed = true;
                OperationProgress::Failed { operation, error }
            },
        }
    }

    /// Whether the run succeeded: every planned operation completed.
    pub fn succeeded(&self) -> (r: bool)
        ensures
            r == (!self.has_failed() && self.finished() == self.planned()),
    {
        !self.failed && self.done == self.count
    }
}

} // verus!
