//! What progress reports of file operations and searches do to the
//! application state and to the progress dialog.

use vstd::prelude::*;
use crate::operations::OperationProgress;
use crate::search::SearchProgress;
use crate::state::{AppState, output_after};
use crate::text;

verus! {

/// What an operation's progress report does to the progress dialog.
#[derive(Debug)]
pub enum DialogChange {
    /// A progress dialog opens with a title and the operation's name.
    Open { title: String, operation: String },
    /// An open progress dialog shows the new count and message.
    Update { current: u64, total: u64, message: String },
    /// The dialog closes; the panels are reloaded when `refresh` holds.
    Close { refresh: bool },
}

/// The status message of an operation's progress report, if it has one.
pub open spec fn operation_status(p: OperationProgress) -> Option<Seq<char>> {
    match p {
        OperationProgress::Started { operation } => Some("Started: "@ + operation@),
        OperationProgress::Progress { .. } => None,
        OperationProgress::Completed { operation } => Some("Completed: "@ + operation@),
        OperationProgress::Failed { operation, error } => Some("Failed "@ + operation@ + ": "@ + error@),
    }
}

/// The dialog change of an operation's progress report.
pub open spec fn operation_dialog(p: OperationProgress, d: DialogChange) -> bool {
    match p {
        OperationProgress::Started { operation } => d matches DialogChange::Open { title, operation: o }
            && title@ == "File Operation"@ && o == operation,
        OperationProgress::Progress { current, total, message } => d matches DialogChange::Update {
            current: c,
            total: t,
            message: m,
        } && c == current && t == total && m == message,
        OperationProgress::Completed { .. } => d == DialogChange::Close { refresh: true },
        OperationProgress::Failed { .. } => d == DialogChange::Close { refresh: false },
    }
}

/// The status message of a search's progress report; a found file is
/// reported in the command output instead.
pub open spec fn search_status(p: SearchProgress) -> Option<Seq<char>> {
    match p {
        SearchProgress::Started { .. } => Some("Search started..."@),
        SearchProgress::Searching { .. } => Some("Searching..."@),
        SearchProgress::Found { .. } => None,
        SearchProgress::Completed { total_found, .. } => Some(
            "Search complete: "@ + text::decimal(total_found as nat) + " matches found"@,
        ),
        SearchProgress::Error { error, .. } => Some("Search error: "@ + error@),
    }
}

fn joined(prefix: &str, s: &str) -> (r: String)
    ensures
        r@ == prefix@ + s@,
{
    let mut r = String::from_str(prefix);
    r.append(s);
    r
}

/// Shows an operation's progress: a started operation opens the progress
/// dialog, a count updates it, a finished or failed one closes it (a
/// finished one reloads the panels); each but a count is reported in the
/// status line.
pub fn handle_operation_progress(state: &mut AppState, progress: OperationProgress) -> (r: DialogChange)
    ensures
        operation_dialog(progress, r),
        match operation_status(progress) {
            Some(m) => final(state).status_message matches Some(s) && s@ == m,
            None => final(state).status_message == old(state).status_message,
        },
        final(state).left_panel == old(state).left_panel,
        final(state).right_panel == old(state).right_panel,
        final(state).active_panel == old(state).active_panel,
        final(state).command_output == old(state).command_output,
        final(state).theme_manager == old(state).theme_manager,
{
    match progress {
        OperationProgress::Started { operation } => {
            state.set_status_message(joined("Started: ", operation.as_str()));
            DialogChange::Open { title: String::from_str("File Operation"), operation }
        },
        OperationProgress::Progress { current, total, message } => DialogChange::Update { current, total, message },
        OperationProgress::Completed { operation } => {
            state.set_status_message(joined("Completed: ", operation.as_str()));
            DialogChange::Close { refresh: true }
        },
        OperationProgress::Failed { operation, error } => {
            let mut m = joined("Failed ", operation.as_str());
            m.append(": ");
            m.append(error.as_str());
            state.set_status_message(m);
            DialogChange::Close { refresh: false }
        },
    }
}

/// Shows a search's progress in the status line; a found file is added to
/// the command output.
pub fn handle_search_progress(state: &mut AppState, progress: SearchProgress)
    ensures
        match progress {
            SearchProgress::Found { result } => final(state).command_output@ == output_after(
                old(state).command_output@,
                final(state).command_output@.last(),
            ) && final(state).command_output@.last()@ == "Found: "@ + result.path@
                && final(state).status_message == old(state).status_message,
            _ => (search_status(progress) matches Some(m) && final(state).status_message matches Some(s) && s@
                == m) && final(state).command_output == old(state).command_output,
        },
        final(state).left_panel == old(state).left_panel,
        final(state).right_panel == old(state).right_panel,
        final(state).active_panel == old(state).active_panel,
        final(state).theme_manager == old(state).theme_manager,
{
    match progress {
        SearchProgress::Started { .. } => {
            state.set_status_message(String::from_str("Search started..."));
        },
        SearchProgress::Searching { .. } => {
            state.set_status_message(String::from_str("Searching..."));
        },
        SearchProgress::Found { result } => {
            let line = joined("Found: ", result.path.as_str());
            state.add_command_output(line);
        },
        SearchProgress::Completed { total_found, .. } => {
            let mut m = joined("Search complete: ", text::decimal_string(total_found as u64).as_str());
            m.append(" matches found");
            state.set_status_message(m);
        },
        SearchProgress::Error { error, .. } => {
            state.set_status_message(joined("Search error: ", error.as_str()));
        },
    }
}

/// The status line of an operation's progress report in the main window:
/// a count shows its message, percentage and count.
pub open spec fn operation_status_line(p: OperationProgress) -> Seq<char> {
    match p {
        OperationProgress::Started { operation } => "Started: "@ + operation@,
        OperationProgress::Progress { current, total, message } => {
            let pct: nat = if total > 0 { ((current as int * 100) / (total as int)) as nat } else { 0 };
            message@ + ": "@ + text::decimal(pct) + "% ("@ + text::decimal(current as nat) + "/"@ + text::decimal(
                total as nat,
            ) + ")"@
        },
        OperationProgress::Completed { operation } => "Completed: "@ + operation@,
        OperationProgress::Failed { operation, error } => "Error in "@ + operation@ + ": "@ + error@,
    }
}

/// Reports an operation's progress in the status line of the main window;
/// true when the operation completed and the panels are to be reloaded.
pub fn report_operation_progress(state: &mut AppState, progress: OperationProgress) -> (r: bool)
    requires
        progress matches OperationProgress::Progress { current, total, .. } ==> total > 0 ==> current * 100
            <= u64::MAX,
    ensures
        r == (progress is Completed),
        *final(state) == (AppState { status_message: final(state).status_message, ..*old(state) }),
        final(state).status_message matches Some(m) && m@ == operation_status_line(progress),
{
    match progress {
        OperationProgress::Started { operation } => {
            state.set_status_message(joined("Started: ", operation.as_str()));
            false
        },
        OperationProgress::Progress { current, total, message } => {
            let pct: u64 = if total > 0 { (current * 100) / total } else { 0 };
            let mut m = joined(message.as_str(), ": ");
            m.append(text::decimal_string(pct).as_str());
            m.append("% (");
            m.append(text::decimal_string(current).as_str());
            m.append("/");
            m.append(text::decimal_string(total).as_str());
            m.append(")");
            state.set_status_message(m);
            false
        },
        OperationProgress::Completed { operation } => {
            state.set_status_message(joined("Completed: ", operation.as_str()));
            true
        },
        OperationProgress::Failed { operation, error } => {
            let mut m = joined("Error in ", operation.as_str());
            m.append(": ");
            m.append(error.as_str());
            state.set_status_message(m);
            false
        },
    }
}

/// The status line of a search's progress report in the main window.
pub open spec fn search_status_line(p: SearchProgress) -> Seq<char> {
    match p {
        SearchProgress::Started { total_dirs } => "Search started... "@ + text::decimal(total_dirs as nat)
            + " directories"@,
        SearchProgress::Searching { current_path, searched, total } => "Searching... "@ + current_path@ + ": "@
            + text::decimal(searched as nat) + "/"@ + text::decimal(total as nat),
        SearchProgress::Found { result } => "Found: "@ + result.path@,
        SearchProgress::Completed { total_found, elapsed_ms } => "Search completed. Found "@ + text::decimal(
            total_found as nat,
        ) + " results in "@ + text::decimal(elapsed_ms as nat) + "ms."@,
        SearchProgress::Error { path, error } => "Search error at "@ + path@ + ": "@ + error@,
    }
}

/// Reports a search's progress in the status line of the main window.
pub fn report_search_progress(state: &mut AppState, progress: SearchProgress)
    ensures
        *final(state) == (AppState { status_message: final(state).status_message, ..*old(state) }),
        final(state).status_message matches Some(m) && m@ == search_status_line(progress),
{
    let m = match progress {
        SearchProgress::Started { total_dirs } => {
            let mut m = joined("Search started... ", text::decimal_string(total_dirs as u64).as_str());
            m.append(" directories");
            m
        },
        SearchProgress::Searching { current_path, searched, total } => {
            let mut m = joined("Searching... ", current_path.as_str());
            m.append(": ");
            m.append(text::decimal_string(searched as u64).as_str());
            m.append("/");
            m.append(text::decimal_string(total as u64).as_str());
            m
        },
        SearchProgress::Found { result } => joined("Found: ", result.path.as_str()),
        SearchProgress::Completed { total_found, elapsed_ms } => {
            let mut m = joined("Search completed. Found ", text::decimal_string(total_found as u64).as_str());
            m.append(" results in ");
            m.append(text::decimal_string_wide(elapsed_ms).as_str());
            m.append("ms.");
            m
        },
        SearchProgress::Error { path, error } => {
            let mut m = joined("Search error at ", path.as_str());
            m.append(": ");
            m.append(error.as_str());
            m
        },
    };
    state.set_status_message(m);
}

} // verus!
