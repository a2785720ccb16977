//! File-system changes reported while the panels are open: whether a change
//! concerns a panel, and the notice shown for it.

use vstd::prelude::*;
use crate::paths::{self, path_eq, path_file_name, path_parent, path_starts_with};
use crate::state::AppState;
use crate::terminal::FileMonitorEvent;

verus! {

/// The path a change is about: the new path of a rename.
pub open spec fn event_path(e: FileMonitorEvent) -> Seq<char> {
    match e {
        FileMonitorEvent::Created(p) => p@,
        FileMonitorEvent::Modified(p) => p@,
        FileMonitorEvent::Deleted(p) => p@,
        FileMonitorEvent::Renamed { to, .. } => to@,
    }
}

/// The last component of a path, or `unknown` where it has none.
pub open spec fn shown_name(p: Seq<char>) -> Seq<char> {
    match path_file_name(p) {
        Some(n) => n,
        None => "unknown"@,
    }
}

/// The notice for a change.
pub open spec fn event_notice(e: FileMonitorEvent) -> Seq<char> {
    let n = shown_name(event_path(e));
    match e {
        FileMonitorEvent::Created(_) => "File created: "@ + n,
        FileMonitorEvent::Modified(_) => "File modified: "@ + n,
        FileMonitorEvent::Deleted(_) => "File deleted: "@ + n,
        FileMonitorEvent::Renamed { .. } => "File renamed to: "@ + n,
    }
}

/// Whether a change at `p` concerns the directory `dir`: `p` lies under it
/// or directly in it.
pub open spec fn concerns(p: Seq<char>, dir: Seq<char>) -> bool {
    path_starts_with(p, dir) || (path_parent(p) matches Some(q) && path_eq(q, dir))
}

fn concerns_dir(p: &str, dir: &str) -> (r: bool)
    ensures
        r == concerns(p@, dir@),
{
    if paths::starts_with(p, dir) {
        return true;
    }
    match paths::parent(p) {
        Some(q) => paths::same_path(q.as_str(), dir),
        None => false,
    }
}

/// The notice for a change that concerns either panel's directory (the
/// panels are then to be reloaded), or nothing for a change elsewhere.
pub fn handle_file_event(state: &AppState, event: &FileMonitorEvent) -> (r: Option<String>)
    ensures
        concerns(event_path(*event), state.left_panel.current_dir@) || concerns(
            event_path(*event),
            state.right_panel.current_dir@,
        ) ==> (r matches Some(m) && m@ == event_notice(*event)),
        !(concerns(event_path(*event), state.left_panel.current_dir@) || concerns(
            event_path(*event),
            state.right_panel.current_dir@,
        )) ==> r is None,
{
    let (path, prefix) = match event {
        FileMonitorEvent::Created(p) => (p, "File created: "),
        FileMonitorEvent::Modified(p) => (p, "File modified: "),
        FileMonitorEvent::Deleted(p) => (p, "File deleted: "),
        FileMonitorEvent::Renamed { to, .. } => (to, "File renamed to: "),
    };
    let affects_left = concerns_dir(path.as_str(), state.left_panel.current_dir.as_str());
    let affects_right = concerns_dir(path.as_str(), state.right_panel.current_dir.as_str());
    if affects_left || affects_right {
        let mut m = String::from_str(prefix);
        match paths::file_name(path.as_str()) {
            Some(n) => m.append(n.as_str()),
            None => m.append("unknown"),
        }
        Some(m)
    } else {
        None
    }
}

/// How a notification is shown.
#[derive(Debug, Clone, Copy, PartialEq, Eq, Structural)]
pub enum NotificationType {
    Info,
    Warning,
}

/// A notification: title, text and kind.
#[derive(Debug)]
pub struct Notification {
    pub title: String,
    pub message: String,
    pub kind: NotificationType,
}

/// The notification of a change, whatever its directory, and whether the
/// panels are to be reloaded (all but a modification).
pub open spec fn change_notice(e: FileMonitorEvent, n: Notification, refresh: bool) -> bool {
    match e {
        FileMonitorEvent::Created(p) => n.title@ == "File Created"@ && n.message@ == "Created: "@ + p@
            && n.kind == NotificationType::Info && refresh,
        FileMonitorEvent::Modified(p) => n.title@ == "File Modified"@ && n.message@ == "Modified: "@ + p@
            && n.kind == NotificationType::Info && !refresh,
        FileMonitorEvent::Deleted(p) => n.title@ == "File Deleted"@ && n.message@ == "Deleted: "@ + p@
            && n.kind == NotificationType::Warning && refresh,
        FileMonitorEvent::Renamed { from, to } => n.title@ == "File Renamed"@ && n.message@ == "Renamed: "@
            + from@ + " -> "@ + to@ && n.kind == NotificationType::Info && refresh,
    }
}

fn joined(prefix: &str, s: &str) -> (r: String)
    ensures
        r@ == prefix@ + s@,
{
    let mut r = String::from_str(prefix);
    r.append(s);
    r
}

/// The notification of a change and whether the panels are to be reloaded.
pub fn file_event_notification(event: &FileMonitorEvent) -> (r: (Notification, bool))
    ensures
        change_notice(*event, r.0, r.1),
{
    match event {
        FileMonitorEvent::Created(p) => (
            Notification {
                title: String::from_str("File Created"),
                message: joined("Created: ", p.as_str()),
                kind: NotificationType::Info,
            },
            true,
        ),
        FileMonitorEvent::Modified(p) => (
            Notification {
                title: String::from_str("File Modified"),
                message: joined("Modified: ", p.as_str()),
                kind: NotificationType::Info,
            },
            false,
        ),
        FileMonitorEvent::Deleted(p) => (
            Notification {
                title: String::from_str("File Deleted"),
                message: joined("Deleted: ", p.as_str()),
                kind: NotificationType::Warning,
            },
            true,
        ),
        FileMonitorEvent::Renamed { from, to } => {
            let mut m = joined("Renamed: ", from.as_str());
            m.append(" -> ");
            m.append(to.as_str());
            (
                Notification { title: String::from_str("File Renamed"), message: m, kind: NotificationType::Info },
                true,
            )
        },
    }
}

} // verus!
