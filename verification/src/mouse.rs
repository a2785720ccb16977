//! Mouse input on the two panels: clicks give the focus and select, the
//! wheel scrolls, and a double or right click asks the interface to open the
//! entry or a context menu.

use vstd::prelude::*;
use crate::state::{ActivePanel, AppState, PanelState};

verus! {

/// A cell of the terminal.
#[derive(Debug, Clone, Copy, PartialEq, Eq, Structural)]
pub struct Position {
    pub x: u16,
    pub y: u16,
}

/// What the mouse did, and where.
#[derive(Debug, Clone, Copy, PartialEq, Eq, Structural)]
pub enum MouseAction {
    Click(Position),
    DoubleClick(Position),
    RightClick(Position),
    ScrollUp(Position),
    ScrollDown(Position),
    /// Moves and drags, which change nothing.
    Other,
}

/// What a mouse action leaves to the interface.
#[derive(Debug, Clone, Copy, PartialEq, Eq, Structural)]
pub enum MouseEffect {
    Nothing,
    /// The selected entry of the active panel is to be opened.
    OpenSelected,
    /// The file context menu opens at a position; `has_selection` tells
    /// whether the active panel has marked files.
    ContextMenu { at: Position, has_selection: bool },
}

/// The panel under a column: the left half of the terminal is the left panel.
pub open spec fn side_at(x: u16, width: u16) -> ActivePanel {
    if x < width / 2 {
        ActivePanel::Left
    } else {
        ActivePanel::Right
    }
}

/// The panel on a side.
pub open spec fn panel_on(s: AppState, side: ActivePanel) -> PanelState {
    match side {
        ActivePanel::Left => s.left_panel,
        ActivePanel::Right => s.right_panel,
    }
}

/// The entry a click on row `y` hits: rows below the border and above the
/// four bottom rows list the entries from the view offset on.
pub open spec fn row_entry(p: PanelState, y: u16, height: u16) -> Option<int> {
    if 0 < y && y < height - 4 && (y - 1) + p.view_offset < p.entries@.len() {
        Some((y - 1) + p.view_offset)
    } else {
        None
    }
}

/// The panel with the selection moved to `i`.
pub open spec fn with_selection(p: PanelState, i: usize) -> PanelState {
    PanelState { selected_index: i, ..p }
}

/// The panel with its view moved to `offset`.
pub open spec fn with_offset(p: PanelState, offset: usize) -> PanelState {
    PanelState { view_offset: offset, ..p }
}

/// The panel after a click: the hit entry selected, else unchanged.
pub open spec fn clicked(p: PanelState, y: u16, height: u16) -> PanelState {
    match row_entry(p, y, height) {
        Some(i) => with_selection(p, i as usize),
        None => p,
    }
}

/// The view offset after scrolling up: three rows up, not past the top.
pub open spec fn offset_up(offset: usize) -> usize {
    if offset >= 3 {
        (offset - 3) as usize
    } else {
        0
    }
}

/// The view offset after scrolling down: three rows down, at most to ten
/// rows before the last entry.
pub open spec fn offset_down(offset: usize, len: nat) -> usize {
    let max: int = if len >= 10 { len - 10 } else { 0 };
    if offset < max {
        if offset + 3 < max { (offset + 3) as usize } else { max as usize }
    } else {
        offset
    }
}

/// What a click demands: a terminal at
/// least four rows high, and a hit row whose index fits in a `usize`.
pub open spec fn click_in_range(s: AppState, pos: Position, width: u16, height: u16) -> bool {
    &&& height >= 4
    &&& (0 < pos.y && pos.y < height - 4 ==> (pos.y - 1) + panel_on(s, side_at(pos.x, width)).view_offset
        <= usize::MAX)
}

/// Whether the state after a click at `pos` is `t`: the panel under the
/// click has the focus and its hit entry is selected; nothing else changes.
pub open spec fn after_click(s: AppState, pos: Position, width: u16, height: u16, t: AppState) -> bool {
    let side = side_at(pos.x, width);
    &&& t.active_panel == side
    &&& panel_on(t, side) == clicked(panel_on(s, side), pos.y, height)
    &&& panel_on(t, other_side(side)) == panel_on(s, other_side(side))
    &&& t.status_message == s.status_message
    &&& t.command_output == s.command_output
    &&& panels_only(s, t)
}

/// Whether `t` differs from `s` at most in the panels and which has the
/// focus.
pub open spec fn panels_only(s: AppState, t: AppState) -> bool {
    t == (AppState { active_panel: t.active_panel, left_panel: t.left_panel, right_panel: t.right_panel, ..s })
}

/// The other side.
pub open spec fn other_side(side: ActivePanel) -> ActivePanel {
    match side {
        ActivePanel::Left => ActivePanel::Right,
        ActivePanel::Right => ActivePanel::Left,
    }
}

fn select_hit(p: &mut PanelState, y: u16, height: u16)
    requires
        height >= 4,
        0 < y && y < height - 4 ==> (y - 1) + old(p).view_offset <= usize::MAX,
    ensures
        *final(p) == clicked(*old(p), y, height),
{
    if y > 0 && y < height - 4 {
        let i = (y as usize - 1) + p.view_offset;
        if i < p.entries.len() {
            p.selected_index = i;
        }
    }
}

/// A click gives the focus to the panel under it and selects the entry
/// under it, if any.
pub fn handle_mouse_click(state: &mut AppState, pos: Position, width: u16, height: u16)
    requires
        click_in_range(*old(state), pos, width, height),
    ensures
        after_click(*old(state), pos, width, height, *final(state)),
{
    if pos.x < width / 2 {
        if state.active_panel != ActivePanel::Left {
            state.toggle_panel();
        }
        select_hit(&mut state.left_panel, pos.y, height);
    } else {
        if state.active_panel != ActivePanel::Right {
            state.toggle_panel();
        }
        select_hit(&mut state.right_panel, pos.y, height);
    }
}

fn scroll_panel_up(p: &mut PanelState)
    ensures
        *final(p) == with_offset(*old(p), offset_up(old(p).view_offset)),
{
    if p.view_offset > 0 {
        p.view_offset = if p.view_offset >= 3 { p.view_offset - 3 } else { 0 };
    }
}

fn scroll_panel_down(p: &mut PanelState)
    ensures
        *final(p) == with_offset(*old(p), offset_down(old(p).view_offset, old(p).entries@.len())),
{
    let max_offset = if p.entries.len() >= 10 { p.entries.len() - 10 } else { 0 };
    if p.view_offset < max_offset {
        p.view_offset = if p.view_offset + 3 < max_offset { p.view_offset + 3 } else { max_offset };
    }
}

/// Scrolling the wheel up over a panel moves its view three rows up.
pub fn handle_mouse_scroll_up(state: &mut AppState, pos: Position, width: u16)
    ensures
        ({
            let side = side_at(pos.x, width);
            &&& panel_on(*final(state), side) == with_offset(
                panel_on(*old(state), side),
                offset_up(panel_on(*old(state), side).view_offset),
            )
            &&& panel_on(*final(state), other_side(side)) == panel_on(*old(state), other_side(side))
            &&& final(state).active_panel == old(state).active_panel
            &&& panels_only(*old(state), *final(state))
        }),
{
    if pos.x < width / 2 {
        scroll_panel_up(&mut state.left_panel);
    } else {
        scroll_panel_up(&mut state.right_panel);
    }
}

/// Scrolling the wheel down over a panel moves its view three rows down,
/// keeping at least ten entries in it.
pub fn handle_mouse_scroll_down(state: &mut AppState, pos: Position, width: u16)
    ensures
        ({
            let side = side_at(pos.x, width);
            let p = panel_on(*old(state), side);
            &&& panel_on(*final(state), side) == with_offset(p, offset_down(p.view_offset, p.entries@.len()))
            &&& panel_on(*final(state), other_side(side)) == panel_on(*old(state), other_side(side))
            &&& final(state).active_panel == old(state).active_panel
            &&& panels_only(*old(state), *final(state))
        }),
{
    if pos.x < width / 2 {
        scroll_panel_down(&mut state.left_panel);
    } else {
        scroll_panel_down(&mut state.right_panel);
    }
}

/// Handles a mouse action: a click selects; a double click selects and asks
/// to open the selected entry; a right click selects and opens the context
/// menu at the click; the wheel scrolls the panel under it.
pub fn handle_mouse_event(state: &mut AppState, action: MouseAction, width: u16, height: u16) -> (r: MouseEffect)
    requires
        match action {
            MouseAction::Click(pos) | MouseAction::DoubleClick(pos) | MouseAction::RightClick(pos) => click_in_range(
                *old(state),
                pos,
                width,
                height,
            ),
            _ => true,
        },
    ensures
        match action {
            MouseAction::Click(pos) => after_click(*old(state), pos, width, height, *final(state))
                && r == MouseEffect::Nothing,
            MouseAction::DoubleClick(pos) => after_click(*old(state), pos, width, height, *final(state))
                && r == MouseEffect::OpenSelected,
            MouseAction::RightClick(pos) => after_click(*old(state), pos, width, height, *final(state))
                && r == (MouseEffect::ContextMenu {
                at: pos,
                has_selection: final(state).active().marked_files@.len() > 0,
            }),
            MouseAction::ScrollUp(pos) => {
                let side = side_at(pos.x, width);
                &&& panel_on(*final(state), side) == with_offset(
                    panel_on(*old(state), side),
                    offset_up(panel_on(*old(state), side).view_offset),
                )
                &&& panel_on(*final(state), other_side(side)) == panel_on(*old(state), other_side(side))
                &&& final(state).active_panel == old(state).active_panel
                &&& panels_only(*old(state), *final(state))
            &&& panels_only(*old(state), *final(state))
                &&& r == MouseEffect::Nothing
            },
            MouseAction::ScrollDown(pos) => {
                let side = side_at(pos.x, width);
                let p = panel_on(*old(state), side);
                &&& panel_on(*final(state), side) == with_offset(p, offset_down(p.view_offset, p.entries@.len()))
                &&& panel_on(*final(state), other_side(side)) == panel_on(*old(state), other_side(side))
                &&& final(state).active_panel == old(state).active_panel
                &&& panels_only(*old(state), *final(state))
            &&& panels_only(*old(state), *final(state))
                &&& r == MouseEffect::Nothing
            },
            MouseAction::Other => *final(state) == *old(state) && r == MouseEffect::Nothing,
        },
{
    match action {
        MouseAction::Click(pos) => {
            handle_mouse_click(state, pos, width, height);
            MouseEffect::Nothing
        },
        MouseAction::DoubleClick(pos) => {
            handle_mouse_click(state, pos, width, height);
            MouseEffect::OpenSelected
        },
        MouseAction::RightClick(pos) => {
            handle_mouse_click(state, pos, width, height);
            let has_selection = state.active_panel().marked_files.len() > 0;
            MouseEffect::ContextMenu { at: pos, has_selection }
        },
        MouseAction::ScrollUp(pos) => {
            handle_mouse_scroll_up(state, pos, width);
            MouseEffect::Nothing
        },
        MouseAction::ScrollDown(pos) => {
            handle_mouse_scroll_down(state, pos, width);
            MouseEffect::Nothing
        },
        MouseAction::Other => MouseEffect::Nothing,
    }
}

} // verus!
