//! Telling whether two binds are the same.
use vstd::prelude::*;

use crate::config::misc::{opt_text, texts};
use crate::config::same::{same_opt_text, same_texts};
use crate::input::action::{Action, WorkspaceReference};
use crate::input::binds::{Bind, Binds};
use crate::input::sense::{action_details, action_kind, action_ways};

verus! {

/// Whether two workspaces are named in the same way.
pub open spec fn references_agree(a: WorkspaceReference, b: WorkspaceReference) -> bool {
    match (a, b) {
        (WorkspaceReference::Name(x), WorkspaceReference::Name(y)) => x@ == y@,
        _ => a == b,
    }
}

/// Whether two actions are the same. Texts are compared by their characters.
pub open spec fn actions_agree(a: Action, b: Action) -> bool {
    match (a, b) {
        (Action::Spawn(x), Action::Spawn(y)) => texts(x@) == texts(y@),
        (Action::SpawnSh(x), Action::SpawnSh(y)) => x@ == y@,
        (Action::Screenshot(x0, x1), Action::Screenshot(y0, y1)) => x0 == y0 && opt_text(x1) == opt_text(y1),
        (Action::ScreenshotScreen(x0, x1, x2), Action::ScreenshotScreen(y0, y1, y2)) => x0 == y0 && x1 == y1 && opt_text(x2) == opt_text(y2),
        (Action::ScreenshotWindow(x0, x1, x2), Action::ScreenshotWindow(y0, y1, y2)) => x0 == y0 && x1 == y1 && opt_text(x2) == opt_text(y2),
        (Action::ScreenshotWindowById { id: x0, write_to_disk: x1, show_pointer: x2, path: x3 }, Action::ScreenshotWindowById { id: y0, write_to_disk: y1, show_pointer: y2, path: y3 }) => x0 == y0 && x1 == y1 && x2 == y2 && opt_text(x3) == opt_text(y3),
        (Action::FocusWorkspace(x), Action::FocusWorkspace(y)) => references_agree(x, y),
        (Action::MoveWindowToWorkspace(x0, x1), Action::MoveWindowToWorkspace(y0, y1)) => references_agree(x0, y0) && x1 == y1,
        (Action::MoveWindowToWorkspaceById { window_id: x0, reference: x1, focus: x2 }, Action::MoveWindowToWorkspaceById { window_id: y0, reference: y1, focus: y2 }) => x0 == y0 && references_agree(x1, y1) && x2 == y2,
        (Action::MoveColumnToWorkspace(x0, x1), Action::MoveColumnToWorkspace(y0, y1)) => references_agree(x0, y0) && x1 == y1,
        (Action::MoveWorkspaceToIndexByRef { new_idx: x0, reference: x1 }, Action::MoveWorkspaceToIndexByRef { new_idx: y0, reference: y1 }) => x0 == y0 && references_agree(x1, y1),
        (Action::MoveWorkspaceToMonitor(x), Action::MoveWorkspaceToMonitor(y)) => x@ == y@,
        (Action::MoveWorkspaceToMonitorByRef { output_name: x0, reference: x1 }, Action::MoveWorkspaceToMonitorByRef { output_name: y0, reference: y1 }) => x0@ == y0@ && references_agree(x1, y1),
        (Action::SetWorkspaceName(x), Action::SetWorkspaceName(y)) => x@ == y@,
        (Action::SetWorkspaceNameByRef { name: x0, reference: x1 }, Action::SetWorkspaceNameByRef { name: y0, reference: y1 }) => x0@ == y0@ && references_agree(x1, y1),
        (Action::UnsetWorkSpaceNameByRef(x), Action::UnsetWorkSpaceNameByRef(y)) => references_agree(x, y),
        (Action::FocusMonitor(x), Action::FocusMonitor(y)) => x@ == y@,
        (Action::MoveWindowToMonitor(x), Action::MoveWindowToMonitor(y)) => x@ == y@,
        (Action::MoveWindowToMonitorById { id: x0, output: x1 }, Action::MoveWindowToMonitorById { id: y0, output: y1 }) => x0 == y0 && x1@ == y1@,
        (Action::MoveColumnToMonitor(x), Action::MoveColumnToMonitor(y)) => x@ == y@,
        (Action::LoadConfigFile(x), Action::LoadConfigFile(y)) => opt_text(x) == opt_text(y),
        _ => a == b,
    }
}

/// Whether two titles are the same: there can be none, and one can be hidden.
pub open spec fn titles_agree(a: Option<Option<String>>, b: Option<Option<String>>) -> bool {
    match (a, b) {
        (Some(x), Some(y)) => opt_text(x) == opt_text(y),
        (None, None) => true,
        _ => false,
    }
}

/// Whether two binds are the same.
pub open spec fn bind_agrees(a: Bind, b: Bind) -> bool {
    &&& a.key == b.key
    &&& actions_agree(a.action, b.action)
    &&& a.repeat == b.repeat
    &&& a.cooldown == b.cooldown
    &&& a.allow_when_locked == b.allow_when_locked
    &&& titles_agree(a.hotkey_overlay_title, b.hotkey_overlay_title)
}

/// Whether the same binds are configured, in the same order.
pub open spec fn binds_agree(a: Seq<Bind>, b: Seq<Bind>) -> bool {
    a.len() == b.len() && forall|i: int|
        0 <= i < a.len() ==> bind_agrees(#[trigger] a[i], b[i])
}

/// Compares two references.
fn same_reference(a: &WorkspaceReference, b: &WorkspaceReference) -> (r: bool)
    ensures
        r == references_agree(*a, *b),
{
    match a {
        WorkspaceReference::Id(x) => match b {
            WorkspaceReference::Id(y) => *x == *y,
            _ => false,
        },
        WorkspaceReference::Index(x) => match b {
            WorkspaceReference::Index(y) => *x == *y,
            _ => false,
        },
        WorkspaceReference::Name(x) => match b {
            WorkspaceReference::Name(y) => *x == *y,
            _ => false,
        },
    }
}

/// Compares two actions.
pub fn same_action(a: &Action, b: &Action) -> (r: bool)
    ensures
        r == actions_agree(*a, *b),
{
    match a {
        Action::Quit(x) => match b {
            Action::Quit(y) => *x == *y,
            _ => false,
        },
        Action::ChangeVt(x) => match b {
            Action::ChangeVt(y) => *x == *y,
            _ => false,
        },
        Action::Suspend => matches!(b, Action::Suspend),
        Action::PowerOffMonitors => matches!(b, Action::PowerOffMonitors),
        Action::PowerOnMonitors => matches!(b, Action::PowerOnMonitors),
        Action::Spawn(x) => match b {
            Action::Spawn(y) => same_texts(x, y),
            _ => false,
        },
        Action::SpawnSh(x) => match b {
            Action::SpawnSh(y) => *x == *y,
            _ => false,
        },
        Action::DoScreenTransition(x) => match b {
            Action::DoScreenTransition(y) => *x == *y,
            _ => false,
        },
        Action::ConfirmScreenshot { write_to_disk: x } => match b {
            Action::ConfirmScreenshot { write_to_disk: y } => *x == *y,
            _ => false,
        },
        Action::CancelScreenshot => matches!(b, Action::CancelScreenshot),
        Action::ScreenshotTogglePointer => matches!(b, Action::ScreenshotTogglePointer),
        Action::Screenshot(x0, x1) => match b {
            Action::Screenshot(y0, y1) => *x0 == *y0 && same_opt_text(x1, y1),
            _ => false,
        },
        Action::ScreenshotScreen(x0, x1, x2) => match b {
            Action::ScreenshotScreen(y0, y1, y2) => *x0 == *y0 && *x1 == *y1 && same_opt_text(x2, y2),
            _ => false,
        },
        Action::ScreenshotWindow(x0, x1, x2) => match b {
            Action::ScreenshotWindow(y0, y1, y2) => *x0 == *y0 && *x1 == *y1 && same_opt_text(x2, y2),
            _ => false,
        },
        Action::ScreenshotWindowById { id: x0, write_to_disk: x1, show_pointer: x2, path: x3 } => match b {
            Action::ScreenshotWindowById { id: y0, write_to_disk: y1, show_pointer: y2, path: y3 } => *x0 == *y0 && *x1 == *y1 && *x2 == *y2 && same_opt_text(x3, y3),
            _ => false,
        },
        Action::CloseWindow => matches!(b, Action::CloseWindow),
        Action::CloseWindowById(x) => match b {
            Action::CloseWindowById(y) => *x == *y,
            _ => false,
        },
        Action::FullscreenWindow => matches!(b, Action::FullscreenWindow),
        Action::FullscreenWindowById(x) => match b {
            Action::FullscreenWindowById(y) => *x == *y,
            _ => false,
        },
        Action::ToggleWindowedFullscreen => matches!(b, Action::ToggleWindowedFullscreen),
        Action::ToggleWindowedFullscreenById(x) => match b {
            Action::ToggleWindowedFullscreenById(y) => *x == *y,
            _ => false,
        },
        Action::FocusWindow(x) => match b {
            Action::FocusWindow(y) => *x == *y,
            _ => false,
        },
        Action::FocusWindowInColumn(x) => match b {
            Action::FocusWindowInColumn(y) => *x == *y,
            _ => false,
        },
        Action::FocusWindowPrevious => matches!(b, Action::FocusWindowPrevious),
        Action::FocusColumnLeft => matches!(b, Action::FocusColumnLeft),
        Action::FocusColumnLeftUnderMouse => matches!(b, Action::FocusColumnLeftUnderMouse),
        Action::FocusColumnRight => matches!(b, Action::FocusColumnRight),
        Action::FocusColumnRightUnderMouse => matches!(b, Action::FocusColumnRightUnderMouse),
        Action::FocusColumnFirst => matches!(b, Action::FocusColumnFirst),
        Action::FocusColumnLast => matches!(b, Action::FocusColumnLast),
        Action::FocusColumnRightOrFirst => matches!(b, Action::FocusColumnRightOrFirst),
        Action::FocusColumnLeftOrLast => matches!(b, Action::FocusColumnLeftOrLast),
        Action::FocusColumn(x) => match b {
            Action::FocusColumn(y) => *x == *y,
            _ => false,
        },
        Action::FocusWindowOrMonitorUp => matches!(b, Action::FocusWindowOrMonitorUp),
        Action::FocusWindowOrMonitorDown => matches!(b, Action::FocusWindowOrMonitorDown),
        Action::FocusColumnOrMonitorLeft => matches!(b, Action::FocusColumnOrMonitorLeft),
        Action::FocusColumnOrMonitorRight => matches!(b, Action::FocusColumnOrMonitorRight),
        Action::FocusWindowDown => matches!(b, Action::FocusWindowDown),
        Action::FocusWindowUp => matches!(b, Action::FocusWindowUp),
        Action::FocusWindowDownOrColumnLeft => matches!(b, Action::FocusWindowDownOrColumnLeft),
        Action::FocusWindowDownOrColumnRight => matches!(b, Action::FocusWindowDownOrColumnRight),
        Action::FocusWindowUpOrColumnLeft => matches!(b, Action::FocusWindowUpOrColumnLeft),
        Action::FocusWindowUpOrColumnRight => matches!(b, Action::FocusWindowUpOrColumnRight),
        Action::FocusWindowOrWorkspaceDown => matches!(b, Action::FocusWindowOrWorkspaceDown),
        Action::FocusWindowOrWorkspaceUp => matches!(b, Action::FocusWindowOrWorkspaceUp),
        Action::FocusWindowTop => matches!(b, Action::FocusWindowTop),
        Action::FocusWindowBottom => matches!(b, Action::FocusWindowBottom),
        Action::FocusWindowDownOrTop => matches!(b, Action::FocusWindowDownOrTop),
        Action::FocusWindowUpOrBottom => matches!(b, Action::FocusWindowUpOrBottom),
        Action::MoveColumnLeft => matches!(b, Action::MoveColumnLeft),
        Action::MoveColumnRight => matches!(b, Action::MoveColumnRight),
        Action::MoveColumnToFirst => matches!(b, Action::MoveColumnToFirst),
        Action::MoveColumnToLast => matches!(b, Action::MoveColumnToLast),
        Action::MoveColumnLeftOrToMonitorLeft => matches!(b, Action::MoveColumnLeftOrToMonitorLeft),
        Action::MoveColumnRightOrToMonitorRight => matches!(b, Action::MoveColumnRightOrToMonitorRight),
        Action::MoveColumnToIndex(x) => match b {
            Action::MoveColumnToIndex(y) => *x == *y,
            _ => false,
        },
        Action::MoveWindowDown => matches!(b, Action::MoveWindowDown),
        Action::MoveWindowUp => matches!(b, Action::MoveWindowUp),
        Action::MoveWindowDownOrToWorkspaceDown => matches!(b, Action::MoveWindowDownOrToWorkspaceDown),
        Action::MoveWindowUpOrToWorkspaceUp => matches!(b, Action::MoveWindowUpOrToWorkspaceUp),
        Action::ConsumeOrExpelWindowLeft => matches!(b, Action::ConsumeOrExpelWindowLeft),
        Action::ConsumeOrExpelWindowLeftById(x) => match b {
            Action::ConsumeOrExpelWindowLeftById(y) => *x == *y,
            _ => false,
        },
        Action::ConsumeOrExpelWindowRight => matches!(b, Action::ConsumeOrExpelWindowRight),
        Action::ConsumeOrExpelWindowRightById(x) => match b {
            Action::ConsumeOrExpelWindowRightById(y) => *x == *y,
            _ => false,
        },
        Action::ConsumeWindowIntoColumn => matches!(b, Action::ConsumeWindowIntoColumn),
        Action::ExpelWindowFromColumn => matches!(b, Action::ExpelWindowFromColumn),
        Action::SwapWindowLeft => matches!(b, Action::SwapWindowLeft),
        Action::SwapWindowRight => matches!(b, Action::SwapWindowRight),
        Action::ToggleColumnTabbedDisplay => matches!(b, Action::ToggleColumnTabbedDisplay),
        Action::SetColumnDisplay(x) => match b {
            Action::SetColumnDisplay(y) => *x == *y,
            _ => false,
        },
        Action::CenterColumn => matches!(b, Action::CenterColumn),
        Action::CenterWindow => matches!(b, Action::CenterWindow),
        Action::CenterWindowById(x) => match b {
            Action::CenterWindowById(y) => *x == *y,
            _ => false,
        },
        Action::CenterVisibleColumns => matches!(b, Action::CenterVisibleColumns),
        Action::FocusWorkspaceDown => matches!(b, Action::FocusWorkspaceDown),
        Action::FocusWorkspaceDownUnderMouse => matches!(b, Action::FocusWorkspaceDownUnderMouse),
        Action::FocusWorkspaceUp => matches!(b, Action::FocusWorkspaceUp),
        Action::FocusWorkspaceUpUnderMouse => matches!(b, Action::FocusWorkspaceUpUnderMouse),
        Action::FocusWorkspace(x) => match b {
            Action::FocusWorkspace(y) => same_reference(x, y),
            _ => false,
        },
        Action::FocusWorkspacePrevious => matches!(b, Action::FocusWorkspacePrevious),
        Action::MoveWindowToWorkspaceDown(x) => match b {
            Action::MoveWindowToWorkspaceDown(y) => *x == *y,
            _ => false,
        },
        Action::MoveWindowToWorkspaceUp(x) => match b {
            Action::MoveWindowToWorkspaceUp(y) => *x == *y,
            _ => false,
        },
        Action::MoveWindowToWorkspace(x0, x1) => match b {
            Action::MoveWindowToWorkspace(y0, y1) => same_reference(x0, y0) && *x1 == *y1,
            _ => false,
        },
        Action::MoveWindowToWorkspaceById { window_id: x0, reference: x1, focus: x2 } => match b {
            Action::MoveWindowToWorkspaceById { window_id: y0, reference: y1, focus: y2 } => *x0 == *y0 && same_reference(x1, y1) && *x2 == *y2,
            _ => false,
        },
        Action::MoveColumnToWorkspaceDown(x) => match b {
            Action::MoveColumnToWorkspaceDown(y) => *x == *y,
            _ => false,
        },
        Action::MoveColumnToWorkspaceUp(x) => match b {
            Action::MoveColumnToWorkspaceUp(y) => *x == *y,
            _ => false,
        },
        Action::MoveColumnToWorkspace(x0, x1) => match b {
            Action::MoveColumnToWorkspace(y0, y1) => same_reference(x0, y0) && *x1 == *y1,
            _ => false,
        },
        Action::MoveWorkspaceDown => matches!(b, Action::MoveWorkspaceDown),
        Action::MoveWorkspaceUp => matches!(b, Action::MoveWorkspaceUp),
        Action::MoveWorkspaceToIndex(x) => match b {
            Action::MoveWorkspaceToIndex(y) => *x == *y,
            _ => false,
        },
        Action::MoveWorkspaceToIndexByRef { new_idx: x0, reference: x1 } => match b {
            Action::MoveWorkspaceToIndexByRef { new_idx: y0, reference: y1 } => *x0 == *y0 && same_reference(x1, y1),
            _ => false,
        },
        Action::MoveWorkspaceToMonitor(x) => match b {
            Action::MoveWorkspaceToMonitor(y) => *x == *y,
            _ => false,
        },
        Action::MoveWorkspaceToMonitorByRef { output_name: x0, reference: x1 } => match b {
            Action::MoveWorkspaceToMonitorByRef { output_name: y0, reference: y1 } => *x0 == *y0 && same_reference(x1, y1),
            _ => false,
        },
        Action::SetWorkspaceName(x) => match b {
            Action::SetWorkspaceName(y) => *x == *y,
            _ => false,
        },
        Action::SetWorkspaceNameByRef { name: x0, reference: x1 } => match b {
            Action::SetWorkspaceNameByRef { name: y0, reference: y1 } => *x0 == *y0 && same_reference(x1, y1),
            _ => false,
        },
        Action::UnsetWorkspaceName => matches!(b, Action::UnsetWorkspaceName),
        Action::UnsetWorkSpaceNameByRef(x) => match b {
            Action::UnsetWorkSpaceNameByRef(y) => same_reference(x, y),
            _ => false,
        },
        Action::FocusMonitorLeft => matches!(b, Action::FocusMonitorLeft),
        Action::FocusMonitorRight => matches!(b, Action::FocusMonitorRight),
        Action::FocusMonitorDown => matches!(b, Action::FocusMonitorDown),
        Action::FocusMonitorUp => matches!(b, Action::FocusMonitorUp),
        Action::FocusMonitorPrevious => matches!(b, Action::FocusMonitorPrevious),
        Action::FocusMonitorNext => matches!(b, Action::FocusMonitorNext),
        Action::FocusMonitor(x) => match b {
            Action::FocusMonitor(y) => *x == *y,
            _ => false,
        },
        Action::MoveWindowToMonitorLeft => matches!(b, Action::MoveWindowToMonitorLeft),
        Action::MoveWindowToMonitorRight => matches!(b, Action::MoveWindowToMonitorRight),
        Action::MoveWindowToMonitorDown => matches!(b, Action::MoveWindowToMonitorDown),
        Action::MoveWindowToMonitorUp => matches!(b, Action::MoveWindowToMonitorUp),
        Action::MoveWindowToMonitorPrevious => matches!(b, Action::MoveWindowToMonitorPrevious),
        Action::MoveWindowToMonitorNext => matches!(b, Action::MoveWindowToMonitorNext),
        Action::MoveWindowToMonitor(x) => match b {
            Action::MoveWindowToMonitor(y) => *x == *y,
            _ => false,
        },
        Action::MoveWindowToMonitorById { id: x0, output: x1 } => match b {
            Action::MoveWindowToMonitorById { id: y0, output: y1 } => *x0 == *y0 && *x1 == *y1,
            _ => false,
        },
        Action::MoveColumnToMonitorLeft => matches!(b, Action::MoveColumnToMonitorLeft),
        Action::MoveColumnToMonitorRight => matches!(b, Action::MoveColumnToMonitorRight),
        Action::MoveColumnToMonitorDown => matches!(b, Action::MoveColumnToMonitorDown),
        Action::MoveColumnToMonitorUp => matches!(b, Action::MoveColumnToMonitorUp),
        Action::MoveColumnToMonitorPrevious => matches!(b, Action::MoveColumnToMonitorPrevious),
        Action::MoveColumnToMonitorNext => matches!(b, Action::MoveColumnToMonitorNext),
        Action::MoveColumnToMonitor(x) => match b {
            Action::MoveColumnToMonitor(y) => *x == *y,
            _ => false,
        },
        Action::MoveWorkspaceToMonitorLeft => matches!(b, Action::MoveWorkspaceToMonitorLeft),
        Action::MoveWorkspaceToMonitorRight => matches!(b, Action::MoveWorkspaceToMonitorRight),
        Action::MoveWorkspaceToMonitorDown => matches!(b, Action::MoveWorkspaceToMonitorDown),
        Action::MoveWorkspaceToMonitorUp => matches!(b, Action::MoveWorkspaceToMonitorUp),
        Action::MoveWorkspaceToMonitorPrevious => matches!(b, Action::MoveWorkspaceToMonitorPrevious),
        Action::MoveWorkspaceToMonitorNext => matches!(b, Action::MoveWorkspaceToMonitorNext),
        Action::SetWindowWidth(x) => match b {
            Action::SetWindowWidth(y) => *x == *y,
            _ => false,
        },
        Action::SetWindowWidthById { id: x0, change: x1 } => match b {
            Action::SetWindowWidthById { id: y0, change: y1 } => *x0 == *y0 && *x1 == *y1,
            _ => false,
        },
        Action::SetWindowHeight(x) => match b {
            Action::SetWindowHeight(y) => *x == *y,
            _ => false,
        },
        Action::SetWindowHeightById { id: x0, change: x1 } => match b {
            Action::SetWindowHeightById { id: y0, change: y1 } => *x0 == *y0 && *x1 == *y1,
            _ => false,
        },
        Action::ResetWindowHeight => matches!(b, Action::ResetWindowHeight),
        Action::ResetWindowHeightById(x) => match b {
            Action::ResetWindowHeightById(y) => *x == *y,
            _ => false,
        },
        Action::SwitchPresetColumnWidth => matches!(b, Action::SwitchPresetColumnWidth),
        Action::SwitchPresetColumnWidthBack => matches!(b, Action::SwitchPresetColumnWidthBack),
        Action::SwitchPresetWindowWidth => matches!(b, Action::SwitchPresetWindowWidth),
        Action::SwitchPresetWindowWidthBack => matches!(b, Action::SwitchPresetWindowWidthBack),
        Action::SwitchPresetWindowWidthById(x) => match b {
            Action::SwitchPresetWindowWidthById(y) => *x == *y,
            _ => false,
        },
        Action::SwitchPresetWindowWidthBackById(x) => match b {
            Action::SwitchPresetWindowWidthBackById(y) => *x == *y,
            _ => false,
        },
        Action::SwitchPresetWindowHeight => matches!(b, Action::SwitchPresetWindowHeight),
        Action::SwitchPresetWindowHeightBack => matches!(b, Action::SwitchPresetWindowHeightBack),
        Action::SwitchPresetWindowHeightById(x) => match b {
            Action::SwitchPresetWindowHeightById(y) => *x == *y,
            _ => false,
        },
        Action::SwitchPresetWindowHeightBackById(x) => match b {
            Action::SwitchPresetWindowHeightBackById(y) => *x == *y,
            _ => false,
        },
        Action::MaximizeColumn => matches!(b, Action::MaximizeColumn),
        Action::MaximizeWindowToEdges => matches!(b, Action::MaximizeWindowToEdges),
        Action::MaximizeWindowToEdgesById(x) => match b {
            Action::MaximizeWindowToEdgesById(y) => *x == *y,
            _ => false,
        },
        Action::SetColumnWidth(x) => match b {
            Action::SetColumnWidth(y) => *x == *y,
            _ => false,
        },
        Action::ExpandColumnToAvailableWidth => matches!(b, Action::ExpandColumnToAvailableWidth),
        Action::SwitchLayout(x) => match b {
            Action::SwitchLayout(y) => *x == *y,
            _ => false,
        },
        Action::ShowHotkeyOverlay => matches!(b, Action::ShowHotkeyOverlay),
        Action::ToggleWindowFloating => matches!(b, Action::ToggleWindowFloating),
        Action::ToggleWindowFloatingById(x) => match b {
            Action::ToggleWindowFloatingById(y) => *x == *y,
            _ => false,
        },
        Action::MoveWindowToFloating => matches!(b, Action::MoveWindowToFloating),
        Action::MoveWindowToFloatingById(x) => match b {
            Action::MoveWindowToFloatingById(y) => *x == *y,
            _ => false,
        },
        Action::MoveWindowToTiling => matches!(b, Action::MoveWindowToTiling),
        Action::MoveWindowToTilingById(x) => match b {
            Action::MoveWindowToTilingById(y) => *x == *y,
            _ => false,
        },
        Action::FocusFloating => matches!(b, Action::FocusFloating),
        Action::FocusTiling => matches!(b, Action::FocusTiling),
        Action::SwitchFocusBetweenFloatingAndTiling => matches!(b, Action::SwitchFocusBetweenFloatingAndTiling),
        Action::MoveFloatingWindowById { id: x0, x: x1, y: x2 } => match b {
            Action::MoveFloatingWindowById { id: y0, x: y1, y: y2 } => *x0 == *y0 && *x1 == *y1 && *x2 == *y2,
            _ => false,
        },
        Action::ToggleWindowRuleOpacity => matches!(b, Action::ToggleWindowRuleOpacity),
        Action::ToggleWindowRuleOpacityById(x) => match b {
            Action::ToggleWindowRuleOpacityById(y) => *x == *y,
            _ => false,
        },
        Action::ToggleOverview => matches!(b, Action::ToggleOverview),
        Action::OpenOverview => matches!(b, Action::OpenOverview),
        Action::CloseOverview => matches!(b, Action::CloseOverview),
        Action::ToggleWindowUrgent(x) => match b {
            Action::ToggleWindowUrgent(y) => *x == *y,
            _ => false,
        },
        Action::SetWindowUrgent(x) => match b {
            Action::SetWindowUrgent(y) => *x == *y,
            _ => false,
        },
        Action::UnsetWindowUrgent(x) => match b {
            Action::UnsetWindowUrgent(y) => *x == *y,
            _ => false,
        },
        Action::LoadConfigFile(x) => match b {
            Action::LoadConfigFile(y) => same_opt_text(x, y),
            _ => false,
        },
    }
}

/// Compares two titles.
fn same_title(a: &Option<Option<String>>, b: &Option<Option<String>>) -> (r: bool)
    ensures
        r == titles_agree(*a, *b),
{
    match (a, b) {
        (Some(x), Some(y)) => same_opt_text(x, y),
        (None, None) => true,
        _ => false,
    }
}

impl Binds {
    /// Compares with other binds.
    pub fn same(&self, other: &Binds) -> (r: bool)
        ensures
            r == binds_agree(self.0@, other.0@),
    {
        if self.0.len() != other.0.len() {
            return false;
        }
        let mut i: usize = 0;
        while i < self.0.len()
            invariant
                i <= self.0@.len(),
                self.0@.len() == other.0@.len(),
                forall|k: int| 0 <= k < i ==> bind_agrees(#[trigger] self.0@[k], other.0@[k]),
            decreases self.0@.len() - i,
        {
            let a = &self.0[i];
            let b = &other.0[i];
            let same = a.key == b.key && same_action(&a.action, &b.action) && a.repeat == b.repeat
                && a.cooldown == b.cooldown && a.allow_when_locked == b.allow_when_locked
                && same_title(&a.hotkey_overlay_title, &b.hotkey_overlay_title);
            if !same {
                assert(!bind_agrees(self.0@[i as int], other.0@[i as int]));
                return false;
            }
            i = i + 1;
        }
        true
    }
}

/// Binds are the same as themselves, and it does not matter which are compared with which.
pub proof fn law_binds_agree(a: Seq<Bind>, b: Seq<Bind>)
    ensures
        binds_agree(a, a),
        binds_agree(a, b) == binds_agree(b, a),
{
    assert forall|i: int| 0 <= i < a.len() implies bind_agrees(#[trigger] a[i], a[i]) by {
    }
    if binds_agree(a, b) {
        assert forall|i: int| 0 <= i < b.len() implies bind_agrees(#[trigger] b[i], a[i]) by {
            assert(bind_agrees(a[i], b[i]));
        }
    }
    if binds_agree(b, a) {
        assert forall|i: int| 0 <= i < a.len() implies bind_agrees(#[trigger] a[i], b[i]) by {
            assert(bind_agrees(b[i], a[i]));
        }
    }
}

/// Actions that are taken for the same mean the same: they are of one kind, go the same ways, and say the same.
pub proof fn law_same_actions_mean_the_same(a: Action, b: Action, focus: Option<u64>)
    requires
        actions_agree(a, b),
    ensures
        action_kind(a) == action_kind(b),
        action_ways(a) == action_ways(b),
        ({
            let x = action_details(a, focus);
            let y = action_details(b, focus);
            x.window == y.window && x.number == y.number && x.flag == y.flag && x.change == y.change
                && x.place == y.place && x.display == y.display && x.name == y.name
        }),
        a matches Action::Spawn(x) ==> (b matches Action::Spawn(y) && texts(x@) == texts(y@)),
        a matches Action::SpawnSh(x) ==> (b matches Action::SpawnSh(y) && x@ == y@),
        a matches Action::Screenshot(pointer, _) ==> (b matches Action::Screenshot(other, _) && pointer
            == other),
        a matches Action::FocusWorkspace(x) ==> (b matches Action::FocusWorkspace(y)
            && references_agree(x, y)),
{
}

} // verus!
