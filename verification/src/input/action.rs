//! The actions that binds and requests can ask for.
use vstd::prelude::*;

use crate::geometry::FloatBits;

verus! {

/// How to change a size.
#[derive(Clone, Copy, Debug, PartialEq, Eq, Structural)]
pub enum SizeChange {
    SetFixed(i32),
    SetProportion(FloatBits),
    AdjustFixed(i32),
    AdjustProportion(FloatBits),
}

/// How to change a position along one axis.
#[derive(Clone, Copy, Debug, PartialEq, Eq, Structural)]
pub enum PositionChange {
    SetFixed(FloatBits),
    SetProportion(FloatBits),
    AdjustFixed(FloatBits),
    AdjustProportion(FloatBits),
}

/// How a column shows its windows.
#[derive(Clone, Copy, Debug, PartialEq, Eq, Structural)]
pub enum ColumnDisplay {
    Normal,
    Tabbed,
}

/// Which keyboard layout to switch to.
#[derive(Clone, Copy, Debug, PartialEq, Eq, Structural)]
pub enum LayoutSwitchTarget {
    Next,
    Prev,
    Index(u8),
}

/// How a workspace is named in a request.
#[derive(Clone, Debug)]
pub enum WorkspaceReference {
    Id(u64),
    Index(u8),
    Name(String),
}

/// Something that a bind or a request can ask for.
#[derive(Clone, Debug)]
pub enum Action {
    Quit(bool),
    ChangeVt(i32),
    Suspend,
    PowerOffMonitors,
    PowerOnMonitors,
    Spawn(Vec<String>),
    SpawnSh(String),
    DoScreenTransition(Option<u16>),
    ConfirmScreenshot { write_to_disk: bool },
    CancelScreenshot,
    ScreenshotTogglePointer,
    Screenshot(bool, Option<String>),
    ScreenshotScreen(bool, bool, Option<String>),
    ScreenshotWindow(bool, bool, Option<String>),
    ScreenshotWindowById { id: u64, write_to_disk: bool, show_pointer: bool, path: Option<String> },
    CloseWindow,
    CloseWindowById(u64),
    FullscreenWindow,
    FullscreenWindowById(u64),
    ToggleWindowedFullscreen,
    ToggleWindowedFullscreenById(u64),
    FocusWindow(u64),
    FocusWindowInColumn(u8),
    FocusWindowPrevious,
    FocusColumnLeft,
    FocusColumnLeftUnderMouse,
    FocusColumnRight,
    FocusColumnRightUnderMouse,
    FocusColumnFirst,
    FocusColumnLast,
    FocusColumnRightOrFirst,
    FocusColumnLeftOrLast,
    FocusColumn(usize),
    FocusWindowOrMonitorUp,
    FocusWindowOrMonitorDown,
    FocusColumnOrMonitorLeft,
    FocusColumnOrMonitorRight,
    FocusWindowDown,
    FocusWindowUp,
    FocusWindowDownOrColumnLeft,
    FocusWindowDownOrColumnRight,
    FocusWindowUpOrColumnLeft,
    FocusWindowUpOrColumnRight,
    FocusWindowOrWorkspaceDown,
    FocusWindowOrWorkspaceUp,
    FocusWindowTop,
    FocusWindowBottom,
    FocusWindowDownOrTop,
    FocusWindowUpOrBottom,
    MoveColumnLeft,
    MoveColumnRight,
    MoveColumnToFirst,
    MoveColumnToLast,
    MoveColumnLeftOrToMonitorLeft,
    MoveColumnRightOrToMonitorRight,
    MoveColumnToIndex(usize),
    MoveWindowDown,
    MoveWindowUp,
    MoveWindowDownOrToWorkspaceDown,
    MoveWindowUpOrToWorkspaceUp,
    ConsumeOrExpelWindowLeft,
    ConsumeOrExpelWindowLeftById(u64),
    ConsumeOrExpelWindowRight,
    ConsumeOrExpelWindowRightById(u64),
    ConsumeWindowIntoColumn,
    ExpelWindowFromColumn,
    SwapWindowLeft,
    SwapWindowRight,
    ToggleColumnTabbedDisplay,
    SetColumnDisplay(ColumnDisplay),
    CenterColumn,
    CenterWindow,
    CenterWindowById(u64),
    CenterVisibleColumns,
    FocusWorkspaceDown,
    FocusWorkspaceDownUnderMouse,
    FocusWorkspaceUp,
    FocusWorkspaceUpUnderMouse,
    FocusWorkspace(WorkspaceReference),
    FocusWorkspacePrevious,
    MoveWindowToWorkspaceDown(bool),
    MoveWindowToWorkspaceUp(bool),
    MoveWindowToWorkspace(WorkspaceReference, bool),
    MoveWindowToWorkspaceById { window_id: u64, reference: WorkspaceReference, focus: bool },
    MoveColumnToWorkspaceDown(bool),
    MoveColumnToWorkspaceUp(bool),
    MoveColumnToWorkspace(WorkspaceReference, bool),
    MoveWorkspaceDown,
    MoveWorkspaceUp,
    MoveWorkspaceToIndex(usize),
    MoveWorkspaceToIndexByRef { new_idx: usize, reference: WorkspaceReference },
    MoveWorkspaceToMonitor(String),
    MoveWorkspaceToMonitorByRef { output_name: String, reference: WorkspaceReference },
    SetWorkspaceName(String),
    SetWorkspaceNameByRef { name: String, reference: WorkspaceReference },
    UnsetWorkspaceName,
    UnsetWorkSpaceNameByRef(WorkspaceReference),
    FocusMonitorLeft,
    FocusMonitorRight,
    FocusMonitorDown,
    FocusMonitorUp,
    FocusMonitorPrevious,
    FocusMonitorNext,
    FocusMonitor(String),
    MoveWindowToMonitorLeft,
    MoveWindowToMonitorRight,
    MoveWindowToMonitorDown,
    MoveWindowToMonitorUp,
    MoveWindowToMonitorPrevious,
    MoveWindowToMonitorNext,
    MoveWindowToMonitor(String),
    MoveWindowToMonitorById { id: u64, output: String },
    MoveColumnToMonitorLeft,
    MoveColumnToMonitorRight,
    MoveColumnToMonitorDown,
    MoveColumnToMonitorUp,
    MoveColumnToMonitorPrevious,
    MoveColumnToMonitorNext,
    MoveColumnToMonitor(String),
    MoveWorkspaceToMonitorLeft,
    MoveWorkspaceToMonitorRight,
    MoveWorkspaceToMonitorDown,
    MoveWorkspaceToMonitorUp,
    MoveWorkspaceToMonitorPrevious,
    MoveWorkspaceToMonitorNext,
    SetWindowWidth(SizeChange),
    SetWindowWidthById { id: u64, change: SizeChange },
    SetWindowHeight(SizeChange),
    SetWindowHeightById { id: u64, change: SizeChange },
    ResetWindowHeight,
    ResetWindowHeightById(u64),
    SwitchPresetColumnWidth,
    SwitchPresetColumnWidthBack,
    SwitchPresetWindowWidth,
    SwitchPresetWindowWidthBack,
    SwitchPresetWindowWidthById(u64),
    SwitchPresetWindowWidthBackById(u64),
    SwitchPresetWindowHeight,
    SwitchPresetWindowHeightBack,
    SwitchPresetWindowHeightById(u64),
    SwitchPresetWindowHeightBackById(u64),
    MaximizeColumn,
    MaximizeWindowToEdges,
    MaximizeWindowToEdgesById(u64),
    SetColumnWidth(SizeChange),
    ExpandColumnToAvailableWidth,
    SwitchLayout(LayoutSwitchTarget),
    ShowHotkeyOverlay,
    ToggleWindowFloating,
    ToggleWindowFloatingById(u64),
    MoveWindowToFloating,
    MoveWindowToFloatingById(u64),
    MoveWindowToTiling,
    MoveWindowToTilingById(u64),
    FocusFloating,
    FocusTiling,
    SwitchFocusBetweenFloatingAndTiling,
    MoveFloatingWindowById { id: Option<u64>, x: PositionChange, y: PositionChange },
    ToggleWindowRuleOpacity,
    ToggleWindowRuleOpacityById(u64),
    ToggleOverview,
    OpenOverview,
    CloseOverview,
    ToggleWindowUrgent(u64),
    SetWindowUrgent(u64),
    UnsetWindowUrgent(u64),
    LoadConfigFile(Option<String>),
}

/// Whether an action is carried out though the session is locked.
pub open spec fn works_when_locked(action: Action) -> bool {
    action is Quit || action is ChangeVt || action is Suspend || action is PowerOffMonitors
        || action is PowerOnMonitors || action is SwitchLayout
}

/// Whether an action is carried out though the session is locked.
pub fn allowed_when_locked(action: &Action) -> (r: bool)
    ensures
        r == works_when_locked(*action),
{
    matches!(
        action,
        Action::Quit(_) | Action::ChangeVt(_) | Action::Suspend | Action::PowerOffMonitors
            | Action::PowerOnMonitors | Action::SwitchLayout(_)
    )
}

/// Whether the screenshot selection gives an action a meaning of its own.
pub open spec fn steers_screenshot(action: Action) -> bool {
    ||| action is MoveColumnLeft || action is MoveColumnLeftOrToMonitorLeft
    ||| action is MoveColumnRight || action is MoveColumnRightOrToMonitorRight
    ||| action is MoveWindowUp || action is MoveWindowUpOrToWorkspaceUp
    ||| action is MoveWindowDown || action is MoveWindowDownOrToWorkspaceDown
    ||| action is MoveColumnToMonitorLeft || action is MoveColumnToMonitorRight
    ||| action is MoveColumnToMonitorUp || action is MoveColumnToMonitorDown
    ||| action is MoveColumnToMonitorPrevious || action is MoveColumnToMonitorNext
    ||| action is MoveColumnToMonitor
    ||| action is MoveWindowToMonitorLeft || action is MoveWindowToMonitorRight
    ||| action is MoveWindowToMonitorUp || action is MoveWindowToMonitorDown
    ||| action is MoveWindowToMonitorPrevious || action is MoveWindowToMonitorNext
    ||| action is MoveWindowToMonitor
    ||| action is SetWindowWidth || action is SetWindowHeight || action is SetColumnWidth
}

/// Whether an action is carried out while a screenshot is being selected.
pub open spec fn works_during_screenshot(action: Action) -> bool {
    ||| action is Quit || action is ChangeVt || action is Suspend
    ||| action is PowerOffMonitors || action is PowerOnMonitors
    ||| action is Spawn || action is SpawnSh
    ||| steers_screenshot(action)
}

/// Whether an action is carried out while a screenshot is being selected.
pub fn allowed_during_screenshot(action: &Action) -> (r: bool)
    ensures
        r == works_during_screenshot(*action),
{
    matches!(
        action,
        Action::Quit(_) | Action::ChangeVt(_) | Action::Suspend | Action::PowerOffMonitors
            | Action::PowerOnMonitors
        // For binds such as volume up and down, or locking the screen.
            | Action::Spawn(_) | Action::SpawnSh(_)
        // The screenshot selection can handle these.
            | Action::MoveColumnLeft | Action::MoveColumnLeftOrToMonitorLeft
            | Action::MoveColumnRight | Action::MoveColumnRightOrToMonitorRight
            | Action::MoveWindowUp | Action::MoveWindowUpOrToWorkspaceUp | Action::MoveWindowDown
            | Action::MoveWindowDownOrToWorkspaceDown | Action::MoveColumnToMonitorLeft
            | Action::MoveColumnToMonitorRight | Action::MoveColumnToMonitorUp
            | Action::MoveColumnToMonitorDown | Action::MoveColumnToMonitorPrevious
            | Action::MoveColumnToMonitorNext | Action::MoveColumnToMonitor(_)
            | Action::MoveWindowToMonitorLeft | Action::MoveWindowToMonitorRight
            | Action::MoveWindowToMonitorUp | Action::MoveWindowToMonitorDown
            | Action::MoveWindowToMonitorPrevious | Action::MoveWindowToMonitorNext
            | Action::MoveWindowToMonitor(_) | Action::SetWindowWidth(_)
            | Action::SetWindowHeight(_) | Action::SetColumnWidth(_)
    )
}

} // verus!
