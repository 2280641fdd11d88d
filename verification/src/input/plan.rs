//! What an action leads to: commands in order, with questions whose answers choose the rest.
use vstd::prelude::*;

use crate::input::action::{
    ColumnDisplay, LayoutSwitchTarget, PositionChange, SizeChange, WorkspaceReference,
};
use crate::niri::space::Direction;

verus! {

/// Whether a moved window gets the focus.
#[derive(Clone, Copy, Debug, PartialEq, Eq, Structural)]
pub enum ActivateWindow {
    /// Only if it had the focus.
    Smart,
    /// Not at all.
    No,
}

/// A horizontal direction.
#[derive(Clone, Copy, Debug, PartialEq, Eq, Structural)]
pub enum ScrollDirection {
    Left,
    Right,
}

/// Something that the layout is asked to do. A window of `None` is the focused one.
#[derive(Debug)]
pub enum LayoutOp {
    ToggleFullscreen(u64),
    ToggleWindowedFullscreen(u64),
    ToggleMaximized(u64),
    FocusWindowInColumn(u8),
    FocusLeft,
    FocusRight,
    FocusColumnFirst,
    FocusColumnLast,
    FocusColumnRightOrFirst,
    FocusColumnLeftOrLast,
    FocusColumn(usize),
    FocusUp,
    FocusDown,
    FocusDownOrLeft,
    FocusDownOrRight,
    FocusUpOrLeft,
    FocusUpOrRight,
    FocusWindowOrWorkspaceDown,
    FocusWindowOrWorkspaceUp,
    FocusWindowTop,
    FocusWindowBottom,
    FocusWindowDownOrTop,
    FocusWindowUpOrBottom,
    SwitchWorkspaceDown,
    SwitchWorkspaceUp,
    SwitchWorkspacePrevious,
    SwitchWorkspace(usize),
    SwitchWorkspaceAutoBackAndForth(usize),
    MoveLeft,
    MoveRight,
    MoveDown,
    MoveUp,
    MoveColumnToFirst,
    MoveColumnToLast,
    MoveColumnToIndex(usize),
    MoveDownOrToWorkspaceDown,
    MoveUpOrToWorkspaceUp,
    ConsumeOrExpelWindowLeft(Option<u64>),
    ConsumeOrExpelWindowRight(Option<u64>),
    MoveToWorkspaceDown(bool),
    MoveToWorkspaceUp(bool),
    MoveToWorkspace { window: Option<u64>, index: usize, activate: ActivateWindow },
    MoveColumnToWorkspaceDown(bool),
    MoveColumnToWorkspaceUp(bool),
    MoveColumnToWorkspace { index: usize, activate: bool },
    ExpelFromColumn,
    SwapWindowInDirection(ScrollDirection),
    ToggleColumnTabbedDisplay,
    SetColumnDisplay(ColumnDisplay),
    FocusFloating,
    FocusTiling,
    SwitchFocusFloatingTiling,
    MoveWorkspaceDown,
    MoveWorkspaceUp,
    /// Moves a workspace, given by output and index, or the active one, to another index.
    MoveWorkspaceToIdx(Option<(Option<u64>, usize)>, usize),
    ConsumeIntoColumn,
    CenterColumn,
    CenterWindow(Option<u64>),
    CenterVisibleColumns,
    ToggleWindowFloating(Option<u64>),
    SetWindowFloating(Option<u64>, bool),
    MoveFloatingWindow { window: Option<u64>, x: PositionChange, y: PositionChange },
    ToggleOverview,
    SetWorkspaceName(String, Option<WorkspaceReference>),
    UnsetWorkspaceName(Option<WorkspaceReference>),
    ToggleWidth(bool),
    ToggleWindowWidth(Option<u64>, bool),
    ToggleWindowHeight(Option<u64>, bool),
    ToggleFullWidth,
    SetColumnWidth(SizeChange),
    SetWindowWidth(Option<u64>, SizeChange),
    SetWindowHeight(Option<u64>, SizeChange),
    ResetWindowHeight(Option<u64>),
    ExpandColumnToAvailableWidth,
    FocusOutput(u64),
    MoveToOutput {
        window: Option<u64>,
        output: u64,
        index: Option<usize>,
        activate: ActivateWindow,
    },
    MoveColumnToOutput { output: u64, index: Option<usize>, activate: bool },
    MoveWorkspaceToOutput(u64),
    ActivateWindow(u64),
}

/// Something to be done.
#[derive(Debug)]
pub enum Command {
    Layout(LayoutOp),
    /// Moves the focus on a workspace.
    FocusOnWorkspace { workspace: u64, toward: ScrollDirection },
    /// Switches to the next workspace of a monitor, or to the previous one.
    SwitchWorkspaceOnMonitor { output: u64, down: bool },
    /// Moves the cursor to the focused window, if so configured.
    WarpCursorToFocus,
    MoveCursorToOutput(u64),
    MoveCursorToActiveOutput,
    ClearOnDemandLayerFocus,
    QueueRedrawAll,
    QueueRedraw(u64),
    Stop,
    ChangeVt(i32),
    Suspend,
    ClearSuppressedKeys,
    DeactivateMonitors,
    ActivateMonitors,
    Spawn(Vec<String>),
    SpawnSh(String),
    DoScreenTransition(Option<u16>),
    ScreenshotScreen {
        output: u64,
        write_to_disk: bool,
        show_pointer: bool,
        path: Option<String>,
    },
    ScreenshotWindow {
        window: u64,
        output: u64,
        write_to_disk: bool,
        show_pointer: bool,
        path: Option<String>,
    },
    OpenScreenshotUi { show_pointer: bool, path: Option<String> },
    ConfirmScreenshot { write_to_disk: bool },
    CloseScreenshotUi,
    ResetCursorImage,
    ToggleScreenshotPointer,
    MoveScreenshotSelection(Direction),
    MoveScreenshotToOutput(u64),
    SetScreenshotWidth(SizeChange),
    SetScreenshotHeight(SizeChange),
    CloseWindow(u64),
    SwitchKeyboardLayout(LayoutSwitchTarget),
    ToggleIgnoreOpacityRule(u64),
    SetUrgent(u64, bool),
    LoadConfigFile(Option<String>),
}

/// Something to be done or looked up whose outcome decides how to go on.
#[derive(Debug)]
pub enum Question {
    /// Shows the exit confirmation; yes if it can be shown.
    ShowExitConfirmDialog,
    /// Shows the important hotkeys; yes if they were not shown before.
    ShowHotkeyOverlay,
    /// Moves the cursor to the middle of the focused window, if so configured; yes if it moved.
    WarpCursorToFocusCentered,
    /// Moves the column, to an output where the row ends; yes if to the output.
    MoveColumnLeftOrToOutput(u64),
    MoveColumnRightOrToOutput(u64),
    /// Moves the focus, to an output where the windows end; yes if to the output.
    FocusWindowUpOrOutput(u64),
    FocusWindowDownOrOutput(u64),
    FocusColumnLeftOrOutput(u64),
    FocusColumnRightOrOutput(u64),
    /// Moves the active workspace; yes if it moved.
    MoveWorkspaceToOutput(u64),
    /// Moves a workspace; yes if the focus moved with it.
    MoveWorkspaceToOutputById { index: usize, from: Option<u64>, to: u64 },
    /// Whether an output is the active one by now.
    IsActiveOutput(Option<u64>),
    /// Whether a window has the focus by now.
    IsFocused(u64),
    OpenOverview,
    CloseOverview,
}

/// Commands in order, with questions in between.
#[derive(Debug)]
pub enum Plan {
    Done,
    /// Does one thing and goes on.
    Do(Command, Box<Plan>),
    /// Goes on with the first plan on a yes, with the second on a no.
    Ask(Question, Box<Plan>, Box<Plan>),
}

/// A window as the list of all windows has it.
#[derive(Clone, Copy, Debug, PartialEq, Eq, Structural)]
pub struct WindowView {
    pub id: u64,
    pub output: Option<u64>,
    /// When the window last got the focus, in nanoseconds.
    pub focus_timestamp: Option<u64>,
}

/// A window as its workspace has it.
#[derive(Clone, Copy, Debug, PartialEq, Eq, Structural)]
pub struct WorkspaceWindow {
    pub id: u64,
    /// Whether a window rule makes it other than opaque.
    pub translucent_by_rule: bool,
    pub urgent: bool,
}

/// What an action finds when it is carried out.
#[derive(Debug)]
pub struct ActionContext {
    pub active_output: Option<u64>,
    /// The focused window.
    pub focus: Option<u64>,
    /// The focused window and its output, if it has one.
    pub focus_with_output: Option<(u64, u64)>,
    /// All windows.
    pub windows: Vec<WindowView>,
    /// All windows that are on workspaces.
    pub workspace_windows: Vec<WorkspaceWindow>,
    /// The active window of the active workspace.
    pub active_window: Option<WorkspaceWindow>,
    /// The output and the workspace under the cursor.
    pub workspace_under_cursor: Option<(u64, u64)>,
    /// The output under the cursor, if it has a monitor.
    pub monitor_under_cursor: Option<u64>,
    /// Index and output of the workspace that the action refers to by name or id.
    pub referenced_workspace: Option<(usize, Option<u64>)>,
    /// The output that the action names.
    pub named_output: Option<u64>,
    pub workspace_auto_back_and_forth: bool,
    pub num_keyboard_layouts: usize,
    pub has_config_watcher: bool,
}

/// The plan that does one thing before another plan.
pub fn first(command: Command, rest: Plan) -> (r: Plan)
    ensures
        r == Plan::Do(command, Box::new(rest)),
{
    Plan::Do(command, Box::new(rest))
}

/// The plan that asks one thing before it goes on.
pub fn ask(question: Question, yes: Plan, no: Plan) -> (r: Plan)
    ensures
        r == Plan::Ask(question, Box::new(yes), Box::new(no)),
{
    Plan::Ask(question, Box::new(yes), Box::new(no))
}

/// The plan that does one thing and is done.
pub open spec fn only(command: Command) -> Plan {
    Plan::Do(command, Box::new(Plan::Done))
}

/// How plans that move the focus end: the focus leaves a layer surface, and all is drawn anew.
pub open spec fn ending(clear: bool, redraw: bool) -> Plan {
    let last = if redraw {
        only(Command::QueueRedrawAll)
    } else {
        Plan::Done
    };
    if clear {
        Plan::Do(Command::ClearOnDemandLayerFocus, Box::new(last))
    } else {
        last
    }
}

/// How plans that move the focus end.
pub fn end(clear: bool, redraw: bool) -> (r: Plan)
    ensures
        r == ending(clear, redraw),
{
    let last = if redraw {
        first(Command::QueueRedrawAll, Plan::Done)
    } else {
        Plan::Done
    };
    if clear {
        first(Command::ClearOnDemandLayerFocus, last)
    } else {
        last
    }
}

/// Takes the cursor along to another output: to its focused window, or else to its middle.
pub open spec fn cursor_follows(output: u64, clear: bool, redraw: bool) -> Plan {
    Plan::Ask(
        Question::WarpCursorToFocusCentered,
        Box::new(ending(clear, redraw)),
        Box::new(
            Plan::Do(Command::MoveCursorToOutput(output), Box::new(ending(clear, redraw))),
        ),
    )
}

/// Takes the cursor along to another output.
pub fn follow(output: u64, clear: bool, redraw: bool) -> (r: Plan)
    ensures
        r == cursor_follows(output, clear, redraw),
{
    ask(
        Question::WarpCursorToFocusCentered,
        end(clear, redraw),
        first(Command::MoveCursorToOutput(output), end(clear, redraw)),
    )
}

/// Asks for a move that may lead to another output, and takes the cursor along if it does.
pub open spec fn crossing(question: Question, output: u64, clear: bool) -> Plan {
    let warp = Plan::Do(Command::WarpCursorToFocus, Box::new(ending(clear, true)));
    Plan::Ask(
        question,
        Box::new(
            Plan::Ask(
                Question::WarpCursorToFocusCentered,
                Box::new(warp),
                Box::new(
                    Plan::Do(Command::MoveCursorToOutput(output), Box::new(ending(clear, true))),
                ),
            ),
        ),
        Box::new(warp),
    )
}

/// Asks for a move that may lead to another output.
pub fn cross(question: Question, output: u64, clear: bool) -> (r: Plan)
    ensures
        r == crossing(question, output, clear),
{
    ask(
        question,
        ask(
            Question::WarpCursorToFocusCentered,
            first(Command::WarpCursorToFocus, end(clear, true)),
            first(Command::MoveCursorToOutput(output), end(clear, true)),
        ),
        first(Command::WarpCursorToFocus, end(clear, true)),
    )
}

impl LayoutOp {
    /// Whether the cursor may have to follow the focus.
    pub open spec fn warps(self) -> bool {
        self.clears() || match self {
            LayoutOp::MoveLeft | LayoutOp::MoveRight | LayoutOp::MoveDown | LayoutOp::MoveUp => true,
            LayoutOp::MoveColumnToFirst | LayoutOp::MoveColumnToLast
            | LayoutOp::MoveColumnToIndex(_) => true,
            LayoutOp::MoveDownOrToWorkspaceDown | LayoutOp::MoveUpOrToWorkspaceUp => true,
            LayoutOp::ConsumeOrExpelWindowLeft(_) | LayoutOp::ConsumeOrExpelWindowRight(_) => true,
            LayoutOp::MoveToWorkspaceDown(_) | LayoutOp::MoveToWorkspaceUp(_)
            | LayoutOp::MoveToWorkspace { .. } => true,
            LayoutOp::MoveColumnToWorkspaceDown(_) | LayoutOp::MoveColumnToWorkspaceUp(_) => true,
            LayoutOp::ExpelFromColumn | LayoutOp::SwapWindowInDirection(_) => true,
            LayoutOp::ToggleColumnTabbedDisplay | LayoutOp::SetColumnDisplay(_) => true,
            LayoutOp::FocusFloating | LayoutOp::FocusTiling
            | LayoutOp::SwitchFocusFloatingTiling => true,
            _ => false,
        }
    }

    /// Whether the focus leaves a layer surface that has it on demand.
    pub open spec fn clears(self) -> bool {
        match self {
            LayoutOp::FocusWindowInColumn(_) | LayoutOp::FocusColumn(_) => true,
            LayoutOp::FocusLeft | LayoutOp::FocusRight | LayoutOp::FocusUp | LayoutOp::FocusDown => true,
            LayoutOp::FocusColumnFirst | LayoutOp::FocusColumnLast => true,
            LayoutOp::FocusColumnRightOrFirst | LayoutOp::FocusColumnLeftOrLast => true,
            LayoutOp::FocusDownOrLeft | LayoutOp::FocusDownOrRight | LayoutOp::FocusUpOrLeft
            | LayoutOp::FocusUpOrRight => true,
            LayoutOp::FocusWindowOrWorkspaceDown | LayoutOp::FocusWindowOrWorkspaceUp => true,
            LayoutOp::FocusWindowTop | LayoutOp::FocusWindowBottom => true,
            LayoutOp::FocusWindowDownOrTop | LayoutOp::FocusWindowUpOrBottom => true,
            LayoutOp::SwitchWorkspaceDown | LayoutOp::SwitchWorkspaceUp
            | LayoutOp::SwitchWorkspacePrevious => true,
            LayoutOp::SwitchWorkspace(_) | LayoutOp::SwitchWorkspaceAutoBackAndForth(_) => true,
            _ => false,
        }
    }

    /// Whether all is drawn anew right away. Sizes and names are not: windows have to answer first.
    pub open spec fn redraws(self) -> bool {
        match self {
            LayoutOp::SetWorkspaceName(_, _) | LayoutOp::UnsetWorkspaceName(_) => false,
            LayoutOp::ToggleWidth(_) | LayoutOp::ToggleWindowWidth(_, _)
            | LayoutOp::ToggleWindowHeight(_, _) | LayoutOp::ToggleFullWidth => false,
            LayoutOp::SetColumnWidth(_) | LayoutOp::SetWindowWidth(_, _)
            | LayoutOp::SetWindowHeight(_, _) | LayoutOp::ResetWindowHeight(_)
            | LayoutOp::ExpandColumnToAvailableWidth => false,
            _ => true,
        }
    }
}

/// The plan for one change of the layout.
pub open spec fn layout_plan(op: LayoutOp) -> Plan {
    let last = ending(op.clears(), op.redraws());
    Plan::Do(
        Command::Layout(op),
        Box::new(
            if op.warps() {
                Plan::Do(Command::WarpCursorToFocus, Box::new(last))
            } else {
                last
            },
        ),
    )
}

/// The plan for moving the focus.
pub fn focusing(op: LayoutOp) -> (r: Plan)
    requires
        op.clears(),
    ensures
        r == layout_plan(op),
{
    first(Command::Layout(op), first(Command::WarpCursorToFocus, end(true, true)))
}

/// The plan for moving windows along with the focus.
pub fn moving(op: LayoutOp) -> (r: Plan)
    requires
        op.warps(),
        !op.clears(),
        op.redraws(),
    ensures
        r == layout_plan(op),
{
    first(Command::Layout(op), first(Command::WarpCursorToFocus, end(false, true)))
}

/// The plan for a change that shows at once and keeps the focus.
pub fn redrawing(op: LayoutOp) -> (r: Plan)
    requires
        !op.warps(),
        op.redraws(),
    ensures
        r == layout_plan(op),
{
    first(Command::Layout(op), end(false, true))
}

/// The plan for a change that shows later.
pub fn plain(op: LayoutOp) -> (r: Plan)
    requires
        !op.warps(),
        !op.redraws(),
    ensures
        r == layout_plan(op),
{
    first(Command::Layout(op), Plan::Done)
}

} // verus!
