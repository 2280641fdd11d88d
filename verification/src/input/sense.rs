//! What actions mean, and that what is done about them means the same.
use vstd::prelude::*;

use crate::input::action::{
    steers_screenshot, works_during_screenshot, works_when_locked, Action, ColumnDisplay,
    LayoutSwitchTarget, PositionChange, SizeChange, WorkspaceReference,
};
use crate::input::perform::{
    action_plan, crossing_direction, direct_op, focused_op, has_window, latest_other,
    law_latest_other, monitor_plan, monitor_request, names_output, permitted_plan, reference_of,
    selection_move, single_plan, window_by_id, window_op, workspace_window, MonitorVerb,
};
use crate::input::plan::{
    layout_plan, ActionContext, ActivateWindow, Command, LayoutOp, Plan, Question, ScrollDirection,
    WindowView, WorkspaceWindow,
};
use crate::niri::space::Direction;
use crate::niri::Niri;

verus! {

/// The ways that something goes. There can be two, where the second counts if the first leads nowhere.
#[verifier::ext_equal]
pub struct Ways {
    pub left: bool,
    pub right: bool,
    pub up: bool,
    pub down: bool,
    /// To the first, or the topmost.
    pub first: bool,
    /// To the last, or the bottommost.
    pub last: bool,
    pub previous: bool,
    pub next: bool,
    /// Through a list in the other direction.
    pub back: bool,
}

/// No way at all.
pub open spec fn nowhere() -> Ways {
    Ways {
        left: false,
        right: false,
        up: false,
        down: false,
        first: false,
        last: false,
        previous: false,
        next: false,
        back: false,
    }
}

/// The ways that an action names.
pub open spec fn action_ways(action: Action) -> Ways {
    Ways {
        left: action is FocusColumnLeft || action is FocusColumnLeftUnderMouse
            || action is FocusColumnLeftOrLast || action is FocusColumnOrMonitorLeft
            || action is FocusWindowDownOrColumnLeft || action is FocusWindowUpOrColumnLeft
            || action is MoveColumnLeft || action is MoveColumnLeftOrToMonitorLeft
            || action is ConsumeOrExpelWindowLeft || action is ConsumeOrExpelWindowLeftById
            || action is SwapWindowLeft || action is FocusMonitorLeft
            || action is MoveWindowToMonitorLeft || action is MoveColumnToMonitorLeft
            || action is MoveWorkspaceToMonitorLeft,
        right: action is FocusColumnRight || action is FocusColumnRightUnderMouse
            || action is FocusColumnRightOrFirst || action is FocusColumnOrMonitorRight
            || action is FocusWindowDownOrColumnRight || action is FocusWindowUpOrColumnRight
            || action is MoveColumnRight || action is MoveColumnRightOrToMonitorRight
            || action is ConsumeOrExpelWindowRight || action is ConsumeOrExpelWindowRightById
            || action is SwapWindowRight || action is FocusMonitorRight
            || action is MoveWindowToMonitorRight || action is MoveColumnToMonitorRight
            || action is MoveWorkspaceToMonitorRight,
        up: action is FocusWindowOrMonitorUp || action is FocusWindowUp
            || action is FocusWindowUpOrColumnLeft || action is FocusWindowUpOrColumnRight
            || action is FocusWindowOrWorkspaceUp || action is FocusWindowUpOrBottom
            || action is MoveWindowUp || action is MoveWindowUpOrToWorkspaceUp
            || action is FocusWorkspaceUp || action is FocusWorkspaceUpUnderMouse
            || action is MoveWindowToWorkspaceUp || action is MoveColumnToWorkspaceUp
            || action is MoveWorkspaceUp || action is FocusMonitorUp
            || action is MoveWindowToMonitorUp || action is MoveColumnToMonitorUp
            || action is MoveWorkspaceToMonitorUp,
        down: action is FocusWindowOrMonitorDown || action is FocusWindowDown
            || action is FocusWindowDownOrColumnLeft || action is FocusWindowDownOrColumnRight
            || action is FocusWindowOrWorkspaceDown || action is FocusWindowDownOrTop
            || action is MoveWindowDown || action is MoveWindowDownOrToWorkspaceDown
            || action is FocusWorkspaceDown || action is FocusWorkspaceDownUnderMouse
            || action is MoveWindowToWorkspaceDown || action is MoveColumnToWorkspaceDown
            || action is MoveWorkspaceDown || action is FocusMonitorDown
            || action is MoveWindowToMonitorDown || action is MoveColumnToMonitorDown
            || action is MoveWorkspaceToMonitorDown,
        first: action is FocusColumnFirst || action is FocusColumnRightOrFirst
            || action is FocusWindowTop || action is FocusWindowDownOrTop
            || action is MoveColumnToFirst,
        last: action is FocusColumnLast || action is FocusColumnLeftOrLast
            || action is FocusWindowBottom || action is FocusWindowUpOrBottom
            || action is MoveColumnToLast,
        previous: action is FocusWindowPrevious || action is FocusWorkspacePrevious
            || action is FocusMonitorPrevious || action is MoveWindowToMonitorPrevious
            || action is MoveColumnToMonitorPrevious || action is MoveWorkspaceToMonitorPrevious,
        next: action is FocusMonitorNext || action is MoveWindowToMonitorNext
            || action is MoveColumnToMonitorNext || action is MoveWorkspaceToMonitorNext,
        back: action is SwitchPresetColumnWidthBack || action is SwitchPresetWindowWidthBack
            || action is SwitchPresetWindowWidthBackById || action is SwitchPresetWindowHeightBack
            || action is SwitchPresetWindowHeightBackById,
    }
}

/// The ways that the layout is asked to go.
pub open spec fn op_ways(op: LayoutOp) -> Ways {
    Ways {
        left: op is FocusLeft || op is FocusColumnLeftOrLast || op is FocusDownOrLeft
            || op is FocusUpOrLeft || op is MoveLeft || op is ConsumeOrExpelWindowLeft
            || op == LayoutOp::SwapWindowInDirection(ScrollDirection::Left),
        right: op is FocusRight || op is FocusColumnRightOrFirst || op is FocusDownOrRight
            || op is FocusUpOrRight || op is MoveRight || op is ConsumeOrExpelWindowRight
            || op == LayoutOp::SwapWindowInDirection(ScrollDirection::Right),
        up: op is FocusUp || op is FocusUpOrLeft || op is FocusUpOrRight
            || op is FocusWindowOrWorkspaceUp || op is FocusWindowUpOrBottom
            || op is SwitchWorkspaceUp || op is MoveUp || op is MoveUpOrToWorkspaceUp
            || op is MoveToWorkspaceUp || op is MoveColumnToWorkspaceUp || op is MoveWorkspaceUp,
        down: op is FocusDown || op is FocusDownOrLeft || op is FocusDownOrRight
            || op is FocusWindowOrWorkspaceDown || op is FocusWindowDownOrTop
            || op is SwitchWorkspaceDown || op is MoveDown || op is MoveDownOrToWorkspaceDown
            || op is MoveToWorkspaceDown || op is MoveColumnToWorkspaceDown
            || op is MoveWorkspaceDown,
        first: op is FocusColumnFirst || op is FocusColumnRightOrFirst || op is FocusWindowTop
            || op is FocusWindowDownOrTop || op is MoveColumnToFirst,
        last: op is FocusColumnLast || op is FocusColumnLeftOrLast || op is FocusWindowBottom
            || op is FocusWindowUpOrBottom || op is MoveColumnToLast,
        previous: op is SwitchWorkspacePrevious,
        next: false,
        back: (op matches LayoutOp::ToggleWidth(forwards) && !forwards)
            || (op matches LayoutOp::ToggleWindowWidth(_, forwards) && !forwards)
            || (op matches LayoutOp::ToggleWindowHeight(_, forwards) && !forwards),
    }
}

/// The ways that a question goes.
pub open spec fn question_ways(question: Question) -> Ways {
    Ways {
        left: question is MoveColumnLeftOrToOutput || question is FocusColumnLeftOrOutput,
        right: question is MoveColumnRightOrToOutput || question is FocusColumnRightOrOutput,
        up: question is FocusWindowUpOrOutput,
        down: question is FocusWindowDownOrOutput,
        first: false,
        last: false,
        previous: false,
        next: false,
        back: false,
    }
}

/// The way of a direction.
pub open spec fn direction_ways(direction: Direction) -> Ways {
    match direction {
        Direction::Left => Ways { left: true, ..nowhere() },
        Direction::Right => Ways { right: true, ..nowhere() },
        Direction::Up => Ways { up: true, ..nowhere() },
        Direction::Down => Ways { down: true, ..nowhere() },
    }
}

/// The ways that something to be done goes.
pub open spec fn command_ways(command: Command) -> Ways {
    match command {
        Command::Layout(op) => op_ways(op),
        Command::FocusOnWorkspace { toward: ScrollDirection::Left, .. } => Ways {
            left: true,
            ..nowhere()
        },
        Command::FocusOnWorkspace { toward: ScrollDirection::Right, .. } => Ways {
            right: true,
            ..nowhere()
        },
        Command::SwitchWorkspaceOnMonitor { down, .. } => if down {
            Ways { down: true, ..nowhere() }
        } else {
            Ways { up: true, ..nowhere() }
        },
        Command::MoveScreenshotSelection(direction) => direction_ways(direction),
        _ => nowhere(),
    }
}

/// What is changed in the layout.
pub enum Kind {
    /// The focus, among the windows of a column.
    WindowFocus,
    /// The focus, among columns.
    ColumnFocus,
    /// The focus, among the windows of a column and then among workspaces.
    WindowOrWorkspaceFocus,
    /// The focus, among workspaces.
    WorkspaceFocus,
    /// The place of a column.
    ColumnPlace,
    /// The place of a window in its column.
    WindowPlace,
    /// The place of a window in its column, or its workspace.
    WindowPlaceOrWorkspace,
    /// The column of a window.
    WindowColumn,
    /// A window is taken into the column.
    Consume,
    /// A window is put out of the column.
    Expel,
    /// Two windows change places.
    Swap,
    /// The workspace of a window.
    WindowWorkspace,
    /// The workspace of a column.
    ColumnWorkspace,
    /// The place of a workspace.
    WorkspacePlace,
    /// Whether the windows of a column are tabs.
    TabbedDisplay,
    /// How the windows of a column are shown.
    Display,
    /// The focus goes to the floating windows.
    FloatingFocus,
    /// The focus goes to the tiled windows.
    TilingFocus,
    /// The focus goes from the floating to the tiled windows, or back.
    FloatingOrTilingFocus,
    /// A column is centered.
    CenteredColumn,
    /// A window is centered.
    CenteredWindow,
    /// All columns in view are centered.
    CenteredColumns,
    /// A window floats if it did not, and the other way round.
    OtherFloating,
    /// Whether a window floats.
    Floating,
    /// The place of a floating window.
    FloatingPlace,
    /// Whether the overview is open.
    Overview,
    /// A workspace gets a name.
    NewName,
    /// A workspace loses its name.
    NoName,
    /// The next width of a column.
    ColumnWidthStep,
    /// The next width of a window.
    WindowWidthStep,
    /// The next height of a window.
    WindowHeightStep,
    /// Whether a column is as wide as the output.
    FullWidth,
    /// A column takes the width that is left.
    AvailableWidth,
    /// The width of a column.
    ColumnWidth,
    /// The width of a window.
    WindowWidth,
    /// The height of a window.
    WindowHeight,
    /// A window gets its own height back.
    NoHeight,
    /// Whether a window fills the screen.
    Fullscreen,
    /// Whether a window believes that it fills the screen.
    WindowedFullscreen,
    /// Whether a window is maximized.
    Maximized,
}

/// What an action changes in the layout, if it changes something there whatever else there is.
pub open spec fn action_kind(action: Action) -> Option<Kind> {
    if action is FocusWindowInColumn || action is FocusWindowDown || action is FocusWindowUp
        || action is FocusWindowDownOrColumnLeft || action is FocusWindowDownOrColumnRight
        || action is FocusWindowUpOrColumnLeft || action is FocusWindowUpOrColumnRight
        || action is FocusWindowTop || action is FocusWindowBottom
        || action is FocusWindowDownOrTop || action is FocusWindowUpOrBottom
        || action is FocusWindowOrMonitorUp || action is FocusWindowOrMonitorDown {
        Some(Kind::WindowFocus)
    } else if action is FocusColumnLeft || action is FocusColumnRight || action is FocusColumnFirst
        || action is FocusColumnLast || action is FocusColumnRightOrFirst
        || action is FocusColumnLeftOrLast || action is FocusColumn
        || action is FocusColumnOrMonitorLeft || action is FocusColumnOrMonitorRight {
        Some(Kind::ColumnFocus)
    } else if action is FocusWindowOrWorkspaceDown || action is FocusWindowOrWorkspaceUp {
        Some(Kind::WindowOrWorkspaceFocus)
    } else if action is FocusWorkspaceDown || action is FocusWorkspaceUp
        || action is FocusWorkspacePrevious {
        Some(Kind::WorkspaceFocus)
    } else if action is MoveColumnLeft || action is MoveColumnRight || action is MoveColumnToFirst
        || action is MoveColumnToLast || action is MoveColumnToIndex
        || action is MoveColumnLeftOrToMonitorLeft || action is MoveColumnRightOrToMonitorRight {
        Some(Kind::ColumnPlace)
    } else if action is MoveWindowDown || action is MoveWindowUp {
        Some(Kind::WindowPlace)
    } else if action is MoveWindowDownOrToWorkspaceDown || action is MoveWindowUpOrToWorkspaceUp {
        Some(Kind::WindowPlaceOrWorkspace)
    } else if action is ConsumeOrExpelWindowLeft || action is ConsumeOrExpelWindowRight
        || action is ConsumeOrExpelWindowLeftById || action is ConsumeOrExpelWindowRightById {
        Some(Kind::WindowColumn)
    } else if action is ConsumeWindowIntoColumn {
        Some(Kind::Consume)
    } else if action is ExpelWindowFromColumn {
        Some(Kind::Expel)
    } else if action is SwapWindowLeft || action is SwapWindowRight {
        Some(Kind::Swap)
    } else if action is MoveWindowToWorkspaceDown || action is MoveWindowToWorkspaceUp {
        Some(Kind::WindowWorkspace)
    } else if action is MoveColumnToWorkspaceDown || action is MoveColumnToWorkspaceUp {
        Some(Kind::ColumnWorkspace)
    } else if action is MoveWorkspaceDown || action is MoveWorkspaceUp || action is MoveWorkspaceToIndex {
        Some(Kind::WorkspacePlace)
    } else if action is ToggleColumnTabbedDisplay {
        Some(Kind::TabbedDisplay)
    } else if action is SetColumnDisplay {
        Some(Kind::Display)
    } else if action is FocusFloating {
        Some(Kind::FloatingFocus)
    } else if action is FocusTiling {
        Some(Kind::TilingFocus)
    } else if action is SwitchFocusBetweenFloatingAndTiling {
        Some(Kind::FloatingOrTilingFocus)
    } else if action is CenterColumn {
        Some(Kind::CenteredColumn)
    } else if action is CenterWindow || action is CenterWindowById {
        Some(Kind::CenteredWindow)
    } else if action is CenterVisibleColumns {
        Some(Kind::CenteredColumns)
    } else if action is ToggleWindowFloating || action is ToggleWindowFloatingById {
        Some(Kind::OtherFloating)
    } else if action is MoveWindowToFloating || action is MoveWindowToFloatingById
        || action is MoveWindowToTiling || action is MoveWindowToTilingById {
        Some(Kind::Floating)
    } else if action is MoveFloatingWindowById {
        Some(Kind::FloatingPlace)
    } else if action is ToggleOverview {
        Some(Kind::Overview)
    } else if action is SetWorkspaceName || action is SetWorkspaceNameByRef {
        Some(Kind::NewName)
    } else if action is UnsetWorkspaceName || action is UnsetWorkSpaceNameByRef {
        Some(Kind::NoName)
    } else if action is SwitchPresetColumnWidth || action is SwitchPresetColumnWidthBack {
        Some(Kind::ColumnWidthStep)
    } else if action is SwitchPresetWindowWidth || action is SwitchPresetWindowWidthBack
        || action is SwitchPresetWindowWidthById || action is SwitchPresetWindowWidthBackById {
        Some(Kind::WindowWidthStep)
    } else if action is SwitchPresetWindowHeight || action is SwitchPresetWindowHeightBack
        || action is SwitchPresetWindowHeightById || action is SwitchPresetWindowHeightBackById {
        Some(Kind::WindowHeightStep)
    } else if action is MaximizeColumn {
        Some(Kind::FullWidth)
    } else if action is ExpandColumnToAvailableWidth {
        Some(Kind::AvailableWidth)
    } else if action is SetColumnWidth {
        Some(Kind::ColumnWidth)
    } else if action is SetWindowWidth || action is SetWindowWidthById {
        Some(Kind::WindowWidth)
    } else if action is SetWindowHeight || action is SetWindowHeightById {
        Some(Kind::WindowHeight)
    } else if action is ResetWindowHeight || action is ResetWindowHeightById {
        Some(Kind::NoHeight)
    } else if action is FullscreenWindow || action is FullscreenWindowById {
        Some(Kind::Fullscreen)
    } else if action is ToggleWindowedFullscreen || action is ToggleWindowedFullscreenById {
        Some(Kind::WindowedFullscreen)
    } else if action is MaximizeWindowToEdges || action is MaximizeWindowToEdgesById {
        Some(Kind::Maximized)
    } else {
        None
    }
}

/// What the layout is asked to change.
pub open spec fn op_kind(op: LayoutOp) -> Option<Kind> {
    if op is FocusWindowInColumn || op is FocusUp || op is FocusDown || op is FocusDownOrLeft
        || op is FocusDownOrRight || op is FocusUpOrLeft || op is FocusUpOrRight
        || op is FocusWindowTop || op is FocusWindowBottom || op is FocusWindowDownOrTop
        || op is FocusWindowUpOrBottom {
        Some(Kind::WindowFocus)
    } else if op is FocusLeft || op is FocusRight || op is FocusColumnFirst || op is FocusColumnLast
        || op is FocusColumnRightOrFirst || op is FocusColumnLeftOrLast || op is FocusColumn {
        Some(Kind::ColumnFocus)
    } else if op is FocusWindowOrWorkspaceDown || op is FocusWindowOrWorkspaceUp {
        Some(Kind::WindowOrWorkspaceFocus)
    } else if op is SwitchWorkspaceDown || op is SwitchWorkspaceUp || op is SwitchWorkspacePrevious {
        Some(Kind::WorkspaceFocus)
    } else if op is MoveLeft || op is MoveRight || op is MoveColumnToFirst || op is MoveColumnToLast
        || op is MoveColumnToIndex {
        Some(Kind::ColumnPlace)
    } else if op is MoveDown || op is MoveUp {
        Some(Kind::WindowPlace)
    } else if op is MoveDownOrToWorkspaceDown || op is MoveUpOrToWorkspaceUp {
        Some(Kind::WindowPlaceOrWorkspace)
    } else if op is ConsumeOrExpelWindowLeft || op is ConsumeOrExpelWindowRight {
        Some(Kind::WindowColumn)
    } else if op is ConsumeIntoColumn {
        Some(Kind::Consume)
    } else if op is ExpelFromColumn {
        Some(Kind::Expel)
    } else if op is SwapWindowInDirection {
        Some(Kind::Swap)
    } else if op is MoveToWorkspaceDown || op is MoveToWorkspaceUp {
        Some(Kind::WindowWorkspace)
    } else if op is MoveColumnToWorkspaceDown || op is MoveColumnToWorkspaceUp {
        Some(Kind::ColumnWorkspace)
    } else if op is MoveWorkspaceDown || op is MoveWorkspaceUp || op is MoveWorkspaceToIdx {
        Some(Kind::WorkspacePlace)
    } else if op is ToggleColumnTabbedDisplay {
        Some(Kind::TabbedDisplay)
    } else if op is SetColumnDisplay {
        Some(Kind::Display)
    } else if op is FocusFloating {
        Some(Kind::FloatingFocus)
    } else if op is FocusTiling {
        Some(Kind::TilingFocus)
    } else if op is SwitchFocusFloatingTiling {
        Some(Kind::FloatingOrTilingFocus)
    } else if op is CenterColumn {
        Some(Kind::CenteredColumn)
    } else if op is CenterWindow {
        Some(Kind::CenteredWindow)
    } else if op is CenterVisibleColumns {
        Some(Kind::CenteredColumns)
    } else if op is ToggleWindowFloating {
        Some(Kind::OtherFloating)
    } else if op is SetWindowFloating {
        Some(Kind::Floating)
    } else if op is MoveFloatingWindow {
        Some(Kind::FloatingPlace)
    } else if op is ToggleOverview {
        Some(Kind::Overview)
    } else if op is SetWorkspaceName {
        Some(Kind::NewName)
    } else if op is UnsetWorkspaceName {
        Some(Kind::NoName)
    } else if op is ToggleWidth {
        Some(Kind::ColumnWidthStep)
    } else if op is ToggleWindowWidth {
        Some(Kind::WindowWidthStep)
    } else if op is ToggleWindowHeight {
        Some(Kind::WindowHeightStep)
    } else if op is ToggleFullWidth {
        Some(Kind::FullWidth)
    } else if op is ExpandColumnToAvailableWidth {
        Some(Kind::AvailableWidth)
    } else if op is SetColumnWidth {
        Some(Kind::ColumnWidth)
    } else if op is SetWindowWidth {
        Some(Kind::WindowWidth)
    } else if op is SetWindowHeight {
        Some(Kind::WindowHeight)
    } else if op is ResetWindowHeight {
        Some(Kind::NoHeight)
    } else if op is ToggleFullscreen {
        Some(Kind::Fullscreen)
    } else if op is ToggleWindowedFullscreen {
        Some(Kind::WindowedFullscreen)
    } else if op is ToggleMaximized {
        Some(Kind::Maximized)
    } else {
        None
    }
}

/// What is said beside the kind and the ways.
#[verifier::ext_equal]
pub struct Details {
    /// The window, if it is not just the focused one.
    pub window: Option<u64>,
    /// Which of several, counted from zero where it is the layout that is asked.
    pub number: Option<int>,
    pub flag: Option<bool>,
    pub change: Option<SizeChange>,
    pub place: Option<(PositionChange, PositionChange)>,
    pub display: Option<ColumnDisplay>,
    pub name: Option<Seq<char>>,
    pub reference: Option<WorkspaceReference>,
}

/// Nothing is said.
pub open spec fn no_details() -> Details {
    Details {
        window: None,
        number: None,
        flag: None,
        change: None,
        place: None,
        display: None,
        name: None,
        reference: None,
    }
}

/// What an action says. `focus` is the focused window.
pub open spec fn action_details(action: Action, focus: Option<u64>) -> Details {
    let none = no_details();
    match action {
        Action::FocusWindowInColumn(index) => Details { number: Some(index as int), ..none },
        Action::FocusColumn(index) => Details { number: Some(index as int), ..none },
        Action::MoveColumnToIndex(index) => Details { number: Some(index as int), ..none },
        // The user counts workspaces from one.
        Action::MoveWorkspaceToIndex(index) => Details {
            number: Some(
                if index >= 1 {
                    index - 1
                } else {
                    0
                },
            ),
            ..none
        },
        Action::MoveWindowToWorkspaceDown(focus) => Details { flag: Some(focus), ..none },
        Action::MoveWindowToWorkspaceUp(focus) => Details { flag: Some(focus), ..none },
        Action::MoveColumnToWorkspaceDown(focus) => Details { flag: Some(focus), ..none },
        Action::MoveColumnToWorkspaceUp(focus) => Details { flag: Some(focus), ..none },
        Action::SetColumnDisplay(display) => Details { display: Some(display), ..none },
        Action::MoveWindowToFloating => Details { flag: Some(true), ..none },
        Action::MoveWindowToTiling => Details { flag: Some(false), ..none },
        Action::MoveWindowToFloatingById(id) => Details {
            window: Some(id),
            flag: Some(true),
            ..none
        },
        Action::MoveWindowToTilingById(id) => Details {
            window: Some(id),
            flag: Some(false),
            ..none
        },
        Action::MoveFloatingWindowById { id, x, y } => Details {
            window: id,
            place: Some((x, y)),
            ..none
        },
        Action::SetWorkspaceName(name) => Details { name: Some(name@), ..none },
        Action::SetWorkspaceNameByRef { name, reference } => Details {
            name: Some(name@),
            reference: Some(reference),
            ..none
        },
        Action::UnsetWorkSpaceNameByRef(reference) => Details {
            reference: Some(reference),
            ..none
        },
        Action::SetColumnWidth(change) => Details { change: Some(change), ..none },
        Action::SetWindowWidth(change) => Details { change: Some(change), ..none },
        Action::SetWindowHeight(change) => Details { change: Some(change), ..none },
        Action::SetWindowWidthById { id, change } => Details {
            window: Some(id),
            change: Some(change),
            ..none
        },
        Action::SetWindowHeightById { id, change } => Details {
            window: Some(id),
            change: Some(change),
            ..none
        },
        Action::FullscreenWindow | Action::ToggleWindowedFullscreen
        | Action::MaximizeWindowToEdges => Details { window: focus, ..none },
        Action::FullscreenWindowById(id) => Details { window: Some(id), ..none },
        Action::ToggleWindowedFullscreenById(id) => Details { window: Some(id), ..none },
        Action::MaximizeWindowToEdgesById(id) => Details { window: Some(id), ..none },
        Action::ConsumeOrExpelWindowLeftById(id) => Details { window: Some(id), ..none },
        Action::ConsumeOrExpelWindowRightById(id) => Details { window: Some(id), ..none },
        Action::CenterWindowById(id) => Details { window: Some(id), ..none },
        Action::SwitchPresetWindowWidthById(id) => Details { window: Some(id), ..none },
        Action::SwitchPresetWindowWidthBackById(id) => Details { window: Some(id), ..none },
        Action::SwitchPresetWindowHeightById(id) => Details { window: Some(id), ..none },
        Action::SwitchPresetWindowHeightBackById(id) => Details { window: Some(id), ..none },
        Action::ResetWindowHeightById(id) => Details { window: Some(id), ..none },
        Action::ToggleWindowFloatingById(id) => Details { window: Some(id), ..none },
        _ => none,
    }
}

/// What the layout is told.
pub open spec fn op_details(op: LayoutOp) -> Details {
    let none = no_details();
    match op {
        LayoutOp::FocusWindowInColumn(index) => Details { number: Some(index as int), ..none },
        LayoutOp::FocusColumn(index) => Details { number: Some(index as int), ..none },
        LayoutOp::MoveColumnToIndex(index) => Details { number: Some(index as int), ..none },
        LayoutOp::MoveWorkspaceToIdx(None, index) => Details { number: Some(index as int), ..none },
        LayoutOp::MoveToWorkspaceDown(focus) => Details { flag: Some(focus), ..none },
        LayoutOp::MoveToWorkspaceUp(focus) => Details { flag: Some(focus), ..none },
        LayoutOp::MoveColumnToWorkspaceDown(focus) => Details { flag: Some(focus), ..none },
        LayoutOp::MoveColumnToWorkspaceUp(focus) => Details { flag: Some(focus), ..none },
        LayoutOp::SetColumnDisplay(display) => Details { display: Some(display), ..none },
        LayoutOp::SetWindowFloating(window, floating) => Details {
            window,
            flag: Some(floating),
            ..none
        },
        LayoutOp::MoveFloatingWindow { window, x, y } => Details {
            window,
            place: Some((x, y)),
            ..none
        },
        LayoutOp::SetWorkspaceName(name, reference) => Details {
            name: Some(name@),
            reference,
            ..none
        },
        LayoutOp::UnsetWorkspaceName(reference) => Details { reference, ..none },
        LayoutOp::SetColumnWidth(change) => Details { change: Some(change), ..none },
        LayoutOp::SetWindowWidth(window, change) => Details {
            window,
            change: Some(change),
            ..none
        },
        LayoutOp::SetWindowHeight(window, change) => Details {
            window,
            change: Some(change),
            ..none
        },
        LayoutOp::ToggleFullscreen(id) => Details { window: Some(id), ..none },
        LayoutOp::ToggleWindowedFullscreen(id) => Details { window: Some(id), ..none },
        LayoutOp::ToggleMaximized(id) => Details { window: Some(id), ..none },
        LayoutOp::ConsumeOrExpelWindowLeft(window) => Details { window, ..none },
        LayoutOp::ConsumeOrExpelWindowRight(window) => Details { window, ..none },
        LayoutOp::CenterWindow(window) => Details { window, ..none },
        LayoutOp::ToggleWindowWidth(window, _) => Details { window, ..none },
        LayoutOp::ToggleWindowHeight(window, _) => Details { window, ..none },
        LayoutOp::ResetWindowHeight(window) => Details { window, ..none },
        LayoutOp::ToggleWindowFloating(window) => Details { window, ..none },
        _ => none,
    }
}

/// Whether a change of the layout means what an action says.
pub open spec fn means_the_same(op: LayoutOp, action: Action, focus: Option<u64>) -> bool {
    &&& action_kind(action) is Some
    &&& op_kind(op) == action_kind(action)
    &&& op_ways(op) == action_ways(action)
    &&& op_details(op) == action_details(action, focus)
}

/// The first table means what it says.
proof fn lemma_direct(action: Action, focus: Option<u64>)
    ensures
        direct_op(action) matches Some(op) ==> means_the_same(op, action, focus),
{
}

/// The second table means what it says.
proof fn lemma_window(action: Action, focus: Option<u64>)
    ensures
        window_op(action) matches Some((id, op)) ==> means_the_same(op, action, focus)
            && action_details(action, focus).window == Some(id),
{
}

/// The other tables mean what they say.
proof fn lemma_others(action: Action, focus: u64)
    ensures
        focused_op(action, focus) matches Some(op) ==> means_the_same(op, action, Some(focus)),
        selection_move(action) matches Some((toward, op)) ==> means_the_same(op, action, Some(focus))
            && direction_ways(toward) == action_ways(action),
        crossing_direction(action) matches Some((toward, op)) ==> means_the_same(
            op,
            action,
            Some(focus),
        ) && direction_ways(toward) == action_ways(action),
{
}

/// Whether an action goes on to another output where the row or column ends.
pub open spec fn goes_on_to_output(action: Action) -> bool {
    action is MoveColumnLeftOrToMonitorLeft || action is MoveColumnRightOrToMonitorRight
        || action is FocusWindowOrMonitorUp || action is FocusWindowOrMonitorDown
        || action is FocusColumnOrMonitorLeft || action is FocusColumnOrMonitorRight
}

/// Whether an action needs a focused window.
pub open spec fn needs_focus(action: Action) -> bool {
    action is FullscreenWindow || action is ToggleWindowedFullscreen
        || action is MaximizeWindowToEdges
}

/// An action that changes the layout does what it says, to the window that it names and in the ways that
/// it names: it asks the layout for a change of that kind, first of all. Nothing is asked only if the
/// window is not there.
pub proof fn law_layout_changes_as_asked(niri: Niri, ctx: ActionContext, action: Action)
    requires
        action_kind(action) is Some,
        !goes_on_to_output(action),
        niri.screenshot_ui is Open ==> !steers_screenshot(action),
    ensures
        ({
            let window = action_details(action, ctx.focus).window;
            let gone = needs_focus(action) && ctx.focus is None || !needs_focus(action) && (
            window matches Some(id) && !has_window(ctx, id));
            match action_plan(niri, ctx, action) {
                Plan::Do(Command::Layout(op), _) => !gone && means_the_same(op, action, ctx.focus),
                Plan::Done => gone,
                _ => false,
            }
        }),
{
    lemma_direct(action, ctx.focus);
    lemma_window(action, ctx.focus);
    let focus = match ctx.focus {
        Some(focus) => focus,
        None => 0,
    };
    lemma_others(action, focus);
    lemma_others(action, 0);
}

/// Whether something is done in a plan, whatever the answers.
pub open spec fn leads_to(plan: Plan, command: Command) -> bool
    decreases plan,
{
    match plan {
        Plan::Done => false,
        Plan::Do(first, rest) => first == command || leads_to(*rest, command),
        Plan::Ask(_, yes, no) => leads_to(*yes, command) || leads_to(*no, command),
    }
}

/// Whether the focus goes elsewhere.
pub open spec fn is_focus(kind: Kind) -> bool {
    kind is WindowFocus || kind is ColumnFocus || kind is WindowOrWorkspaceFocus
        || kind is WorkspaceFocus
}

/// Whether the focused window goes elsewhere, or looks otherwise.
pub open spec fn takes_focus_along(kind: Kind) -> bool {
    kind is ColumnPlace || kind is WindowPlace || kind is WindowPlaceOrWorkspace
        || kind is WindowColumn || kind is Expel || kind is Swap || kind is WindowWorkspace
        || kind is ColumnWorkspace || kind is TabbedDisplay || kind is Display
        || kind is FloatingFocus || kind is TilingFocus || kind is FloatingOrTilingFocus
}

/// Whether windows have to answer before there is something to be seen, or nothing is to be seen at all.
pub open spec fn shows_later(kind: Kind) -> bool {
    kind is NewName || kind is NoName || kind is ColumnWidthStep || kind is WindowWidthStep
        || kind is WindowHeightStep || kind is FullWidth || kind is AvailableWidth
        || kind is ColumnWidth || kind is WindowWidth || kind is WindowHeight || kind is NoHeight
}

/// After a change of the layout the cursor follows the focus if that went elsewhere, a layer surface loses
/// the focus if a window was chosen, and all is drawn anew unless windows have to answer first.
pub proof fn law_layout_changes_are_shown(op: LayoutOp)
    requires
        op_kind(op) is Some,
    ensures
        ({
            let plan = layout_plan(op);
            let kind = op_kind(op)->0;
            &&& leads_to(plan, Command::WarpCursorToFocus) <==> is_focus(kind) || takes_focus_along(
                kind,
            )
            &&& leads_to(plan, Command::ClearOnDemandLayerFocus) <==> is_focus(kind)
            &&& leads_to(plan, Command::QueueRedrawAll) <==> !shows_later(kind)
        }),
{
    reveal_with_fuel(leads_to, 6);
}

/// What a question changes in the layout, if it is one that goes on to another output.
pub open spec fn question_kind(question: Question) -> Option<Kind> {
    match question {
        Question::MoveColumnLeftOrToOutput(_) | Question::MoveColumnRightOrToOutput(_) => Some(
            Kind::ColumnPlace,
        ),
        Question::FocusWindowUpOrOutput(_) | Question::FocusWindowDownOrOutput(_) => Some(
            Kind::WindowFocus,
        ),
        Question::FocusColumnLeftOrOutput(_) | Question::FocusColumnRightOrOutput(_) => Some(
            Kind::ColumnFocus,
        ),
        _ => None,
    }
}

/// The output that a question goes on to.
pub open spec fn question_output(question: Question) -> Option<u64> {
    match question {
        Question::MoveColumnLeftOrToOutput(output) => Some(output),
        Question::MoveColumnRightOrToOutput(output) => Some(output),
        Question::FocusWindowUpOrOutput(output) => Some(output),
        Question::FocusWindowDownOrOutput(output) => Some(output),
        Question::FocusColumnLeftOrOutput(output) => Some(output),
        Question::FocusColumnRightOrOutput(output) => Some(output),
        _ => None,
    }
}

/// The output that lies in the ways that an action names, as seen from another.
pub open spec fn output_in_ways(niri: Niri, from: u64, ways: Ways) -> Option<u64> {
    let space = niri.global_space;
    if ways.left {
        space.neighbor(from, Direction::Left)
    } else if ways.right {
        space.neighbor(from, Direction::Right)
    } else if ways.up {
        space.neighbor(from, Direction::Up)
    } else if ways.down {
        space.neighbor(from, Direction::Down)
    } else if ways.previous {
        space.previous_in_order(from)
    } else if ways.next {
        space.next_in_order(from)
    } else {
        None
    }
}

/// An action that goes on to another output where the row or column ends asks for that if there is an
/// output in its direction, takes the cursor along if it came to that, and shows what came of it. If there
/// is none, it does the same without the output.
pub proof fn law_goes_on_to_output(niri: Niri, ctx: ActionContext, action: Action)
    requires
        goes_on_to_output(action),
        niri.screenshot_ui is Open ==> !steers_screenshot(action),
    ensures
        ({
            let target = match ctx.active_output {
                Some(active) => output_in_ways(niri, active, action_ways(action)),
                None => None,
            };
            match (action_plan(niri, ctx, action), target) {
                (Plan::Ask(question, yes, no), Some(output)) => {
                    &&& question_kind(question) == action_kind(action)
                    &&& question_ways(question) == action_ways(action)
                    &&& question_output(question) == Some(output)
                    &&& leads_to(*yes, Command::MoveCursorToOutput(output))
                    &&& leads_to(*no, Command::WarpCursorToFocus)
                    &&& leads_to(*yes, Command::QueueRedrawAll)
                    &&& leads_to(*no, Command::QueueRedrawAll)
                    &&& leads_to(*no, Command::ClearOnDemandLayerFocus) == is_focus(
                        action_kind(action)->0,
                    )
                },
                (Plan::Do(Command::Layout(op), _), None) => means_the_same(op, action, ctx.focus),
                _ => false,
            }
        }),
{
    reveal_with_fuel(leads_to, 6);
    let focus = match ctx.focus {
        Some(focus) => focus,
        None => 0,
    };
    lemma_others(action, focus);
    assert(direct_op(action) is None && window_op(action) is None && focused_op(action, 0) is None);
    assert(selection_move(action) is None);
    let (_, op) = crossing_direction(action)->0;
    assert(op_details(op) == no_details());
    assert(action_details(action, ctx.focus) == no_details());
}

/// Whether an action takes the focus to another monitor.
pub open spec fn focuses_monitor(action: Action) -> bool {
    action is FocusMonitorLeft || action is FocusMonitorRight || action is FocusMonitorUp
        || action is FocusMonitorDown || action is FocusMonitorPrevious || action is FocusMonitorNext
}

/// Whether an action takes the window to another monitor.
pub open spec fn takes_window_to_monitor(action: Action) -> bool {
    action is MoveWindowToMonitorLeft || action is MoveWindowToMonitorRight
        || action is MoveWindowToMonitorUp || action is MoveWindowToMonitorDown
        || action is MoveWindowToMonitorPrevious || action is MoveWindowToMonitorNext
}

/// Whether an action takes the column to another monitor.
pub open spec fn takes_column_to_monitor(action: Action) -> bool {
    action is MoveColumnToMonitorLeft || action is MoveColumnToMonitorRight
        || action is MoveColumnToMonitorUp || action is MoveColumnToMonitorDown
        || action is MoveColumnToMonitorPrevious || action is MoveColumnToMonitorNext
}

/// Whether an action takes the workspace to another monitor.
pub open spec fn takes_workspace_to_monitor(action: Action) -> bool {
    action is MoveWorkspaceToMonitorLeft || action is MoveWorkspaceToMonitorRight
        || action is MoveWorkspaceToMonitorUp || action is MoveWorkspaceToMonitorDown
        || action is MoveWorkspaceToMonitorPrevious || action is MoveWorkspaceToMonitorNext
}

/// Whether all that a plan asks of the layout is one of two things, and the first is.
pub open spec fn asks_just(plan: Plan, first: LayoutOp, second: LayoutOp) -> bool {
    &&& plan matches Plan::Do(command, _) && command == Command::Layout(first)
    &&& leads_to(plan, Command::Layout(second))
    &&& forall|op: LayoutOp| #[trigger]
        leads_to(plan, Command::Layout(op)) ==> op == first || op == second
}

/// What is done about an output that is known: the focus, the window, the column or the workspace goes
/// there, and the cursor is taken along. A window or column takes the focus with it.
proof fn lemma_monitor_plan(verb: MonitorVerb, output: u64)
    ensures
        ({
            let plan = monitor_plan(verb, output);
            let focus = LayoutOp::FocusOutput(output);
            &&& leads_to(plan, Command::MoveCursorToOutput(output))
            &&& match verb {
                MonitorVerb::Focus => asks_just(plan, focus, focus),
                MonitorVerb::MoveWindow => asks_just(
                    plan,
                    LayoutOp::MoveToOutput {
                        window: None,
                        output,
                        index: None,
                        activate: ActivateWindow::Smart,
                    },
                    focus,
                ),
                MonitorVerb::MoveColumn => asks_just(
                    plan,
                    LayoutOp::MoveColumnToOutput { output, index: None, activate: true },
                    focus,
                ),
                MonitorVerb::MoveWorkspace => asks_just(
                    plan,
                    LayoutOp::MoveWorkspaceToOutput(output),
                    LayoutOp::MoveWorkspaceToOutput(output),
                ),
            }
        }),
{
    reveal_with_fuel(leads_to, 8);
}

/// An action about another monitor is about the one that lies in the ways that it names, as seen from the
/// active one. It takes there what it names and nothing else. If there is no such monitor, nothing is
/// done.
pub proof fn law_goes_to_monitor(niri: Niri, ctx: ActionContext, action: Action)
    requires
        focuses_monitor(action) || takes_window_to_monitor(action) || takes_column_to_monitor(action)
            || takes_workspace_to_monitor(action),
        niri.screenshot_ui is Open ==> !steers_screenshot(action),
    ensures
        ({
            let plan = action_plan(niri, ctx, action);
            let target = match ctx.active_output {
                Some(active) => output_in_ways(niri, active, action_ways(action)),
                None => None,
            };
            match target {
                None => plan is Done,
                Some(output) => {
                    let focus = LayoutOp::FocusOutput(output);
                    let window = LayoutOp::MoveToOutput {
                        window: None,
                        output,
                        index: None,
                        activate: ActivateWindow::Smart,
                    };
                    let column = LayoutOp::MoveColumnToOutput { output, index: None, activate: true };
                    let workspace = LayoutOp::MoveWorkspaceToOutput(output);
                    &&& leads_to(plan, Command::MoveCursorToOutput(output))
                    &&& focuses_monitor(action) ==> asks_just(plan, focus, focus)
                    &&& takes_window_to_monitor(action) ==> asks_just(plan, window, focus)
                    &&& takes_column_to_monitor(action) ==> asks_just(plan, column, focus)
                    &&& takes_workspace_to_monitor(action) ==> asks_just(plan, workspace, workspace)
                },
            }
        }),
{
    assert(direct_op(action) is None && window_op(action) is None && focused_op(action, 0) is None);
    assert(selection_move(action) is None && crossing_direction(action) is None);
    assert(monitor_request(action) is Some);
    if let Some(active) = ctx.active_output {
        if let Some(output) = output_in_ways(niri, active, action_ways(action)) {
            let (verb, _) = monitor_request(action)->0;
            lemma_monitor_plan(verb, output);
        }
    }
}

/// While a screenshot is being selected, an action that would take a window or column to another monitor
/// takes the selection there, with the cursor.
pub proof fn law_selection_goes_to_monitor(niri: Niri, ctx: ActionContext, action: Action)
    requires
        takes_window_to_monitor(action) || takes_column_to_monitor(action),
        niri.screenshot_ui is Open,
    ensures
        ({
            let plan = action_plan(niri, ctx, action);
            let from = niri.screenshot_ui->selection_output;
            match output_in_ways(niri, from, action_ways(action)) {
                None => plan is Done,
                Some(output) => {
                    &&& leads_to(plan, Command::MoveScreenshotToOutput(output))
                    &&& leads_to(plan, Command::MoveCursorToOutput(output))
                    &&& forall|command: Command| #[trigger]
                        leads_to(plan, command) ==> command == Command::MoveScreenshotToOutput(output)
                            || command == Command::MoveCursorToOutput(output)
                },
            }
        }),
{
    reveal_with_fuel(leads_to, 4);
    assert(direct_op(action) is None && window_op(action) is None && focused_op(action, 0) is None);
    assert(selection_move(action) is None && crossing_direction(action) is None);
    assert(monitor_request(action) is Some);
}

/// While a screenshot is being selected, an action that would move a window or column moves the selection
/// the same way, and one that would change a size changes the same size of the selection.
pub proof fn law_selection_is_steered_as_asked(niri: Niri, ctx: ActionContext, action: Action)
    requires
        niri.screenshot_ui is Open,
        steers_screenshot(action),
        action_kind(action) is Some,
    ensures
        ({
            let plan = action_plan(niri, ctx, action);
            let change = action_details(action, ctx.focus).change;
            &&& leads_to(plan, Command::QueueRedrawAll)
            &&& match plan {
                Plan::Do(Command::MoveScreenshotSelection(direction), _) => direction_ways(direction)
                    == action_ways(action) && change is None,
                Plan::Do(Command::SetScreenshotWidth(by), _) => change == Some(by) && (
                action is SetWindowWidth || action is SetColumnWidth),
                Plan::Do(Command::SetScreenshotHeight(by), _) => change == Some(by)
                    && action is SetWindowHeight,
                _ => false,
            }
        }),
{
    reveal_with_fuel(leads_to, 4);
    lemma_others(action, 0);
    assert(direct_op(action) is None && window_op(action) is None && focused_op(action, 0) is None);
    if selection_move(action) is None && crossing_direction(action) is None {
        assert(monitor_request(action) is None);
        assert(reference_of(action) is None && !names_output(action));
    }
}

/// Under the mouse, the focus goes the way that the action names, on the workspace or monitor that is
/// there, and just that output is drawn anew.
pub proof fn law_goes_under_the_mouse(niri: Niri, ctx: ActionContext, action: Action)
    requires
        action is FocusColumnLeftUnderMouse || action is FocusColumnRightUnderMouse
            || action is FocusWorkspaceUpUnderMouse || action is FocusWorkspaceDownUnderMouse,
    ensures
        ({
            let plan = action_plan(niri, ctx, action);
            let columns = action is FocusColumnLeftUnderMouse || action is FocusColumnRightUnderMouse;
            let output = if columns {
                match ctx.workspace_under_cursor {
                    Some((output, _)) => Some(output),
                    None => None,
                }
            } else {
                ctx.monitor_under_cursor
            };
            match output {
                None => plan is Done,
                Some(output) => {
                    &&& plan matches Plan::Do(command, _) && command_ways(command) == action_ways(action)
                        && (match command {
                        Command::FocusOnWorkspace { workspace, .. } => columns
                            && ctx.workspace_under_cursor == Some((output, workspace)),
                        Command::SwitchWorkspaceOnMonitor { output: on, .. } => !columns && on
                            == output,
                        _ => false,
                    })
                    &&& leads_to(plan, Command::QueueRedraw(output))
                    &&& leads_to(plan, Command::WarpCursorToFocus)
                    &&& leads_to(plan, Command::ClearOnDemandLayerFocus)
                },
            }
        }),
{
    reveal_with_fuel(leads_to, 6);
    lemma_is_single(action);
}

/// An action that is in none of the tables.
proof fn lemma_is_single(action: Action)
    requires
        !(action_kind(action) is Some),
        !focuses_monitor(action) && !takes_window_to_monitor(action) && !takes_column_to_monitor(action)
            && !takes_workspace_to_monitor(action),
        !(action is MoveWindowToWorkspace || action is MoveWindowToWorkspaceById
            || action is MoveColumnToWorkspace || action is FocusWorkspace
            || action is MoveWorkspaceToIndexByRef || action is MoveWorkspaceToMonitorByRef),
        !(action is FocusMonitor || action is MoveWindowToMonitor || action is MoveColumnToMonitor
            || action is MoveWindowToMonitorById || action is MoveWorkspaceToMonitor),
    ensures
        forall|niri: Niri, ctx: ActionContext| #[trigger]
            action_plan(niri, ctx, action) == single_plan(
                ctx,
                niri.screenshot_ui is Open,
                action,
            ),
{
    assert(direct_op(action) is None && window_op(action) is None && focused_op(action, 0) is None);
    assert(selection_move(action) is None && crossing_direction(action) is None);
    assert(monitor_request(action) is None && reference_of(action) is None && !names_output(action));
}

/// Whether a plan does one thing and nothing else.
pub open spec fn does_only(plan: Plan, command: Command) -> bool {
    &&& leads_to(plan, command)
    &&& forall|other: Command| #[trigger] leads_to(plan, other) ==> other == command
}

/// Whether a plan does one thing, has all drawn anew, and does nothing else.
pub open spec fn does_and_redraws(plan: Plan, command: Command) -> bool {
    &&& leads_to(plan, command)
    &&& leads_to(plan, Command::QueueRedrawAll)
    &&& forall|other: Command| #[trigger]
        leads_to(plan, other) ==> other == command || other == Command::QueueRedrawAll
}

/// The actions that start, stop and switch things do just what they say.
pub proof fn law_simple_actions(niri: Niri, ctx: ActionContext, action: Action)
    ensures
        ({
            let plan = action_plan(niri, ctx, action);
            let selecting = niri.screenshot_ui is Open;
            match action {
                Action::Quit(skip) => if skip {
                    does_only(plan, Command::Stop)
                } else {
                    // Without the dialog the compositor stops all the same.
                    plan matches Plan::Ask(Question::ShowExitConfirmDialog, yes, no) && does_only(
                        *yes,
                        Command::QueueRedrawAll,
                    ) && does_only(*no, Command::Stop)
                },
                Action::ChangeVt(vt) => leads_to(plan, Command::ChangeVt(vt)) && leads_to(
                    plan,
                    Command::ClearSuppressedKeys,
                ),
                Action::Suspend => leads_to(plan, Command::Suspend) && leads_to(
                    plan,
                    Command::ClearSuppressedKeys,
                ),
                Action::PowerOffMonitors => does_only(plan, Command::DeactivateMonitors),
                Action::PowerOnMonitors => does_only(plan, Command::ActivateMonitors),
                Action::Spawn(command) => does_only(plan, Command::Spawn(command)),
                Action::SpawnSh(command) => does_only(plan, Command::SpawnSh(command)),
                Action::DoScreenTransition(delay) => does_only(
                    plan,
                    Command::DoScreenTransition(delay),
                ),
                Action::ConfirmScreenshot { write_to_disk } => does_only(
                    plan,
                    Command::ConfirmScreenshot { write_to_disk },
                ),
                Action::CancelScreenshot => if selecting {
                    leads_to(plan, Command::CloseScreenshotUi) && leads_to(
                        plan,
                        Command::ResetCursorImage,
                    ) && leads_to(plan, Command::QueueRedrawAll)
                } else {
                    plan is Done
                },
                Action::ScreenshotTogglePointer => does_and_redraws(
                    plan,
                    Command::ToggleScreenshotPointer,
                ),
                Action::Screenshot(show_pointer, path) => does_only(
                    plan,
                    Command::OpenScreenshotUi { show_pointer, path },
                ),
                Action::ShowHotkeyOverlay => plan matches Plan::Ask(
                    Question::ShowHotkeyOverlay,
                    yes,
                    no,
                ) && does_only(*yes, Command::QueueRedrawAll) && *no is Done,
                Action::OpenOverview => plan matches Plan::Ask(Question::OpenOverview, yes, no)
                    && does_only(*yes, Command::QueueRedrawAll) && *no is Done,
                Action::CloseOverview => plan matches Plan::Ask(Question::CloseOverview, yes, no)
                    && does_only(*yes, Command::QueueRedrawAll) && *no is Done,
                Action::LoadConfigFile(path) => if ctx.has_config_watcher {
                    does_only(plan, Command::LoadConfigFile(path))
                } else {
                    plan is Done
                },
                _ => true,
            }
        }),
{
    reveal_with_fuel(leads_to, 5);
    if action is Quit || action is ChangeVt || action is Suspend || action is PowerOffMonitors
        || action is PowerOnMonitors || action is Spawn || action is SpawnSh
        || action is DoScreenTransition || action is ConfirmScreenshot || action is CancelScreenshot
        || action is ScreenshotTogglePointer || action is Screenshot || action is ShowHotkeyOverlay
        || action is OpenOverview || action is CloseOverview || action is LoadConfigFile {
        lemma_is_single(action);
        assert(action_plan(niri, ctx, action) == single_plan(
            ctx,
            niri.screenshot_ui is Open,
            action,
        ));
    }
}

/// The actions about one window are about the one that they name, or else the focused one, and do nothing
/// if it is not there.
pub proof fn law_window_actions(niri: Niri, ctx: ActionContext, action: Action)
    ensures
        ({
            let plan = action_plan(niri, ctx, action);
            match action {
                Action::CloseWindow => match ctx.focus {
                    Some(window) => does_only(plan, Command::CloseWindow(window)),
                    None => plan is Done,
                },
                Action::CloseWindowById(id) => if exists|i: int|
                    0 <= i < ctx.windows@.len() && (#[trigger] ctx.windows@[i]).id == id {
                    does_only(plan, Command::CloseWindow(id))
                } else {
                    plan is Done
                },
                Action::FocusWindow(id) => if exists|i: int|
                    0 <= i < ctx.windows@.len() && (#[trigger] ctx.windows@[i]).id == id {
                    asks_just(plan, LayoutOp::ActivateWindow(id), LayoutOp::ActivateWindow(id))
                        && leads_to(plan, Command::QueueRedrawAll)
                } else {
                    plan is Done
                },
                Action::ScreenshotScreen(write_to_disk, show_pointer, path) => match ctx.active_output {
                    Some(output) => does_only(
                        plan,
                        Command::ScreenshotScreen { output, write_to_disk, show_pointer, path },
                    ),
                    None => plan is Done,
                },
                Action::ScreenshotWindow(
                    write_to_disk,
                    show_pointer,
                    path,
                ) => match ctx.focus_with_output {
                    Some((window, output)) => does_only(
                        plan,
                        Command::ScreenshotWindow {
                            window,
                            output,
                            write_to_disk,
                            show_pointer,
                            path,
                        },
                    ),
                    None => plan is Done,
                },
                Action::ScreenshotWindowById { id, write_to_disk, show_pointer, path } => match plan {
                    Plan::Do(command, rest) => *rest is Done && (command matches
                        Command::ScreenshotWindow {
                        window,
                        output,
                        write_to_disk: to_disk,
                        show_pointer: pointer,
                        path: to,
                    } && window == id && to_disk == write_to_disk && pointer == show_pointer && to
                        == path && exists|i: int|
                        0 <= i < ctx.windows@.len() && (#[trigger] ctx.windows@[i]).id == id
                            && ctx.windows@[i].output == Some(output)),
                    Plan::Done => true,
                    Plan::Ask(_, _, _) => false,
                },
                _ => true,
            }
        }),
{
    reveal_with_fuel(leads_to, 7);
    if action is CloseWindow || action is CloseWindowById || action is FocusWindow
        || action is ScreenshotScreen || action is ScreenshotWindow || action is ScreenshotWindowById {
        lemma_is_single(action);
        assert(action_plan(niri, ctx, action) == single_plan(
            ctx,
            niri.screenshot_ui is Open,
            action,
        ));
        if let Action::ScreenshotWindowById { id, write_to_disk, show_pointer, path } = action {
            lemma_window_by_id(ctx, id);
        }
    }
}

/// A window that is found by its id has that id.
proof fn lemma_window_by_id(ctx: ActionContext, id: u64)
    ensures
        window_by_id(ctx.windows@, id) matches Some(window) ==> window.id == id && exists|i: int|
            0 <= i < ctx.windows@.len() && #[trigger] ctx.windows@[i] == window,
{
    lemma_window_in(ctx.windows@, id);
}

/// A window that is found by its id is one of the list.
proof fn lemma_window_in(windows: Seq<WindowView>, id: u64)
    ensures
        window_by_id(windows, id) matches Some(window) ==> window.id == id && exists|i: int|
            0 <= i < windows.len() && #[trigger] windows[i] == window,
    decreases windows.len(),
{
    if windows.len() > 0 && windows[0].id != id {
        let rest = windows.skip(1);
        lemma_window_in(rest, id);
        if let Some(window) = window_by_id(rest, id) {
            let i = choose|i: int| 0 <= i < rest.len() && #[trigger] rest[i] == window;
            assert(windows[i + 1] == window);
        }
    }
}

/// How urgent a window is gets set as the action says, or turned round, and its opacity changes only if a
/// rule makes it translucent.
pub proof fn law_urgency_and_opacity(niri: Niri, ctx: ActionContext, action: Action)
    ensures
        ({
            let plan = action_plan(niri, ctx, action);
            match action {
                Action::SetWindowUrgent(id) => match workspace_window(ctx.workspace_windows@, id) {
                    Some(window) => does_and_redraws(plan, Command::SetUrgent(window.id, true)),
                    None => does_only(plan, Command::QueueRedrawAll),
                },
                Action::UnsetWindowUrgent(id) => match workspace_window(ctx.workspace_windows@, id) {
                    Some(window) => does_and_redraws(plan, Command::SetUrgent(window.id, false)),
                    None => does_only(plan, Command::QueueRedrawAll),
                },
                Action::ToggleWindowUrgent(id) => match workspace_window(
                    ctx.workspace_windows@,
                    id,
                ) {
                    Some(window) => does_and_redraws(
                        plan,
                        Command::SetUrgent(window.id, !window.urgent),
                    ),
                    None => does_only(plan, Command::QueueRedrawAll),
                },
                Action::ToggleWindowRuleOpacity => match ctx.active_window {
                    Some(window) => if window.translucent_by_rule {
                        does_and_redraws(plan, Command::ToggleIgnoreOpacityRule(window.id))
                    } else {
                        plan is Done
                    },
                    None => plan is Done,
                },
                Action::ToggleWindowRuleOpacityById(id) => match workspace_window(
                    ctx.workspace_windows@,
                    id,
                ) {
                    Some(window) => if window.translucent_by_rule {
                        does_and_redraws(plan, Command::ToggleIgnoreOpacityRule(window.id))
                    } else {
                        plan is Done
                    },
                    None => plan is Done,
                },
                _ => true,
            }
        }),
{
    reveal_with_fuel(leads_to, 4);
    if action is SetWindowUrgent || action is UnsetWindowUrgent || action is ToggleWindowUrgent
        || action is ToggleWindowRuleOpacity || action is ToggleWindowRuleOpacityById {
        lemma_is_single(action);
        assert(action_plan(niri, ctx, action) == single_plan(
            ctx,
            niri.screenshot_ui is Open,
            action,
        ));
    }
}

/// A window on a workspace that is found by its id has that id.
pub proof fn law_workspace_window_by_id(windows: Seq<WorkspaceWindow>, id: u64)
    ensures
        match workspace_window(windows, id) {
            Some(window) => window.id == id && windows.contains(window),
            None => forall|i: int| 0 <= i < windows.len() ==> (#[trigger] windows[i]).id != id,
        },
    decreases windows.len(),
{
    if windows.len() > 0 {
        assert(windows[0] == windows[0]);
        if windows[0].id == id {
            assert(windows.contains(windows[0]));
        } else {
            let rest = windows.skip(1);
            law_workspace_window_by_id(rest, id);
            match workspace_window(rest, id) {
                Some(window) => {
                    assert(windows[rest.index_of(window) + 1] == window);
                },
                None => {
                    assert forall|i: int| 0 <= i < windows.len() implies (#[trigger] windows[i]).id
                        != id by {
                        if i > 0 {
                            assert(rest[i - 1] == windows[i]);
                        }
                    }
                },
            }
        }
    }
}

/// Where a workspace is that an action refers to. The user counts from one on the active output; one with
/// a name or an id has been looked up.
pub open spec fn place_of(ctx: ActionContext, reference: WorkspaceReference) -> Option<(Option<u64>, int)> {
    match reference {
        WorkspaceReference::Index(number) => Some(
            (
                None,
                if number >= 1 {
                    number - 1
                } else {
                    0
                },
            ),
        ),
        WorkspaceReference::Name(_) | WorkspaceReference::Id(_) => match ctx.referenced_workspace {
            Some((index, output)) => Some((output, index as int)),
            None => None,
        },
    }
}

/// Whether the output of a workspace is another than the active one.
pub open spec fn is_elsewhere(ctx: ActionContext, output: Option<u64>) -> bool {
    output is Some && output != ctx.active_output
}

/// An action that refers to a workspace is about that workspace: the one with that number, name or id, on
/// its own output. The window or column that goes there takes the focus along just if the action says so.
/// If there is no such workspace, nothing is done.
pub proof fn law_goes_to_workspace(niri: Niri, ctx: ActionContext, action: Action)
    ensures
        ({
            let plan = action_plan(niri, ctx, action);
            match action {
                Action::FocusWorkspace(reference) => match place_of(ctx, reference) {
                    None => plan is Done,
                    Some((output, index)) => if is_elsewhere(ctx, output) {
                        &&& asks_just(
                            plan,
                            LayoutOp::FocusOutput(output->0),
                            LayoutOp::SwitchWorkspace(index as usize),
                        )
                        &&& leads_to(plan, Command::MoveCursorToOutput(output->0))
                        &&& leads_to(plan, Command::QueueRedrawAll)
                    } else {
                        let op = if ctx.workspace_auto_back_and_forth {
                            LayoutOp::SwitchWorkspaceAutoBackAndForth(index as usize)
                        } else {
                            LayoutOp::SwitchWorkspace(index as usize)
                        };
                        asks_just(plan, op, op)
                    },
                },
                Action::MoveWindowToWorkspace(reference, focus) => match place_of(ctx, reference) {
                    None => plan is Done,
                    Some((output, index)) => {
                        let activate = if focus {
                            ActivateWindow::Smart
                        } else {
                            ActivateWindow::No
                        };
                        let op = if is_elsewhere(ctx, output) {
                            LayoutOp::MoveToOutput {
                                window: None,
                                output: output->0,
                                index: Some(index as usize),
                                activate,
                            }
                        } else {
                            LayoutOp::MoveToWorkspace {
                                window: None,
                                index: index as usize,
                                activate,
                            }
                        };
                        &&& asks_just(plan, op, op)
                        &&& leads_to(plan, Command::QueueRedrawAll)
                        &&& is_elsewhere(ctx, output) ==> leads_to(
                            plan,
                            Command::MoveCursorToOutput(output->0),
                        ) == focus
                    },
                },
                Action::MoveColumnToWorkspace(reference, focus) => match place_of(ctx, reference) {
                    None => plan is Done,
                    Some((output, index)) => {
                        let op = if is_elsewhere(ctx, output) {
                            LayoutOp::MoveColumnToOutput {
                                output: output->0,
                                index: Some(index as usize),
                                activate: focus,
                            }
                        } else {
                            LayoutOp::MoveColumnToWorkspace {
                                index: index as usize,
                                activate: focus,
                            }
                        };
                        &&& asks_just(plan, op, op)
                        &&& leads_to(plan, Command::QueueRedrawAll)
                        &&& is_elsewhere(ctx, output) ==> leads_to(
                            plan,
                            Command::MoveCursorToOutput(output->0),
                        ) == focus
                    },
                },
                Action::MoveWindowToWorkspaceById {
                    window_id,
                    reference,
                    focus,
                } => match place_of(ctx, reference) {
                    None => plan is Done,
                    Some((output, index)) => {
                        let activate = if focus {
                            ActivateWindow::Smart
                        } else {
                            ActivateWindow::No
                        };
                        let op = match output {
                            Some(output) => LayoutOp::MoveToOutput {
                                window: Some(window_id),
                                output,
                                index: Some(index as usize),
                                activate,
                            },
                            None => LayoutOp::MoveToWorkspace {
                                window: Some(window_id),
                                index: index as usize,
                                activate,
                            },
                        };
                        if has_window(ctx, window_id) {
                            asks_just(plan, op, op) && leads_to(plan, Command::QueueRedrawAll)
                        } else {
                            plan is Done
                        }
                    },
                },
                Action::MoveWorkspaceToIndexByRef { new_idx, reference } => match place_of(
                    ctx,
                    reference,
                ) {
                    None => plan is Done,
                    Some((output, index)) => {
                        let op = LayoutOp::MoveWorkspaceToIdx(
                            Some((output, index as usize)),
                            if new_idx >= 1 {
                                (new_idx - 1) as usize
                            } else {
                                0
                            },
                        );
                        asks_just(plan, op, op)
                    },
                },
                Action::MoveWorkspaceToMonitorByRef { output_name, reference } => match (
                    place_of(ctx, reference),
                    ctx.named_output,
                ) {
                    (Some((from, index)), Some(to)) => plan matches Plan::Ask(question, yes, no)
                        && question == (Question::MoveWorkspaceToOutputById {
                        index: index as usize,
                        from,
                        to,
                    }) && leads_to(*yes, Command::MoveCursorToOutput(to)) && *no is Done,
                    _ => plan is Done,
                },
                _ => true,
            }
        }),
{
    reveal_with_fuel(leads_to, 7);
    if action is FocusWorkspace || action is MoveWindowToWorkspace || action is MoveColumnToWorkspace
        || action is MoveWindowToWorkspaceById || action is MoveWorkspaceToIndexByRef
        || action is MoveWorkspaceToMonitorByRef {
        assert(direct_op(action) is None && window_op(action) is None && focused_op(action, 0) is None);
        assert(selection_move(action) is None && crossing_direction(action) is None);
        assert(monitor_request(action) is None);
        assert(reference_of(action) is Some);
    }
}

/// An action that names a monitor is about that monitor and takes there what it names. If there is no such
/// monitor, nothing is done.
pub proof fn law_goes_to_named_monitor(niri: Niri, ctx: ActionContext, action: Action)
    requires
        niri.screenshot_ui is Open ==> !steers_screenshot(action),
        action is FocusMonitor || action is MoveWindowToMonitor || action is MoveColumnToMonitor
            || action is MoveWorkspaceToMonitor || action is MoveWindowToMonitorById,
    ensures
        ({
            let plan = action_plan(niri, ctx, action);
            match ctx.named_output {
                None => plan is Done,
                Some(output) => {
                    let focus = LayoutOp::FocusOutput(output);
                    match action {
                        Action::FocusMonitor(_) => asks_just(plan, focus, focus),
                        Action::MoveWindowToMonitor(_) => asks_just(
                            plan,
                            LayoutOp::MoveToOutput {
                                window: None,
                                output,
                                index: None,
                                activate: ActivateWindow::Smart,
                            },
                            focus,
                        ),
                        Action::MoveColumnToMonitor(_) => asks_just(
                            plan,
                            LayoutOp::MoveColumnToOutput { output, index: None, activate: true },
                            focus,
                        ),
                        Action::MoveWorkspaceToMonitor(_) => plan matches Plan::Ask(
                            question,
                            yes,
                            no,
                        ) && question == Question::MoveWorkspaceToOutput(output) && leads_to(
                            *yes,
                            Command::MoveCursorToOutput(output),
                        ) && *no is Done,
                        Action::MoveWindowToMonitorById { id, output: name } => if has_window(ctx, id) {
                            let op = LayoutOp::MoveToOutput {
                                window: Some(id),
                                output,
                                index: None,
                                activate: ActivateWindow::Smart,
                            };
                            asks_just(plan, op, op) && leads_to(
                                plan,
                                Command::MoveCursorToOutput(output),
                            ) == (ctx.active_output != Some(output))
                        } else {
                            plan is Done
                        },
                        _ => false,
                    }
                },
            }
        }),
{
    reveal_with_fuel(leads_to, 7);
    assert(direct_op(action) is None && window_op(action) is None && focused_op(action, 0) is None);
    assert(selection_move(action) is None && crossing_direction(action) is None);
    assert(monitor_request(action) is None && reference_of(action) is None && names_output(action));
    if let Some(output) = ctx.named_output {
        lemma_monitor_plan(MonitorVerb::Focus, output);
        lemma_monitor_plan(MonitorVerb::MoveWindow, output);
        lemma_monitor_plan(MonitorVerb::MoveColumn, output);
    }
}

/// The focus goes back to the window that had it last before the focused one.
pub proof fn law_focus_goes_back(niri: Niri, ctx: ActionContext)
    ensures
        ({
            let plan = action_plan(niri, ctx, Action::FocusWindowPrevious);
            match plan {
                Plan::Do(Command::Layout(LayoutOp::ActivateWindow(id)), _) => {
                    &&& Some(id) != ctx.focus
                    &&& leads_to(plan, Command::QueueRedrawAll)
                    &&& exists|i: int|
                        0 <= i < ctx.windows@.len() && (#[trigger] ctx.windows@[i]).id == id
                            && forall|j: int|
                            0 <= j < ctx.windows@.len() && Some((#[trigger] ctx.windows@[j]).id)
                                != ctx.focus ==> (match (
                                ctx.windows@[j].focus_timestamp,
                                ctx.windows@[i].focus_timestamp,
                            ) {
                                (None, _) => true,
                                (Some(_), None) => false,
                                (Some(other), Some(found)) => other <= found,
                            })
                },
                Plan::Done => forall|j: int|
                    0 <= j < ctx.windows@.len() ==> Some((#[trigger] ctx.windows@[j]).id) == ctx.focus,
                _ => false,
            }
        }),
{
    reveal_with_fuel(leads_to, 5);
    lemma_is_single(Action::FocusWindowPrevious);
    assert(action_plan(niri, ctx, Action::FocusWindowPrevious) == single_plan(
        ctx,
        niri.screenshot_ui is Open,
        Action::FocusWindowPrevious,
    ));
    law_latest_other(ctx.windows@, ctx.focus);
    if let Some(i) = latest_other(ctx.windows@, ctx.focus) {
        assert(ctx.windows@[i].id == ctx.windows@[i].id);
    }
}

/// The keyboard layout is switched as the action says, unless there is no such layout.
pub proof fn law_layout_is_switched(niri: Niri, ctx: ActionContext, target: LayoutSwitchTarget)
    ensures
        ({
            let plan = action_plan(niri, ctx, Action::SwitchLayout(target));
            if target matches LayoutSwitchTarget::Index(index) && index >= ctx.num_keyboard_layouts {
                plan is Done
            } else {
                does_only(plan, Command::SwitchKeyboardLayout(target))
            }
        }),
{
    reveal_with_fuel(leads_to, 3);
    lemma_is_single(Action::SwitchLayout(target));
    assert(action_plan(niri, ctx, Action::SwitchLayout(target)) == single_plan(
        ctx,
        niri.screenshot_ui is Open,
        Action::SwitchLayout(target),
    ));
}

/// What works in a locked session concerns the machine alone, and what works during a screenshot selection
/// concerns the machine, starts programs or steers the selection.
pub proof fn law_what_works_when(action: Action)
    ensures
        works_when_locked(action) <==> (match action {
            Action::Quit(_) | Action::ChangeVt(_) | Action::Suspend | Action::PowerOffMonitors
            | Action::PowerOnMonitors | Action::SwitchLayout(_) => true,
            _ => false,
        }),
        works_during_screenshot(action) <==> (match action {
            Action::Quit(_) | Action::ChangeVt(_) | Action::Suspend | Action::PowerOffMonitors
            | Action::PowerOnMonitors | Action::Spawn(_) | Action::SpawnSh(_) => true,
            _ => steers_screenshot(action),
        }),
        steers_screenshot(action) <==> takes_window_to_monitor(action) || takes_column_to_monitor(
            action,
        ) || (match action {
            Action::MoveColumnLeft | Action::MoveColumnRight | Action::MoveWindowUp
            | Action::MoveWindowDown | Action::MoveColumnLeftOrToMonitorLeft
            | Action::MoveColumnRightOrToMonitorRight | Action::MoveWindowUpOrToWorkspaceUp
            | Action::MoveWindowDownOrToWorkspaceDown | Action::MoveColumnToMonitor(_)
            | Action::MoveWindowToMonitor(_) | Action::SetWindowWidth(_)
            | Action::SetWindowHeight(_) | Action::SetColumnWidth(_) => true,
            _ => false,
        }),
{
}

/// In a locked session an action is carried out only if that was allowed, or if it concerns the machine alone.
/// Otherwise nothing at all is done. In an unlocked session every action is carried out.
pub proof fn law_lock_permits_little(
    niri: Niri,
    ctx: ActionContext,
    action: Action,
    allow_when_locked: bool,
)
    ensures
        ({
            let plan = permitted_plan(niri, ctx, action, allow_when_locked);
            let locked = niri.lock_state is Locking || niri.lock_state is Locked;
            let machine = action is Quit || action is ChangeVt || action is Suspend
                || action is PowerOffMonitors || action is PowerOnMonitors || action is SwitchLayout;
            &&& locked && !allow_when_locked && !machine ==> plan is Done
            &&& !locked || allow_when_locked || machine ==> plan == action_plan(niri, ctx, action)
        }),
{
}

} // verus!
