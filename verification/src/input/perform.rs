//! Carrying out actions.
use vstd::prelude::*;

use crate::input::action::{
    allowed_when_locked, steers_screenshot, works_during_screenshot, works_when_locked, Action,
    LayoutSwitchTarget, WorkspaceReference,
};
use crate::input::plan::{
    ask, cross, crossing, cursor_follows, end, first, focusing, follow, layout_plan, moving, only,
    plain, redrawing, ActionContext, ActivateWindow, Command, LayoutOp, Plan, Question,
    ScrollDirection, WindowView, WorkspaceWindow,
};
use crate::niri::space::{Direction, OutputSpace};
use crate::niri::{Niri, ScreenshotUi, State};

verus! {

/// A way to name another monitor from the present one.
#[derive(Clone, Copy, Debug, PartialEq, Eq, Structural)]
pub enum MonitorStep {
    Toward(Direction),
    Previous,
    Next,
}

/// What can be taken to another monitor.
#[derive(Clone, Copy, Debug, PartialEq, Eq, Structural)]
pub enum MonitorVerb {
    Focus,
    MoveWindow,
    MoveColumn,
    MoveWorkspace,
}

impl OutputSpace {
    /// The output one step away.
    pub open spec fn stepped(self, current: u64, step: MonitorStep) -> Option<u64> {
        match step {
            MonitorStep::Toward(toward) => self.neighbor(current, toward),
            MonitorStep::Previous => self.previous_in_order(current),
            MonitorStep::Next => self.next_in_order(current),
        }
    }
}

impl Niri {
    /// The output one step away.
    fn step(&self, current: u64, step: MonitorStep) -> (r: Option<u64>)
        requires
            self.global_space.wf(),
        ensures
            r == self.global_space.stepped(current, step),
    {
        match step {
            MonitorStep::Toward(Direction::Left) => self.output_left_of(current),
            MonitorStep::Toward(Direction::Right) => self.output_right_of(current),
            MonitorStep::Toward(Direction::Up) => self.output_up_of(current),
            MonitorStep::Toward(Direction::Down) => self.output_down_of(current),
            MonitorStep::Previous => self.output_previous_of(current),
            MonitorStep::Next => self.output_next_of(current),
        }
    }
}

/// Whether a window with an id exists.
pub open spec fn has_window(ctx: ActionContext, id: u64) -> bool {
    exists|i: int| 0 <= i < ctx.windows@.len() && (#[trigger] ctx.windows@[i]).id == id
}

/// Whether a window counts as focused at least as lately as another.
pub open spec fn focused_no_earlier(a: Option<u64>, b: Option<u64>) -> bool {
    match (a, b) {
        (_, None) => true,
        (None, Some(_)) => false,
        (Some(x), Some(y)) => x >= y,
    }
}

/// Of the first windows in the list without the focused one, the place of the one that had the
/// focus last; of equally late ones, the last.
pub open spec fn latest_other(windows: Seq<WindowView>, focus: Option<u64>) -> Option<int>
    decreases windows.len(),
{
    if windows.len() == 0 {
        None
    } else {
        let rest = latest_other(windows.drop_last(), focus);
        let last = windows.last();
        if Some(last.id) == focus {
            rest
        } else {
            match rest {
                Some(i) if !focused_no_earlier(
                    last.focus_timestamp,
                    windows[i].focus_timestamp,
                ) => rest,
                _ => Some(windows.len() - 1),
            }
        }
    }
}

/// The window that `latest_other` finds is not the focused one, and no other had the focus later.
pub proof fn law_latest_other(windows: Seq<WindowView>, focus: Option<u64>)
    ensures
        match latest_other(windows, focus) {
            None => forall|j: int|
                0 <= j < windows.len() ==> Some((#[trigger] windows[j]).id) == focus,
            Some(i) => {
                &&& 0 <= i < windows.len()
                &&& Some(windows[i].id) != focus
                &&& forall|j: int|
                    0 <= j < windows.len() && Some((#[trigger] windows[j]).id) != focus
                        ==> focused_no_earlier(windows[i].focus_timestamp, windows[j].focus_timestamp)
            },
        },
    decreases windows.len(),
{
    if windows.len() > 0 {
        law_latest_other(windows.drop_last(), focus);
        let rest = windows.drop_last();
        assert forall|j: int| 0 <= j < rest.len() implies rest[j] == windows[j] by {}
        assert(windows.last() == windows[windows.len() - 1]);
    }
}

/// The output and index of the workspace that an action refers to.
///
/// An index stands for the active output; names and ids have been looked up before.
pub open spec fn workspace_place(
    ctx: ActionContext,
    reference: WorkspaceReference,
) -> Option<(Option<u64>, usize)> {
    match reference {
        WorkspaceReference::Index(index) => Some(
            (
                None,
                if index == 0 {
                    0
                } else {
                    (index - 1) as usize
                },
            ),
        ),
        _ => match ctx.referenced_workspace {
            Some((index, output)) => Some((output, index)),
            None => None,
        },
    }
}

/// The layout change that an action asks for, if it is one that depends on nothing but the window.
pub open spec fn direct_op(action: Action) -> Option<LayoutOp> {
    match action {
        Action::FocusWindowInColumn(index) => Some(LayoutOp::FocusWindowInColumn(index)),
        Action::FocusColumnLeft => Some(LayoutOp::FocusLeft),
        Action::FocusColumnRight => Some(LayoutOp::FocusRight),
        Action::FocusColumnFirst => Some(LayoutOp::FocusColumnFirst),
        Action::FocusColumnLast => Some(LayoutOp::FocusColumnLast),
        Action::FocusColumnRightOrFirst => Some(LayoutOp::FocusColumnRightOrFirst),
        Action::FocusColumnLeftOrLast => Some(LayoutOp::FocusColumnLeftOrLast),
        Action::FocusColumn(index) => Some(LayoutOp::FocusColumn(index)),
        Action::FocusWindowDown => Some(LayoutOp::FocusDown),
        Action::FocusWindowUp => Some(LayoutOp::FocusUp),
        Action::FocusWindowDownOrColumnLeft => Some(LayoutOp::FocusDownOrLeft),
        Action::FocusWindowDownOrColumnRight => Some(LayoutOp::FocusDownOrRight),
        Action::FocusWindowUpOrColumnLeft => Some(LayoutOp::FocusUpOrLeft),
        Action::FocusWindowUpOrColumnRight => Some(LayoutOp::FocusUpOrRight),
        Action::FocusWindowOrWorkspaceDown => Some(LayoutOp::FocusWindowOrWorkspaceDown),
        Action::FocusWindowOrWorkspaceUp => Some(LayoutOp::FocusWindowOrWorkspaceUp),
        Action::FocusWindowTop => Some(LayoutOp::FocusWindowTop),
        Action::FocusWindowBottom => Some(LayoutOp::FocusWindowBottom),
        Action::FocusWindowDownOrTop => Some(LayoutOp::FocusWindowDownOrTop),
        Action::FocusWindowUpOrBottom => Some(LayoutOp::FocusWindowUpOrBottom),
        Action::FocusWorkspaceDown => Some(LayoutOp::SwitchWorkspaceDown),
        Action::FocusWorkspaceUp => Some(LayoutOp::SwitchWorkspaceUp),
        Action::FocusWorkspacePrevious => Some(LayoutOp::SwitchWorkspacePrevious),
        Action::MoveColumnToFirst => Some(LayoutOp::MoveColumnToFirst),
        Action::MoveColumnToLast => Some(LayoutOp::MoveColumnToLast),
        Action::MoveColumnToIndex(index) => Some(LayoutOp::MoveColumnToIndex(index)),
        Action::ConsumeOrExpelWindowLeft => Some(LayoutOp::ConsumeOrExpelWindowLeft(None)),
        Action::ConsumeOrExpelWindowRight => Some(LayoutOp::ConsumeOrExpelWindowRight(None)),
        Action::MoveWindowToWorkspaceDown(focus) => Some(LayoutOp::MoveToWorkspaceDown(focus)),
        Action::MoveWindowToWorkspaceUp(focus) => Some(LayoutOp::MoveToWorkspaceUp(focus)),
        Action::MoveColumnToWorkspaceDown(focus) => Some(LayoutOp::MoveColumnToWorkspaceDown(focus)),
        Action::MoveColumnToWorkspaceUp(focus) => Some(LayoutOp::MoveColumnToWorkspaceUp(focus)),
        Action::ExpelWindowFromColumn => Some(LayoutOp::ExpelFromColumn),
        Action::SwapWindowLeft => Some(LayoutOp::SwapWindowInDirection(ScrollDirection::Left)),
        Action::SwapWindowRight => Some(LayoutOp::SwapWindowInDirection(ScrollDirection::Right)),
        Action::ToggleColumnTabbedDisplay => Some(LayoutOp::ToggleColumnTabbedDisplay),
        Action::SetColumnDisplay(display) => Some(LayoutOp::SetColumnDisplay(display)),
        Action::FocusFloating => Some(LayoutOp::FocusFloating),
        Action::FocusTiling => Some(LayoutOp::FocusTiling),
        Action::SwitchFocusBetweenFloatingAndTiling => Some(LayoutOp::SwitchFocusFloatingTiling),
        Action::MoveWorkspaceDown => Some(LayoutOp::MoveWorkspaceDown),
        Action::MoveWorkspaceUp => Some(LayoutOp::MoveWorkspaceUp),
        Action::MoveWorkspaceToIndex(index) => Some(
            LayoutOp::MoveWorkspaceToIdx(None, one_less(index)),
        ),
        Action::ConsumeWindowIntoColumn => Some(LayoutOp::ConsumeIntoColumn),
        Action::CenterColumn => Some(LayoutOp::CenterColumn),
        Action::CenterWindow => Some(LayoutOp::CenterWindow(None)),
        Action::CenterVisibleColumns => Some(LayoutOp::CenterVisibleColumns),
        Action::ToggleWindowFloating => Some(LayoutOp::ToggleWindowFloating(None)),
        Action::MoveWindowToFloating => Some(LayoutOp::SetWindowFloating(None, true)),
        Action::MoveWindowToTiling => Some(LayoutOp::SetWindowFloating(None, false)),
        Action::MoveFloatingWindowById { id: None, x, y } => Some(
            LayoutOp::MoveFloatingWindow { window: None, x, y },
        ),
        Action::ToggleOverview => Some(LayoutOp::ToggleOverview),
        Action::SetWorkspaceName(name) => Some(LayoutOp::SetWorkspaceName(name, None)),
        Action::SetWorkspaceNameByRef { name, reference } => Some(
            LayoutOp::SetWorkspaceName(name, Some(reference)),
        ),
        Action::UnsetWorkspaceName => Some(LayoutOp::UnsetWorkspaceName(None)),
        Action::UnsetWorkSpaceNameByRef(reference) => Some(
            LayoutOp::UnsetWorkspaceName(Some(reference)),
        ),
        Action::SwitchPresetColumnWidth => Some(LayoutOp::ToggleWidth(true)),
        Action::SwitchPresetColumnWidthBack => Some(LayoutOp::ToggleWidth(false)),
        Action::SwitchPresetWindowWidth => Some(LayoutOp::ToggleWindowWidth(None, true)),
        Action::SwitchPresetWindowWidthBack => Some(LayoutOp::ToggleWindowWidth(None, false)),
        Action::SwitchPresetWindowHeight => Some(LayoutOp::ToggleWindowHeight(None, true)),
        Action::SwitchPresetWindowHeightBack => Some(LayoutOp::ToggleWindowHeight(None, false)),
        Action::MaximizeColumn => Some(LayoutOp::ToggleFullWidth),
        Action::ResetWindowHeight => Some(LayoutOp::ResetWindowHeight(None)),
        Action::ExpandColumnToAvailableWidth => Some(LayoutOp::ExpandColumnToAvailableWidth),
        _ => None,
    }
}

/// The window that an action is about, by its id, and what it asks the layout to do with it.
pub open spec fn window_op(action: Action) -> Option<(u64, LayoutOp)> {
    match action {
        Action::FullscreenWindowById(id) => Some((id, LayoutOp::ToggleFullscreen(id))),
        Action::ToggleWindowedFullscreenById(id) => Some(
            (id, LayoutOp::ToggleWindowedFullscreen(id)),
        ),
        Action::MaximizeWindowToEdgesById(id) => Some((id, LayoutOp::ToggleMaximized(id))),
        Action::ConsumeOrExpelWindowLeftById(id) => Some(
            (id, LayoutOp::ConsumeOrExpelWindowLeft(Some(id))),
        ),
        Action::ConsumeOrExpelWindowRightById(id) => Some(
            (id, LayoutOp::ConsumeOrExpelWindowRight(Some(id))),
        ),
        Action::CenterWindowById(id) => Some((id, LayoutOp::CenterWindow(Some(id)))),
        Action::SwitchPresetWindowWidthById(id) => Some(
            (id, LayoutOp::ToggleWindowWidth(Some(id), true)),
        ),
        Action::SwitchPresetWindowWidthBackById(id) => Some(
            (id, LayoutOp::ToggleWindowWidth(Some(id), false)),
        ),
        Action::SwitchPresetWindowHeightById(id) => Some(
            (id, LayoutOp::ToggleWindowHeight(Some(id), true)),
        ),
        Action::SwitchPresetWindowHeightBackById(id) => Some(
            (id, LayoutOp::ToggleWindowHeight(Some(id), false)),
        ),
        Action::SetWindowWidthById { id, change } => Some(
            (id, LayoutOp::SetWindowWidth(Some(id), change)),
        ),
        Action::SetWindowHeightById { id, change } => Some(
            (id, LayoutOp::SetWindowHeight(Some(id), change)),
        ),
        Action::ResetWindowHeightById(id) => Some((id, LayoutOp::ResetWindowHeight(Some(id)))),
        Action::ToggleWindowFloatingById(id) => Some((id, LayoutOp::ToggleWindowFloating(Some(id)))),
        Action::MoveWindowToFloatingById(id) => Some(
            (id, LayoutOp::SetWindowFloating(Some(id), true)),
        ),
        Action::MoveWindowToTilingById(id) => Some(
            (id, LayoutOp::SetWindowFloating(Some(id), false)),
        ),
        Action::MoveFloatingWindowById { id: Some(id), x, y } => Some(
            (id, LayoutOp::MoveFloatingWindow { window: Some(id), x, y }),
        ),
        _ => None,
    }
}

/// What an action asks the layout to do with the focused window.
pub open spec fn focused_op(action: Action, focus: u64) -> Option<LayoutOp> {
    match action {
        Action::FullscreenWindow => Some(LayoutOp::ToggleFullscreen(focus)),
        Action::ToggleWindowedFullscreen => Some(LayoutOp::ToggleWindowedFullscreen(focus)),
        Action::MaximizeWindowToEdges => Some(LayoutOp::ToggleMaximized(focus)),
        _ => None,
    }
}

/// Which monitor an action is about, and what it takes there.
pub open spec fn monitor_request(action: Action) -> Option<(MonitorVerb, MonitorStep)> {
    match action {
        Action::FocusMonitorLeft => Some(
            (MonitorVerb::Focus, MonitorStep::Toward(Direction::Left)),
        ),
        Action::FocusMonitorRight => Some(
            (MonitorVerb::Focus, MonitorStep::Toward(Direction::Right)),
        ),
        Action::FocusMonitorDown => Some(
            (MonitorVerb::Focus, MonitorStep::Toward(Direction::Down)),
        ),
        Action::FocusMonitorUp => Some((MonitorVerb::Focus, MonitorStep::Toward(Direction::Up))),
        Action::FocusMonitorPrevious => Some((MonitorVerb::Focus, MonitorStep::Previous)),
        Action::FocusMonitorNext => Some((MonitorVerb::Focus, MonitorStep::Next)),
        Action::MoveWindowToMonitorLeft => Some(
            (MonitorVerb::MoveWindow, MonitorStep::Toward(Direction::Left)),
        ),
        Action::MoveWindowToMonitorRight => Some(
            (MonitorVerb::MoveWindow, MonitorStep::Toward(Direction::Right)),
        ),
        Action::MoveWindowToMonitorDown => Some(
            (MonitorVerb::MoveWindow, MonitorStep::Toward(Direction::Down)),
        ),
        Action::MoveWindowToMonitorUp => Some(
            (MonitorVerb::MoveWindow, MonitorStep::Toward(Direction::Up)),
        ),
        Action::MoveWindowToMonitorPrevious => Some(
            (MonitorVerb::MoveWindow, MonitorStep::Previous),
        ),
        Action::MoveWindowToMonitorNext => Some((MonitorVerb::MoveWindow, MonitorStep::Next)),
        Action::MoveColumnToMonitorLeft => Some(
            (MonitorVerb::MoveColumn, MonitorStep::Toward(Direction::Left)),
        ),
        Action::MoveColumnToMonitorRight => Some(
            (MonitorVerb::MoveColumn, MonitorStep::Toward(Direction::Right)),
        ),
        Action::MoveColumnToMonitorDown => Some(
            (MonitorVerb::MoveColumn, MonitorStep::Toward(Direction::Down)),
        ),
        Action::MoveColumnToMonitorUp => Some(
            (MonitorVerb::MoveColumn, MonitorStep::Toward(Direction::Up)),
        ),
        Action::MoveColumnToMonitorPrevious => Some(
            (MonitorVerb::MoveColumn, MonitorStep::Previous),
        ),
        Action::MoveColumnToMonitorNext => Some((MonitorVerb::MoveColumn, MonitorStep::Next)),
        Action::MoveWorkspaceToMonitorLeft => Some(
            (MonitorVerb::MoveWorkspace, MonitorStep::Toward(Direction::Left)),
        ),
        Action::MoveWorkspaceToMonitorRight => Some(
            (MonitorVerb::MoveWorkspace, MonitorStep::Toward(Direction::Right)),
        ),
        Action::MoveWorkspaceToMonitorDown => Some(
            (MonitorVerb::MoveWorkspace, MonitorStep::Toward(Direction::Down)),
        ),
        Action::MoveWorkspaceToMonitorUp => Some(
            (MonitorVerb::MoveWorkspace, MonitorStep::Toward(Direction::Up)),
        ),
        Action::MoveWorkspaceToMonitorPrevious => Some(
            (MonitorVerb::MoveWorkspace, MonitorStep::Previous),
        ),
        Action::MoveWorkspaceToMonitorNext => Some((MonitorVerb::MoveWorkspace, MonitorStep::Next)),
        _ => None,
    }
}

/// The plan for taking something to a known output.
pub open spec fn monitor_plan(verb: MonitorVerb, output: u64) -> Plan {
    let focus_and_follow = Plan::Do(
        Command::Layout(LayoutOp::FocusOutput(output)),
        Box::new(cursor_follows(output, verb == MonitorVerb::Focus, false)),
    );
    match verb {
        MonitorVerb::Focus => focus_and_follow,
        MonitorVerb::MoveWindow => Plan::Do(
            Command::Layout(
                LayoutOp::MoveToOutput {
                    window: None,
                    output,
                    index: None,
                    activate: ActivateWindow::Smart,
                },
            ),
            Box::new(focus_and_follow),
        ),
        MonitorVerb::MoveColumn => Plan::Do(
            Command::Layout(LayoutOp::MoveColumnToOutput { output, index: None, activate: true }),
            Box::new(focus_and_follow),
        ),
        MonitorVerb::MoveWorkspace => Plan::Do(
            Command::Layout(LayoutOp::MoveWorkspaceToOutput(output)),
            Box::new(cursor_follows(output, false, false)),
        ),
    }
}

/// The plan for taking the screenshot selection to another output.
pub open spec fn screenshot_to_output(output: u64) -> Plan {
    Plan::Do(
        Command::MoveCursorToOutput(output),
        Box::new(only(Command::MoveScreenshotToOutput(output))),
    )
}

/// Where the action moves the screenshot selection, and what it does without one.
pub open spec fn selection_move(action: Action) -> Option<(Direction, LayoutOp)> {
    match action {
        Action::MoveColumnLeft => Some((Direction::Left, LayoutOp::MoveLeft)),
        Action::MoveColumnRight => Some((Direction::Right, LayoutOp::MoveRight)),
        Action::MoveWindowDown => Some((Direction::Down, LayoutOp::MoveDown)),
        Action::MoveWindowUp => Some((Direction::Up, LayoutOp::MoveUp)),
        Action::MoveWindowDownOrToWorkspaceDown => Some(
            (Direction::Down, LayoutOp::MoveDownOrToWorkspaceDown),
        ),
        Action::MoveWindowUpOrToWorkspaceUp => Some(
            (Direction::Up, LayoutOp::MoveUpOrToWorkspaceUp),
        ),
        _ => None,
    }
}

/// Something is done, and all is drawn anew.
pub open spec fn then_redraw(command: Command) -> Plan {
    Plan::Do(command, Box::new(only(Command::QueueRedrawAll)))
}

/// One less, but not below zero.
pub open spec fn one_less(n: usize) -> usize {
    if n == 0 {
        0
    } else {
        (n - 1) as usize
    }
}

/// The state of a window on a workspace.
pub open spec fn workspace_window(
    windows: Seq<WorkspaceWindow>,
    id: u64,
) -> Option<WorkspaceWindow>
    decreases windows.len(),
{
    if windows.len() == 0 {
        None
    } else if windows[0].id == id {
        Some(windows[0])
    } else {
        workspace_window(windows.skip(1), id)
    }
}

/// The plan for giving a window the focus, with the cursor following to another output.
pub open spec fn focus_window_plan(active_output: Option<u64>, window: u64) -> Plan {
    Plan::Do(
        Command::Layout(LayoutOp::ActivateWindow(window)),
        Box::new(
            Plan::Ask(
                Question::IsActiveOutput(active_output),
                Box::new(then_redraw(Command::WarpCursorToFocus)),
                Box::new(
                    Plan::Ask(
                        Question::WarpCursorToFocusCentered,
                        Box::new(only(Command::QueueRedrawAll)),
                        Box::new(then_redraw(Command::MoveCursorToActiveOutput)),
                    ),
                ),
            ),
        ),
    )
}

/// Something is done under the mouse: the cursor may follow the focus, which leaves layer surfaces,
/// and one output is drawn anew.
pub open spec fn under_mouse(command: Command, output: u64) -> Plan {
    Plan::Do(
        command,
        Box::new(
            Plan::Do(
                Command::WarpCursorToFocus,
                Box::new(
                    Plan::Do(
                        Command::ClearOnDemandLayerFocus,
                        Box::new(only(Command::QueueRedraw(output))),
                    ),
                ),
            ),
        ),
    )
}

/// How a window is moved along: with the focus only where the action says so.
pub open spec fn activation(focus: bool) -> ActivateWindow {
    if focus {
        ActivateWindow::Smart
    } else {
        ActivateWindow::No
    }
}

/// The target output of a workspace reference, unless it is the active one anyway.
pub open spec fn other_output(ctx: ActionContext, output: Option<u64>) -> Option<u64> {
    if output == ctx.active_output {
        None
    } else {
        output
    }
}

/// The plan for an action that refers to a workspace, once the workspace is known.
pub open spec fn workspace_plan(
    ctx: ActionContext,
    action: Action,
    output: Option<u64>,
    index: usize,
) -> Plan {
    match action {
        Action::MoveWindowToWorkspace(_, focus) => match other_output(ctx, output) {
            Some(o) => Plan::Do(
                Command::Layout(
                    LayoutOp::MoveToOutput {
                        window: None,
                        output: o,
                        index: Some(index),
                        activate: activation(focus),
                    },
                ),
                Box::new(
                    if focus {
                        cursor_follows(o, false, true)
                    } else {
                        then_redraw(Command::WarpCursorToFocus)
                    },
                ),
            ),
            None => layout_plan(
                LayoutOp::MoveToWorkspace { window: None, index, activate: activation(focus) },
            ),
        },
        Action::MoveWindowToWorkspaceById { window_id, reference, focus } => if !has_window(
            ctx,
            window_id,
        ) {
            Plan::Done
        } else {
            match output {
                Some(o) => Plan::Do(
                    Command::Layout(
                        LayoutOp::MoveToOutput {
                            window: Some(window_id),
                            output: o,
                            index: Some(index),
                            activate: activation(focus),
                        },
                    ),
                    Box::new(
                        if ctx.active_output == Some(o) {
                            only(Command::QueueRedrawAll)
                        } else {
                            Plan::Ask(
                                Question::IsActiveOutput(Some(o)),
                                Box::new(cursor_follows(o, false, true)),
                                Box::new(only(Command::QueueRedrawAll)),
                            )
                        },
                    ),
                ),
                None => Plan::Do(
                    Command::Layout(
                        LayoutOp::MoveToWorkspace {
                            window: Some(window_id),
                            index,
                            activate: activation(focus),
                        },
                    ),
                    Box::new(
                        Plan::Ask(
                            Question::IsFocused(window_id),
                            Box::new(then_redraw(Command::WarpCursorToFocus)),
                            Box::new(only(Command::QueueRedrawAll)),
                        ),
                    ),
                ),
            }
        },
        Action::MoveColumnToWorkspace(_, focus) => match other_output(ctx, output) {
            Some(o) => Plan::Do(
                Command::Layout(
                    LayoutOp::MoveColumnToOutput { output: o, index: Some(index), activate: focus },
                ),
                Box::new(
                    if focus {
                        cursor_follows(o, false, true)
                    } else {
                        only(Command::QueueRedrawAll)
                    },
                ),
            ),
            None => Plan::Do(
                Command::Layout(LayoutOp::MoveColumnToWorkspace { index, activate: focus }),
                Box::new(
                    if focus {
                        then_redraw(Command::WarpCursorToFocus)
                    } else {
                        only(Command::QueueRedrawAll)
                    },
                ),
            ),
        },
        Action::FocusWorkspace(_) => match other_output(ctx, output) {
            Some(o) => Plan::Do(
                Command::Layout(LayoutOp::FocusOutput(o)),
                Box::new(
                    Plan::Do(
                        Command::Layout(LayoutOp::SwitchWorkspace(index)),
                        Box::new(cursor_follows(o, true, true)),
                    ),
                ),
            ),
            None => layout_plan(
                if ctx.workspace_auto_back_and_forth {
                    LayoutOp::SwitchWorkspaceAutoBackAndForth(index)
                } else {
                    LayoutOp::SwitchWorkspace(index)
                },
            ),
        },
        Action::MoveWorkspaceToIndexByRef { new_idx, reference } => layout_plan(
            LayoutOp::MoveWorkspaceToIdx(Some((output, index)), one_less(new_idx)),
        ),
        Action::MoveWorkspaceToMonitorByRef { output_name, reference } => match ctx.named_output {
            Some(o) => Plan::Ask(
                Question::MoveWorkspaceToOutputById { index, from: output, to: o },
                Box::new(cursor_follows(o, false, false)),
                Box::new(Plan::Done),
            ),
            None => Plan::Done,
        },
        _ => Plan::Done,
    }
}

/// The workspace that an action refers to.
pub open spec fn reference_of(action: Action) -> Option<WorkspaceReference> {
    match action {
        Action::MoveWindowToWorkspace(reference, _) => Some(reference),
        Action::MoveWindowToWorkspaceById { window_id, reference, focus } => Some(reference),
        Action::MoveColumnToWorkspace(reference, _) => Some(reference),
        Action::FocusWorkspace(reference) => Some(reference),
        Action::MoveWorkspaceToIndexByRef { new_idx, reference } => Some(reference),
        Action::MoveWorkspaceToMonitorByRef { output_name, reference } => Some(reference),
        _ => None,
    }
}

/// The plan for an action that names an output, once the output is known.
pub open spec fn named_output_plan(
    ctx: ActionContext,
    selecting: bool,
    action: Action,
    output: u64,
) -> Plan {
    match action {
        Action::FocusMonitor(_) => monitor_plan(MonitorVerb::Focus, output),
        Action::MoveWindowToMonitor(_) => if selecting {
            screenshot_to_output(output)
        } else {
            monitor_plan(MonitorVerb::MoveWindow, output)
        },
        Action::MoveColumnToMonitor(_) => if selecting {
            screenshot_to_output(output)
        } else {
            monitor_plan(MonitorVerb::MoveColumn, output)
        },
        Action::MoveWindowToMonitorById { id, output: name } => if has_window(ctx, id) {
            Plan::Do(
                Command::Layout(
                    LayoutOp::MoveToOutput {
                        window: Some(id),
                        output,
                        index: None,
                        activate: ActivateWindow::Smart,
                    },
                ),
                Box::new(
                    if ctx.active_output == Some(output) {
                        Plan::Done
                    } else {
                        Plan::Ask(
                            Question::IsActiveOutput(Some(output)),
                            Box::new(cursor_follows(output, false, false)),
                            Box::new(Plan::Done),
                        )
                    },
                ),
            )
        } else {
            Plan::Done
        },
        Action::MoveWorkspaceToMonitor(_) => Plan::Ask(
            Question::MoveWorkspaceToOutput(output),
            Box::new(cursor_follows(output, false, false)),
            Box::new(Plan::Done),
        ),
        _ => Plan::Done,
    }
}

/// Whether an action names an output and nothing else decides what it does.
pub open spec fn names_output(action: Action) -> bool {
    action is FocusMonitor || action is MoveWindowToMonitor || action is MoveColumnToMonitor
        || action is MoveWindowToMonitorById || action is MoveWorkspaceToMonitor
}

/// The plan for a move to a neighboring output that an action tries.
pub open spec fn crossing_plan(action: Action, output: u64) -> Plan {
    match action {
        Action::MoveColumnLeftOrToMonitorLeft => crossing(
            Question::MoveColumnLeftOrToOutput(output),
            output,
            false,
        ),
        Action::MoveColumnRightOrToMonitorRight => crossing(
            Question::MoveColumnRightOrToOutput(output),
            output,
            false,
        ),
        Action::FocusWindowOrMonitorUp => crossing(
            Question::FocusWindowUpOrOutput(output),
            output,
            true,
        ),
        Action::FocusWindowOrMonitorDown => crossing(
            Question::FocusWindowDownOrOutput(output),
            output,
            true,
        ),
        Action::FocusColumnOrMonitorLeft => crossing(
            Question::FocusColumnLeftOrOutput(output),
            output,
            true,
        ),
        Action::FocusColumnOrMonitorRight => crossing(
            Question::FocusColumnRightOrOutput(output),
            output,
            true,
        ),
        _ => Plan::Done,
    }
}

/// The direction in which an action may cross to another output, and what it does inside one.
pub open spec fn crossing_direction(action: Action) -> Option<(Direction, LayoutOp)> {
    match action {
        Action::MoveColumnLeftOrToMonitorLeft => Some((Direction::Left, LayoutOp::MoveLeft)),
        Action::MoveColumnRightOrToMonitorRight => Some((Direction::Right, LayoutOp::MoveRight)),
        Action::FocusWindowOrMonitorUp => Some((Direction::Up, LayoutOp::FocusUp)),
        Action::FocusWindowOrMonitorDown => Some((Direction::Down, LayoutOp::FocusDown)),
        Action::FocusColumnOrMonitorLeft => Some((Direction::Left, LayoutOp::FocusLeft)),
        Action::FocusColumnOrMonitorRight => Some((Direction::Right, LayoutOp::FocusRight)),
        _ => None,
    }
}

/// The plan for an action about how urgent a window is.
pub open spec fn urgency_plan(window: Option<WorkspaceWindow>, urgent: bool) -> Plan {
    match window {
        Some(w) => then_redraw(Command::SetUrgent(w.id, urgent)),
        None => only(Command::QueueRedrawAll),
    }
}

/// The plan for an action about the opacity that a window rule gives a window.
pub open spec fn opacity_plan(window: Option<WorkspaceWindow>) -> Plan {
    match window {
        Some(w) if w.translucent_by_rule => then_redraw(Command::ToggleIgnoreOpacityRule(w.id)),
        _ => Plan::Done,
    }
}

/// The first window with an id.
pub open spec fn window_by_id(windows: Seq<WindowView>, id: u64) -> Option<WindowView>
    decreases windows.len(),
{
    if windows.len() == 0 {
        None
    } else if windows[0].id == id {
        Some(windows[0])
    } else {
        window_by_id(windows.skip(1), id)
    }
}

/// The plan for an action of none of the larger families.
pub open spec fn single_plan(ctx: ActionContext, selecting: bool, action: Action) -> Plan {
    match action {
        Action::Quit(skip_confirmation) => if skip_confirmation {
            only(Command::Stop)
        } else {
            Plan::Ask(
                Question::ShowExitConfirmDialog,
                Box::new(only(Command::QueueRedrawAll)),
                Box::new(only(Command::Stop)),
            )
        },
        Action::ChangeVt(vt) => Plan::Do(
            Command::ChangeVt(vt),
            Box::new(only(Command::ClearSuppressedKeys)),
        ),
        Action::Suspend => Plan::Do(
            Command::Suspend,
            Box::new(only(Command::ClearSuppressedKeys)),
        ),
        Action::PowerOffMonitors => only(Command::DeactivateMonitors),
        Action::PowerOnMonitors => only(Command::ActivateMonitors),
        Action::Spawn(command) => only(Command::Spawn(command)),
        Action::SpawnSh(command) => only(Command::SpawnSh(command)),
        Action::DoScreenTransition(delay_ms) => only(Command::DoScreenTransition(delay_ms)),
        Action::ConfirmScreenshot { write_to_disk } => only(
            Command::ConfirmScreenshot { write_to_disk },
        ),
        Action::CancelScreenshot => if selecting {
            Plan::Do(
                Command::CloseScreenshotUi,
                Box::new(then_redraw(Command::ResetCursorImage)),
            )
        } else {
            Plan::Done
        },
        Action::ScreenshotTogglePointer => then_redraw(Command::ToggleScreenshotPointer),
        Action::Screenshot(show_pointer, path) => only(
            Command::OpenScreenshotUi { show_pointer, path },
        ),
        Action::ScreenshotScreen(write_to_disk, show_pointer, path) => match ctx.active_output {
            Some(output) => only(
                Command::ScreenshotScreen { output, write_to_disk, show_pointer, path },
            ),
            None => Plan::Done,
        },
        Action::ScreenshotWindow(
            write_to_disk,
            show_pointer,
            path,
        ) => match ctx.focus_with_output {
            Some((window, output)) => only(
                Command::ScreenshotWindow { window, output, write_to_disk, show_pointer, path },
            ),
            None => Plan::Done,
        },
        Action::ScreenshotWindowById { id, write_to_disk, show_pointer, path } => match window_by_id(
            ctx.windows@,
            id,
        ) {
            Some(WindowView { id: window, output: Some(output), focus_timestamp }) => only(
                Command::ScreenshotWindow { window, output, write_to_disk, show_pointer, path },
            ),
            _ => Plan::Done,
        },
        Action::CloseWindow => match ctx.focus {
            Some(window) => only(Command::CloseWindow(window)),
            None => Plan::Done,
        },
        Action::CloseWindowById(id) => if has_window(ctx, id) {
            only(Command::CloseWindow(id))
        } else {
            Plan::Done
        },
        Action::FocusWindow(id) => if has_window(ctx, id) {
            focus_window_plan(ctx.active_output, id)
        } else {
            Plan::Done
        },
        Action::FocusWindowPrevious => match latest_other(ctx.windows@, ctx.focus) {
            Some(i) => focus_window_plan(ctx.active_output, ctx.windows@[i].id),
            None => Plan::Done,
        },
        Action::FocusColumnLeftUnderMouse => match ctx.workspace_under_cursor {
            Some((output, workspace)) => under_mouse(
                Command::FocusOnWorkspace { workspace, toward: ScrollDirection::Left },
                output,
            ),
            None => Plan::Done,
        },
        Action::FocusColumnRightUnderMouse => match ctx.workspace_under_cursor {
            Some((output, workspace)) => under_mouse(
                Command::FocusOnWorkspace { workspace, toward: ScrollDirection::Right },
                output,
            ),
            None => Plan::Done,
        },
        Action::FocusWorkspaceDownUnderMouse => match ctx.monitor_under_cursor {
            Some(output) => under_mouse(
                Command::SwitchWorkspaceOnMonitor { output, down: true },
                output,
            ),
            None => Plan::Done,
        },
        Action::FocusWorkspaceUpUnderMouse => match ctx.monitor_under_cursor {
            Some(output) => under_mouse(
                Command::SwitchWorkspaceOnMonitor { output, down: false },
                output,
            ),
            None => Plan::Done,
        },
        Action::SwitchLayout(target) => match target {
            LayoutSwitchTarget::Index(layout) if layout >= ctx.num_keyboard_layouts => Plan::Done,
            _ => only(Command::SwitchKeyboardLayout(target)),
        },
        Action::SetColumnWidth(change) => if selecting {
            then_redraw(Command::SetScreenshotWidth(change))
        } else {
            layout_plan(LayoutOp::SetColumnWidth(change))
        },
        Action::SetWindowWidth(change) => if selecting {
            then_redraw(Command::SetScreenshotWidth(change))
        } else {
            layout_plan(LayoutOp::SetWindowWidth(None, change))
        },
        Action::SetWindowHeight(change) => if selecting {
            then_redraw(Command::SetScreenshotHeight(change))
        } else {
            layout_plan(LayoutOp::SetWindowHeight(None, change))
        },
        Action::ShowHotkeyOverlay => Plan::Ask(
            Question::ShowHotkeyOverlay,
            Box::new(only(Command::QueueRedrawAll)),
            Box::new(Plan::Done),
        ),
        Action::OpenOverview => Plan::Ask(
            Question::OpenOverview,
            Box::new(only(Command::QueueRedrawAll)),
            Box::new(Plan::Done),
        ),
        Action::CloseOverview => Plan::Ask(
            Question::CloseOverview,
            Box::new(only(Command::QueueRedrawAll)),
            Box::new(Plan::Done),
        ),
        Action::ToggleWindowRuleOpacity => opacity_plan(ctx.active_window),
        Action::ToggleWindowRuleOpacityById(id) => opacity_plan(
            workspace_window(ctx.workspace_windows@, id),
        ),
        Action::ToggleWindowUrgent(id) => {
            let window = workspace_window(ctx.workspace_windows@, id);
            urgency_plan(window, !window->0.urgent)
        },
        Action::SetWindowUrgent(id) => urgency_plan(
            workspace_window(ctx.workspace_windows@, id),
            true,
        ),
        Action::UnsetWindowUrgent(id) => urgency_plan(
            workspace_window(ctx.workspace_windows@, id),
            false,
        ),
        Action::LoadConfigFile(path) => if ctx.has_config_watcher {
            only(Command::LoadConfigFile(path))
        } else {
            Plan::Done
        },
        _ => Plan::Done,
    }
}

/// The plan for an action in an unlocked session.
pub open spec fn action_plan(niri: Niri, ctx: ActionContext, action: Action) -> Plan {
    let selecting = niri.screenshot_ui is Open;
    if let Some(op) = direct_op(action) {
        layout_plan(op)
    } else if let Some((id, op)) = window_op(action) {
        if has_window(ctx, id) {
            layout_plan(op)
        } else {
            Plan::Done
        }
    } else if focused_op(action, 0) is Some {
        match ctx.focus {
            Some(focus) => layout_plan(focused_op(action, focus)->0),
            None => Plan::Done,
        }
    } else if let Some((toward, op)) = selection_move(action) {
        if selecting {
            then_redraw(Command::MoveScreenshotSelection(toward))
        } else {
            layout_plan(op)
        }
    } else if let Some((toward, op)) = crossing_direction(action) {
        if selecting && (action is MoveColumnLeftOrToMonitorLeft
            || action is MoveColumnRightOrToMonitorRight) {
            then_redraw(Command::MoveScreenshotSelection(toward))
        } else {
            match stepped_from_active(niri, ctx, MonitorStep::Toward(toward)) {
                Some(output) => crossing_plan(action, output),
                None => layout_plan(op),
            }
        }
    } else if let Some((verb, step)) = monitor_request(action) {
        if verb == MonitorVerb::MoveWindow || verb == MonitorVerb::MoveColumn {
            match niri.screenshot_ui {
                ScreenshotUi::Open { selection_output, .. } => match niri.global_space.stepped(
                    selection_output,
                    step,
                ) {
                    Some(output) => screenshot_to_output(output),
                    None => Plan::Done,
                },
                ScreenshotUi::Closed => match stepped_from_active(niri, ctx, step) {
                    Some(output) => monitor_plan(verb, output),
                    None => Plan::Done,
                },
            }
        } else {
            match stepped_from_active(niri, ctx, step) {
                Some(output) => monitor_plan(verb, output),
                None => Plan::Done,
            }
        }
    } else if let Some(reference) = reference_of(action) {
        match workspace_place(ctx, reference) {
            Some((output, index)) => workspace_plan(ctx, action, output, index),
            None => Plan::Done,
        }
    } else if names_output(action) {
        match ctx.named_output {
            Some(output) => named_output_plan(ctx, selecting, action, output),
            None => Plan::Done,
        }
    } else {
        single_plan(ctx, selecting, action)
    }
}

/// The plan for an action. In a locked session most actions are not permitted.
pub open spec fn permitted_plan(
    niri: Niri,
    ctx: ActionContext,
    action: Action,
    allow_when_locked: bool,
) -> Plan {
    if niri.locked() && !(allow_when_locked || works_when_locked(action)) {
        Plan::Done
    } else {
        action_plan(niri, ctx, action)
    }
}

/// The output one step away from the active one.
pub open spec fn stepped_from_active(
    niri: Niri,
    ctx: ActionContext,
    step: MonitorStep,
) -> Option<u64> {
    match ctx.active_output {
        Some(active) => niri.global_space.stepped(active, step),
        None => None,
    }
}

/// Whether a window with an id exists.
fn find_window(ctx: &ActionContext, id: u64) -> (r: bool)
    ensures
        r == has_window(*ctx, id),
{
    let mut i: usize = 0;
    while i < ctx.windows.len()
        invariant
            i <= ctx.windows.len(),
            forall|k: int| 0 <= k < i ==> (#[trigger] ctx.windows@[k]).id != id,
        decreases ctx.windows.len() - i,
    {
        if ctx.windows[i].id == id {
            assert(ctx.windows@[i as int].id == id);
            return true;
        }
        i = i + 1;
    }
    false
}

/// The output of the first window with an id.
fn output_of_window(ctx: &ActionContext, id: u64) -> (r: Option<u64>)
    ensures
        r == (match window_by_id(ctx.windows@, id) {
            Some(window) => window.output,
            None => None,
        }),
        window_by_id(ctx.windows@, id) matches Some(window) ==> window.id == id,
{
    let mut i: usize = 0;
    assert(ctx.windows@.skip(0) =~= ctx.windows@);
    while i < ctx.windows.len()
        invariant
            i <= ctx.windows.len(),
            window_by_id(ctx.windows@.skip(i as int), id) == window_by_id(ctx.windows@, id),
        decreases ctx.windows.len() - i,
    {
        if ctx.windows[i].id == id {
            return ctx.windows[i].output;
        }
        assert(ctx.windows@.skip(i as int).skip(1) =~= ctx.windows@.skip(i + 1));
        i = i + 1;
    }
    None
}

/// The state of a window on a workspace.
fn find_workspace_window(ctx: &ActionContext, id: u64) -> (r: Option<WorkspaceWindow>)
    ensures
        r == workspace_window(ctx.workspace_windows@, id),
{
    let mut i: usize = 0;
    assert(ctx.workspace_windows@.skip(0) =~= ctx.workspace_windows@);
    while i < ctx.workspace_windows.len()
        invariant
            i <= ctx.workspace_windows.len(),
            workspace_window(ctx.workspace_windows@.skip(i as int), id) == workspace_window(
                ctx.workspace_windows@,
                id,
            ),
        decreases ctx.workspace_windows.len() - i,
    {
        if ctx.workspace_windows[i].id == id {
            return Some(ctx.workspace_windows[i]);
        }
        assert(ctx.workspace_windows@.skip(i as int).skip(1) =~= ctx.workspace_windows@.skip(i + 1));
        i = i + 1;
    }
    None
}

/// The window that had the focus before the present one.
fn previously_focused(ctx: &ActionContext) -> (r: Option<u64>)
    ensures
        r == (match latest_other(ctx.windows@, ctx.focus) {
            Some(i) => Some(ctx.windows@[i].id),
            None => None,
        }),
{
    let mut best: Option<usize> = None;
    let mut i: usize = 0;
    while i < ctx.windows.len()
        invariant
            i <= ctx.windows.len(),
            match (best, latest_other(ctx.windows@.take(i as int), ctx.focus)) {
                (Some(b), Some(k)) => b == k && b < i,
                (None, None) => true,
                _ => false,
            },
        decreases ctx.windows.len() - i,
    {
        let window = ctx.windows[i];
        proof {
            let longer = ctx.windows@.take(i + 1);
            assert(longer.drop_last() =~= ctx.windows@.take(i as int));
            assert(longer.last() == ctx.windows@[i as int]);
        }
        let focused: bool = match ctx.focus {
            Some(focus) => focus == window.id,
            None => false,
        };
        if !focused {
            best = match best {
                Some(b) => {
                    let later: bool = match (window.focus_timestamp, ctx.windows[b].focus_timestamp) {
                        (_, None) => true,
                        (None, Some(_)) => false,
                        (Some(x), Some(y)) => x >= y,
                    };
                    if later {
                        Some(i)
                    } else {
                        Some(b)
                    }
                },
                None => Some(i),
            };
        }
        i = i + 1;
    }
    assert(ctx.windows@.take(i as int) =~= ctx.windows@);
    match best {
        Some(b) => Some(ctx.windows[b].id),
        None => None,
    }
}

impl Niri {
    /// The output and index of the workspace that an action refers to.
    pub fn find_output_and_workspace_index(
        ctx: &ActionContext,
        reference: &WorkspaceReference,
    ) -> (r: Option<(Option<u64>, usize)>)
        ensures
            r == workspace_place(*ctx, *reference),
    {
        match reference {
            WorkspaceReference::Index(index) => Some((None, index.saturating_sub(1) as usize)),
            _ => match ctx.referenced_workspace {
                Some((index, output)) => Some((output, index)),
                None => None,
            },
        }
    }
}

/// Does something, then draws all anew.
fn redraw_after(command: Command) -> (r: Plan)
    ensures
        r == then_redraw(command),
{
    first(command, end(false, true))
}

/// Does something under the mouse.
fn act_under_mouse(command: Command, output: u64) -> (r: Plan)
    ensures
        r == under_mouse(command, output),
{
    first(
        command,
        first(
            Command::WarpCursorToFocus,
            first(
                Command::ClearOnDemandLayerFocus,
                first(Command::QueueRedraw(output), Plan::Done),
            ),
        ),
    )
}

/// Takes something to a known output.
fn take_to_monitor(verb: MonitorVerb, output: u64) -> (r: Plan)
    ensures
        r == monitor_plan(verb, output),
{
    match verb {
        MonitorVerb::Focus => first(
            Command::Layout(LayoutOp::FocusOutput(output)),
            follow(output, true, false),
        ),
        MonitorVerb::MoveWindow => first(
            Command::Layout(
                LayoutOp::MoveToOutput {
                    window: None,
                    output,
                    index: None,
                    activate: ActivateWindow::Smart,
                },
            ),
            first(
                Command::Layout(LayoutOp::FocusOutput(output)),
                follow(output, false, false),
            ),
        ),
        MonitorVerb::MoveColumn => first(
            Command::Layout(LayoutOp::MoveColumnToOutput { output, index: None, activate: true }),
            first(
                Command::Layout(LayoutOp::FocusOutput(output)),
                follow(output, false, false),
            ),
        ),
        MonitorVerb::MoveWorkspace => first(
            Command::Layout(LayoutOp::MoveWorkspaceToOutput(output)),
            follow(output, false, false),
        ),
    }
}

/// Takes the screenshot selection to another output.
fn take_screenshot_to_output(output: u64) -> (r: Plan)
    ensures
        r == screenshot_to_output(output),
{
    first(
        Command::MoveCursorToOutput(output),
        first(Command::MoveScreenshotToOutput(output), Plan::Done),
    )
}

/// Turns the effect of a window rule on a window's opacity off and on.
fn toggle_rule_opacity(window: Option<WorkspaceWindow>) -> (r: Plan)
    ensures
        r == opacity_plan(window),
{
    match window {
        Some(window) => if window.translucent_by_rule {
            redraw_after(Command::ToggleIgnoreOpacityRule(window.id))
        } else {
            Plan::Done
        },
        None => Plan::Done,
    }
}

/// The target output, unless it is the active one.
fn unless_active(ctx: &ActionContext, output: Option<u64>) -> (r: Option<u64>)
    ensures
        r == other_output(*ctx, output),
{
    if let Some(active) = ctx.active_output {
        if output == Some(active) {
            return None;
        }
    }
    output
}

/// Whether a moved window keeps the focus.
fn activate(focus: bool) -> (r: ActivateWindow)
    ensures
        r == activation(focus),
{
    if focus {
        ActivateWindow::Smart
    } else {
        ActivateWindow::No
    }
}

/// Moves the focused window to a workspace.
fn move_window_to_workspace(
    ctx: &ActionContext,
    output: Option<u64>,
    index: usize,
    focus: bool,
) -> (r: Plan)
    ensures
        forall|reference: WorkspaceReference|
            r == #[trigger] workspace_plan(
                *ctx,
                Action::MoveWindowToWorkspace(reference, focus),
                output,
                index,
            ),
{
    match unless_active(ctx, output) {
        Some(output) => {
            let op = LayoutOp::MoveToOutput {
                window: None,
                output,
                index: Some(index),
                activate: activate(focus),
            };
            if focus {
                first(Command::Layout(op), follow(output, false, true))
            } else {
                first(Command::Layout(op), redraw_after(Command::WarpCursorToFocus))
            }
        },
        None => moving(
            LayoutOp::MoveToWorkspace { window: None, index, activate: activate(focus) },
        ),
    }
}

/// Moves a window to a workspace.
fn move_known_window_to_workspace(
    ctx: &ActionContext,
    window_id: u64,
    output: Option<u64>,
    index: usize,
    focus: bool,
) -> (r: Plan)
    requires
        has_window(*ctx, window_id),
    ensures
        forall|reference: WorkspaceReference|
            r == #[trigger] workspace_plan(
                *ctx,
                Action::MoveWindowToWorkspaceById { window_id, reference, focus },
                output,
                index,
            ),
{
    match output {
        Some(output) => {
            let op = LayoutOp::MoveToOutput {
                window: Some(window_id),
                output,
                index: Some(index),
                activate: activate(focus),
            };
            if ctx.active_output == Some(output) {
                first(Command::Layout(op), end(false, true))
            } else {
                first(
                    Command::Layout(op),
                    ask(
                        Question::IsActiveOutput(Some(output)),
                        follow(output, false, true),
                        end(false, true),
                    ),
                )
            }
        },
        None => first(
            Command::Layout(
                LayoutOp::MoveToWorkspace {
                    window: Some(window_id),
                    index,
                    activate: activate(focus),
                },
            ),
            ask(
                Question::IsFocused(window_id),
                redraw_after(Command::WarpCursorToFocus),
                end(false, true),
            ),
        ),
    }
}

/// Moves the focused column to a workspace.
fn move_column_to_workspace(
    ctx: &ActionContext,
    output: Option<u64>,
    index: usize,
    focus: bool,
) -> (r: Plan)
    ensures
        forall|reference: WorkspaceReference|
            r == #[trigger] workspace_plan(
                *ctx,
                Action::MoveColumnToWorkspace(reference, focus),
                output,
                index,
            ),
{
    match unless_active(ctx, output) {
        Some(output) => {
            let op = LayoutOp::MoveColumnToOutput { output, index: Some(index), activate: focus };
            if focus {
                first(Command::Layout(op), follow(output, false, true))
            } else {
                first(Command::Layout(op), end(false, true))
            }
        },
        None => {
            let op = LayoutOp::MoveColumnToWorkspace { index, activate: focus };
            if focus {
                first(Command::Layout(op), redraw_after(Command::WarpCursorToFocus))
            } else {
                first(Command::Layout(op), end(false, true))
            }
        },
    }
}

/// Moves the focus to a workspace.
fn focus_workspace(ctx: &ActionContext, output: Option<u64>, index: usize) -> (r: Plan)
    ensures
        forall|reference: WorkspaceReference|
            r == #[trigger] workspace_plan(
                *ctx,
                Action::FocusWorkspace(reference),
                output,
                index,
            ),
{
    match unless_active(ctx, output) {
        Some(output) => first(
            Command::Layout(LayoutOp::FocusOutput(output)),
            first(
                Command::Layout(LayoutOp::SwitchWorkspace(index)),
                follow(output, true, true),
            ),
        ),
        None => if ctx.workspace_auto_back_and_forth {
            focusing(LayoutOp::SwitchWorkspaceAutoBackAndForth(index))
        } else {
            focusing(LayoutOp::SwitchWorkspace(index))
        },
    }
}

/// Changes the layout, where nothing but the action decides how; gives other actions back.
fn change_layout(action: Action) -> (r: Result<Plan, Action>)
    ensures
        match r {
            Ok(plan) => direct_op(action) matches Some(op) && plan == layout_plan(op),
            Err(other) => direct_op(action) is None && other == action,
        },
{
    let plan = match action {
        Action::FocusWindowInColumn(index) => focusing(LayoutOp::FocusWindowInColumn(index)),
        Action::FocusColumnLeft => focusing(LayoutOp::FocusLeft),
        Action::FocusColumnRight => focusing(LayoutOp::FocusRight),
        Action::FocusColumnFirst => focusing(LayoutOp::FocusColumnFirst),
        Action::FocusColumnLast => focusing(LayoutOp::FocusColumnLast),
        Action::FocusColumnRightOrFirst => focusing(LayoutOp::FocusColumnRightOrFirst),
        Action::FocusColumnLeftOrLast => focusing(LayoutOp::FocusColumnLeftOrLast),
        Action::FocusColumn(index) => focusing(LayoutOp::FocusColumn(index)),
        Action::FocusWindowDown => focusing(LayoutOp::FocusDown),
        Action::FocusWindowUp => focusing(LayoutOp::FocusUp),
        Action::FocusWindowDownOrColumnLeft => focusing(LayoutOp::FocusDownOrLeft),
        Action::FocusWindowDownOrColumnRight => focusing(LayoutOp::FocusDownOrRight),
        Action::FocusWindowUpOrColumnLeft => focusing(LayoutOp::FocusUpOrLeft),
        Action::FocusWindowUpOrColumnRight => focusing(LayoutOp::FocusUpOrRight),
        Action::FocusWindowOrWorkspaceDown => focusing(LayoutOp::FocusWindowOrWorkspaceDown),
        Action::FocusWindowOrWorkspaceUp => focusing(LayoutOp::FocusWindowOrWorkspaceUp),
        Action::FocusWindowTop => focusing(LayoutOp::FocusWindowTop),
        Action::FocusWindowBottom => focusing(LayoutOp::FocusWindowBottom),
        Action::FocusWindowDownOrTop => focusing(LayoutOp::FocusWindowDownOrTop),
        Action::FocusWindowUpOrBottom => focusing(LayoutOp::FocusWindowUpOrBottom),
        Action::FocusWorkspaceDown => focusing(LayoutOp::SwitchWorkspaceDown),
        Action::FocusWorkspaceUp => focusing(LayoutOp::SwitchWorkspaceUp),
        Action::FocusWorkspacePrevious => focusing(LayoutOp::SwitchWorkspacePrevious),
        Action::MoveColumnToFirst => moving(LayoutOp::MoveColumnToFirst),
        Action::MoveColumnToLast => moving(LayoutOp::MoveColumnToLast),
        Action::MoveColumnToIndex(index) => moving(LayoutOp::MoveColumnToIndex(index)),
        Action::ConsumeOrExpelWindowLeft => moving(LayoutOp::ConsumeOrExpelWindowLeft(None)),
        Action::ConsumeOrExpelWindowRight => moving(LayoutOp::ConsumeOrExpelWindowRight(None)),
        Action::MoveWindowToWorkspaceDown(focus) => moving(LayoutOp::MoveToWorkspaceDown(focus)),
        Action::MoveWindowToWorkspaceUp(focus) => moving(LayoutOp::MoveToWorkspaceUp(focus)),
        Action::MoveColumnToWorkspaceDown(focus) => moving(LayoutOp::MoveColumnToWorkspaceDown(focus)),
        Action::MoveColumnToWorkspaceUp(focus) => moving(LayoutOp::MoveColumnToWorkspaceUp(focus)),
        Action::ExpelWindowFromColumn => moving(LayoutOp::ExpelFromColumn),
        Action::SwapWindowLeft => moving(LayoutOp::SwapWindowInDirection(ScrollDirection::Left)),
        Action::SwapWindowRight => moving(LayoutOp::SwapWindowInDirection(ScrollDirection::Right)),
        Action::ToggleColumnTabbedDisplay => moving(LayoutOp::ToggleColumnTabbedDisplay),
        Action::SetColumnDisplay(display) => moving(LayoutOp::SetColumnDisplay(display)),
        Action::FocusFloating => moving(LayoutOp::FocusFloating),
        Action::FocusTiling => moving(LayoutOp::FocusTiling),
        Action::SwitchFocusBetweenFloatingAndTiling => moving(LayoutOp::SwitchFocusFloatingTiling),
        Action::MoveWorkspaceDown => redrawing(LayoutOp::MoveWorkspaceDown),
        Action::MoveWorkspaceUp => redrawing(LayoutOp::MoveWorkspaceUp),
        Action::MoveWorkspaceToIndex(index) => redrawing(LayoutOp::MoveWorkspaceToIdx(None, index.saturating_sub(1))),
        Action::ConsumeWindowIntoColumn => redrawing(LayoutOp::ConsumeIntoColumn),
        Action::CenterColumn => redrawing(LayoutOp::CenterColumn),
        Action::CenterWindow => redrawing(LayoutOp::CenterWindow(None)),
        Action::CenterVisibleColumns => redrawing(LayoutOp::CenterVisibleColumns),
        Action::ToggleWindowFloating => redrawing(LayoutOp::ToggleWindowFloating(None)),
        Action::MoveWindowToFloating => redrawing(LayoutOp::SetWindowFloating(None, true)),
        Action::MoveWindowToTiling => redrawing(LayoutOp::SetWindowFloating(None, false)),
        Action::ToggleOverview => redrawing(LayoutOp::ToggleOverview),
        Action::SetWorkspaceName(name) => plain(LayoutOp::SetWorkspaceName(name, None)),
        Action::SetWorkspaceNameByRef { name, reference } => plain(LayoutOp::SetWorkspaceName(name, Some(reference))),
        Action::UnsetWorkspaceName => plain(LayoutOp::UnsetWorkspaceName(None)),
        Action::UnsetWorkSpaceNameByRef(reference) => plain(LayoutOp::UnsetWorkspaceName(Some(reference))),
        Action::SwitchPresetColumnWidth => plain(LayoutOp::ToggleWidth(true)),
        Action::SwitchPresetColumnWidthBack => plain(LayoutOp::ToggleWidth(false)),
        Action::SwitchPresetWindowWidth => plain(LayoutOp::ToggleWindowWidth(None, true)),
        Action::SwitchPresetWindowWidthBack => plain(LayoutOp::ToggleWindowWidth(None, false)),
        Action::SwitchPresetWindowHeight => plain(LayoutOp::ToggleWindowHeight(None, true)),
        Action::SwitchPresetWindowHeightBack => plain(LayoutOp::ToggleWindowHeight(None, false)),
        Action::MaximizeColumn => plain(LayoutOp::ToggleFullWidth),
        Action::ResetWindowHeight => plain(LayoutOp::ResetWindowHeight(None)),
        Action::ExpandColumnToAvailableWidth => plain(LayoutOp::ExpandColumnToAvailableWidth),
        Action::MoveFloatingWindowById { id: None, x, y } => redrawing(
            LayoutOp::MoveFloatingWindow { window: None, x, y },
        ),
        other => {
            return Err(other);
        },
    };
    Ok(plan)
}

/// Changes the layout around one window, if it exists; gives other actions back.
fn change_window(ctx: &ActionContext, action: Action) -> (r: Result<Plan, Action>)
    ensures
        match r {
            Ok(plan) => window_op(action) matches Some((id, op)) && plan == (if has_window(*ctx, id) {
                layout_plan(op)
            } else {
                Plan::Done
            }),
            Err(other) => window_op(action) is None && other == action,
        },
{
    let plan = match action {
        Action::FullscreenWindowById(id) => if find_window(ctx, id) {
            redrawing(LayoutOp::ToggleFullscreen(id))
        } else {
            Plan::Done
        },
        Action::ToggleWindowedFullscreenById(id) => if find_window(ctx, id) {
            redrawing(LayoutOp::ToggleWindowedFullscreen(id))
        } else {
            Plan::Done
        },
        Action::MaximizeWindowToEdgesById(id) => if find_window(ctx, id) {
            redrawing(LayoutOp::ToggleMaximized(id))
        } else {
            Plan::Done
        },
        Action::ConsumeOrExpelWindowLeftById(id) => if find_window(ctx, id) {
            moving(LayoutOp::ConsumeOrExpelWindowLeft(Some(id)))
        } else {
            Plan::Done
        },
        Action::ConsumeOrExpelWindowRightById(id) => if find_window(ctx, id) {
            moving(LayoutOp::ConsumeOrExpelWindowRight(Some(id)))
        } else {
            Plan::Done
        },
        Action::CenterWindowById(id) => if find_window(ctx, id) {
            redrawing(LayoutOp::CenterWindow(Some(id)))
        } else {
            Plan::Done
        },
        Action::SwitchPresetWindowWidthById(id) => if find_window(ctx, id) {
            plain(LayoutOp::ToggleWindowWidth(Some(id), true))
        } else {
            Plan::Done
        },
        Action::SwitchPresetWindowWidthBackById(id) => if find_window(ctx, id) {
            plain(LayoutOp::ToggleWindowWidth(Some(id), false))
        } else {
            Plan::Done
        },
        Action::SwitchPresetWindowHeightById(id) => if find_window(ctx, id) {
            plain(LayoutOp::ToggleWindowHeight(Some(id), true))
        } else {
            Plan::Done
        },
        Action::SwitchPresetWindowHeightBackById(id) => if find_window(ctx, id) {
            plain(LayoutOp::ToggleWindowHeight(Some(id), false))
        } else {
            Plan::Done
        },
        Action::SetWindowWidthById { id, change } => if find_window(ctx, id) {
            plain(LayoutOp::SetWindowWidth(Some(id), change))
        } else {
            Plan::Done
        },
        Action::SetWindowHeightById { id, change } => if find_window(ctx, id) {
            plain(LayoutOp::SetWindowHeight(Some(id), change))
        } else {
            Plan::Done
        },
        Action::ResetWindowHeightById(id) => if find_window(ctx, id) {
            plain(LayoutOp::ResetWindowHeight(Some(id)))
        } else {
            Plan::Done
        },
        Action::ToggleWindowFloatingById(id) => if find_window(ctx, id) {
            redrawing(LayoutOp::ToggleWindowFloating(Some(id)))
        } else {
            Plan::Done
        },
        Action::MoveWindowToFloatingById(id) => if find_window(ctx, id) {
            redrawing(LayoutOp::SetWindowFloating(Some(id), true))
        } else {
            Plan::Done
        },
        Action::MoveWindowToTilingById(id) => if find_window(ctx, id) {
            redrawing(LayoutOp::SetWindowFloating(Some(id), false))
        } else {
            Plan::Done
        },
        Action::MoveFloatingWindowById { id: Some(id), x, y } => if find_window(ctx, id) {
            redrawing(LayoutOp::MoveFloatingWindow { window: Some(id), x, y })
        } else {
            Plan::Done
        },
        other => {
            return Err(other);
        },
    };
    Ok(plan)
}

/// Changes the layout around the focused window; gives other actions back.
fn change_focused(ctx: &ActionContext, action: Action) -> (r: Result<Plan, Action>)
    ensures
        match r {
            Ok(plan) => focused_op(action, 0) is Some && plan == (match ctx.focus {
                Some(focus) => layout_plan(focused_op(action, focus)->0),
                None => Plan::Done,
            }),
            Err(other) => focused_op(action, 0) is None && other == action,
        },
{
    let plan = match action {
        Action::FullscreenWindow => match ctx.focus {
            Some(window) => redrawing(LayoutOp::ToggleFullscreen(window)),
            None => Plan::Done,
        },
        Action::ToggleWindowedFullscreen => match ctx.focus {
            Some(window) => redrawing(LayoutOp::ToggleWindowedFullscreen(window)),
            None => Plan::Done,
        },
        Action::MaximizeWindowToEdges => match ctx.focus {
            Some(window) => redrawing(LayoutOp::ToggleMaximized(window)),
            None => Plan::Done,
        },
        other => {
            return Err(other);
        },
    };
    Ok(plan)
}

/// Moves the screenshot selection, or else what has the focus; gives other actions back.
fn move_selection(selecting: bool, action: Action) -> (r: Result<Plan, Action>)
    ensures
        match r {
            Ok(plan) => selection_move(action) matches Some((toward, op)) && plan == (if selecting {
                then_redraw(Command::MoveScreenshotSelection(toward))
            } else {
                layout_plan(op)
            }),
            Err(other) => selection_move(action) is None && other == action,
        },
{
    let plan = match action {
        Action::MoveColumnLeft => if selecting {
            redraw_after(Command::MoveScreenshotSelection(Direction::Left))
        } else {
            moving(LayoutOp::MoveLeft)
        },
        Action::MoveColumnRight => if selecting {
            redraw_after(Command::MoveScreenshotSelection(Direction::Right))
        } else {
            moving(LayoutOp::MoveRight)
        },
        Action::MoveWindowDown => if selecting {
            redraw_after(Command::MoveScreenshotSelection(Direction::Down))
        } else {
            moving(LayoutOp::MoveDown)
        },
        Action::MoveWindowUp => if selecting {
            redraw_after(Command::MoveScreenshotSelection(Direction::Up))
        } else {
            moving(LayoutOp::MoveUp)
        },
        Action::MoveWindowDownOrToWorkspaceDown => if selecting {
            redraw_after(Command::MoveScreenshotSelection(Direction::Down))
        } else {
            moving(LayoutOp::MoveDownOrToWorkspaceDown)
        },
        Action::MoveWindowUpOrToWorkspaceUp => if selecting {
            redraw_after(Command::MoveScreenshotSelection(Direction::Up))
        } else {
            moving(LayoutOp::MoveUpOrToWorkspaceUp)
        },
        other => {
            return Err(other);
        },
    };
    Ok(plan)
}

/// Which monitor an action is about, and what it takes there.
fn monitor_request_of(action: &Action) -> (r: Option<(MonitorVerb, MonitorStep)>)
    ensures
        r == monitor_request(*action),
{
    match action {
        Action::FocusMonitorLeft => Some((MonitorVerb::Focus, MonitorStep::Toward(Direction::Left))),
        Action::FocusMonitorRight => Some((MonitorVerb::Focus, MonitorStep::Toward(Direction::Right))),
        Action::FocusMonitorDown => Some((MonitorVerb::Focus, MonitorStep::Toward(Direction::Down))),
        Action::FocusMonitorUp => Some((MonitorVerb::Focus, MonitorStep::Toward(Direction::Up))),
        Action::FocusMonitorPrevious => Some((MonitorVerb::Focus, MonitorStep::Previous)),
        Action::FocusMonitorNext => Some((MonitorVerb::Focus, MonitorStep::Next)),
        Action::MoveWindowToMonitorLeft => Some((MonitorVerb::MoveWindow, MonitorStep::Toward(Direction::Left))),
        Action::MoveWindowToMonitorRight => Some((MonitorVerb::MoveWindow, MonitorStep::Toward(Direction::Right))),
        Action::MoveWindowToMonitorDown => Some((MonitorVerb::MoveWindow, MonitorStep::Toward(Direction::Down))),
        Action::MoveWindowToMonitorUp => Some((MonitorVerb::MoveWindow, MonitorStep::Toward(Direction::Up))),
        Action::MoveWindowToMonitorPrevious => Some((MonitorVerb::MoveWindow, MonitorStep::Previous)),
        Action::MoveWindowToMonitorNext => Some((MonitorVerb::MoveWindow, MonitorStep::Next)),
        Action::MoveColumnToMonitorLeft => Some((MonitorVerb::MoveColumn, MonitorStep::Toward(Direction::Left))),
        Action::MoveColumnToMonitorRight => Some((MonitorVerb::MoveColumn, MonitorStep::Toward(Direction::Right))),
        Action::MoveColumnToMonitorDown => Some((MonitorVerb::MoveColumn, MonitorStep::Toward(Direction::Down))),
        Action::MoveColumnToMonitorUp => Some((MonitorVerb::MoveColumn, MonitorStep::Toward(Direction::Up))),
        Action::MoveColumnToMonitorPrevious => Some((MonitorVerb::MoveColumn, MonitorStep::Previous)),
        Action::MoveColumnToMonitorNext => Some((MonitorVerb::MoveColumn, MonitorStep::Next)),
        Action::MoveWorkspaceToMonitorLeft => Some((MonitorVerb::MoveWorkspace, MonitorStep::Toward(Direction::Left))),
        Action::MoveWorkspaceToMonitorRight => Some((MonitorVerb::MoveWorkspace, MonitorStep::Toward(Direction::Right))),
        Action::MoveWorkspaceToMonitorDown => Some((MonitorVerb::MoveWorkspace, MonitorStep::Toward(Direction::Down))),
        Action::MoveWorkspaceToMonitorUp => Some((MonitorVerb::MoveWorkspace, MonitorStep::Toward(Direction::Up))),
        Action::MoveWorkspaceToMonitorPrevious => Some((MonitorVerb::MoveWorkspace, MonitorStep::Previous)),
        Action::MoveWorkspaceToMonitorNext => Some((MonitorVerb::MoveWorkspace, MonitorStep::Next)),
        _ => None,
    }
}

/// Carries out an action that refers to a workspace; gives other actions back.
fn act_on_workspace(ctx: &ActionContext, action: Action) -> (r: Result<Plan, Action>)
    ensures
        match r {
            Ok(plan) => reference_of(action) matches Some(reference) && plan == (
            match workspace_place(*ctx, reference) {
                Some((output, index)) => workspace_plan(*ctx, action, output, index),
                None => Plan::Done,
            }),
            Err(other) => reference_of(action) is None && other == action,
        },
{
    let plan = match action {
        Action::MoveWindowToWorkspace(reference, focus) => match Niri::find_output_and_workspace_index(
            ctx,
            &reference,
        ) {
            Some((output, index)) => move_window_to_workspace(ctx, output, index, focus),
            None => Plan::Done,
        },
        Action::MoveWindowToWorkspaceById {
            window_id,
            reference,
            focus,
        } => match Niri::find_output_and_workspace_index(ctx, &reference) {
            Some((output, index)) => if find_window(ctx, window_id) {
                move_known_window_to_workspace(ctx, window_id, output, index, focus)
            } else {
                Plan::Done
            },
            None => Plan::Done,
        },
        Action::MoveColumnToWorkspace(reference, focus) => match Niri::find_output_and_workspace_index(
            ctx,
            &reference,
        ) {
            Some((output, index)) => move_column_to_workspace(ctx, output, index, focus),
            None => Plan::Done,
        },
        Action::FocusWorkspace(reference) => match Niri::find_output_and_workspace_index(
            ctx,
            &reference,
        ) {
            Some((output, index)) => focus_workspace(ctx, output, index),
            None => Plan::Done,
        },
        Action::MoveWorkspaceToIndexByRef {
            new_idx,
            reference,
        } => match Niri::find_output_and_workspace_index(ctx, &reference) {
            Some(place) => redrawing(
                LayoutOp::MoveWorkspaceToIdx(Some(place), new_idx.saturating_sub(1)),
            ),
            None => Plan::Done,
        },
        Action::MoveWorkspaceToMonitorByRef {
            output_name,
            reference,
        } => match (Niri::find_output_and_workspace_index(ctx, &reference), ctx.named_output) {
            (Some((from, index)), Some(to)) => ask(
                Question::MoveWorkspaceToOutputById { index, from, to },
                follow(to, false, false),
                Plan::Done,
            ),
            _ => Plan::Done,
        },
        other => {
            return Err(other);
        },
    };
    Ok(plan)
}

/// Carries out an action that names an output; gives other actions back.
fn act_on_named_output(ctx: &ActionContext, selecting: bool, action: Action) -> (r: Result<
    Plan,
    Action,
>)
    ensures
        match r {
            Ok(plan) => names_output(action) && plan == (match ctx.named_output {
                Some(output) => named_output_plan(*ctx, selecting, action, output),
                None => Plan::Done,
            }),
            Err(other) => !names_output(action) && other == action,
        },
{
    let plan = match action {
        Action::FocusMonitor(_) => match ctx.named_output {
            Some(output) => take_to_monitor(MonitorVerb::Focus, output),
            None => Plan::Done,
        },
        Action::MoveWindowToMonitor(_) => match ctx.named_output {
            Some(output) => if selecting {
                take_screenshot_to_output(output)
            } else {
                take_to_monitor(MonitorVerb::MoveWindow, output)
            },
            None => Plan::Done,
        },
        Action::MoveColumnToMonitor(_) => match ctx.named_output {
            Some(output) => if selecting {
                take_screenshot_to_output(output)
            } else {
                take_to_monitor(MonitorVerb::MoveColumn, output)
            },
            None => Plan::Done,
        },
        Action::MoveWindowToMonitorById { id, output: _ } => match ctx.named_output {
            Some(output) => if find_window(ctx, id) {
                let op = LayoutOp::MoveToOutput {
                    window: Some(id),
                    output,
                    index: None,
                    activate: ActivateWindow::Smart,
                };
                if ctx.active_output == Some(output) {
                    first(Command::Layout(op), Plan::Done)
                } else {
                    first(
                        Command::Layout(op),
                        ask(
                            Question::IsActiveOutput(Some(output)),
                            follow(output, false, false),
                            Plan::Done,
                        ),
                    )
                }
            } else {
                Plan::Done
            },
            None => Plan::Done,
        },
        Action::MoveWorkspaceToMonitor(_) => match ctx.named_output {
            Some(output) => ask(
                Question::MoveWorkspaceToOutput(output),
                follow(output, false, false),
                Plan::Done,
            ),
            None => Plan::Done,
        },
        other => {
            return Err(other);
        },
    };
    Ok(plan)
}

impl State {
    /// Gives a window the focus, taking care of a change of the active output and of the cursor.
    pub fn focus_window(&self, ctx: &ActionContext, window: u64) -> (r: Plan)
        ensures
            r == focus_window_plan(ctx.active_output, window),
    {
        first(
            Command::Layout(LayoutOp::ActivateWindow(window)),
            ask(
                Question::IsActiveOutput(ctx.active_output),
                redraw_after(Command::WarpCursorToFocus),
                ask(
                    Question::WarpCursorToFocusCentered,
                    end(false, true),
                    redraw_after(Command::MoveCursorToActiveOutput),
                ),
            ),
        )
    }

    /// The output one step away from the active one.
    fn step_from_active(&self, ctx: &ActionContext, step: MonitorStep) -> (r: Option<u64>)
        requires
            self.niri.global_space.wf(),
        ensures
            r == stepped_from_active(self.niri, *ctx, step),
    {
        match ctx.active_output {
            Some(active) => self.niri.step(active, step),
            None => None,
        }
    }

    /// Takes something one monitor further.
    fn to_monitor(&self, ctx: &ActionContext, verb: MonitorVerb, step: MonitorStep) -> (r: Plan)
        requires
            self.niri.global_space.wf(),
        ensures
            r == if (verb == MonitorVerb::MoveWindow || verb == MonitorVerb::MoveColumn)
                && self.niri.screenshot_ui is Open {
                match self.niri.global_space.stepped(
                    self.niri.screenshot_ui->selection_output,
                    step,
                ) {
                    Some(output) => screenshot_to_output(output),
                    None => Plan::Done,
                }
            } else {
                match stepped_from_active(self.niri, *ctx, step) {
                    Some(output) => monitor_plan(verb, output),
                    None => Plan::Done,
                }
            },
    {
        if verb == MonitorVerb::MoveWindow || verb == MonitorVerb::MoveColumn {
            if let ScreenshotUi::Open { selection_output, path: _ } = &self.niri.screenshot_ui {
                return match self.niri.step(*selection_output, step) {
                    Some(output) => take_screenshot_to_output(output),
                    None => Plan::Done,
                };
            }
        }
        match self.step_from_active(ctx, step) {
            Some(output) => take_to_monitor(verb, output),
            None => Plan::Done,
        }
    }

    /// Moves what has the focus on, to the next output where there is nowhere else to go; gives other
    /// actions back.
    fn cross_outputs(&self, ctx: &ActionContext, action: Action) -> (r: Result<Plan, Action>)
        requires
            self.niri.global_space.wf(),
        ensures
            match r {
                Ok(plan) => crossing_direction(action) matches Some((toward, op)) && plan == (
                if self.niri.screenshot_ui is Open && (action is MoveColumnLeftOrToMonitorLeft
                    || action is MoveColumnRightOrToMonitorRight) {
                    then_redraw(Command::MoveScreenshotSelection(toward))
                } else {
                    match stepped_from_active(self.niri, *ctx, MonitorStep::Toward(toward)) {
                        Some(output) => crossing_plan(action, output),
                        None => layout_plan(op),
                    }
                }),
                Err(other) => crossing_direction(action) is None && other == action,
            },
    {
        let selecting = self.niri.screenshot_ui.is_open();
        let plan = match action {
            Action::MoveColumnLeftOrToMonitorLeft => if selecting {
                redraw_after(Command::MoveScreenshotSelection(Direction::Left))
            } else {
                match self.step_from_active(ctx, MonitorStep::Toward(Direction::Left)) {
                    Some(output) => cross(Question::MoveColumnLeftOrToOutput(output), output, false),
                    None => moving(LayoutOp::MoveLeft),
                }
            },
            Action::MoveColumnRightOrToMonitorRight => if selecting {
                redraw_after(Command::MoveScreenshotSelection(Direction::Right))
            } else {
                match self.step_from_active(ctx, MonitorStep::Toward(Direction::Right)) {
                    Some(output) => cross(Question::MoveColumnRightOrToOutput(output), output, false),
                    None => moving(LayoutOp::MoveRight),
                }
            },
            Action::FocusWindowOrMonitorUp => match self.step_from_active(
                ctx,
                MonitorStep::Toward(Direction::Up),
            ) {
                Some(output) => cross(Question::FocusWindowUpOrOutput(output), output, true),
                None => focusing(LayoutOp::FocusUp),
            },
            Action::FocusWindowOrMonitorDown => match self.step_from_active(
                ctx,
                MonitorStep::Toward(Direction::Down),
            ) {
                Some(output) => cross(Question::FocusWindowDownOrOutput(output), output, true),
                None => focusing(LayoutOp::FocusDown),
            },
            Action::FocusColumnOrMonitorLeft => match self.step_from_active(
                ctx,
                MonitorStep::Toward(Direction::Left),
            ) {
                Some(output) => cross(Question::FocusColumnLeftOrOutput(output), output, true),
                None => focusing(LayoutOp::FocusLeft),
            },
            Action::FocusColumnOrMonitorRight => match self.step_from_active(
                ctx,
                MonitorStep::Toward(Direction::Right),
            ) {
                Some(output) => cross(Question::FocusColumnRightOrOutput(output), output, true),
                None => focusing(LayoutOp::FocusRight),
            },
            other => {
                return Err(other);
            },
        };
        Ok(plan)
    }

    /// Carries out an action of none of the larger families.
    fn act(&self, ctx: &ActionContext, action: Action) -> (r: Plan)
        ensures
            r == single_plan(*ctx, self.niri.screenshot_ui is Open, action),
    {
        let selecting = self.niri.screenshot_ui.is_open();
        match action {
            Action::Quit(skip_confirmation) => if skip_confirmation {
                first(Command::Stop, Plan::Done)
            } else {
                ask(
                    Question::ShowExitConfirmDialog,
                    end(false, true),
                    first(Command::Stop, Plan::Done),
                )
            },
            Action::ChangeVt(vt) => first(
                Command::ChangeVt(vt),
                first(Command::ClearSuppressedKeys, Plan::Done),
            ),
            Action::Suspend => first(
                Command::Suspend,
                first(Command::ClearSuppressedKeys, Plan::Done),
            ),
            Action::PowerOffMonitors => first(Command::DeactivateMonitors, Plan::Done),
            Action::PowerOnMonitors => first(Command::ActivateMonitors, Plan::Done),
            Action::Spawn(command) => first(Command::Spawn(command), Plan::Done),
            Action::SpawnSh(command) => first(Command::SpawnSh(command), Plan::Done),
            Action::DoScreenTransition(delay_ms) => first(
                Command::DoScreenTransition(delay_ms),
                Plan::Done,
            ),
            Action::ConfirmScreenshot { write_to_disk } => first(
                Command::ConfirmScreenshot { write_to_disk },
                Plan::Done,
            ),
            Action::CancelScreenshot => if selecting {
                first(Command::CloseScreenshotUi, redraw_after(Command::ResetCursorImage))
            } else {
                Plan::Done
            },
            Action::ScreenshotTogglePointer => redraw_after(Command::ToggleScreenshotPointer),
            Action::Screenshot(show_pointer, path) => first(
                Command::OpenScreenshotUi { show_pointer, path },
                Plan::Done,
            ),
            Action::ScreenshotScreen(write_to_disk, show_pointer, path) => match ctx.active_output {
                Some(output) => first(
                    Command::ScreenshotScreen { output, write_to_disk, show_pointer, path },
                    Plan::Done,
                ),
                None => Plan::Done,
            },
            Action::ScreenshotWindow(
                write_to_disk,
                show_pointer,
                path,
            ) => match ctx.focus_with_output {
                Some((window, output)) => first(
                    Command::ScreenshotWindow { window, output, write_to_disk, show_pointer, path },
                    Plan::Done,
                ),
                None => Plan::Done,
            },
            Action::ScreenshotWindowById {
                id,
                write_to_disk,
                show_pointer,
                path,
            } => match output_of_window(ctx, id) {
                Some(output) => first(
                    Command::ScreenshotWindow {
                        window: id,
                        output,
                        write_to_disk,
                        show_pointer,
                        path,
                    },
                    Plan::Done,
                ),
                None => Plan::Done,
            },
            Action::CloseWindow => match ctx.focus {
                Some(window) => first(Command::CloseWindow(window), Plan::Done),
                None => Plan::Done,
            },
            Action::CloseWindowById(id) => if find_window(ctx, id) {
                first(Command::CloseWindow(id), Plan::Done)
            } else {
                Plan::Done
            },
            Action::FocusWindow(id) => if find_window(ctx, id) {
                self.focus_window(ctx, id)
            } else {
                Plan::Done
            },
            Action::FocusWindowPrevious => match previously_focused(ctx) {
                Some(window) => self.focus_window(ctx, window),
                None => Plan::Done,
            },
            Action::FocusColumnLeftUnderMouse => match ctx.workspace_under_cursor {
                Some((output, workspace)) => act_under_mouse(
                    Command::FocusOnWorkspace { workspace, toward: ScrollDirection::Left },
                    output,
                ),
                None => Plan::Done,
            },
            Action::FocusColumnRightUnderMouse => match ctx.workspace_under_cursor {
                Some((output, workspace)) => act_under_mouse(
                    Command::FocusOnWorkspace { workspace, toward: ScrollDirection::Right },
                    output,
                ),
                None => Plan::Done,
            },
            Action::FocusWorkspaceDownUnderMouse => match ctx.monitor_under_cursor {
                Some(output) => act_under_mouse(
                    Command::SwitchWorkspaceOnMonitor { output, down: true },
                    output,
                ),
                None => Plan::Done,
            },
            Action::FocusWorkspaceUpUnderMouse => match ctx.monitor_under_cursor {
                Some(output) => act_under_mouse(
                    Command::SwitchWorkspaceOnMonitor { output, down: false },
                    output,
                ),
                None => Plan::Done,
            },
            Action::SwitchLayout(target) => {
                let exists: bool = match target {
                    LayoutSwitchTarget::Index(layout) => (layout as usize)
                        < ctx.num_keyboard_layouts,
                    _ => true,
                };
                if exists {
                    first(Command::SwitchKeyboardLayout(target), Plan::Done)
                } else {
                    Plan::Done
                }
            },
            Action::SetColumnWidth(change) => if selecting {
                redraw_after(Command::SetScreenshotWidth(change))
            } else {
                plain(LayoutOp::SetColumnWidth(change))
            },
            Action::SetWindowWidth(change) => if selecting {
                redraw_after(Command::SetScreenshotWidth(change))
            } else {
                plain(LayoutOp::SetWindowWidth(None, change))
            },
            Action::SetWindowHeight(change) => if selecting {
                redraw_after(Command::SetScreenshotHeight(change))
            } else {
                plain(LayoutOp::SetWindowHeight(None, change))
            },
            Action::ShowHotkeyOverlay => ask(
                Question::ShowHotkeyOverlay,
                end(false, true),
                Plan::Done,
            ),
            Action::OpenOverview => ask(Question::OpenOverview, end(false, true), Plan::Done),
            Action::CloseOverview => ask(Question::CloseOverview, end(false, true), Plan::Done),
            Action::ToggleWindowRuleOpacity => toggle_rule_opacity(ctx.active_window),
            Action::ToggleWindowRuleOpacityById(id) => toggle_rule_opacity(
                find_workspace_window(ctx, id),
            ),
            Action::ToggleWindowUrgent(id) => match find_workspace_window(ctx, id) {
                Some(window) => redraw_after(Command::SetUrgent(window.id, !window.urgent)),
                None => end(false, true),
            },
            Action::SetWindowUrgent(id) => match find_workspace_window(ctx, id) {
                Some(window) => redraw_after(Command::SetUrgent(window.id, true)),
                None => end(false, true),
            },
            Action::UnsetWindowUrgent(id) => match find_workspace_window(ctx, id) {
                Some(window) => redraw_after(Command::SetUrgent(window.id, false)),
                None => end(false, true),
            },
            Action::LoadConfigFile(path) => if ctx.has_config_watcher {
                first(Command::LoadConfigFile(path), Plan::Done)
            } else {
                Plan::Done
            },
            _ => Plan::Done,
        }
    }

    /// Plans what an action leads to.
    ///
    /// In a locked session only a few actions lead to anything, unless the bind says otherwise.
    pub fn do_action(
        &self,
        ctx: &ActionContext,
        action: Action,
        allow_when_locked: bool,
    ) -> (r: Plan)
        requires
            self.niri.global_space.wf(),
        ensures
            r == permitted_plan(self.niri, *ctx, action, allow_when_locked),
    {
        if self.niri.is_locked() && !(allow_when_locked || allowed_when_locked(&action)) {
            return Plan::Done;
        }
        let action = match change_layout(action) {
            Ok(plan) => {
                return plan;
            },
            Err(action) => action,
        };
        let action = match change_window(ctx, action) {
            Ok(plan) => {
                return plan;
            },
            Err(action) => action,
        };
        let action = match change_focused(ctx, action) {
            Ok(plan) => {
                return plan;
            },
            Err(action) => action,
        };
        let action = match move_selection(self.niri.screenshot_ui.is_open(), action) {
            Ok(plan) => {
                return plan;
            },
            Err(action) => action,
        };
        let action = match self.cross_outputs(ctx, action) {
            Ok(plan) => {
                return plan;
            },
            Err(action) => action,
        };
        if let Some((verb, step)) = monitor_request_of(&action) {
            return self.to_monitor(ctx, verb, step);
        }
        let action = match act_on_workspace(ctx, action) {
            Ok(plan) => {
                return plan;
            },
            Err(action) => action,
        };
        let action = match act_on_named_output(ctx, self.niri.screenshot_ui.is_open(), action) {
            Ok(plan) => {
                return plan;
            },
            Err(action) => action,
        };
        self.act(ctx, action)
    }
}

/// Whether a plan leaves windows, workspaces and the focus alone, whatever the answers are.
pub open spec fn leaves_layout(plan: Plan) -> bool
    decreases plan,
{
    match plan {
        Plan::Done => true,
        Plan::Do(command, rest) => {
            &&& !(command is Layout || command is FocusOnWorkspace
                || command is SwitchWorkspaceOnMonitor || command is CloseWindow
                || command is SetUrgent || command is ToggleIgnoreOpacityRule)
            &&& leaves_layout(*rest)
        },
        Plan::Ask(question, yes, no) => {
            &&& question is ShowExitConfirmDialog || question is ShowHotkeyOverlay
                || question is WarpCursorToFocusCentered || question is IsActiveOutput
                || question is IsFocused
            &&& leaves_layout(*yes)
            &&& leaves_layout(*no)
        },
    }
}

/// Whether a plan does nothing but steer the screenshot selection.
pub open spec fn steers_only(plan: Plan) -> bool {
    match plan {
        Plan::Done => true,
        Plan::Do(command, rest) => match command {
            Command::MoveScreenshotSelection(_) | Command::SetScreenshotWidth(_)
            | Command::SetScreenshotHeight(_) => *rest == only(Command::QueueRedrawAll),
            Command::MoveCursorToOutput(output) => *rest == only(
                Command::MoveScreenshotToOutput(output),
            ),
            _ => false,
        },
        Plan::Ask(_, _, _) => false,
    }
}

/// While a screenshot is being selected, the actions that it gives a meaning of its own do nothing
/// else.
#[verifier::spinoff_prover]
#[verifier::rlimit(40)]
pub proof fn law_screenshot_is_steered(niri: Niri, ctx: ActionContext, action: Action)
    requires
        niri.screenshot_ui is Open,
        steers_screenshot(action),
    ensures
        steers_only(action_plan(niri, ctx, action)),
{
    let plan = action_plan(niri, ctx, action);
    if let Some((toward, op)) = selection_move(action) {
        assert(plan == then_redraw(Command::MoveScreenshotSelection(toward)));
    } else if let Some((toward, op)) = crossing_direction(action) {
        assert(plan == then_redraw(Command::MoveScreenshotSelection(toward)));
    } else if let Some((verb, step)) = monitor_request(action) {
        let found = niri.global_space.stepped(niri.screenshot_ui->selection_output, step);
        if let Some(output) = found {
            assert(plan == screenshot_to_output(output));
        }
    } else if names_output(action) {
        if let Some(output) = ctx.named_output {
            assert(plan == screenshot_to_output(output));
        }
    } else if let Action::SetWindowHeight(change) = action {
        assert(plan == then_redraw(Command::SetScreenshotHeight(change)));
    } else if let Action::SetWindowWidth(change) = action {
        assert(plan == then_redraw(Command::SetScreenshotWidth(change)));
    } else if let Action::SetColumnWidth(change) = action {
        assert(plan == then_redraw(Command::SetScreenshotWidth(change)));
    }
}

/// While a screenshot is being selected, the actions that are carried out leave the layout alone.
pub proof fn law_screenshot_shields_layout(niri: Niri, ctx: ActionContext, action: Action)
    requires
        niri.screenshot_ui is Open,
        works_during_screenshot(action),
    ensures
        leaves_layout(action_plan(niri, ctx, action)),
{
    reveal_with_fuel(leaves_layout, 4);
    let plan = action_plan(niri, ctx, action);
    if steers_screenshot(action) {
        law_screenshot_is_steered(niri, ctx, action);
        lemma_steering_leaves_layout(plan);
    } else {
        assert(plan == single_plan(ctx, true, action));
    }
}

proof fn lemma_steering_leaves_layout(plan: Plan)
    requires
        steers_only(plan),
    ensures
        leaves_layout(plan),
{
    reveal_with_fuel(leaves_layout, 4);
}

/// In a locked session, the actions that every bind may carry out leave the layout alone.
pub proof fn law_lock_shields_layout(niri: Niri, ctx: ActionContext, action: Action)
    requires
        works_when_locked(action),
    ensures
        leaves_layout(action_plan(niri, ctx, action)),
{
    reveal_with_fuel(leaves_layout, 4);
    assert(action_plan(niri, ctx, action) == single_plan(ctx, niri.screenshot_ui is Open, action));
}

} // verus!
