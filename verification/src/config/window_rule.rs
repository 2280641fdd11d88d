//! Rules for windows.
use vstd::prelude::*;

use crate::config::layout::DefaultPresetSize;
use crate::config::misc::opt_text;
use crate::config::rules::{
    BlockOutFrom, CornerRadius, FloatingPosition, Look, PopupsRule,
};
use crate::config::same::{all_same, same_opt_text, views, SameView};
use crate::geometry::FloatBits;
use crate::input::action::ColumnDisplay;

verus! {

/// What a rule looks at in a window. What is missing is not looked at.
#[derive(Debug)]
pub struct Match {
    /// A regular expression for the name of the application.
    pub app_id: Option<String>,
    /// A regular expression for the title.
    pub title: Option<String>,
    pub is_active: Option<bool>,
    pub is_focused: Option<bool>,
    pub is_active_in_column: Option<bool>,
    pub is_floating: Option<bool>,
    pub is_window_cast_target: Option<bool>,
    pub is_urgent: Option<bool>,
    pub at_startup: Option<bool>,
}

/// What is looked at, in the abstract.
#[verifier::ext_equal]
pub struct MatchView {
    pub app_id: Option<Seq<char>>,
    pub title: Option<Seq<char>>,
    pub is_active: Option<bool>,
    pub is_focused: Option<bool>,
    pub is_active_in_column: Option<bool>,
    pub is_floating: Option<bool>,
    pub is_window_cast_target: Option<bool>,
    pub is_urgent: Option<bool>,
    pub at_startup: Option<bool>,
}

impl View for Match {
    type V = MatchView;

    open spec fn view(&self) -> MatchView {
        MatchView {
            app_id: opt_text(self.app_id),
            title: opt_text(self.title),
            is_active: self.is_active,
            is_focused: self.is_focused,
            is_active_in_column: self.is_active_in_column,
            is_floating: self.is_floating,
            is_window_cast_target: self.is_window_cast_target,
            is_urgent: self.is_urgent,
            at_startup: self.at_startup,
        }
    }
}

impl SameView for Match {
    fn same(&self, other: &Match) -> (r: bool) {
        same_opt_text(&self.app_id, &other.app_id)
            && same_opt_text(&self.title, &other.title)
            && self.is_active == other.is_active
            && self.is_focused == other.is_focused
            && self.is_active_in_column == other.is_active_in_column
            && self.is_floating == other.is_floating
            && self.is_window_cast_target == other.is_window_cast_target
            && self.is_urgent == other.is_urgent
            && self.at_startup == other.at_startup
    }
}

/// A rule for the windows that one of the matches is for and none of the excludes.
#[derive(Debug)]
pub struct WindowRule {
    pub matches: Vec<Match>,
    pub excludes: Vec<Match>,
    pub default_column_width: Option<DefaultPresetSize>,
    pub default_window_height: Option<DefaultPresetSize>,
    pub open_on_output: Option<String>,
    pub open_on_workspace: Option<String>,
    pub open_maximized: Option<bool>,
    pub open_maximized_to_edges: Option<bool>,
    pub open_fullscreen: Option<bool>,
    pub open_floating: Option<bool>,
    pub open_focused: Option<bool>,
    pub min_width: Option<u16>,
    pub min_height: Option<u16>,
    pub max_width: Option<u16>,
    pub max_height: Option<u16>,
    pub focus_ring: Look,
    pub border: Look,
    pub shadow: Look,
    pub tab_indicator: Look,
    pub draw_border_with_background: Option<bool>,
    pub opacity: Option<u32>,
    pub geometry_corner_radius: Option<CornerRadius>,
    pub clip_to_geometry: Option<bool>,
    pub baba_is_float: Option<bool>,
    pub block_out_from: Option<BlockOutFrom>,
    pub variable_refresh_rate: Option<bool>,
    pub default_column_display: Option<ColumnDisplay>,
    pub default_floating_position: Option<FloatingPosition>,
    pub scroll_factor: Option<FloatBits>,
    pub tiled_state: Option<bool>,
    pub background_effect: Look,
    pub popups: PopupsRule,
    pub popups_background_effect: Look,
}

/// A rule in the abstract.
#[verifier::ext_equal]
pub struct WindowRuleView {
    pub matches: Seq<MatchView>,
    pub excludes: Seq<MatchView>,
    pub default_column_width: Option<DefaultPresetSize>,
    pub default_window_height: Option<DefaultPresetSize>,
    pub open_on_output: Option<Seq<char>>,
    pub open_on_workspace: Option<Seq<char>>,
    pub open_maximized: Option<bool>,
    pub open_maximized_to_edges: Option<bool>,
    pub open_fullscreen: Option<bool>,
    pub open_floating: Option<bool>,
    pub open_focused: Option<bool>,
    pub min_width: Option<u16>,
    pub min_height: Option<u16>,
    pub max_width: Option<u16>,
    pub max_height: Option<u16>,
    pub focus_ring: Seq<u64>,
    pub border: Seq<u64>,
    pub shadow: Seq<u64>,
    pub tab_indicator: Seq<u64>,
    pub draw_border_with_background: Option<bool>,
    pub opacity: Option<u32>,
    pub geometry_corner_radius: Option<CornerRadius>,
    pub clip_to_geometry: Option<bool>,
    pub baba_is_float: Option<bool>,
    pub block_out_from: Option<BlockOutFrom>,
    pub variable_refresh_rate: Option<bool>,
    pub default_column_display: Option<ColumnDisplay>,
    pub default_floating_position: Option<FloatingPosition>,
    pub scroll_factor: Option<FloatBits>,
    pub tiled_state: Option<bool>,
    pub background_effect: Seq<u64>,
    pub popups: PopupsRule,
    pub popups_background_effect: Seq<u64>,
}

impl View for WindowRule {
    type V = WindowRuleView;

    open spec fn view(&self) -> WindowRuleView {
        WindowRuleView {
            matches: views(self.matches@),
            excludes: views(self.excludes@),
            default_column_width: self.default_column_width,
            default_window_height: self.default_window_height,
            open_on_output: opt_text(self.open_on_output),
            open_on_workspace: opt_text(self.open_on_workspace),
            open_maximized: self.open_maximized,
            open_maximized_to_edges: self.open_maximized_to_edges,
            open_fullscreen: self.open_fullscreen,
            open_floating: self.open_floating,
            open_focused: self.open_focused,
            min_width: self.min_width,
            min_height: self.min_height,
            max_width: self.max_width,
            max_height: self.max_height,
            focus_ring: self.focus_ring@,
            border: self.border@,
            shadow: self.shadow@,
            tab_indicator: self.tab_indicator@,
            draw_border_with_background: self.draw_border_with_background,
            opacity: self.opacity,
            geometry_corner_radius: self.geometry_corner_radius,
            clip_to_geometry: self.clip_to_geometry,
            baba_is_float: self.baba_is_float,
            block_out_from: self.block_out_from,
            variable_refresh_rate: self.variable_refresh_rate,
            default_column_display: self.default_column_display,
            default_floating_position: self.default_floating_position,
            scroll_factor: self.scroll_factor,
            tiled_state: self.tiled_state,
            background_effect: self.background_effect@,
            popups: self.popups,
            popups_background_effect: self.popups_background_effect@,
        }
    }
}

impl SameView for WindowRule {
    fn same(&self, other: &WindowRule) -> (r: bool) {
        all_same(&self.matches, &other.matches)
            && all_same(&self.excludes, &other.excludes)
            && self.default_column_width == other.default_column_width
            && self.default_window_height == other.default_window_height
            && same_opt_text(&self.open_on_output, &other.open_on_output)
            && same_opt_text(&self.open_on_workspace, &other.open_on_workspace)
            && self.open_maximized == other.open_maximized
            && self.open_maximized_to_edges == other.open_maximized_to_edges
            && self.open_fullscreen == other.open_fullscreen
            && self.open_floating == other.open_floating
            && self.open_focused == other.open_focused
            && self.min_width == other.min_width
            && self.min_height == other.min_height
            && self.max_width == other.max_width
            && self.max_height == other.max_height
            && self.focus_ring.same(&other.focus_ring)
            && self.border.same(&other.border)
            && self.shadow.same(&other.shadow)
            && self.tab_indicator.same(&other.tab_indicator)
            && self.draw_border_with_background == other.draw_border_with_background
            && self.opacity == other.opacity
            && self.geometry_corner_radius == other.geometry_corner_radius
            && self.clip_to_geometry == other.clip_to_geometry
            && self.baba_is_float == other.baba_is_float
            && self.block_out_from == other.block_out_from
            && self.variable_refresh_rate == other.variable_refresh_rate
            && self.default_column_display == other.default_column_display
            && self.default_floating_position == other.default_floating_position
            && self.scroll_factor == other.scroll_factor
            && self.tiled_state == other.tiled_state
            && self.background_effect.same(&other.background_effect)
            && self.popups == other.popups
            && self.popups_background_effect.same(&other.popups_background_effect)
    }
}

} // verus!
