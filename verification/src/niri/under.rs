//! What would be activated at a point.
use vstd::prelude::*;

use crate::geometry::{Point, Size};
use crate::niri::depth::{
    any_hit, is_hit, law_pointer_finds_what_is_in_front, lemma_layer_catches,
};
use crate::niri::scene::{
    contents, layer_catches, layer_target, Layer, LayerView, OutputView, WindowHit, WindowUnder,
};
use crate::niri::Niri;

verus! {

/// Which corners of an output open the overview.
#[derive(Clone, Copy, Debug, PartialEq, Eq, Structural)]
pub struct HotCorners {
    pub off: bool,
    pub top_left: bool,
    pub top_right: bool,
    pub bottom_left: bool,
    pub bottom_right: bool,
}

impl HotCorners {
    /// Whether the top left corner counts: also where no corner is chosen.
    pub open spec fn top_left_active(self) -> bool {
        self.top_left || !(self.top_right || self.bottom_right || self.bottom_left)
    }

    /// Whether a pixel of an output is a hot corner.
    pub open spec fn has(self, size: Size, x: int, y: int) -> bool {
        !self.off && {
            ||| self.top_left_active() && x == 0 && y == 0
            ||| self.top_right && x == size.w - 1 && y == 0
            ||| self.bottom_left && x == 0 && y == size.h - 1
            ||| self.bottom_right && x == size.w - 1 && y == size.h - 1
        }
    }

    /// Whether a pixel of an output of some size is a hot corner.
    pub fn is_inside_hot_corner(&self, size: Size, pixel: Point) -> (r: bool)
        requires
            size.w > i32::MIN,
            size.h > i32::MIN,
        ensures
            r == self.has(size, pixel.x as int, pixel.y as int),
    {
        if self.off {
            return false;
        }
        let right: i32 = size.w - 1;
        let bottom: i32 = size.h - 1;
        if self.top_right && pixel.x == right && pixel.y == 0 {
            return true;
        }
        if self.bottom_left && pixel.x == 0 && pixel.y == bottom {
            return true;
        }
        if self.bottom_right && pixel.x == right && pixel.y == bottom {
            return true;
        }
        if (self.top_left || !(self.top_right || self.bottom_right || self.bottom_left)) && pixel.x
            == 0 && pixel.y == 0 {
            return true;
        }
        false
    }
}

/// Whether a mapped surface of a layer, or a pop-up of one, is under the point.
pub open spec fn layer_hit(layers: Seq<LayerView>, layer: Layer) -> bool {
    exists|i: int|
        0 <= i < layers.len() && (#[trigger] layers[i]).layer == layer && layers[i].mapped && (
        layers[i].popup_under is Some || layers[i].toplevel_under is Some)
}

/// Whether something that does not move with the workspaces covers the point.
pub open spec fn sticky_obscured(view: OutputView) -> bool {
    layer_hit(view.layers@, Layer::Overlay) || (!view.render_above_top_layer && (
    view.inside_hot_corner || layer_hit(view.layers@, Layer::Top)))
}

/// Whether a pop-up of a lower layer covers the windows at the point.
pub open spec fn layout_obscured(view: OutputView) -> bool {
    !view.overview_open && (layer_catches(view, Layer::Bottom, true) is Some || layer_catches(
        view,
        Layer::Background,
        true,
    ) is Some)
}

/// The window that would be activated at the point.
pub open spec fn activated_window(niri: Niri, view: OutputView) -> Option<WindowHit> {
    if niri.exit_confirm_dialog_open || niri.locked() || niri.screenshot_ui is Open
        || sticky_obscured(view) {
        None
    } else if view.moved_window_under is Some {
        view.moved_window_under
    } else if layout_obscured(view) {
        None
    } else {
        view.window_under
    }
}

fn any_layer_hit(layers: &Vec<LayerView>, layer: Layer) -> (r: bool)
    ensures
        r == layer_hit(layers@, layer),
{
    let mut i: usize = 0;
    while i < layers.len()
        invariant
            i <= layers.len(),
            forall|k: int|
                0 <= k < i ==> !((#[trigger] layers@[k]).layer == layer && layers@[k].mapped && (
                layers@[k].popup_under is Some || layers@[k].toplevel_under is Some)),
        decreases layers.len() - i,
    {
        let l = layers[i];
        if l.layer == layer && l.mapped && (l.popup_under.is_some() || l.toplevel_under.is_some()) {
            assert(layers@[i as int].layer == layer);
            return true;
        }
        i = i + 1;
    }
    false
}

impl Niri {
    /// Whether something that does not move with the workspaces covers the point.
    pub fn is_sticky_obscured_under(&self, view: &OutputView) -> (r: bool)
        ensures
            r == sticky_obscured(*view),
    {
        if any_layer_hit(&view.layers, Layer::Overlay) {
            return true;
        }
        if view.render_above_top_layer {
            return false;
        }
        if view.inside_hot_corner {
            return true;
        }
        any_layer_hit(&view.layers, Layer::Top)
    }

    /// Whether a pop-up of a lower layer covers the windows at the point.
    pub fn is_layout_obscured_under(&self, view: &OutputView) -> (r: bool)
        ensures
            r == layout_obscured(*view),
    {
        if view.overview_open {
            return false;
        }
        view.layer_surface_under(Layer::Bottom, true).is_some() || view.layer_surface_under(
            Layer::Background,
            true,
        ).is_some()
    }

    /// The output and the workspace that would be activated at a pixel; `workspace` is the one that
    /// the layout has there.
    pub fn workspace_under(
        &self,
        pixel: Point,
        view: &OutputView,
        workspace: Option<u64>,
    ) -> (r: Option<(u64, u64)>)
        ensures
            r == match (self.global_space.shown_on(pixel.x as int, pixel.y as int), workspace) {
                (Some(output), Some(ws)) => if self.exit_confirm_dialog_open || self.locked()
                    || self.screenshot_ui is Open || sticky_obscured(*view) || layout_obscured(
                    *view,
                ) {
                    None
                } else {
                    Some((output.id, ws))
                },
                _ => None,
            },
    {
        if self.exit_confirm_dialog_open || self.is_locked() || self.screenshot_ui.is_open() {
            return None;
        }
        let Some(output) = self.global_space.output_under(pixel) else {
            return None;
        };
        if self.is_sticky_obscured_under(view) {
            return None;
        }
        if self.is_layout_obscured_under(view) {
            return None;
        }
        match workspace {
            Some(ws) => Some((output.id, ws)),
            None => None,
        }
    }

    /// The window that would be activated at a pixel.
    ///
    /// The pixel may lie in the window's activation region and not in its input region.
    pub fn window_under(&self, pixel: Point, view: &OutputView) -> (r: Option<u64>)
        ensures
            r == match (
                self.global_space.shown_on(pixel.x as int, pixel.y as int),
                activated_window(*self, *view),
            ) {
                (Some(_), Some(hit)) => Some(hit.window),
                _ => None,
            },
    {
        if self.exit_confirm_dialog_open || self.is_locked() || self.screenshot_ui.is_open() {
            return None;
        }
        if self.global_space.output_under(pixel).is_none() {
            return None;
        }
        if self.is_sticky_obscured_under(view) {
            return None;
        }
        if let Some(hit) = view.moved_window_under {
            return Some(hit.window);
        }
        if self.is_layout_obscured_under(view) {
            return None;
        }
        match view.window_under {
            Some(hit) => Some(hit.window),
            None => None,
        }
    }
}

/// The window that a click would activate is the one that lies under the pointer.
pub proof fn law_activated_window_is_under(niri: Niri, output: u64, view: OutputView)
    requires
        view.wf(),
        activated_window(niri, view) is Some,
    ensures
        contents(niri, output, view).window == Some(
            WindowUnder {
                window: activated_window(niri, view)->0.window,
                hit: activated_window(niri, view)->0.hit,
            },
        ),
{
    view.lemma_desktop_target();
    assert forall|i: int|
        0 <= i < view.layers@.len() && (#[trigger] view.layers@[i]).layer == Layer::Overlay
            && view.layers@[i].mapped implies layer_target(view.layers@[i], true) is None
        && layer_target(view.layers@[i], false) is None by {}
    view.lemma_layer_silent(Layer::Overlay, true);
    view.lemma_layer_silent(Layer::Overlay, false);
    if !view.render_above_top_layer {
        view.lemma_layer_silent(Layer::Top, true);
        view.lemma_layer_silent(Layer::Top, false);
    }
}

/// The corners that are chosen are hot, each at its own corner of the output, and the top left one if none is
/// chosen. Nothing else is, and nothing at all is if they are off.
pub proof fn law_hot_corners(corners: HotCorners, size: Size, x: int, y: int)
    requires
        size.w > 1,
        size.h > 1,
    ensures
        ({
            let chosen = corners.top_left || corners.top_right || corners.bottom_left
                || corners.bottom_right;
            let left = x == 0;
            let right = x == size.w - 1;
            let top = y == 0;
            let bottom = y == size.h - 1;
            corners.has(size, x, y) <==> !corners.off && (top && left && (corners.top_left || !chosen)
                || top && right && corners.top_right || bottom && left && corners.bottom_left || bottom
                && right && corners.bottom_right)
        }),
{
}

/// A click activates the window that the pointer finds, wherever it finds one.
pub proof fn law_window_under_is_activated(niri: Niri, output: u64, view: OutputView)
    requires
        view.wf(),
        contents(niri, output, view).window is Some,
        forall|i: int|
            0 <= i < view.layers@.len() ==> !(#[trigger] view.layers@[i]).place_within_backdrop,
        !view.render_above_top_layer || !layout_obscured(view),
    ensures
        activated_window(niri, view) matches Some(window) && contents(niri, output, view).window
            == Some(WindowUnder { window: window.window, hit: window.hit }),
{
    law_pointer_finds_what_is_in_front(niri, output, view);
    lemma_hit(view, Layer::Overlay);
    lemma_hit(view, Layer::Top);
    lemma_layer_catches(view, Layer::Bottom, true);
    lemma_layer_catches(view, Layer::Background, true);
}

/// A layer is hit just if a surface or a pop-up of it is.
proof fn lemma_hit(view: OutputView, layer: Layer)
    requires
        forall|i: int|
            0 <= i < view.layers@.len() ==> !(#[trigger] view.layers@[i]).place_within_backdrop,
    ensures
        layer_hit(view.layers@, layer) <==> any_hit(view, layer, true) || any_hit(view, layer, false),
{
    if layer_hit(view.layers@, layer) {
        let i = choose|i: int|
            0 <= i < view.layers@.len() && (#[trigger] view.layers@[i]).layer == layer
                && view.layers@[i].mapped && (view.layers@[i].popup_under is Some
                || view.layers@[i].toplevel_under is Some);
        assert(is_hit(view.layers@[i], layer, true) || is_hit(view.layers@[i], layer, false));
    }
    if any_hit(view, layer, true) {
        let i = choose|i: int|
            0 <= i < view.layers@.len() && is_hit(#[trigger] view.layers@[i], layer, true);
        assert(view.layers@[i].layer == layer);
    }
    if any_hit(view, layer, false) {
        let i = choose|i: int|
            0 <= i < view.layers@.len() && is_hit(#[trigger] view.layers@[i], layer, false);
        assert(view.layers@[i].layer == layer);
    }
}

} // verus!
