//! What is in front of what.
use vstd::prelude::*;

use crate::niri::redraw::{state_index, states_unique};
use crate::niri::scene::{
    contents, desktop_order, drawn_layers, first_background, frontmost_layer, layer_catches,
    layer_target, lock_surface_of, normals, output_order, popups, render_order, top_layer_first,
    windows_first, workspace_normals, workspace_popups, HitType, Layer, LayerView, OutputView, PointContents, RenderStep, Target,
    WindowHit, WindowUnder,
};
use crate::niri::Niri;

verus! {

/// How far back a layer surface or its pop-ups are. `above` says whether the windows cover the top layer.
pub open spec fn layer_depth(layer: LayerView, popup: bool, above: bool) -> int {
    if layer.place_within_backdrop {
        if popup {
            31
        } else {
            32
        }
    } else {
        match (layer.layer, popup) {
            (Layer::Overlay, true) => 5,
            (Layer::Overlay, false) => 6,
            (Layer::Top, true) => if above {
                10
            } else {
                7
            },
            (Layer::Top, false) => if above {
                11
            } else {
                8
            },
            (Layer::Bottom, true) => if above {
                12
            } else {
                11
            },
            (Layer::Background, true) => if above {
                13
            } else {
                11
            },
            (Layer::Bottom, false) => 14,
            (Layer::Background, false) => if above {
                15
            } else {
                14
            },
        }
    }
}

/// How far back something is: the pointer is at the very front, then come what the compositor has to say,
/// the layers and the windows, and at the very back what fills the whole output.
pub open spec fn depth(step: RenderStep, above: bool) -> int {
    match step {
        RenderStep::Pointer => 0,
        RenderStep::ScreenTransition => 1,
        RenderStep::ExitConfirmDialog => 2,
        RenderStep::ConfigErrorNotification => 3,
        RenderStep::LockSurface(_) | RenderStep::ScreenshotUi | RenderStep::HotkeyOverlay => 4,
        RenderStep::LayerPopups { layer, .. } => layer_depth(layer, true, above),
        RenderStep::LayerNormal { layer, .. } => layer_depth(layer, false, above),
        RenderStep::MovedWindow => if above {
            7
        } else {
            9
        },
        RenderStep::InsertHint => if above {
            8
        } else {
            10
        },
        RenderStep::Workspaces { .. } => if above {
            9
        } else {
            12
        },
        RenderStep::WorkspaceBackground(_) => if above {
            16
        } else {
            14
        },
        RenderStep::WorkspaceShadows => 30,
        RenderStep::Backdrop | RenderStep::LockBackground => 33,
    }
}

/// Whether something fills the whole output, so that nothing behind it can be seen.
pub open spec fn fills_output(step: RenderStep) -> bool {
    step is Backdrop || step is LockBackground
}

/// Whether nothing is further back than what follows it.
pub open spec fn front_to_back(steps: Seq<RenderStep>, above: bool) -> bool {
    forall|i: int, j: int|
        0 <= i < j < steps.len() ==> depth(#[trigger] steps[i], above) <= depth(
            #[trigger] steps[j],
            above,
        )
}

/// Whether all is within a range of depths.
pub open spec fn between(steps: Seq<RenderStep>, above: bool, low: int, high: int) -> bool {
    forall|i: int| 0 <= i < steps.len() ==> low <= depth(#[trigger] steps[i], above) <= high
}

/// What is further back can follow.
proof fn lemma_join(
    a: Seq<RenderStep>,
    b: Seq<RenderStep>,
    above: bool,
    low: int,
    middle: int,
    high: int,
)
    requires
        front_to_back(a, above),
        front_to_back(b, above),
        between(a, above, low, middle),
        between(b, above, middle, high),
        low <= middle <= high,
    ensures
        front_to_back(a + b, above),
        between(a + b, above, low, high),
{
    let c = a + b;
    assert forall|i: int| 0 <= i < c.len() implies low <= depth(#[trigger] c[i], above) <= high by {
        if i < a.len() {
            assert(c[i] == a[i]);
        } else {
            assert(c[i] == b[i - a.len()]);
        }
    }
    assert forall|i: int, j: int| 0 <= i < j < c.len() implies depth(#[trigger] c[i], above)
        <= depth(#[trigger] c[j], above) by {
        if j < a.len() {
            assert(c[i] == a[i] && c[j] == a[j]);
        } else {
            assert(c[j] == b[j - a.len()]);
            if i < a.len() {
                assert(c[i] == a[i]);
            } else {
                assert(c[i] == b[i - a.len()]);
            }
        }
    }
}

/// What is all equally far back is in order.
proof fn lemma_level(steps: Seq<RenderStep>, above: bool, low: int, level: int, high: int)
    requires
        between(steps, above, level, level),
        low <= level <= high,
    ensures
        front_to_back(steps, above),
        between(steps, above, low, high),
{
}

/// The surfaces that are drawn are of the layer.
proof fn lemma_drawn(layers: Seq<LayerView>, layer: Layer, backdrop: bool)
    ensures
        forall|i: int|
            0 <= i < drawn_layers(layers, layer, backdrop).len() ==> {
                let l = #[trigger] drawn_layers(layers, layer, backdrop)[i];
                l.layer == layer && l.mapped && l.place_within_backdrop == backdrop
                    && layers.contains(l)
            },
    decreases layers.len(),
{
    if layers.len() > 0 {
        let shorter = layers.drop_last();
        lemma_drawn(shorter, layer, backdrop);
        let rest = drawn_layers(shorter, layer, backdrop);
        let all = drawn_layers(layers, layer, backdrop);
        assert(layers[layers.len() - 1] == layers.last());
        assert forall|i: int| 0 <= i < all.len() implies {
            let l = #[trigger] all[i];
            l.layer == layer && l.mapped && l.place_within_backdrop == backdrop && layers.contains(l)
        } by {
            if all.len() == rest.len() + 1 && i == 0 {
            } else {
                let k = if all.len() == rest.len() {
                    i
                } else {
                    i - 1
                };
                assert(all[i] == rest[k]);
                let n = shorter.index_of(rest[k]);
                assert(layers[n] == all[i]);
            }
        }
    }
}

/// All surfaces or pop-ups of one layer are equally far back.
proof fn lemma_layer_level(
    layers: Seq<LayerView>,
    layer: Layer,
    backdrop: bool,
    workspace: Option<u64>,
    above: bool,
)
    ensures
        ({
            let some = LayerView { layer, place_within_backdrop: backdrop, ..arbitrary() };
            let p = layer_depth(some, true, above);
            let n = layer_depth(some, false, above);
            &&& between(popups(layers, layer, backdrop, workspace), above, p, p)
            &&& between(normals(layers, layer, backdrop, workspace), above, n, n)
        }),
{
    lemma_drawn(layers, layer, backdrop);
    let drawn = drawn_layers(layers, layer, backdrop);
    let a = popups(layers, layer, backdrop, workspace);
    let b = normals(layers, layer, backdrop, workspace);
    assert forall|i: int| 0 <= i < a.len() implies #[trigger] a[i] == (RenderStep::LayerPopups {
        layer: drawn[i],
        workspace,
    }) by {}
    assert forall|i: int| 0 <= i < b.len() implies #[trigger] b[i] == (RenderStep::LayerNormal {
        layer: drawn[i],
        workspace,
    }) by {}
}

/// The pop-ups of the lower layers are equally far back on all workspaces.
proof fn lemma_workspace_popups_level(layers: Seq<LayerView>, workspaces: Seq<u64>)
    ensures
        between(workspace_popups(layers, workspaces), false, 11, 11),
    decreases workspaces.len(),
{
    if workspaces.len() > 0 {
        let ws = Some(workspaces.last());
        let a = workspace_popups(layers, workspaces.drop_last());
        let b = popups(layers, Layer::Bottom, false, ws);
        let c = popups(layers, Layer::Background, false, ws);
        lemma_workspace_popups_level(layers, workspaces.drop_last());
        lemma_layer_level(layers, Layer::Bottom, false, ws, false);
        lemma_layer_level(layers, Layer::Background, false, ws, false);
        lemma_join(a, b, false, 11, 11, 11);
        lemma_join(a + b, c, false, 11, 11, 11);
    }
}

/// The surfaces of the lower layers are equally far back on all workspaces.
proof fn lemma_workspace_normals_level(layers: Seq<LayerView>, workspaces: Seq<u64>)
    ensures
        between(workspace_normals(layers, workspaces), false, 14, 14),
    decreases workspaces.len(),
{
    if workspaces.len() > 0 {
        let ws = Some(workspaces.last());
        let a = workspace_normals(layers, workspaces.drop_last());
        let b = normals(layers, Layer::Bottom, false, ws);
        let c = normals(layers, Layer::Background, false, ws);
        let d = seq![RenderStep::WorkspaceBackground(workspaces.last())];
        lemma_workspace_normals_level(layers, workspaces.drop_last());
        lemma_layer_level(layers, Layer::Bottom, false, ws, false);
        lemma_layer_level(layers, Layer::Background, false, ws, false);
        lemma_join(a, b, false, 14, 14, 14);
        lemma_join(a + b, c, false, 14, 14, 14);
        lemma_join(a + b + c, d, false, 14, 14, 14);
    }
}

/// The windows and layers are in order.
proof fn lemma_desktop_depth(view: OutputView)
    ensures
        front_to_back(desktop_order(view), view.render_above_top_layer),
        between(desktop_order(view), view.render_above_top_layer, 5, 33),
        desktop_order(view).len() > 0,
        desktop_order(view).last() is Backdrop,
        forall|i: int|
            0 <= i < desktop_order(view).len() - 1 ==> depth(
                #[trigger] desktop_order(view)[i],
                view.render_above_top_layer,
            ) <= 32,
{
    let layers = view.layers@;
    let above = view.render_above_top_layer;
    lemma_layer_level(layers, Layer::Overlay, false, None, above);
    lemma_layer_level(layers, Layer::Top, false, None, above);
    lemma_layer_level(layers, Layer::Bottom, false, None, above);
    lemma_layer_level(layers, Layer::Background, false, None, above);
    lemma_layer_level(layers, Layer::Background, true, None, above);
    let p0 = popups(layers, Layer::Overlay, false, None);
    let n0 = normals(layers, Layer::Overlay, false, None);
    let p1 = popups(layers, Layer::Top, false, None);
    let n1 = normals(layers, Layer::Top, false, None);
    let overlay = p0 + n0;
    lemma_level(n0, above, 5, 6, 6);
    lemma_join(p0, n0, above, 5, 5, 6);
    let moved = seq![RenderStep::MovedWindow];
    let hint = seq![RenderStep::InsertHint];
    let windows = seq![RenderStep::Workspaces { focus_ring: !view.moving_above }];
    let front = if above {
        let p2 = popups(layers, Layer::Bottom, false, None);
        let p3 = popups(layers, Layer::Background, false, None);
        let n2 = normals(layers, Layer::Bottom, false, None);
        let n3 = normals(layers, Layer::Background, false, None);
        let last = first_background(view.workspaces@);
        let s1 = overlay + moved;
        lemma_level(moved, above, 6, 7, 7);
        lemma_join(overlay, moved, above, 5, 6, 7);
        let s2 = s1 + hint;
        lemma_level(hint, above, 7, 8, 8);
        lemma_join(s1, hint, above, 5, 7, 8);
        let s3 = s2 + windows;
        lemma_level(windows, above, 8, 9, 9);
        lemma_join(s2, windows, above, 5, 8, 9);
        let s4 = s3 + p1;
        lemma_level(p1, above, 9, 10, 10);
        lemma_join(s3, p1, above, 5, 9, 10);
        let s5 = s4 + n1;
        lemma_level(n1, above, 10, 11, 11);
        lemma_join(s4, n1, above, 5, 10, 11);
        let s6 = s5 + p2;
        lemma_level(p2, above, 11, 12, 12);
        lemma_join(s5, p2, above, 5, 11, 12);
        let s7 = s6 + p3;
        lemma_level(p3, above, 12, 13, 13);
        lemma_join(s6, p3, above, 5, 12, 13);
        let s8 = s7 + n2;
        lemma_level(n2, above, 13, 14, 14);
        lemma_join(s7, n2, above, 5, 13, 14);
        let s9 = s8 + n3;
        lemma_level(n3, above, 14, 15, 15);
        lemma_join(s8, n3, above, 5, 14, 15);
        lemma_level(last, above, 15, 16, 30);
        lemma_join(s9, last, above, 5, 15, 30);
        assert(s9 + last == windows_first(overlay, view));
        s9 + last
    } else {
        let wp = workspace_popups(layers, view.workspaces@);
        let wn = workspace_normals(layers, view.workspaces@);
        lemma_workspace_popups_level(layers, view.workspaces@);
        lemma_workspace_normals_level(layers, view.workspaces@);
        let s1 = overlay + p1;
        lemma_level(p1, above, 6, 7, 7);
        lemma_join(overlay, p1, above, 5, 6, 7);
        let s2 = s1 + n1;
        lemma_level(n1, above, 7, 8, 8);
        lemma_join(s1, n1, above, 5, 7, 8);
        let s3 = s2 + moved;
        lemma_level(moved, above, 8, 9, 9);
        lemma_join(s2, moved, above, 5, 8, 9);
        let s4 = s3 + hint;
        lemma_level(hint, above, 9, 10, 10);
        lemma_join(s3, hint, above, 5, 9, 10);
        let s5 = s4 + wp;
        lemma_level(wp, above, 10, 11, 11);
        lemma_join(s4, wp, above, 5, 10, 11);
        let s6 = s5 + windows;
        lemma_level(windows, above, 11, 12, 12);
        lemma_join(s5, windows, above, 5, 11, 12);
        lemma_level(wn, above, 12, 14, 30);
        lemma_join(s6, wn, above, 5, 12, 30);
        assert(s6 + wn == top_layer_first(overlay, view));
        s6 + wn
    };
    let shadows = seq![RenderStep::WorkspaceShadows];
    let p = popups(layers, Layer::Background, true, None);
    let n = normals(layers, Layer::Background, true, None);
    let backdrop = seq![RenderStep::Backdrop];
    lemma_join(front, shadows, above, 5, 30, 30);
    lemma_level(p, above, 30, 31, 31);
    lemma_join(front + shadows, p, above, 5, 30, 31);
    lemma_level(n, above, 31, 32, 32);
    let all = front + shadows + p + n;
    lemma_join(front + shadows + p, n, above, 5, 31, 32);
    lemma_level(backdrop, above, 32, 33, 33);
    lemma_join(all, backdrop, above, 5, 32, 33);
    assert(all + backdrop == desktop_order(view));
    assert forall|i: int| 0 <= i < desktop_order(view).len() - 1 implies depth(
        #[trigger] desktop_order(view)[i],
        above,
    ) <= 32 by {
        assert(desktop_order(view)[i] == all[i]);
    }
}

/// What is in front of all else, whatever the session shows.
proof fn lemma_front_depth(show_pointer: bool, transition: bool, above: bool) -> (front: Seq<RenderStep>)
    ensures
        front == (if show_pointer {
            seq![RenderStep::Pointer]
        } else {
            Seq::empty()
        }) + (if transition {
            seq![RenderStep::ScreenTransition]
        } else {
            Seq::empty()
        }) + seq![RenderStep::ExitConfirmDialog, RenderStep::ConfigErrorNotification],
        front_to_back(front, above),
        between(front, above, 0, 3),
{
    let pointer = if show_pointer {
        seq![RenderStep::Pointer]
    } else {
        Seq::empty()
    };
    let fade = if transition {
        seq![RenderStep::ScreenTransition]
    } else {
        Seq::empty()
    };
    let own = seq![RenderStep::ExitConfirmDialog, RenderStep::ConfigErrorNotification];
    lemma_join(pointer, fade, above, 0, 1, 1);
    lemma_join(pointer + fade, own, above, 0, 1, 3);
    pointer + fade + own
}

/// Whether steps end with something that fills the output, and hold nothing else of the kind.
pub open spec fn ends_filled(steps: Seq<RenderStep>) -> bool {
    &&& steps.len() > 0
    &&& forall|i: int|
        0 <= i < steps.len() ==> (fills_output(#[trigger] steps[i]) <==> i == steps.len() - 1)
}

/// What a session shows behind that, put after it.
proof fn lemma_whole(front: Seq<RenderStep>, back: Seq<RenderStep>, above: bool)
    requires
        front_to_back(front, above),
        between(front, above, 0, 3),
        front_to_back(back, above),
        between(back, above, 4, 33),
        ends_filled(back),
    ensures
        front_to_back(front + back, above),
        ends_filled(front + back),
        (front + back).last() == back.last(),
{
    assert(between(back, above, 3, 33));
    lemma_join(front, back, above, 0, 3, 33);
    let all = front + back;
    assert forall|i: int| 0 <= i < all.len() implies (fills_output(#[trigger] all[i]) <==> i
        == all.len() - 1) by {
        if i < front.len() {
            assert(all[i] == front[i]);
        } else {
            assert(all[i] == back[i - front.len()]);
        }
    }
}

/// The unlocked desktop is in order.
proof fn lemma_desktop_ends(view: OutputView)
    ensures
        ({
            let back = seq![RenderStep::HotkeyOverlay] + desktop_order(view);
            &&& front_to_back(back, view.render_above_top_layer)
            &&& between(back, view.render_above_top_layer, 4, 33)
            &&& ends_filled(back)
            &&& back.last() is Backdrop
        }),
{
    let above = view.render_above_top_layer;
    let overlay = seq![RenderStep::HotkeyOverlay];
    let desktop = desktop_order(view);
    let back = overlay + desktop;
    lemma_desktop_depth(view);
    assert(between(desktop, above, 4, 33));
    lemma_join(overlay, desktop, above, 4, 4, 33);
    assert forall|i: int| 0 <= i < back.len() implies (fills_output(#[trigger] back[i]) <==> i
        == back.len() - 1) by {
        if i > 0 {
            assert(back[i] == desktop[i - 1]);
        }
    }
}

/// An output is drawn from front to back. What fills the whole output comes last and nothing else does,
/// so that all the rest can be seen: in a locked session, the lock surface on its background.
pub proof fn law_drawn_front_to_back(
    niri: Niri,
    view: OutputView,
    show_pointer: bool,
    transition: bool,
    lock_surface: Option<u64>,
)
    ensures
        ({
            let order = render_order(niri, view, show_pointer, transition, lock_surface);
            &&& front_to_back(order, view.render_above_top_layer)
            &&& order.len() > 0
            &&& forall|i: int|
                0 <= i < order.len() ==> (fills_output(#[trigger] order[i]) <==> i == order.len()
                    - 1)
            &&& order.last() is LockBackground == niri.locked()
        }),
{
    let above = view.render_above_top_layer;
    let front = lemma_front_depth(show_pointer, transition, above);
    let order = render_order(niri, view, show_pointer, transition, lock_surface);
    let back = if niri.locked() {
        (match lock_surface {
            Some(surface) => seq![RenderStep::LockSurface(surface)],
            None => Seq::empty(),
        }) + seq![RenderStep::LockBackground]
    } else if niri.screenshot_ui is Open {
        seq![RenderStep::ScreenshotUi, RenderStep::Backdrop]
    } else {
        lemma_desktop_ends(view);
        seq![RenderStep::HotkeyOverlay] + desktop_order(view)
    };
    assert(order == front + back);
    lemma_whole(front, back, above);
}

/// What is in two lists of steps.
proof fn lemma_in_either(a: Seq<RenderStep>, b: Seq<RenderStep>, step: RenderStep)
    ensures
        (a + b).contains(step) <==> a.contains(step) || b.contains(step),
{
    if a.contains(step) {
        assert((a + b)[a.index_of(step)] == step);
    }
    if b.contains(step) {
        assert((a + b)[a.len() + b.index_of(step)] == step);
    }
    if (a + b).contains(step) {
        let i = (a + b).index_of(step);
        if i < a.len() {
            assert(a[i] == step);
        } else {
            assert(b[i - a.len()] == step);
        }
    }
}

/// What is in a list of one step.
proof fn lemma_in_one(only: RenderStep, step: RenderStep)
    ensures
        seq![only].contains(step) <==> step == only,
{
    assert(seq![only][0] == only);
}

/// The surfaces that are drawn are all of the layer that have contents.
proof fn lemma_all_drawn(layers: Seq<LayerView>, layer: Layer, backdrop: bool, l: LayerView)
    ensures
        drawn_layers(layers, layer, backdrop).contains(l) <==> layers.contains(l) && l.layer == layer
            && l.mapped && l.place_within_backdrop == backdrop,
    decreases layers.len(),
{
    lemma_drawn(layers, layer, backdrop);
    if layers.len() > 0 {
        let shorter = layers.drop_last();
        let rest = drawn_layers(shorter, layer, backdrop);
        let all = drawn_layers(layers, layer, backdrop);
        lemma_all_drawn(shorter, layer, backdrop, l);
        if layers.contains(l) && l.layer == layer && l.mapped && l.place_within_backdrop == backdrop {
            if l == layers.last() {
                assert(all[0] == l);
            } else {
                let i = layers.index_of(l);
                assert(shorter[i] == l);
                let k = rest.index_of(l);
                assert(all.len() == rest.len() || all[k + 1] == l);
                assert(all.contains(l));
            }
        }
    }
}

/// The steps for a layer are those of its surfaces.
proof fn lemma_layer_members(
    layers: Seq<LayerView>,
    layer: Layer,
    backdrop: bool,
    workspace: Option<u64>,
    step: RenderStep,
)
    ensures
        popups(layers, layer, backdrop, workspace).contains(step) <==> (step matches
            RenderStep::LayerPopups { layer: l, workspace: w } && w == workspace && layers.contains(l)
            && l.layer == layer && l.mapped && l.place_within_backdrop == backdrop),
        normals(layers, layer, backdrop, workspace).contains(step) <==> (step matches
            RenderStep::LayerNormal { layer: l, workspace: w } && w == workspace && layers.contains(l)
            && l.layer == layer && l.mapped && l.place_within_backdrop == backdrop),
{
    let drawn = drawn_layers(layers, layer, backdrop);
    let a = popups(layers, layer, backdrop, workspace);
    let b = normals(layers, layer, backdrop, workspace);
    assert forall|i: int| 0 <= i < a.len() implies #[trigger] a[i] == (RenderStep::LayerPopups {
        layer: drawn[i],
        workspace,
    }) by {}
    assert forall|i: int| 0 <= i < b.len() implies #[trigger] b[i] == (RenderStep::LayerNormal {
        layer: drawn[i],
        workspace,
    }) by {}
    match step {
        RenderStep::LayerPopups { layer: l, workspace: w } => {
            lemma_all_drawn(layers, layer, backdrop, l);
            if a.contains(step) {
                assert(drawn[a.index_of(step)] == l);
            }
            if drawn.contains(l) && w == workspace {
                assert(a[drawn.index_of(l)] == step);
            }
        },
        RenderStep::LayerNormal { layer: l, workspace: w } => {
            lemma_all_drawn(layers, layer, backdrop, l);
            if b.contains(step) {
                assert(drawn[b.index_of(step)] == l);
            }
            if drawn.contains(l) && w == workspace {
                assert(b[drawn.index_of(l)] == step);
            }
        },
        _ => {},
    }
}

/// Whether a surface is one of a lower layer that moves along with its workspace.
pub open spec fn is_lower(l: LayerView) -> bool {
    (l.layer == Layer::Bottom || l.layer == Layer::Background) && !l.place_within_backdrop
}

/// The pop-ups of the lower layers are drawn on every workspace.
proof fn lemma_workspace_popups_members(
    layers: Seq<LayerView>,
    workspaces: Seq<u64>,
    step: RenderStep,
)
    ensures
        workspace_popups(layers, workspaces).contains(step) <==> (step matches
            RenderStep::LayerPopups { layer: l, workspace: Some(w) } && workspaces.contains(w)
            && layers.contains(l) && l.mapped && is_lower(l)),
    decreases workspaces.len(),
{
    if workspaces.len() > 0 {
        let shorter = workspaces.drop_last();
        let last = workspaces.last();
        let ws = Some(last);
        let a = workspace_popups(layers, shorter);
        let b = popups(layers, Layer::Bottom, false, ws);
        let c = popups(layers, Layer::Background, false, ws);
        lemma_workspace_popups_members(layers, shorter, step);
        lemma_layer_members(layers, Layer::Bottom, false, ws, step);
        lemma_layer_members(layers, Layer::Background, false, ws, step);
        lemma_in_either(a, b, step);
        lemma_in_either(a + b, c, step);
        lemma_one_more(workspaces, step);
    }
}

/// The surfaces of the lower layers are drawn on every workspace, each on its background.
proof fn lemma_workspace_normals_members(
    layers: Seq<LayerView>,
    workspaces: Seq<u64>,
    step: RenderStep,
)
    ensures
        workspace_normals(layers, workspaces).contains(step) <==> {
            ||| step matches RenderStep::LayerNormal { layer: l, workspace: Some(w) }
                && workspaces.contains(w) && layers.contains(l) && l.mapped && is_lower(l)
            ||| step matches RenderStep::WorkspaceBackground(w) && workspaces.contains(w)
        },
    decreases workspaces.len(),
{
    if workspaces.len() > 0 {
        let shorter = workspaces.drop_last();
        let last = workspaces.last();
        let ws = Some(last);
        let a = workspace_normals(layers, shorter);
        let b = normals(layers, Layer::Bottom, false, ws);
        let c = normals(layers, Layer::Background, false, ws);
        let d = RenderStep::WorkspaceBackground(last);
        lemma_workspace_normals_members(layers, shorter, step);
        lemma_layer_members(layers, Layer::Bottom, false, ws, step);
        lemma_layer_members(layers, Layer::Background, false, ws, step);
        lemma_in_either(a, b, step);
        lemma_in_either(a + b, c, step);
        lemma_in_either(a + b + c, seq![d], step);
        lemma_in_one(d, step);
        lemma_one_more(workspaces, step);
    }
}

/// Which workspace a step belongs to.
pub open spec fn workspace_of(step: RenderStep) -> Option<u64> {
    match step {
        RenderStep::LayerPopups { workspace, .. } => workspace,
        RenderStep::LayerNormal { workspace, .. } => workspace,
        RenderStep::WorkspaceBackground(w) => Some(w),
        _ => None,
    }
}

/// A workspace is the last or one of those before.
proof fn lemma_one_more(workspaces: Seq<u64>, step: RenderStep)
    requires
        workspaces.len() > 0,
    ensures
        workspace_of(step) matches Some(w) ==> (workspaces.contains(w) <==> workspaces.last() == w
            || workspaces.drop_last().contains(w)),
{
    if let Some(w) = workspace_of(step) {
        let shorter = workspaces.drop_last();
        assert(workspaces[workspaces.len() - 1] == workspaces.last());
        if shorter.contains(w) {
            assert(workspaces[shorter.index_of(w)] == w);
        }
        if workspaces.contains(w) && workspaces.last() != w {
            assert(shorter[workspaces.index_of(w)] == w);
        }
    }
}

/// Whether a layer surface is drawn with a workspace: one of the upper layers is drawn once, and one of
/// the lower layers on every workspace, unless the windows cover the top layer, when there is just one.
pub open spec fn layer_is_drawn(view: OutputView, l: LayerView, workspace: Option<u64>) -> bool {
    &&& view.layers@.contains(l)
    &&& l.mapped
    &&& l.place_within_backdrop ==> l.layer == Layer::Background
    &&& if is_lower(l) && !view.render_above_top_layer {
        workspace matches Some(w) && view.workspaces@.contains(w)
    } else {
        workspace is None
    }
}

/// Whether something is drawn on the desktop of an unlocked session.
pub open spec fn desktop_shows(view: OutputView, step: RenderStep) -> bool {
    match step {
        RenderStep::LayerPopups { layer, workspace } => layer_is_drawn(view, layer, workspace),
        RenderStep::LayerNormal { layer, workspace } => layer_is_drawn(view, layer, workspace),
        RenderStep::MovedWindow | RenderStep::InsertHint | RenderStep::WorkspaceShadows
        | RenderStep::Backdrop => true,
        RenderStep::Workspaces { focus_ring } => focus_ring == !view.moving_above,
        RenderStep::WorkspaceBackground(w) => view.workspaces@.contains(w) && (
        view.render_above_top_layer ==> w == view.workspaces@[0]),
        _ => false,
    }
}

/// What is drawn on the desktop.
proof fn lemma_desktop_members(view: OutputView, step: RenderStep)
    ensures
        desktop_order(view).contains(step) <==> desktop_shows(view, step),
{
    let layers = view.layers@;
    let above = view.render_above_top_layer;
    lemma_layer_members(layers, Layer::Overlay, false, None, step);
    lemma_layer_members(layers, Layer::Top, false, None, step);
    lemma_layer_members(layers, Layer::Bottom, false, None, step);
    lemma_layer_members(layers, Layer::Background, false, None, step);
    lemma_layer_members(layers, Layer::Background, true, None, step);
    let p0 = popups(layers, Layer::Overlay, false, None);
    let n0 = normals(layers, Layer::Overlay, false, None);
    let p1 = popups(layers, Layer::Top, false, None);
    let n1 = normals(layers, Layer::Top, false, None);
    let overlay = p0 + n0;
    lemma_in_either(p0, n0, step);
    let ring = RenderStep::Workspaces { focus_ring: !view.moving_above };
    let moved = seq![RenderStep::MovedWindow];
    let hint = seq![RenderStep::InsertHint];
    let windows = seq![ring];
    lemma_in_one(RenderStep::MovedWindow, step);
    lemma_in_one(RenderStep::InsertHint, step);
    lemma_in_one(ring, step);
    lemma_in_one(RenderStep::WorkspaceShadows, step);
    lemma_in_one(RenderStep::Backdrop, step);
    let front = if above {
        let p2 = popups(layers, Layer::Bottom, false, None);
        let p3 = popups(layers, Layer::Background, false, None);
        let n2 = normals(layers, Layer::Bottom, false, None);
        let n3 = normals(layers, Layer::Background, false, None);
        let last = first_background(view.workspaces@);
        lemma_in_either(overlay, moved, step);
        lemma_in_either(overlay + moved, hint, step);
        lemma_in_either(overlay + moved + hint, windows, step);
        let s3 = overlay + moved + hint + windows;
        lemma_in_either(s3, p1, step);
        lemma_in_either(s3 + p1, n1, step);
        let s5 = s3 + p1 + n1;
        lemma_in_either(s5, p2, step);
        lemma_in_either(s5 + p2, p3, step);
        lemma_in_either(s5 + p2 + p3, n2, step);
        let s8 = s5 + p2 + p3 + n2;
        lemma_in_either(s8, n3, step);
        lemma_in_either(s8 + n3, last, step);
        if view.workspaces@.len() > 0 {
            lemma_in_one(RenderStep::WorkspaceBackground(view.workspaces@[0]), step);
            assert(view.workspaces@.contains(view.workspaces@[0]));
        }
        assert(s8 + n3 + last == windows_first(overlay, view));
        s8 + n3 + last
    } else {
        let wp = workspace_popups(layers, view.workspaces@);
        let wn = workspace_normals(layers, view.workspaces@);
        lemma_workspace_popups_members(layers, view.workspaces@, step);
        lemma_workspace_normals_members(layers, view.workspaces@, step);
        lemma_in_either(overlay, p1, step);
        lemma_in_either(overlay + p1, n1, step);
        let s2 = overlay + p1 + n1;
        lemma_in_either(s2, moved, step);
        lemma_in_either(s2 + moved, hint, step);
        let s4 = s2 + moved + hint;
        lemma_in_either(s4, wp, step);
        lemma_in_either(s4 + wp, windows, step);
        lemma_in_either(s4 + wp + windows, wn, step);
        assert(s4 + wp + windows + wn == top_layer_first(overlay, view));
        s4 + wp + windows + wn
    };
    let shadows = seq![RenderStep::WorkspaceShadows];
    let p = popups(layers, Layer::Background, true, None);
    let n = normals(layers, Layer::Background, true, None);
    let backdrop = seq![RenderStep::Backdrop];
    lemma_in_either(front, shadows, step);
    lemma_in_either(front + shadows, p, step);
    lemma_in_either(front + shadows + p, n, step);
    lemma_in_either(front + shadows + p + n, backdrop, step);
    assert(front + shadows + p + n + backdrop == desktop_order(view));
}

/// All that there is to be seen is drawn, and nothing else is: in a locked session just the lock surface
/// of the output, in a screenshot selection just the selection, and else the desktop. The pointer and
/// what the compositor has to say are there in any case.
pub proof fn law_what_is_drawn(
    niri: Niri,
    view: OutputView,
    show_pointer: bool,
    transition: bool,
    lock_surface: Option<u64>,
    step: RenderStep,
)
    ensures
        render_order(niri, view, show_pointer, transition, lock_surface).contains(step) <==> {
            let selecting = niri.screenshot_ui is Open;
            match step {
                RenderStep::Pointer => show_pointer,
                RenderStep::ScreenTransition => transition,
                RenderStep::ExitConfirmDialog | RenderStep::ConfigErrorNotification => true,
                RenderStep::LockSurface(surface) => niri.locked() && lock_surface == Some(surface),
                RenderStep::LockBackground => niri.locked(),
                RenderStep::ScreenshotUi => !niri.locked() && selecting,
                RenderStep::HotkeyOverlay => !niri.locked() && !selecting,
                RenderStep::Backdrop => !niri.locked(),
                _ => !niri.locked() && !selecting && desktop_shows(view, step),
            }
        },
{
    let order = render_order(niri, view, show_pointer, transition, lock_surface);
    let pointer = if show_pointer {
        seq![RenderStep::Pointer]
    } else {
        Seq::empty()
    };
    let fade = if transition {
        seq![RenderStep::ScreenTransition]
    } else {
        Seq::empty()
    };
    let own = seq![RenderStep::ExitConfirmDialog, RenderStep::ConfigErrorNotification];
    lemma_in_one(RenderStep::Pointer, step);
    lemma_in_one(RenderStep::ScreenTransition, step);
    assert(own =~= seq![RenderStep::ExitConfirmDialog] + seq![RenderStep::ConfigErrorNotification]);
    lemma_in_one(RenderStep::ExitConfirmDialog, step);
    lemma_in_one(RenderStep::ConfigErrorNotification, step);
    lemma_in_either(
        seq![RenderStep::ExitConfirmDialog],
        seq![RenderStep::ConfigErrorNotification],
        step,
    );
    lemma_in_either(pointer, fade, step);
    lemma_in_either(pointer + fade, own, step);
    let front = pointer + fade + own;
    if niri.locked() {
        let surface = match lock_surface {
            Some(surface) => seq![RenderStep::LockSurface(surface)],
            None => Seq::empty(),
        };
        if lock_surface is Some {
            lemma_in_one(RenderStep::LockSurface(lock_surface->0), step);
        }
        lemma_in_one(RenderStep::LockBackground, step);
        lemma_in_either(surface, seq![RenderStep::LockBackground], step);
        lemma_in_either(front, surface + seq![RenderStep::LockBackground], step);
        assert(order == front + (surface + seq![RenderStep::LockBackground]));
    } else if niri.screenshot_ui is Open {
        let ui = seq![RenderStep::ScreenshotUi, RenderStep::Backdrop];
        assert(ui =~= seq![RenderStep::ScreenshotUi] + seq![RenderStep::Backdrop]);
        lemma_in_one(RenderStep::ScreenshotUi, step);
        lemma_in_one(RenderStep::Backdrop, step);
        lemma_in_either(seq![RenderStep::ScreenshotUi], seq![RenderStep::Backdrop], step);
        lemma_in_either(front, ui, step);
        assert(order == front + ui);
    } else {
        let overlay = seq![RenderStep::HotkeyOverlay];
        lemma_in_one(RenderStep::HotkeyOverlay, step);
        lemma_desktop_members(view, step);
        lemma_in_either(overlay, desktop_order(view), step);
        lemma_in_either(front, overlay + desktop_order(view), step);
        assert(order == front + (overlay + desktop_order(view)));
    }
}

/// Of two surfaces on one layer, the later one is in front of the earlier one.
pub proof fn law_later_surface_is_in_front(
    layers: Seq<LayerView>,
    layer: Layer,
    backdrop: bool,
    i: int,
    j: int,
) -> (places: (int, int))
    requires
        0 <= i < j < layers.len(),
        layers[i].layer == layer && layers[i].mapped && layers[i].place_within_backdrop == backdrop,
        layers[j].layer == layer && layers[j].mapped && layers[j].place_within_backdrop == backdrop,
    ensures
        ({
            let drawn = drawn_layers(layers, layer, backdrop);
            &&& 0 <= places.0 < places.1 < drawn.len()
            &&& drawn[places.0] == layers[j]
            &&& drawn[places.1] == layers[i]
        }),
    decreases layers.len(),
{
    let shorter = layers.drop_last();
    let rest = drawn_layers(shorter, layer, backdrop);
    if j == layers.len() - 1 {
        lemma_all_drawn(shorter, layer, backdrop, layers[i]);
        assert(shorter[i] == layers[i]);
        let k = rest.index_of(layers[i]);
        assert(drawn_layers(layers, layer, backdrop)[k + 1] == rest[k]);
        (0, k + 1)
    } else {
        let (p, q) = law_later_surface_is_in_front(shorter, layer, backdrop, i, j);
        if drawn_layers(layers, layer, backdrop).len() == rest.len() {
            (p, q)
        } else {
            assert(drawn_layers(layers, layer, backdrop)[p + 1] == rest[p]);
            assert(drawn_layers(layers, layer, backdrop)[q + 1] == rest[q]);
            (p + 1, q + 1)
        }
    }
}

/// How far back something of a lower layer is on its workspace.
pub open spec fn depth_on_workspace(step: RenderStep) -> int {
    match step {
        RenderStep::LayerPopups { layer, .. } => if layer.layer == Layer::Bottom {
            0
        } else {
            1
        },
        RenderStep::LayerNormal { layer, .. } => if layer.layer == Layer::Bottom {
            2
        } else {
            3
        },
        _ => 4,
    }
}

/// Whether what belongs to one workspace is in order.
pub open spec fn in_order_on_workspaces(steps: Seq<RenderStep>) -> bool {
    forall|i: int, j: int|
        0 <= i < j < steps.len() && workspace_of(#[trigger] steps[i]) == workspace_of(
            #[trigger] steps[j],
        ) ==> depth_on_workspace(steps[i]) <= depth_on_workspace(steps[j])
}

/// On every workspace the bottom layer is in front of the background layer, and that is in front of the
/// background of the workspace.
pub proof fn law_lower_layers_front_to_back(layers: Seq<LayerView>, workspaces: Seq<u64>)
    requires
        workspaces.no_duplicates(),
    ensures
        in_order_on_workspaces(workspace_popups(layers, workspaces)),
        in_order_on_workspaces(workspace_normals(layers, workspaces)),
    decreases workspaces.len(),
{
    if workspaces.len() > 0 {
        let shorter = workspaces.drop_last();
        let last = workspaces.last();
        let ws = Some(last);
        law_lower_layers_front_to_back(layers, shorter);
        assert(!shorter.contains(last)) by {
            if shorter.contains(last) {
                assert(workspaces[shorter.index_of(last)] == workspaces[workspaces.len() - 1]);
            }
        }
        let a = workspace_popups(layers, shorter);
        let b = popups(layers, Layer::Bottom, false, ws);
        let c = popups(layers, Layer::Background, false, ws);
        let all = workspace_popups(layers, workspaces);
        assert forall|i: int, j: int|
            0 <= i < j < all.len() && workspace_of(#[trigger] all[i]) == workspace_of(
                #[trigger] all[j],
            ) implies depth_on_workspace(all[i]) <= depth_on_workspace(all[j]) by {
            lemma_block(true, layers, a, b, c, shorter, last, i);
            lemma_block(true, layers, a, b, c, shorter, last, j);
        }
        let d = workspace_normals(layers, shorter);
        let e = normals(layers, Layer::Bottom, false, ws);
        let f = normals(layers, Layer::Background, false, ws);
        let g = seq![RenderStep::WorkspaceBackground(last)];
        let rest = workspace_normals(layers, workspaces);
        assert forall|i: int, j: int|
            0 <= i < j < rest.len() && workspace_of(#[trigger] rest[i]) == workspace_of(
                #[trigger] rest[j],
            ) implies depth_on_workspace(rest[i]) <= depth_on_workspace(rest[j]) by {
            lemma_block(false, layers, d, e, f, shorter, last, i);
            lemma_block(false, layers, d, e, f, shorter, last, j);
        }
    }
}

/// Whether a step is of a layer.
pub open spec fn is_of(step: RenderStep, layer: Layer) -> bool {
    match step {
        RenderStep::LayerPopups { layer: l, .. } => l.layer == layer,
        RenderStep::LayerNormal { layer: l, .. } => l.layer == layer,
        _ => false,
    }
}

/// What is known of a step by its place: those before belong to other workspaces, and then come the
/// bottom layer and the background layer.
proof fn lemma_block(
    popup: bool,
    layers: Seq<LayerView>,
    a: Seq<RenderStep>,
    b: Seq<RenderStep>,
    c: Seq<RenderStep>,
    shorter: Seq<u64>,
    last: u64,
    i: int,
)
    requires
        if popup {
            a == workspace_popups(layers, shorter) && b == popups(
                layers,
                Layer::Bottom,
                false,
                Some(last),
            ) && c == popups(layers, Layer::Background, false, Some(last))
        } else {
            a == workspace_normals(layers, shorter) && b == normals(
                layers,
                Layer::Bottom,
                false,
                Some(last),
            ) && c == normals(layers, Layer::Background, false, Some(last))
        },
        !shorter.contains(last),
        0 <= i,
    ensures
        i < a.len() ==> (a + b + c)[i] == a[i] && workspace_of(a[i]) != Some(last),
        a.len() <= i < a.len() + b.len() ==> {
            let step = (a + b + c)[i];
            workspace_of(step) == Some(last) && is_of(step, Layer::Bottom)
        },
        a.len() + b.len() <= i < a.len() + b.len() + c.len() ==> {
            let step = (a + b + c)[i];
            workspace_of(step) == Some(last) && is_of(step, Layer::Background)
        },
        i < a.len() + b.len() + c.len() ==> (a + b + c)[i] is LayerPopups == popup,
{
    if i < a.len() {
        assert(a.contains(a[i]));
        lemma_workspace_popups_members(layers, shorter, a[i]);
        lemma_workspace_normals_members(layers, shorter, a[i]);
    } else if i < a.len() + b.len() {
        let step = b[i - a.len()];
        assert(b.contains(step));
        lemma_layer_members(layers, Layer::Bottom, false, Some(last), step);
    } else if i < a.len() + b.len() + c.len() {
        let step = c[i - a.len() - b.len()];
        assert(c.contains(step));
        lemma_layer_members(layers, Layer::Background, false, Some(last), step);
    }
}

/// Whether a surface of a layer, or a pop-up of one, is under the point.
pub open spec fn is_hit(l: LayerView, layer: Layer, popup: bool) -> bool {
    l.layer == layer && l.mapped && !l.place_within_backdrop && if popup {
        l.popup_under is Some
    } else {
        l.toplevel_under is Some
    }
}

/// Whether any surface of a layer, or any pop-up of one, is under the point.
pub open spec fn any_hit(view: OutputView, layer: Layer, popup: bool) -> bool {
    exists|i: int|
        0 <= i < view.layers@.len() && is_hit(#[trigger] view.layers@[i], layer, popup)
}

/// Whether what was found is a surface of a layer that is under the point, or a pop-up of one.
pub open spec fn found_on(view: OutputView, found: PointContents, layer: Layer, popup: bool) -> bool {
    found.window is None && exists|i: int|
        0 <= i < view.layers@.len() && is_hit(#[trigger] view.layers@[i], layer, popup)
            && found.layer == Some(view.layers@[i].id) && found.surface == (if popup {
            view.layers@[i].popup_under
        } else {
            view.layers@[i].toplevel_under
        })
}

/// Whether what was found is a window. Its surface is found only where it takes input itself.
pub open spec fn found_window(found: PointContents, window: WindowHit) -> bool {
    &&& found.window == Some(WindowUnder { window: window.window, hit: window.hit })
    &&& found.layer is None
    &&& found.surface == (match window.hit {
        HitType::Input { .. } => window.surface,
        HitType::Activate { .. } => None,
    })
}

/// The frontmost of some surfaces is one of them.
proof fn lemma_frontmost_is_hit(drawn: Seq<LayerView>, popup: bool) -> (at: int)
    ensures
        match frontmost_layer(drawn, popup) {
            Some(target) => 0 <= at < drawn.len() && layer_target(drawn[at], popup) == Some(target),
            None => forall|i: int|
                0 <= i < drawn.len() ==> layer_target(#[trigger] drawn[i], popup) is None,
        },
    decreases drawn.len(),
{
    if drawn.len() == 0 {
        0
    } else {
        let rest = drawn.skip(1);
        let at = lemma_frontmost_is_hit(rest, popup);
        if layer_target(drawn[0], popup) is Some {
            0
        } else {
            if frontmost_layer(rest, popup) is None {
                assert forall|i: int| 0 <= i < drawn.len() implies layer_target(
                    #[trigger] drawn[i],
                    popup,
                ) is None by {
                    if i > 0 {
                        assert(rest[i - 1] == drawn[i]);
                    }
                }
            }
            at + 1
        }
    }
}

/// Whether what a target gives is a surface of a layer.
pub open spec fn targets(view: OutputView, target: Target, layer: Layer, popup: bool) -> bool {
    target.window is None && exists|i: int|
        0 <= i < view.layers@.len() && is_hit(#[trigger] view.layers@[i], layer, popup)
            && target.layer == Some(view.layers@[i].id) && target.surface == (if popup {
            view.layers@[i].popup_under
        } else {
            view.layers@[i].toplevel_under
        })
}

/// A layer catches a point just if one of its surfaces is under it.
pub proof fn lemma_layer_catches(view: OutputView, layer: Layer, popup: bool)
    ensures
        layer == Layer::Overlay || layer == Layer::Top || view.workspace_under is Some ==> match layer_catches(
            view,
            layer,
            popup,
        ) {
            Some(target) => any_hit(view, layer, popup) && targets(view, target, layer, popup),
            None => !any_hit(view, layer, popup),
        },
        (layer == Layer::Bottom || layer == Layer::Background) && view.workspace_under is None
            ==> layer_catches(view, layer, popup) is None,
{
    let drawn = drawn_layers(view.layers@, layer, false);
    let at = lemma_frontmost_is_hit(drawn, popup);
    if frontmost_layer(drawn, popup) is Some {
        lemma_all_drawn(view.layers@, layer, false, drawn[at]);
        assert(drawn.contains(drawn[at]));
        let i = view.layers@.index_of(drawn[at]);
        assert(is_hit(view.layers@[i], layer, popup));
    } else if any_hit(view, layer, popup) {
        let i = choose|i: int|
            0 <= i < view.layers@.len() && is_hit(#[trigger] view.layers@[i], layer, popup);
        let l = view.layers@[i];
        lemma_all_drawn(view.layers@, layer, false, l);
        assert(view.layers@.contains(l));
        let k = drawn.index_of(l);
        assert(layer_target(drawn[k], popup) is None);
    }
}

/// Whether nothing at all is found.
pub open spec fn found_nothing(found: PointContents) -> bool {
    found.surface is None && found.window is None && found.layer is None
}

/// The pointer finds what is in front. The overlay layer comes first. Where the windows cover the top
/// layer, a window that is being moved comes next, then the other windows and then the top layer. Else
/// the top layer comes before them, and between the two come the pop-ups of the lower layers.
pub proof fn law_pointer_finds_what_is_in_front(niri: Niri, output: u64, view: OutputView)
    requires
        view.wf(),
        !niri.exit_confirm_dialog_open,
        !niri.locked(),
        !(niri.screenshot_ui is Open),
        view.render_above_top_layer || !view.inside_hot_corner,
    ensures
        ({
            let found = contents(niri, output, view);
            let above = view.render_above_top_layer;
            let overlay = any_hit(view, Layer::Overlay, true) || any_hit(view, Layer::Overlay, false);
            let top = any_hit(view, Layer::Top, true) || any_hit(view, Layer::Top, false);
            let lower = view.workspace_under is Some && (above || !view.overview_open);
            let lower_popup = lower && (any_hit(view, Layer::Bottom, true) || any_hit(
                view,
                Layer::Background,
                true,
            ));
            let lower_surface = lower && (any_hit(view, Layer::Bottom, false) || any_hit(
                view,
                Layer::Background,
                false,
            ));
            let windows = view.moved_window_under is Some || view.window_under is Some;
            &&& found.output == Some(output)
            &&& !found.hot_corner
            &&& overlay ==> (if any_hit(view, Layer::Overlay, true) {
                found_on(view, found, Layer::Overlay, true)
            } else {
                found_on(view, found, Layer::Overlay, false)
            })
            &&& !overlay && top && !(above && windows) ==> (if any_hit(view, Layer::Top, true) {
                found_on(view, found, Layer::Top, true)
            } else {
                found_on(view, found, Layer::Top, false)
            })
            &&& !overlay && (above || !top) ==> (view.moved_window_under matches Some(window)
                ==> found_window(found, window))
            &&& !overlay && (above || !top && !lower_popup) && view.moved_window_under is None ==> (
            view.window_under matches Some(window) ==> found_window(found, window))
            &&& !overlay && !top && lower_popup && (if above {
                !windows
            } else {
                view.moved_window_under is None
            }) ==> (if any_hit(view, Layer::Bottom, true) {
                found_on(view, found, Layer::Bottom, true)
            } else {
                found_on(view, found, Layer::Background, true)
            })
            &&& !overlay && !top && !lower_popup && !windows && lower_surface ==> (if any_hit(
                view,
                Layer::Bottom,
                false,
            ) {
                found_on(view, found, Layer::Bottom, false)
            } else {
                found_on(view, found, Layer::Background, false)
            })
            &&& !overlay && !top && !lower_popup && !windows && !lower_surface ==> found_nothing(
                found,
            )
        }),
{
    view.lemma_desktop_target();
    lemma_layer_catches(view, Layer::Overlay, true);
    lemma_layer_catches(view, Layer::Overlay, false);
    lemma_layer_catches(view, Layer::Top, true);
    lemma_layer_catches(view, Layer::Top, false);
    lemma_layer_catches(view, Layer::Bottom, true);
    lemma_layer_catches(view, Layer::Bottom, false);
    lemma_layer_catches(view, Layer::Background, true);
    lemma_layer_catches(view, Layer::Background, false);
}

/// The pointer finds nothing behind a dialog or a screenshot selection, in a locked session nothing but
/// the lock surface of the output, and in a hot corner nothing but the corner.
pub proof fn law_pointer_is_shielded(niri: Niri, output: u64, view: OutputView)
    ensures
        ({
            let found = contents(niri, output, view);
            let locked = niri.locked() && !niri.exit_confirm_dialog_open;
            &&& found.output == Some(output)
            &&& niri.exit_confirm_dialog_open || niri.locked() || niri.screenshot_ui is Open ==> {
                &&& found.window is None
                &&& found.layer is None
                &&& !found.hot_corner
                &&& found.surface == (if locked && niri.has_lock_surface(output) {
                    view.lock_surface_under
                } else {
                    None
                })
            }
            &&& found.hot_corner ==> found_nothing(found) && view.inside_hot_corner
                && !view.render_above_top_layer
            &&& view.inside_hot_corner && !view.render_above_top_layer
                && !niri.exit_confirm_dialog_open && !niri.locked() && !(niri.screenshot_ui is Open)
                ==> found.hot_corner
        }),
{
}

/// An output shows its own lock surface and its own screen transition, and the pointer only if that is asked
/// for and can be seen.
pub proof fn law_output_shows_its_own(
    niri: Niri,
    output: u64,
    view: OutputView,
    include_pointer: bool,
    i: int,
    surface: u64,
)
    requires
        states_unique(niri.output_state@),
        0 <= i < niri.output_state@.len(),
        niri.output_state@[i].id == output,
    ensures
        ({
            let order = output_order(niri, output, view, include_pointer);
            let own = niri.output_state@[i];
            &&& order.contains(RenderStep::Pointer) <==> include_pointer
                && niri.pointer.visibility is Visible
            &&& order.contains(RenderStep::ScreenTransition) <==> own.screen_transition
            &&& order.contains(RenderStep::LockSurface(surface)) <==> niri.locked() && (
            own.lock_surface matches Some(lock) && lock.surface == surface)
            &&& front_to_back(order, view.render_above_top_layer)
        }),
{
    let states = niri.output_state@;
    let k = state_index(states, output);
    assert(states[i].id == output);
    assert(0 <= k < states.len() && states[k].id == output);
    assert(k == i) by {
        if k < i {
            assert(states[k].id != states[i].id);
        } else if i < k {
            assert(states[i].id != states[k].id);
        }
    }
    let own = states[i];
    let pointer = include_pointer && niri.pointer.visibility is Visible;
    let lock = lock_surface_of(own);
    law_what_is_drawn(niri, view, pointer, own.screen_transition, lock, RenderStep::Pointer);
    law_what_is_drawn(niri, view, pointer, own.screen_transition, lock, RenderStep::ScreenTransition);
    law_what_is_drawn(
        niri,
        view,
        pointer,
        own.screen_transition,
        lock,
        RenderStep::LockSurface(surface),
    );
    law_drawn_front_to_back(niri, view, pointer, own.screen_transition, lock);
}

} // verus!
