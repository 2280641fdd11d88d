//! Which surface gets the keyboard.
use vstd::prelude::*;

use crate::niri::redraw::{find_state, has_state, state_index, states_unique};
use crate::niri::scene::{KeyboardInteractivity, Layer, LayerView};
use crate::niri::{Niri, State};

verus! {

broadcast use vstd::std_specs::hash::group_hash_axioms;

/// What has the keyboard.
///
/// A surface here is a main surface. While one of its pop-ups holds the keyboard, it stays the
/// focused one.
#[derive(Clone, Copy, Debug, PartialEq, Eq, Structural)]
pub enum KeyboardFocus {
    /// The windows, which have the focus if nothing else has.
    Layout { surface: Option<u64> },
    LayerShell { surface: u64 },
    LockScreen { surface: Option<u64> },
    ScreenshotUi,
    ExitConfirmDialog,
    Overview,
}

impl KeyboardFocus {
    /// The focused surface.
    pub open spec fn focused(self) -> Option<u64> {
        match self {
            KeyboardFocus::Layout { surface } => surface,
            KeyboardFocus::LockScreen { surface } => surface,
            KeyboardFocus::LayerShell { surface } => Some(surface),
            _ => None,
        }
    }

    /// The focused surface.
    pub fn surface(&self) -> (r: Option<u64>)
        ensures
            r == self.focused(),
    {
        match self {
            KeyboardFocus::Layout { surface } | KeyboardFocus::LockScreen { surface } => *surface,
            KeyboardFocus::LayerShell { surface } => Some(*surface),
            KeyboardFocus::ScreenshotUi | KeyboardFocus::ExitConfirmDialog
            | KeyboardFocus::Overview => None,
        }
    }

    /// The focused surface.
    pub fn into_surface(self) -> (r: Option<u64>)
        ensures
            r == self.focused(),
    {
        self.surface()
    }

    /// Whether the windows have the focus.
    pub fn is_layout(&self) -> (r: bool)
        ensures
            r == (*self is Layout),
    {
        matches!(self, KeyboardFocus::Layout { .. })
    }

    /// Whether the overview has the focus.
    pub fn is_overview(&self) -> (r: bool)
        ensures
            r == (*self is Overview),
    {
        matches!(self, KeyboardFocus::Overview)
    }
}

/// A pop-up that grabs input, by the main surface that it belongs to.
#[derive(Clone, Copy, Debug, PartialEq, Eq, Structural)]
pub struct PopupGrab {
    pub root: u64,
    pub has_keyboard_grab: bool,
}

/// The state of the keyboard focus.
#[derive(Clone, Copy, Debug, PartialEq, Eq, Structural)]
pub struct KeyboardState {
    pub focus: KeyboardFocus,
    /// The layer surface that was given the focus by a click.
    pub layer_shell_on_demand_focus: Option<u64>,
    pub popup_grab: Option<PopupGrab>,
}

/// What has become of the layer surface that was given the focus by a click.
#[derive(Clone, Copy, Debug, PartialEq, Eq, Structural)]
pub struct OnDemandView {
    pub alive: bool,
    pub keyboard_interactivity: KeyboardInteractivity,
    pub mapped: bool,
    pub place_within_backdrop: bool,
}

impl OnDemandView {
    /// Whether the layer surface may keep the focus.
    pub open spec fn good(self) -> bool {
        self.alive && self.keyboard_interactivity == KeyboardInteractivity::OnDemand && self.mapped
            && !self.place_within_backdrop
    }
}

/// What decides on the focus besides the state of the compositor.
#[derive(Debug)]
pub struct FocusView {
    /// The state of the layer surface that was given the focus by a click.
    pub on_demand: OnDemandView,
    pub output_under_cursor: Option<u64>,
    pub active_output: Option<u64>,
    /// The layer surfaces of the active output.
    pub layers: Vec<LayerView>,
    pub render_above_top_layer: bool,
    pub overview_open: bool,
    /// The layer of the surface whose pop-up grabs input, if it is one of the active output and can
    /// get the keyboard.
    pub grab_layer: Option<Layer>,
    /// The main surface of the focused window.
    pub focused_window: Option<u64>,
    /// Whether every window has a keyboard layout of its own.
    pub track_layout_per_window: bool,
    /// The keyboard layout in use.
    pub current_layout: u32,
}

/// Something that follows from a change of the focus.
#[derive(Clone, Copy, Debug, PartialEq, Eq, Structural)]
pub enum FocusEffect {
    /// Tell the window of a surface that it has lost the focus.
    WindowUnfocused(u64),
    /// Tell the window of a surface that it has got the focus, and note the time.
    WindowFocused(u64),
    /// Close the grabbing pop-ups and let go of the keyboard and the pointer.
    UngrabPopups,
    /// Switch to a keyboard layout.
    SetLayout(u32),
    /// Hand the keyboard to a surface, or to none.
    SetKeyboardFocus(Option<u64>),
    QueueRedrawAll,
}

/// The surface of the first layer surface of a layer that wants the keyboard for itself.
pub open spec fn exclusive_on(layers: Seq<LayerView>, layer: Layer) -> Option<KeyboardFocus>
    decreases layers.len(),
{
    if layers.len() == 0 {
        None
    } else {
        let l = layers[0];
        if l.layer == layer && l.keyboard_interactivity == KeyboardInteractivity::Exclusive
            && l.mapped && !l.place_within_backdrop {
            Some(KeyboardFocus::LayerShell { surface: l.surface })
        } else {
            exclusive_on(layers.skip(1), layer)
        }
    }
}

/// The surface of the layer surface that was given the focus, if it is on a layer.
pub open spec fn on_demand_on(
    layers: Seq<LayerView>,
    layer: Layer,
    on_demand: Option<u64>,
) -> Option<KeyboardFocus>
    decreases layers.len(),
{
    if layers.len() == 0 {
        None
    } else {
        let l = layers[0];
        if l.layer == layer && Some(l.id) == on_demand {
            Some(KeyboardFocus::LayerShell { surface: l.surface })
        } else {
            on_demand_on(layers.skip(1), layer, on_demand)
        }
    }
}

/// The grabbing surface, if it is on a layer.
pub open spec fn grab_on(niri: Niri, view: FocusView, layer: Layer) -> Option<KeyboardFocus> {
    match niri.keyboard.popup_grab {
        Some(grab) if view.grab_layer == Some(layer) => Some(
            KeyboardFocus::LayerShell { surface: grab.root },
        ),
        _ => None,
    }
}

/// The focused window.
pub open spec fn window_focus(view: FocusView) -> Option<KeyboardFocus> {
    match view.focused_window {
        Some(surface) => Some(KeyboardFocus::Layout { surface: Some(surface) }),
        None => None,
    }
}

/// All that may get the keyboard on the active output, what goes first coming first.
pub open spec fn candidates(
    niri: Niri,
    view: FocusView,
    on_demand: Option<u64>,
) -> Seq<Option<KeyboardFocus>> {
    let layers = view.layers@;
    let excl = |layer: Layer| exclusive_on(layers, layer);
    let by_click = |layer: Layer| on_demand_on(layers, layer, on_demand);
    seq![grab_on(niri, view, Layer::Overlay), grab_on(niri, view, Layer::Top)] + (
    if view.overview_open {
        Seq::empty()
    } else {
        seq![grab_on(niri, view, Layer::Bottom), grab_on(niri, view, Layer::Background)]
    }) + seq![excl(Layer::Overlay), by_click(Layer::Overlay)] + (if view.render_above_top_layer {
        seq![
            window_focus(view),
            excl(Layer::Top),
            by_click(Layer::Top),
            excl(Layer::Bottom),
            by_click(Layer::Bottom),
            excl(Layer::Background),
            by_click(Layer::Background),
        ]
    } else {
        seq![excl(Layer::Top), by_click(Layer::Top)] + (if view.overview_open {
            seq![Some(KeyboardFocus::Overview)]
        } else {
            Seq::empty()
        }) + seq![
            by_click(Layer::Bottom),
            by_click(Layer::Background),
            window_focus(view),
            excl(Layer::Bottom),
            excl(Layer::Background),
        ]
    })
}

/// The first candidate that is there.
pub open spec fn first_there(candidates: Seq<Option<KeyboardFocus>>) -> Option<KeyboardFocus>
    decreases candidates.len(),
{
    if candidates.len() == 0 {
        None
    } else if candidates[0] is Some {
        candidates[0]
    } else {
        first_there(candidates.skip(1))
    }
}

/// The output whose lock surface gets the keyboard.
pub open spec fn lock_focus_output(niri: Niri, view: FocusView) -> Option<u64> {
    if view.output_under_cursor is Some {
        view.output_under_cursor
    } else if view.active_output is Some {
        view.active_output
    } else if niri.global_space.outputs@.len() > 0 {
        Some(niri.global_space.outputs@[0].id)
    } else {
        None
    }
}

/// The lock surface that gets the keyboard.
pub open spec fn lock_focus(niri: Niri, view: FocusView) -> Option<u64> {
    match lock_focus_output(niri, view) {
        Some(output) if has_state(
            niri.output_state@,
            output,
        ) => match niri.output_state@[state_index(niri.output_state@, output)].lock_surface {
            Some(surface) => Some(surface.surface),
            None => None,
        },
        _ => None,
    }
}

/// What gets the keyboard; `on_demand` is the layer surface that was given the focus by a click and
/// may keep it.
pub open spec fn focus_for(niri: Niri, view: FocusView, on_demand: Option<u64>) -> KeyboardFocus {
    if niri.exit_confirm_dialog_open {
        KeyboardFocus::ExitConfirmDialog
    } else if niri.locked() {
        KeyboardFocus::LockScreen { surface: lock_focus(niri, view) }
    } else if niri.screenshot_ui is Open {
        KeyboardFocus::ScreenshotUi
    } else if view.active_output is None {
        KeyboardFocus::Layout { surface: None }
    } else {
        match first_there(candidates(niri, view, on_demand)) {
            Some(focus) => focus,
            None => KeyboardFocus::Layout { surface: None },
        }
    }
}

/// The layer surface that was given the focus by a click, if it may keep it.
pub open spec fn kept_on_demand(niri: Niri, view: FocusView) -> Option<u64> {
    if view.on_demand.good() {
        niri.keyboard.layer_shell_on_demand_focus
    } else {
        None
    }
}

/// While the session is locked, nothing but a lock surface gets the keyboard, unless the exit
/// confirmation is shown.
pub proof fn law_lock_keeps_keyboard(niri: Niri, view: FocusView, on_demand: Option<u64>)
    requires
        niri.locked(),
        !niri.exit_confirm_dialog_open,
    ensures
        focus_for(niri, view, on_demand) is LockScreen,
{
}

fn find_exclusive(layers: &Vec<LayerView>, layer: Layer) -> (r: Option<KeyboardFocus>)
    ensures
        r == exclusive_on(layers@, layer),
{
    let mut i: usize = 0;
    assert(layers@.skip(0) =~= layers@);
    while i < layers.len()
        invariant
            i <= layers.len(),
            exclusive_on(layers@.skip(i as int), layer) == exclusive_on(layers@, layer),
        decreases layers.len() - i,
    {
        let l = layers[i];
        assert(layers@.skip(i as int)[0] == l);
        if l.layer == layer && l.keyboard_interactivity == KeyboardInteractivity::Exclusive
            && l.mapped && !l.place_within_backdrop {
            return Some(KeyboardFocus::LayerShell { surface: l.surface });
        }
        assert(layers@.skip(i as int).skip(1) =~= layers@.skip(i + 1));
        i = i + 1;
    }
    None
}

fn find_on_demand(layers: &Vec<LayerView>, layer: Layer, on_demand: Option<u64>) -> (r: Option<
    KeyboardFocus,
>)
    ensures
        r == on_demand_on(layers@, layer, on_demand),
{
    let mut i: usize = 0;
    assert(layers@.skip(0) =~= layers@);
    while i < layers.len()
        invariant
            i <= layers.len(),
            on_demand_on(layers@.skip(i as int), layer, on_demand) == on_demand_on(
                layers@,
                layer,
                on_demand,
            ),
        decreases layers.len() - i,
    {
        let l = layers[i];
        assert(layers@.skip(i as int)[0] == l);
        if l.layer == layer && Some(l.id) == on_demand {
            return Some(KeyboardFocus::LayerShell { surface: l.surface });
        }
        assert(layers@.skip(i as int).skip(1) =~= layers@.skip(i + 1));
        i = i + 1;
    }
    None
}

/// Takes the first of two.
fn or(a: Option<KeyboardFocus>, b: Option<KeyboardFocus>) -> (r: Option<KeyboardFocus>)
    ensures
        r == (if a is Some {
            a
        } else {
            b
        }),
{
    match a {
        Some(_) => a,
        None => b,
    }
}

proof fn lemma_first_there_add(a: Seq<Option<KeyboardFocus>>, b: Seq<Option<KeyboardFocus>>)
    ensures
        first_there(a + b) == (if first_there(a) is Some {
            first_there(a)
        } else {
            first_there(b)
        }),
    decreases a.len(),
{
    if a.len() == 0 {
        assert(a + b =~= b);
    } else {
        assert((a + b)[0] == a[0]);
        assert((a + b).skip(1) =~= a.skip(1) + b);
        lemma_first_there_add(a.skip(1), b);
    }
}

impl Niri {
    fn grab_on_layer(&self, view: &FocusView, layer: Layer) -> (r: Option<KeyboardFocus>)
        ensures
            r == grab_on(*self, *view, layer),
    {
        match self.keyboard.popup_grab {
            Some(grab) => if view.grab_layer == Some(layer) {
                Some(KeyboardFocus::LayerShell { surface: grab.root })
            } else {
                None
            },
            None => None,
        }
    }

    /// The lock surface that gets the keyboard.
    pub fn lock_surface_focus(&self, view: &FocusView) -> (r: Option<u64>)
        requires
            states_unique(self.output_state@),
        ensures
            r == lock_focus(*self, *view),
    {
        let output: Option<u64> = if view.output_under_cursor.is_some() {
            view.output_under_cursor
        } else if view.active_output.is_some() {
            view.active_output
        } else if self.global_space.outputs.len() > 0 {
            Some(self.global_space.outputs[0].id)
        } else {
            None
        };
        let Some(output) = output else {
            return None;
        };
        match find_state(&self.output_state, output) {
            Some(i) => match self.output_state[i].lock_surface {
                Some(surface) => Some(surface.surface),
                None => None,
            },
            None => None,
        }
    }
}

/// The keyboard layouts that surfaces remember after the focus has left one of them.
pub open spec fn layouts_after(
    layouts: Map<u64, u32>,
    before: KeyboardFocus,
    current_layout: u32,
) -> Map<u64, u32> {
    match before.focused() {
        Some(surface) => layouts.insert(surface, current_layout),
        None => layouts,
    }
}

/// The keyboard layout of what gets the focus: the first one where none is remembered.
pub open spec fn layout_for(layouts: Map<u64, u32>, focus: KeyboardFocus, current_layout: u32) -> u32 {
    match focus.focused() {
        Some(surface) => if layouts.contains_key(surface) {
            layouts[surface]
        } else {
            0
        },
        None => current_layout,
    }
}

/// Whether a grabbing pop-up has to give the keyboard back.
pub open spec fn ungrabs(niri: Niri, focus: KeyboardFocus) -> bool {
    niri.keyboard.popup_grab matches Some(grab) && grab.has_keyboard_grab && Some(grab.root)
        != focus.focused()
}

/// What follows from a change of the focus.
pub open spec fn focus_effects(niri: Niri, view: FocusView, focus: KeyboardFocus) -> Seq<FocusEffect> {
    let before = niri.keyboard.focus;
    let layouts = layouts_after(niri.surface_layouts@, before, view.current_layout);
    let layout = layout_for(layouts, focus, view.current_layout);
    (match before {
        KeyboardFocus::Layout { surface: Some(surface) } => seq![
            FocusEffect::WindowUnfocused(surface),
        ],
        _ => Seq::empty(),
    }) + (match focus {
        KeyboardFocus::Layout { surface: Some(surface) } => seq![
            FocusEffect::WindowFocused(surface),
        ],
        _ => Seq::empty(),
    }) + (if ungrabs(niri, focus) {
        seq![FocusEffect::UngrabPopups]
    } else {
        Seq::empty()
    }) + (if view.track_layout_per_window && layout != view.current_layout {
        seq![FocusEffect::SetKeyboardFocus(None), FocusEffect::SetLayout(layout)]
    } else {
        Seq::empty()
    }) + seq![FocusEffect::SetKeyboardFocus(focus.focused()), FocusEffect::QueueRedrawAll]
}

impl Niri {
    /// What gets the keyboard on the active output of an unlocked session.
    fn desktop_focus(&self, view: &FocusView, on_demand: Option<u64>) -> (r: KeyboardFocus)
        ensures
            r == (match first_there(candidates(*self, *view, on_demand)) {
                Some(focus) => focus,
                None => KeyboardFocus::Layout { surface: None },
            }),
    {
        let layers = &view.layers;
        let window = match view.focused_window {
            Some(surface) => Some(KeyboardFocus::Layout { surface: Some(surface) }),
            None => None,
        };
        let mut surface = self.grab_on_layer(view, Layer::Overlay);
        surface = or(surface, self.grab_on_layer(view, Layer::Top));
        if !view.overview_open {
            surface = or(surface, self.grab_on_layer(view, Layer::Bottom));
            surface = or(surface, self.grab_on_layer(view, Layer::Background));
        }
        surface = or(surface, find_exclusive(layers, Layer::Overlay));
        surface = or(surface, find_on_demand(layers, Layer::Overlay, on_demand));
        if view.render_above_top_layer {
            surface = or(surface, window);
            surface = or(surface, find_exclusive(layers, Layer::Top));
            surface = or(surface, find_on_demand(layers, Layer::Top, on_demand));
            surface = or(surface, find_exclusive(layers, Layer::Bottom));
            surface = or(surface, find_on_demand(layers, Layer::Bottom, on_demand));
            surface = or(surface, find_exclusive(layers, Layer::Background));
            surface = or(surface, find_on_demand(layers, Layer::Background, on_demand));
        } else {
            surface = or(surface, find_exclusive(layers, Layer::Top));
            surface = or(surface, find_on_demand(layers, Layer::Top, on_demand));
            if view.overview_open {
                surface = or(surface, Some(KeyboardFocus::Overview));
            }
            surface = or(surface, find_on_demand(layers, Layer::Bottom, on_demand));
            surface = or(surface, find_on_demand(layers, Layer::Background, on_demand));
            surface = or(surface, window);
            surface = or(surface, find_exclusive(layers, Layer::Bottom));
            surface = or(surface, find_exclusive(layers, Layer::Background));
        }
        proof {
            reveal_with_fuel(first_there, 9);
            let grabs = seq![
                grab_on(*self, *view, Layer::Overlay),
                grab_on(*self, *view, Layer::Top),
            ];
            let lower_grabs = if view.overview_open {
                Seq::empty()
            } else {
                seq![
                    grab_on(*self, *view, Layer::Bottom),
                    grab_on(*self, *view, Layer::Background),
                ]
            };
            let overlay = seq![
                exclusive_on(layers@, Layer::Overlay),
                on_demand_on(layers@, Layer::Overlay, on_demand),
            ];
            let windows_first = seq![
                window_focus(*view),
                exclusive_on(layers@, Layer::Top),
                on_demand_on(layers@, Layer::Top, on_demand),
                exclusive_on(layers@, Layer::Bottom),
                on_demand_on(layers@, Layer::Bottom, on_demand),
                exclusive_on(layers@, Layer::Background),
                on_demand_on(layers@, Layer::Background, on_demand),
            ];
            let top = seq![
                exclusive_on(layers@, Layer::Top),
                on_demand_on(layers@, Layer::Top, on_demand),
            ];
            let overview = if view.overview_open {
                seq![Some(KeyboardFocus::Overview)]
            } else {
                Seq::empty()
            };
            let below = seq![
                on_demand_on(layers@, Layer::Bottom, on_demand),
                on_demand_on(layers@, Layer::Background, on_demand),
                window_focus(*view),
                exclusive_on(layers@, Layer::Bottom),
                exclusive_on(layers@, Layer::Background),
            ];
            let rest = if view.render_above_top_layer {
                windows_first
            } else {
                top + overview + below
            };
            assert(candidates(*self, *view, on_demand) =~= grabs + lower_grabs + overlay + rest);
            lemma_first_there_add(grabs, lower_grabs);
            lemma_first_there_add(grabs + lower_grabs, overlay);
            lemma_first_there_add(grabs + lower_grabs + overlay, rest);
            lemma_first_there_add(top, overview);
            lemma_first_there_add(top + overview, below);
        }
        match surface {
            Some(focus) => focus,
            None => KeyboardFocus::Layout { surface: None },
        }
    }

    /// What gets the keyboard.
    fn current_focus(&self, view: &FocusView, on_demand: Option<u64>) -> (r: KeyboardFocus)
        requires
            states_unique(self.output_state@),
        ensures
            r == focus_for(*self, *view, on_demand),
    {
        if self.exit_confirm_dialog_open {
            KeyboardFocus::ExitConfirmDialog
        } else if self.is_locked() {
            KeyboardFocus::LockScreen { surface: self.lock_surface_focus(view) }
        } else if self.screenshot_ui.is_open() {
            KeyboardFocus::ScreenshotUi
        } else if view.active_output.is_some() {
            self.desktop_focus(view, on_demand)
        } else {
            KeyboardFocus::Layout { surface: None }
        }
    }

    /// Remembers the keyboard layout of what loses the focus, and finds that of what gets it.
    fn swap_layouts(&mut self, focus: KeyboardFocus, current_layout: u32) -> (r: u32)
        ensures
            final(self).surface_layouts@ == layouts_after(
                old(self).surface_layouts@,
                old(self).keyboard.focus,
                current_layout,
            ),
            r == layout_for(final(self).surface_layouts@, focus, current_layout),
            *final(self) == (Niri { surface_layouts: final(self).surface_layouts, ..*old(self) }),
    {
        if let Some(current_focus) = self.keyboard.focus.surface() {
            self.surface_layouts.insert(current_focus, current_layout);
        }
        match focus.surface() {
            Some(surface) => match self.surface_layouts.get(&surface) {
                Some(layout) => *layout,
                None => 0,
            },
            None => current_layout,
        }
    }

    /// Moves the focus.
    fn change_focus(&mut self, view: &FocusView, focus: KeyboardFocus) -> (r: Vec<FocusEffect>)
        ensures
            *final(self) == (Niri {
                keyboard: KeyboardState {
                    focus,
                    popup_grab: if ungrabs(*old(self), focus) {
                        None
                    } else {
                        old(self).keyboard.popup_grab
                    },
                    ..old(self).keyboard
                },
                surface_layouts: final(self).surface_layouts,
                ..*old(self)
            }),
            final(self).surface_layouts@ == (if view.track_layout_per_window {
                layouts_after(
                    old(self).surface_layouts@,
                    old(self).keyboard.focus,
                    view.current_layout,
                )
            } else {
                old(self).surface_layouts@
            }),
            r@ == focus_effects(*old(self), *view, focus),
    {
        let mut effects: Vec<FocusEffect> = Vec::new();
        if let KeyboardFocus::Layout { surface: Some(surface) } = self.keyboard.focus {
            effects.push(FocusEffect::WindowUnfocused(surface));
        }
        if let KeyboardFocus::Layout { surface: Some(surface) } = focus {
            effects.push(FocusEffect::WindowFocused(surface));
        }
        if let Some(grab) = self.keyboard.popup_grab {
            if grab.has_keyboard_grab && Some(grab.root) != focus.surface() {
                effects.push(FocusEffect::UngrabPopups);
                self.keyboard.popup_grab = None;
            }
        }
        if view.track_layout_per_window {
            let new_layout: u32 = self.swap_layouts(focus, view.current_layout);
            if new_layout != view.current_layout && focus.surface().is_some() {
                effects.push(FocusEffect::SetKeyboardFocus(None));
                effects.push(FocusEffect::SetLayout(new_layout));
            }
        }
        self.keyboard.focus = focus;
        effects.push(FocusEffect::SetKeyboardFocus(focus.into_surface()));
        effects.push(FocusEffect::QueueRedrawAll);
        assert(effects@ =~= focus_effects(*old(self), *view, focus));
        effects
    }

    /// Gives the focus to a layer surface that was clicked and takes it on demand, or takes it away
    /// from such a surface. Returns whether anything changed, so that all has to be drawn anew.
    pub fn focus_layer_surface_if_on_demand(
        &mut self,
        clicked: Option<u64>,
        interactivity: KeyboardInteractivity,
    ) -> (r: bool)
        ensures
            ({
                let on_demand = if interactivity == KeyboardInteractivity::OnDemand {
                    clicked
                } else {
                    None
                };
                &&& r == (on_demand != old(self).keyboard.layer_shell_on_demand_focus)
                &&& *final(self) == (Niri {
                    keyboard: KeyboardState {
                        layer_shell_on_demand_focus: on_demand,
                        ..old(self).keyboard
                    },
                    ..*old(self)
                })
            }),
    {
        if let Some(surface) = clicked {
            if interactivity == KeyboardInteractivity::OnDemand {
                if self.keyboard.layer_shell_on_demand_focus != Some(surface) {
                    self.keyboard.layer_shell_on_demand_focus = Some(surface);
                    return true;
                }
                return false;
            }
        }
        if self.keyboard.layer_shell_on_demand_focus.is_some() {
            self.keyboard.layer_shell_on_demand_focus = None;
            return true;
        }
        false
    }

    /// Whether the windows are drawn as active: always but for the focus on a layer surface.
    pub fn layout_is_active(&self) -> (r: bool)
        ensures
            r == !(self.keyboard.focus is LayerShell),
    {
        match self.keyboard.focus {
            KeyboardFocus::Layout { .. } => true,
            KeyboardFocus::LayerShell { .. } => false,
            KeyboardFocus::LockScreen { .. } | KeyboardFocus::ScreenshotUi
            | KeyboardFocus::ExitConfirmDialog | KeyboardFocus::Overview => true,
        }
    }
}

impl State {
    /// Decides which surface gets the keyboard.
    pub fn update_keyboard_focus(&mut self, view: &FocusView) -> (r: Vec<FocusEffect>)
        requires
            states_unique(old(self).niri.output_state@),
        ensures
            ({
                let before = old(self).niri;
                let after = final(self).niri;
                let on_demand = kept_on_demand(before, *view);
                let focus = focus_for(before, *view, on_demand);
                let changed = focus != before.keyboard.focus;
                &&& after == (Niri {
                    keyboard: KeyboardState {
                        focus,
                        layer_shell_on_demand_focus: on_demand,
                        popup_grab: if changed && ungrabs(before, focus) {
                            None
                        } else {
                            before.keyboard.popup_grab
                        },
                    },
                    surface_layouts: after.surface_layouts,
                    ..before
                })
                &&& after.surface_layouts@ == (if changed && view.track_layout_per_window {
                    layouts_after(before.surface_layouts@, before.keyboard.focus, view.current_layout)
                } else {
                    before.surface_layouts@
                })
                &&& r@ == (if changed {
                    focus_effects(before, *view, focus)
                } else {
                    Seq::empty()
                })
            }),
            final(self).backend == old(self).backend,
    {
        let mut on_demand = self.niri.keyboard.layer_shell_on_demand_focus;
        if on_demand.is_some() {
            let state = view.on_demand;
            let mut good = state.alive && state.keyboard_interactivity
                == KeyboardInteractivity::OnDemand;
            if state.mapped {
                if state.place_within_backdrop {
                    good = false;
                }
            } else {
                good = false;
            }
            if !good {
                on_demand = None;
            }
        }
        let focus = self.niri.current_focus(view, on_demand);
        self.niri.keyboard.layer_shell_on_demand_focus = on_demand;
        if self.niri.keyboard.focus != focus {
            self.niri.change_focus(view, focus)
        } else {
            Vec::new()
        }
    }

    /// Forgets a pop-up grab that has ended.
    pub fn refresh_popup_grab(&mut self, ended: bool)
        ensures
            *final(self) == (State {
                niri: Niri {
                    keyboard: KeyboardState {
                        popup_grab: if ended {
                            None
                        } else {
                            old(self).niri.keyboard.popup_grab
                        },
                        ..old(self).niri.keyboard
                    },
                    ..old(self).niri
                },
                ..*old(self)
            }),
    {
        if self.niri.keyboard.popup_grab.is_some() && ended {
            self.niri.keyboard.popup_grab = None;
        }
    }
}

/// Whether a surface on a layer wants the keyboard for itself.
pub open spec fn wants_keyboard(l: LayerView, layer: Layer) -> bool {
    l.layer == layer && l.mapped && !l.place_within_backdrop && l.keyboard_interactivity
        == KeyboardInteractivity::Exclusive
}

/// The first surface on a layer that wants the keyboard is found.
proof fn lemma_exclusive(layers: Seq<LayerView>, layer: Layer)
    ensures
        match exclusive_on(layers, layer) {
            Some(focus) => exists|i: int|
                0 <= i < layers.len() && wants_keyboard(#[trigger] layers[i], layer) && focus
                    == (KeyboardFocus::LayerShell { surface: layers[i].surface }) && forall|j: int|
                    0 <= j < i ==> !wants_keyboard(#[trigger] layers[j], layer),
            None => forall|i: int|
                0 <= i < layers.len() ==> !wants_keyboard(#[trigger] layers[i], layer),
        },
    decreases layers.len(),
{
    if layers.len() > 0 {
        assert(layers[0] == layers[0]);
        if !wants_keyboard(layers[0], layer) {
            let rest = layers.skip(1);
            lemma_exclusive(rest, layer);
            match exclusive_on(rest, layer) {
                Some(focus) => {
                    let i = choose|i: int|
                        0 <= i < rest.len() && wants_keyboard(#[trigger] rest[i], layer) && focus == (
                        KeyboardFocus::LayerShell { surface: rest[i].surface }) && forall|j: int|
                            0 <= j < i ==> !wants_keyboard(#[trigger] rest[j], layer);
                    assert(layers[i + 1] == rest[i]);
                    assert forall|j: int| 0 <= j < i + 1 implies !wants_keyboard(
                        #[trigger] layers[j],
                        layer,
                    ) by {
                        if j > 0 {
                            assert(rest[j - 1] == layers[j]);
                        }
                    }
                },
                None => {
                    assert forall|i: int| 0 <= i < layers.len() implies !wants_keyboard(
                        #[trigger] layers[i],
                        layer,
                    ) by {
                        if i > 0 {
                            assert(rest[i - 1] == layers[i]);
                        }
                    }
                },
            }
        }
    }
}

/// Whether any surface on a layer wants the keyboard for itself.
pub open spec fn any_wants(view: FocusView, layer: Layer) -> bool {
    exists|i: int|
        0 <= i < view.layers@.len() && wants_keyboard(#[trigger] view.layers@[i], layer)
}

/// Whether the keyboard goes to a surface on a layer that wants it, the first of them.
pub open spec fn is_first_wanting(view: FocusView, focus: KeyboardFocus, layer: Layer) -> bool {
    exists|i: int|
        0 <= i < view.layers@.len() && wants_keyboard(#[trigger] view.layers@[i], layer) && focus == (
        KeyboardFocus::LayerShell { surface: view.layers@[i].surface }) && forall|j: int|
            0 <= j < i ==> !wants_keyboard(#[trigger] view.layers@[j], layer)
}

/// What the compositor itself asks for has the keyboard before anything else: the exit dialog, then the
/// screen locker, and then the screenshot selection.
pub proof fn law_own_dialogs_have_the_keyboard(niri: Niri, view: FocusView, on_demand: Option<u64>)
    ensures
        ({
            let focus = focus_for(niri, view, on_demand);
            &&& focus is ExitConfirmDialog <==> niri.exit_confirm_dialog_open
            &&& niri.locked() && !niri.exit_confirm_dialog_open ==> focus is LockScreen
            &&& focus is LockScreen ==> niri.locked()
            &&& niri.screenshot_ui is Open && !niri.locked() && !niri.exit_confirm_dialog_open
                ==> focus is ScreenshotUi
            &&& focus is ScreenshotUi ==> niri.screenshot_ui is Open && !niri.locked()
        }),
{
    lemma_first_is_a_candidate(candidates(niri, view, on_demand));
    lemma_candidates_are_plain(niri, view, on_demand);
}

/// The first candidate that is there is one of them.
proof fn lemma_first_is_a_candidate(all: Seq<Option<KeyboardFocus>>)
    ensures
        first_there(all) is Some ==> all.contains(first_there(all)),
    decreases all.len(),
{
    if all.len() > 0 {
        if all[0] is Some {
            assert(all.contains(all[0]));
        } else {
            let rest = all.skip(1);
            lemma_first_is_a_candidate(rest);
            if first_there(rest) is Some {
                assert(all[rest.index_of(first_there(rest)) + 1] == first_there(rest));
            }
        }
    }
}

/// The candidates are windows, layer surfaces and the overview.
proof fn lemma_candidates_are_plain(niri: Niri, view: FocusView, on_demand: Option<u64>)
    ensures
        forall|i: int|
            0 <= i < candidates(niri, view, on_demand).len() ==> (
            #[trigger] candidates(niri, view, on_demand)[i] matches Some(focus) ==> focus is Layout
                || focus is LayerShell || focus is Overview),
{
    lemma_on_demand_is_plain(view.layers@, Layer::Overlay, on_demand);
    lemma_on_demand_is_plain(view.layers@, Layer::Top, on_demand);
    lemma_on_demand_is_plain(view.layers@, Layer::Bottom, on_demand);
    lemma_on_demand_is_plain(view.layers@, Layer::Background, on_demand);
    lemma_exclusive(view.layers@, Layer::Overlay);
    lemma_exclusive(view.layers@, Layer::Top);
    lemma_exclusive(view.layers@, Layer::Bottom);
    lemma_exclusive(view.layers@, Layer::Background);
}

/// What was given the focus by a click is a layer surface, the one that was clicked.
proof fn lemma_on_demand_is_plain(layers: Seq<LayerView>, layer: Layer, on_demand: Option<u64>)
    ensures
        on_demand_on(layers, layer, on_demand) matches Some(focus) ==> focus is LayerShell
            && on_demand is Some,
        on_demand is None ==> on_demand_on(layers, layer, on_demand) is None,
    decreases layers.len(),
{
    if layers.len() > 0 {
        lemma_on_demand_is_plain(layers.skip(1), layer, on_demand);
    }
}

/// Who gets the keyboard in an unlocked session with nothing else open, if no pop-up holds it and no layer
/// surface was given it by a click. A surface on the overlay layer that wants it comes first, then one on
/// the top layer unless the windows cover that, and then the focused window. The lower layers get it only
/// without a window. In the overview no window gets it.
pub proof fn law_keyboard_goes_to_what_wants_it(niri: Niri, view: FocusView)
    requires
        !niri.exit_confirm_dialog_open,
        !niri.locked(),
        !(niri.screenshot_ui is Open),
        view.active_output is Some,
        niri.keyboard.popup_grab is None,
    ensures
        ({
            let focus = focus_for(niri, view, None);
            let above = view.render_above_top_layer;
            let overlay = any_wants(view, Layer::Overlay);
            let top = any_wants(view, Layer::Top);
            &&& overlay ==> is_first_wanting(view, focus, Layer::Overlay)
            &&& !overlay && above ==> (view.focused_window matches Some(surface) ==> focus == (
            KeyboardFocus::Layout { surface: Some(surface) }))
            &&& !overlay && top && (!above || view.focused_window is None) ==> is_first_wanting(
                view,
                focus,
                Layer::Top,
            )
            &&& !overlay && !top && !above && view.overview_open ==> focus is Overview
            &&& !overlay && !top && !above && !view.overview_open ==> (view.focused_window matches Some(
                surface,
            ) ==> focus == (KeyboardFocus::Layout { surface: Some(surface) }))
            &&& !overlay && !top && view.focused_window is None && (above || !view.overview_open) ==> {
                &&& any_wants(view, Layer::Bottom) ==> is_first_wanting(view, focus, Layer::Bottom)
                &&& !any_wants(view, Layer::Bottom) && any_wants(view, Layer::Background)
                    ==> is_first_wanting(view, focus, Layer::Background)
                &&& !any_wants(view, Layer::Bottom) && !any_wants(view, Layer::Background) ==> focus
                    == (KeyboardFocus::Layout { surface: None })
            }
        }),
{
    lemma_on_demand_is_plain(view.layers@, Layer::Overlay, None);
    lemma_on_demand_is_plain(view.layers@, Layer::Top, None);
    lemma_on_demand_is_plain(view.layers@, Layer::Bottom, None);
    lemma_on_demand_is_plain(view.layers@, Layer::Background, None);
    lemma_exclusive(view.layers@, Layer::Overlay);
    lemma_exclusive(view.layers@, Layer::Top);
    lemma_exclusive(view.layers@, Layer::Bottom);
    lemma_exclusive(view.layers@, Layer::Background);
    let all = candidates(niri, view, None);
    reveal_with_fuel(first_there, 14);
}

/// A layer surface that was clicked has the keyboard, if none on the overlay layer or on its own layer wants
/// it for itself: one on the overlay layer in any case, and one on the top layer unless the windows cover
/// that.
pub proof fn law_clicked_layer_has_the_keyboard(niri: Niri, view: FocusView, i: int)
    requires
        !niri.exit_confirm_dialog_open,
        !niri.locked(),
        !(niri.screenshot_ui is Open),
        view.active_output is Some,
        niri.keyboard.popup_grab is None,
        0 <= i < view.layers@.len(),
        forall|j: int|
            0 <= j < view.layers@.len() && j != i ==> (#[trigger] view.layers@[j]).id
                != view.layers@[i].id,
        !any_wants(view, Layer::Overlay),
        !any_wants(view, Layer::Top),
        view.layers@[i].layer == Layer::Overlay || (view.layers@[i].layer == Layer::Top
            && !view.render_above_top_layer),
    ensures
        focus_for(niri, view, Some(view.layers@[i].id)) == (KeyboardFocus::LayerShell {
            surface: view.layers@[i].surface,
        }),
{
    let id = Some(view.layers@[i].id);
    lemma_on_demand_found(view.layers@, Layer::Overlay, i);
    lemma_on_demand_found(view.layers@, Layer::Top, i);
    lemma_exclusive(view.layers@, Layer::Overlay);
    lemma_exclusive(view.layers@, Layer::Top);
    reveal_with_fuel(first_there, 10);
}

/// A layer surface that was clicked is found on its own layer and on no other.
proof fn lemma_on_demand_found(layers: Seq<LayerView>, layer: Layer, i: int)
    requires
        0 <= i < layers.len(),
        forall|j: int|
            0 <= j < layers.len() && j != i ==> (#[trigger] layers[j]).id != layers[i].id,
    ensures
        on_demand_on(layers, layer, Some(layers[i].id)) == (if layers[i].layer == layer {
            Some(KeyboardFocus::LayerShell { surface: layers[i].surface })
        } else {
            None
        }),
    decreases layers.len(),
{
    let id = Some(layers[i].id);
    let rest = layers.skip(1);
    if i == 0 {
        lemma_no_such_layer(rest, layer, layers[0].id);
    } else {
        assert(layers[0].id != layers[i].id);
        assert forall|j: int| 0 <= j < rest.len() && j != i - 1 implies (#[trigger] rest[j]).id
            != rest[i - 1].id by {
            assert(layers[j + 1] == rest[j]);
        }
        lemma_on_demand_found(rest, layer, i - 1);
    }
}

/// A layer surface that is not there is not found.
proof fn lemma_no_such_layer(layers: Seq<LayerView>, layer: Layer, id: u64)
    requires
        forall|j: int| 0 <= j < layers.len() ==> (#[trigger] layers[j]).id != id,
    ensures
        on_demand_on(layers, layer, Some(id)) is None,
    decreases layers.len(),
{
    if layers.len() > 0 {
        let rest = layers.skip(1);
        assert(layers[0].id != id);
        assert forall|j: int| 0 <= j < rest.len() implies (#[trigger] rest[j]).id != id by {
            assert(layers[j + 1] == rest[j]);
        }
        lemma_no_such_layer(rest, layer, id);
    }
}

/// A surface that the focus comes back to has the keyboard layout that it was left with.
pub proof fn law_layout_is_remembered(
    layouts: Map<u64, u32>,
    left: KeyboardFocus,
    layout: u32,
    now: u32,
)
    requires
        left.focused() is Some,
    ensures
        layout_for(layouts_after(layouts, left, layout), left, now) == layout,
        forall|other: u64| #[trigger]
            layouts_after(layouts, left, layout).contains_key(other) <==> layouts.contains_key(other)
                || Some(other) == left.focused(),
        forall|other: u64|
            Some(other) != left.focused() && layouts.contains_key(other) ==> #[trigger]
                layouts_after(layouts, left, layout)[other] == layouts[other],
{
}

/// What the focus leaves and what it comes to are told in this order, the keyboard goes to the new one, and
/// all is drawn anew.
pub proof fn law_focus_is_told(niri: Niri, view: FocusView, focus: KeyboardFocus)
    ensures
        ({
            let effects = focus_effects(niri, view, focus);
            let n = effects.len() as int;
            &&& n >= 2
            &&& effects[n - 1] is QueueRedrawAll
            &&& effects[n - 2] == FocusEffect::SetKeyboardFocus(
                match focus {
                    KeyboardFocus::Layout { surface } => surface,
                    KeyboardFocus::LockScreen { surface } => surface,
                    KeyboardFocus::LayerShell { surface } => Some(surface),
                    _ => None,
                },
            )
            &&& niri.keyboard.focus matches KeyboardFocus::Layout { surface: Some(surface) }
                ==> effects[0] == FocusEffect::WindowUnfocused(surface)
            &&& focus matches KeyboardFocus::Layout { surface: Some(surface) } ==> effects.contains(
                FocusEffect::WindowFocused(surface),
            )
            &&& forall|i: int|
                0 <= i < n && (#[trigger] effects[i]) is WindowUnfocused ==> i == 0 && (
                niri.keyboard.focus matches KeyboardFocus::Layout { surface: Some(surface) }
                    && effects[i] == FocusEffect::WindowUnfocused(surface))
        }),
{
    let effects = focus_effects(niri, view, focus);
    if let KeyboardFocus::Layout { surface: Some(surface) } = focus {
        if let KeyboardFocus::Layout { surface: Some(_) } = niri.keyboard.focus {
            assert(effects[1] == FocusEffect::WindowFocused(surface));
        } else {
            assert(effects[0] == FocusEffect::WindowFocused(surface));
        }
    }
}

/// A pop-up that holds the keyboard keeps it for the layer surface that it belongs to: on the overlay and top
/// layers always, and on the lower layers outside of the overview.
pub proof fn law_popup_keeps_the_keyboard(niri: Niri, view: FocusView, on_demand: Option<u64>)
    requires
        !niri.exit_confirm_dialog_open,
        !niri.locked(),
        !(niri.screenshot_ui is Open),
        view.active_output is Some,
        niri.keyboard.popup_grab is Some,
        view.grab_layer == Some(Layer::Overlay) || view.grab_layer == Some(Layer::Top) || (
        view.grab_layer is Some && !view.overview_open),
    ensures
        focus_for(niri, view, on_demand) == (KeyboardFocus::LayerShell {
            surface: niri.keyboard.popup_grab->0.root,
        }),
{
    let all = candidates(niri, view, on_demand);
    let wanted = Some(KeyboardFocus::LayerShell { surface: niri.keyboard.popup_grab->0.root });
    let one = all.skip(1);
    assert(all.len() > 2);
    assert(all[0] == grab_on(niri, view, Layer::Overlay));
    assert(one[0] == grab_on(niri, view, Layer::Top));
    if view.grab_layer == Some(Layer::Overlay) {
        assert(first_there(all) == wanted);
    } else if view.grab_layer == Some(Layer::Top) {
        assert(first_there(one) == wanted);
        assert(first_there(all) == wanted);
    } else {
        let two = one.skip(1);
        let three = two.skip(1);
        assert(all[2] == grab_on(niri, view, Layer::Bottom));
        assert(all[3] == grab_on(niri, view, Layer::Background));
        assert(two[0] == all[2]);
        assert(three[0] == all[3]);
        if view.grab_layer == Some(Layer::Bottom) {
            assert(first_there(two) == wanted);
        } else {
            assert(view.grab_layer == Some(Layer::Background));
            assert(first_there(three) == wanted);
            assert(first_there(two) == wanted);
        }
        assert(first_there(one) == wanted);
        assert(first_there(all) == wanted);
    }
}

/// In a locked session the lock surface of the output under the cursor has the keyboard, or else that of the
/// active output.
pub proof fn law_lock_surface_has_the_keyboard(niri: Niri, view: FocusView, on_demand: Option<u64>)
    requires
        niri.locked(),
        !niri.exit_confirm_dialog_open,
    ensures
        ({
            let output = if view.output_under_cursor is Some {
                view.output_under_cursor
            } else {
                view.active_output
            };
            output is Some && has_state(niri.output_state@, output->0) ==> focus_for(
                niri,
                view,
                on_demand,
            ) == (KeyboardFocus::LockScreen {
                surface: match niri.output_state@[state_index(
                    niri.output_state@,
                    output->0,
                )].lock_surface {
                    Some(lock) => Some(lock.surface),
                    None => None,
                },
            })
        }),
{
}

} // verus!
