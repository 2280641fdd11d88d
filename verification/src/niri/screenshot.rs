//! Screenshots: selecting what goes on them, and saving them.
use vstd::prelude::*;

use crate::geometry::Size;
use crate::niri::outputs::all_queued;
use crate::niri::pointer::PointerVisibility;
use crate::niri::redraw::OutputState;
use crate::niri::refresh::has_id;
use crate::niri::{Effect, Niri, ScreenshotUi, State};
use crate::utils::png::{png_file, write_png_rgba8, BitDepth, ColorType, PictureError};
use crate::utils::transform::Transform;

verus! {

/// Where a screenshot is saved.
#[derive(Debug)]
pub struct SavePath {
    pub path: String,
    /// Whether the directories on the way are created. They are not for a path that was asked for.
    pub create_parent: bool,
}

/// What came of taking the pictures of an output: one as it is shown, and one as others may see it.
#[derive(Clone, Copy, Debug, PartialEq, Eq, Structural)]
pub struct Capture {
    pub output: u64,
    pub shown: bool,
    pub captured: bool,
}

/// The outputs of which both pictures could be taken.
pub open spec fn fully_captured(captures: Seq<Capture>) -> Seq<u64>
    decreases captures.len(),
{
    if captures.len() == 0 {
        Seq::empty()
    } else {
        let before = fully_captured(captures.drop_last());
        let last = captures.last();
        if last.shown && last.captured {
            before.push(last.output)
        } else {
            before
        }
    }
}

/// The output that a selection starts on, if one can be started.
pub open spec fn selection_start(
    niri: Niri,
    output_under_cursor: Option<u64>,
    active_output: Option<u64>,
) -> Option<u64> {
    if niri.locked() || niri.screenshot_ui is Open {
        None
    } else if output_under_cursor is Some {
        output_under_cursor
    } else {
        active_output
    }
}

impl State {
    /// The output that a screenshot selection starts on: the one under the cursor, or else the active
    /// one. None can be started in a locked session, or while there is one.
    pub fn open_screenshot_ui(
        &self,
        output_under_cursor: Option<u64>,
        active_output: Option<u64>,
    ) -> (r: Option<u64>)
        ensures
            r == selection_start(self.niri, output_under_cursor, active_output),
    {
        if self.niri.is_locked() || self.niri.screenshot_ui.is_open() {
            return None;
        }
        match output_under_cursor {
            Some(output) => Some(output),
            None => active_output,
        }
    }

    /// Starts a screenshot selection on an output, once pictures of all outputs were taken. What the
    /// pointer is busy with ends, and the cursor becomes a cross.
    pub fn start_selection(&mut self, selection_output: u64, path: Option<String>) -> (r: Vec<Effect>)
        requires
            !old(self).niri.locked(),
            !(old(self).niri.screenshot_ui is Open),
        ensures
            r@ == seq![Effect::EndPointerGrab, Effect::ShowCrosshair],
            final(self).niri == (Niri {
                screenshot_ui: ScreenshotUi::Open { selection_output, path },
                output_state: final(self).niri.output_state,
                ..old(self).niri
            }),
            final(self).niri.output_state@ == all_queued(old(self).niri.output_state@),
            final(self).backend == old(self).backend,
    {
        let mut effects: Vec<Effect> = Vec::new();
        effects.push(Effect::EndPointerGrab);
        self.niri.screenshot_ui = ScreenshotUi::Open { selection_output, path };
        effects.push(Effect::ShowCrosshair);
        self.niri.queue_redraw_all();
        effects
    }

    /// Ends a screenshot selection to take the screenshot. Returns the path that was asked for, if
    /// there is a selection, and what follows: the cursor is no cross any longer.
    pub fn confirm_screenshot(&mut self) -> (r: (Option<Option<String>>, Vec<Effect>))
        ensures
            match old(self).niri.screenshot_ui {
                ScreenshotUi::Open { path, .. } => {
                    &&& r.0 == Some(path)
                    &&& r.1@ == seq![Effect::ResetCursorImage]
                    &&& final(self).niri == (Niri {
                        screenshot_ui: ScreenshotUi::Closed,
                        output_state: final(self).niri.output_state,
                        ..old(self).niri
                    })
                    &&& final(self).niri.output_state@ == all_queued(old(self).niri.output_state@)
                    &&& final(self).backend == old(self).backend
                },
                ScreenshotUi::Closed => r.0 is None && r.1@.len() == 0 && *final(self) == *old(self),
            },
    {
        let mut effects: Vec<Effect> = Vec::new();
        if !self.niri.screenshot_ui.is_open() {
            return (None, effects);
        }
        let mut ui = ScreenshotUi::Closed;
        std::mem::swap(&mut ui, &mut self.niri.screenshot_ui);
        let path = match ui {
            ScreenshotUi::Open { path, .. } => path,
            ScreenshotUi::Closed => None,
        };
        effects.push(Effect::ResetCursorImage);
        self.niri.queue_redraw_all();
        (Some(path), effects)
    }
}

impl Niri {
    /// Whether the pointer is drawn for a screenshot selection. It is even if it has hidden itself,
    /// since it can still be left out of the selection.
    pub fn captures_pointer(&self) -> (r: bool)
        ensures
            r == !(self.pointer.visibility is Disabled),
    {
        !matches!(self.pointer.visibility, PointerVisibility::Disabled)
    }

    /// The outputs that a screenshot selection shows: those of which both pictures could be taken.
    pub fn capture_screenshots(captures: &Vec<Capture>) -> (r: Vec<u64>)
        ensures
            r@ == fully_captured(captures@),
    {
        let mut outputs: Vec<u64> = Vec::new();
        let mut i: usize = 0;
        assert(captures@.take(0) =~= Seq::<Capture>::empty());
        while i < captures.len()
            invariant
                i <= captures@.len(),
                outputs@ == fully_captured(captures@.take(i as int)),
            decreases captures@.len() - i,
        {
            assert(captures@.take(i + 1).drop_last() =~= captures@.take(i as int));
            if captures[i].shown && captures[i].captured {
                outputs.push(captures[i].output);
            }
            i = i + 1;
        }
        assert(captures@.take(i as int) =~= captures@);
        outputs
    }

    /// Freezes the outputs of which both pictures could be taken, until a delay has passed and they fade
    /// into what is there now. Returns the delay.
    ///
    /// The pictures are kept by whoever took them.
    pub fn do_screen_transition(
        &mut self,
        captures: &Vec<Capture>,
        delay_ms: Option<u16>,
        default_delay_ms: u16,
    ) -> (r: u16)
        ensures
            r == (match delay_ms {
                Some(delay) => delay,
                None => default_delay_ms,
            }),
            final(self).output_state@ == old(self).output_state@.map_values(
                |s: OutputState|
                    OutputState {
                        screen_transition: s.screen_transition || fully_captured(
                            captures@,
                        ).contains(s.id),
                        ..s
                    },
            ),
            *final(self) == (Niri { output_state: final(self).output_state, ..*old(self) }),
    {
        let outputs = Niri::capture_screenshots(captures);
        let ghost before = self.output_state@;
        let mut i: usize = 0;
        while i < self.output_state.len()
            invariant
                i <= self.output_state@.len(),
                before == old(self).output_state@,
                outputs@ == fully_captured(captures@),
                self.output_state@.len() == before.len(),
                forall|k: int|
                    0 <= k < i ==> #[trigger] self.output_state@[k] == (OutputState {
                        screen_transition: before[k].screen_transition || outputs@.contains(
                            before[k].id,
                        ),
                        ..before[k]
                    }),
                forall|k: int|
                    i <= k < before.len() ==> #[trigger] self.output_state@[k] == before[k],
                *self == (Niri { output_state: self.output_state, ..*old(self) }),
            decreases self.output_state@.len() - i,
        {
            let mut state = self.output_state[i];
            if has_id(&outputs, state.id) {
                state.screen_transition = true;
                self.output_state.set(i, state);
            }
            i = i + 1;
        }
        match delay_ms {
            Some(delay) => delay,
            None => default_delay_ms,
        }
    }

    /// The size of a screenshot of an output: that of its mode, turned as the output is.
    pub fn screenshot_size(mode: Size, transform: Transform) -> (r: Size)
        ensures
            r == transform.turned(mode),
    {
        transform.transform_size(mode)
    }

    /// Where a screenshot is saved, if it is: at the path that was asked for, or else at the configured
    /// one, which `configured` gives if it could be made.
    pub fn screenshot_path(
        write_to_disk: bool,
        path_arg: Option<String>,
        configured: Option<String>,
    ) -> (r: Option<SavePath>)
        ensures
            match (path_arg, configured) {
                _ if !write_to_disk => r is None,
                (Some(path), _) => r == Some(SavePath { path, create_parent: false }),
                (None, Some(path)) => r == Some(SavePath { path, create_parent: true }),
                (None, None) => r is None,
            },
    {
        if !write_to_disk {
            return None;
        }
        if let Some(path) = path_arg {
            return Some(SavePath { path, create_parent: false });
        }
        match configured {
            Some(path) => Some(SavePath { path, create_parent: true }),
            None => None,
        }
    }

    /// The file of a screenshot, which also goes to the clipboard.
    pub fn save_screenshot(size: Size, pixels: &Vec<u8>) -> (r: Result<Vec<u8>, PictureError>)
        requires
            size.w >= 0,
            size.h >= 0,
            (4 * size.w + 1) * size.h <= usize::MAX,
            4 * size.w + 1 <= usize::MAX,
        ensures
            match r {
                Ok(file) => {
                    &&& size.w > 0
                    &&& size.h > 0
                    &&& pixels@.len() == 4 * size.w * size.h
                    &&& file@ == png_file(
                        size.w as u32,
                        size.h as u32,
                        ColorType::Rgba,
                        BitDepth::Eight,
                        pixels@,
                    )
                },
                Err(_) => size.w == 0 || size.h == 0 || pixels@.len() != 4 * size.w * size.h,
            },
    {
        write_png_rgba8(size.w as u32, size.h as u32, pixels)
    }

    /// The path that is reported for a screenshot: where it was saved, if it was.
    pub fn reported_path(path: Option<SavePath>, written: bool) -> (r: Option<String>)
        ensures
            r == (match path {
                Some(save) if written => Some(save.path),
                _ => None,
            }),
    {
        match path {
            Some(save) => if written {
                Some(save.path)
            } else {
                None
            },
            None => None,
        }
    }
}

/// In a locked session no screenshot selection can be started, so that nothing of the session is
/// shown.
pub proof fn law_locked_session_is_not_captured(
    niri: Niri,
    output_under_cursor: Option<u64>,
    active_output: Option<u64>,
)
    requires
        niri.locked(),
    ensures
        selection_start(niri, output_under_cursor, active_output) is None,
{
}

} // verus!
