//! Taking over a changed configuration.
use vstd::prelude::*;

use crate::backend::{mod_key_or_default, Backend};
use crate::config::input::Keyboard;
use crate::config::misc::{pick, set_by, texts, Color, Cursor, Environment};
use crate::config::same::{all_same, SameView};
use crate::config::workspace::{workspace_names, Workspace};
use crate::config::{Config, ConfigView};
use crate::input::binds::{
    has_bind_with, mods_with_mouse_binds, mods_with_wheel_binds, mouse_triggers, wheel_triggers,
    Bind, Binds, ModKey, Modifiers,
};
use crate::input::keyboard::InputState;
use crate::input::same::{binds_agree, law_binds_agree};
use crate::niri::output_config::{OutputConfigView, Outputs};
use crate::niri::outputs::all_queued;
use crate::niri::pointer::PointerState;
use crate::niri::{Niri, State};

verus! {

/// What has changed in the configuration.
#[derive(Clone, Copy, Debug, PartialEq, Eq, Structural)]
pub struct ConfigDiff {
    pub cursor: bool,
    pub keymap: bool,
    pub repeat: bool,
    pub mouse: bool,
    /// Whether the outputs differ from how the file had them when it was last loaded. If they do not,
    /// changes that were made since then stay.
    pub outputs: bool,
    pub binds: bool,
    pub mod_key: bool,
    pub window_rules: bool,
    pub layer_rules: bool,
    pub inactivity_timeout: bool,
    pub backdrop_color: bool,
    pub background_color: bool,
}

/// Something that is done as a changed configuration is taken over.
#[derive(Clone, Copy, Debug, PartialEq, Eq, Structural)]
pub enum ReloadStep {
    ShowErrorNotification,
    HideErrorNotification,
    /// Take the names from workspaces that are no longer configured.
    UnnameRemovedWorkspaces,
    UpdateLayout,
    UpdateLayerSurfaces,
    /// Create the named workspaces that are not there yet.
    EnsureNamedWorkspaces,
    SetAnimationRate,
    SetChildEnvironment,
    ReloadCursor,
    ChangeRepeatInfo,
    UpdateHotkeyOverlay,
    ReloadKeymap,
    ApplyDeviceSettings,
    ReloadOutputs,
    RecomputeWindowRules,
    RecomputeLayerRules,
    RestartInactivityTimer,
}

/// A step that is only taken if something asks for it.
pub open spec fn step_if(wanted: bool, step: ReloadStep) -> Seq<ReloadStep> {
    if wanted {
        seq![step]
    } else {
        Seq::empty()
    }
}

/// The steps that are taken whatever has changed. Workspaces lose their names before the layout learns
/// of the configuration, and get them after that.
pub open spec fn common_steps() -> Seq<ReloadStep> {
    seq![
        ReloadStep::HideErrorNotification,
        ReloadStep::UnnameRemovedWorkspaces,
        ReloadStep::UpdateLayout,
        ReloadStep::UpdateLayerSurfaces,
        ReloadStep::EnsureNamedWorkspaces,
        ReloadStep::SetAnimationRate,
        ReloadStep::SetChildEnvironment,
    ]
}

/// All steps: the common ones, and those that are taken because of what has changed. Rules come after
/// the outputs.
pub open spec fn reload_steps(diff: ConfigDiff) -> Seq<ReloadStep> {
    common_steps() + step_if(diff.cursor, ReloadStep::ReloadCursor) + step_if(
        diff.repeat,
        ReloadStep::ChangeRepeatInfo,
    ) + step_if(diff.mod_key || diff.binds, ReloadStep::UpdateHotkeyOverlay) + step_if(
        diff.keymap,
        ReloadStep::ReloadKeymap,
    ) + step_if(diff.mouse, ReloadStep::ApplyDeviceSettings) + step_if(
        diff.outputs || diff.backdrop_color || diff.background_color,
        ReloadStep::ReloadOutputs,
    ) + step_if(diff.window_rules, ReloadStep::RecomputeWindowRules) + step_if(
        diff.layer_rules,
        ReloadStep::RecomputeLayerRules,
    ) + step_if(diff.inactivity_timeout, ReloadStep::RestartInactivityTimer)
}

/// Adds a step if something asks for it.
fn push_if(steps: &mut Vec<ReloadStep>, wanted: bool, step: ReloadStep)
    ensures
        final(steps)@ == old(steps)@ + step_if(wanted, step),
{
    if wanted {
        steps.push(step);
    }
    assert(steps@ =~= old(steps)@ + step_if(wanted, step));
}

/// Plans the steps.
fn plan_reload(diff: &ConfigDiff) -> (r: Vec<ReloadStep>)
    ensures
        r@ == reload_steps(*diff),
{
    let mut steps: Vec<ReloadStep> = Vec::new();
    steps.push(ReloadStep::HideErrorNotification);
    steps.push(ReloadStep::UnnameRemovedWorkspaces);
    steps.push(ReloadStep::UpdateLayout);
    steps.push(ReloadStep::UpdateLayerSurfaces);
    steps.push(ReloadStep::EnsureNamedWorkspaces);
    steps.push(ReloadStep::SetAnimationRate);
    steps.push(ReloadStep::SetChildEnvironment);
    assert(steps@ =~= common_steps());
    push_if(&mut steps, diff.cursor, ReloadStep::ReloadCursor);
    push_if(&mut steps, diff.repeat, ReloadStep::ChangeRepeatInfo);
    push_if(&mut steps, diff.mod_key || diff.binds, ReloadStep::UpdateHotkeyOverlay);
    push_if(&mut steps, diff.keymap, ReloadStep::ReloadKeymap);
    push_if(&mut steps, diff.mouse, ReloadStep::ApplyDeviceSettings);
    push_if(
        &mut steps,
        diff.outputs || diff.backdrop_color || diff.background_color,
        ReloadStep::ReloadOutputs,
    );
    push_if(&mut steps, diff.window_rules, ReloadStep::RecomputeWindowRules);
    push_if(&mut steps, diff.layer_rules, ReloadStep::RecomputeLayerRules);
    push_if(&mut steps, diff.inactivity_timeout, ReloadStep::RestartInactivityTimer);
    steps
}

/// Compares the cursor sections.
fn same_cursor(a: &Cursor, b: &Cursor) -> (r: bool)
    ensures
        r == (a@ == b@),
{
    a.xcursor_theme == b.xcursor_theme && a.xcursor_size == b.xcursor_size && a.hide_when_typing
        == b.hide_when_typing && a.hide_after_inactive_ms == b.hide_after_inactive_ms
}

/// Whether keys repeat differently.
pub open spec fn repeats_differ(a: Keyboard, b: Keyboard) -> bool {
    a.repeat_rate != b.repeat_rate || a.repeat_delay != b.repeat_delay
}

/// The colors that count where none are configured.
#[derive(Clone, Copy, Debug, PartialEq, Eq, Structural)]
pub struct BuiltInColors {
    /// Behind the workspaces.
    pub backdrop: Color,
    /// Behind the windows.
    pub background: Color,
}

/// The configuration that counts.
#[derive(Debug)]
pub struct ActiveConfig {
    /// The configuration. The outputs in it may have been changed since it was loaded.
    pub config: Config,
    /// The outputs as the file had them when it was last loaded.
    pub file_outputs: Outputs,
    pub built_in: BuiltInColors,
}

/// The configuration that counts, in the abstract.
#[verifier::ext_equal]
pub struct ActiveView {
    pub config: ConfigView,
    pub file_outputs: Seq<OutputConfigView>,
    pub built_in: BuiltInColors,
}

impl View for ActiveConfig {
    type V = ActiveView;

    open spec fn view(&self) -> ActiveView {
        ActiveView {
            config: self.config@,
            file_outputs: self.file_outputs@,
            built_in: self.built_in,
        }
    }
}

/// The configuration that counts after another was loaded. If the file has the outputs as when it was
/// last loaded, they stay as they have been changed since. The environment is used up.
pub open spec fn taken_over(active: ActiveView, new: ConfigView) -> ActiveView {
    ActiveView {
        config: ConfigView {
            outputs: if new.outputs == active.file_outputs {
                active.config.outputs
            } else {
                new.outputs
            },
            environment: Seq::empty(),
            ..new
        },
        file_outputs: new.outputs,
        built_in: active.built_in,
    }
}

impl ActiveConfig {
    /// Starts with a configuration. Returns the environment too, which is used up.
    pub fn new(config: Config, built_in: BuiltInColors) -> (r: (ActiveConfig, Environment))
        ensures
            r.0@.config == (ConfigView { environment: Seq::empty(), ..config@ }),
            r.0@.file_outputs == config@.outputs,
            r.0@.built_in == built_in,
            r.1@ == config@.environment,
    {
        let mut config = config;
        let ghost before = config@;
        let mut environment = Environment(Vec::new());
        std::mem::swap(&mut environment, &mut config.environment);
        assert(config@ =~= (ConfigView { environment: Seq::empty(), ..before }));
        let file_outputs = config.outputs.copied();
        (ActiveConfig { config, file_outputs, built_in }, environment)
    }

    /// Takes over a configuration that was loaded. Returns its environment, and whether the outputs are
    /// no longer as the file had them before.
    pub fn take_over(&mut self, new: Config) -> (r: (Environment, bool))
        ensures
            r.0@ == new@.environment,
            r.1 == (new@.outputs != old(self)@.file_outputs),
            final(self)@ == taken_over(old(self)@, new@),
    {
        let mut new = new;
        let ghost given = new@;
        let ghost before = self@;
        let mut environment = Environment(Vec::new());
        std::mem::swap(&mut environment, &mut new.environment);
        let changed = !new.outputs.same(&self.file_outputs);
        if changed {
            self.file_outputs = new.outputs.copied();
        } else {
            // Changes that were made for a time stay.
            std::mem::swap(&mut new.outputs, &mut self.config.outputs);
        }
        self.config = new;
        assert(self@ =~= taken_over(before, given));
        (environment, changed)
    }
}

/// Outputs that were changed for a time stay so as long as the file has its outputs as they were when it
/// was last loaded, and everything else is then as the file has it.
pub proof fn law_changed_outputs_survive(active: ActiveView, new: ConfigView)
    requires
        new.outputs == active.file_outputs,
    ensures
        taken_over(active, new).config.outputs == active.config.outputs,
        taken_over(active, new).file_outputs == active.file_outputs,
        (ConfigView {
            outputs: new.outputs,
            environment: new.environment,
            ..taken_over(active, new).config
        }) == new,
{
}

/// Other outputs in the file count at once, whatever was changed before.
pub proof fn law_other_outputs_count(active: ActiveView, new: ConfigView)
    requires
        new.outputs != active.file_outputs,
    ensures
        taken_over(active, new).config.outputs == new.outputs,
        taken_over(taken_over(active, new), new) == taken_over(active, new),
{
    assert(taken_over(taken_over(active, new), new) =~= taken_over(active, new));
}

/// What has changed.
pub open spec fn changes(active: ActiveView, new: ConfigView) -> ConfigDiff {
    let before = active.config;
    ConfigDiff {
        cursor: before.cursor != new.cursor,
        keymap: before.xkb != new.xkb,
        repeat: repeats_differ(before.input.keyboard, new.input.keyboard),
        mouse: before.input.mouse != new.input.mouse,
        outputs: new.outputs != active.file_outputs,
        binds: !binds_agree(before.binds, new.binds),
        mod_key: mod_key_or_default(before.input.mod_key) != mod_key_or_default(
            new.input.mod_key,
        ),
        window_rules: before.window_rules != new.window_rules,
        layer_rules: before.layer_rules != new.layer_rules,
        inactivity_timeout: before.cursor.hide_after_inactive_ms
            != new.cursor.hide_after_inactive_ms,
        backdrop_color: set_by(active.built_in.backdrop, before.overview.backdrop_color) != set_by(
            active.built_in.backdrop,
            new.overview.backdrop_color,
        ),
        background_color: set_by(active.built_in.background, before.layout.background_color)
            != set_by(active.built_in.background, new.layout.background_color),
    }
}

impl Backend {
    /// Finds out what has changed.
    pub fn config_diff(&self, active: &ActiveConfig, new: &Config) -> (r: ConfigDiff)
        ensures
            r == changes(active@, new@),
    {
        let before = &active.config;
        let keyboard = before.input.keyboard;
        let new_keyboard = new.input.keyboard;
        ConfigDiff {
            cursor: !same_cursor(&before.cursor, &new.cursor),
            keymap: !before.xkb.same(&new.xkb),
            repeat: keyboard.repeat_rate != new_keyboard.repeat_rate || keyboard.repeat_delay
                != new_keyboard.repeat_delay,
            mouse: before.input.mouse != new.input.mouse,
            outputs: !new.outputs.same(&active.file_outputs),
            binds: !before.binds.same(&new.binds),
            mod_key: self.mod_key(before.input.mod_key) != self.mod_key(new.input.mod_key),
            window_rules: !all_same(&before.window_rules, &new.window_rules),
            layer_rules: !all_same(&before.layer_rules, &new.layer_rules),
            inactivity_timeout: before.cursor.hide_after_inactive_ms
                != new.cursor.hide_after_inactive_ms,
            backdrop_color: pick(active.built_in.backdrop, before.overview.backdrop_color) != pick(
                active.built_in.backdrop,
                new.overview.backdrop_color,
            ),
            background_color: pick(active.built_in.background, before.layout.background_color)
                != pick(active.built_in.background, new.layout.background_color),
        }
    }
}

/// What is to be done as a configuration is taken over.
#[derive(Debug)]
pub struct ReloadPlan {
    /// The steps, in their order.
    pub steps: Vec<ReloadStep>,
    /// The workspaces that lose their names.
    pub removed_workspaces: Vec<String>,
    /// The environment of what is started from now on.
    pub environment: Option<Environment>,
}

/// The names that are no longer configured.
pub open spec fn removed_names(before: Seq<Seq<char>>, after: Seq<Seq<char>>) -> Seq<Seq<char>>
    decreases before.len(),
{
    if before.len() == 0 {
        Seq::empty()
    } else {
        let removed = removed_names(before.drop_last(), after);
        if after.contains(before.last()) {
            removed
        } else {
            removed.push(before.last())
        }
    }
}

/// Looks for a workspace with a name.
fn has_workspace(workspaces: &Vec<Workspace>, name: &String) -> (r: bool)
    ensures
        r == workspace_names(workspaces@).contains(name@),
{
    let mut i: usize = 0;
    while i < workspaces.len()
        invariant
            i <= workspaces@.len(),
            forall|k: int| 0 <= k < i ==> #[trigger] workspace_names(workspaces@)[k] != name@,
        decreases workspaces@.len() - i,
    {
        assert(workspace_names(workspaces@)[i as int] == workspaces@[i as int].name.0@);
        if workspaces[i].name.0 == *name {
            return true;
        }
        i = i + 1;
    }
    false
}

/// The workspaces that lose their names, because they are no longer configured.
pub fn removed_workspaces(before: &Vec<Workspace>, after: &Vec<Workspace>) -> (r: Vec<String>)
    ensures
        texts(r@) == removed_names(workspace_names(before@), workspace_names(after@)),
{
    let ghost old_names = workspace_names(before@);
    let ghost new_names = workspace_names(after@);
    let mut removed: Vec<String> = Vec::new();
    let mut i: usize = 0;
    assert(old_names.take(0) =~= Seq::<Seq<char>>::empty());
    assert(texts(removed@) =~= Seq::<Seq<char>>::empty());
    while i < before.len()
        invariant
            i <= before@.len(),
            old_names == workspace_names(before@),
            new_names == workspace_names(after@),
            texts(removed@) == removed_names(old_names.take(i as int), new_names),
        decreases before@.len() - i,
    {
        let name = &before[i].name.0;
        let ghost so_far = removed@;
        assert(old_names.take(i + 1).drop_last() =~= old_names.take(i as int));
        assert(old_names.take(i + 1).last() == name@);
        if !has_workspace(after, name) {
            removed.push(name.clone());
            assert(texts(removed@) =~= texts(so_far).push(name@));
        }
        i = i + 1;
    }
    assert(old_names.take(i as int) =~= old_names);
    removed
}

/// Just the names that are configured no longer are taken away.
pub proof fn law_removed_workspaces(before: Seq<Seq<char>>, after: Seq<Seq<char>>, name: Seq<char>)
    ensures
        removed_names(before, after).contains(name) <==> before.contains(name) && !after.contains(
            name,
        ),
    decreases before.len(),
{
    if before.len() > 0 {
        let shorter = before.drop_last();
        let last = before.last();
        let removed = removed_names(shorter, after);
        law_removed_workspaces(shorter, after, name);
        assert(before[before.len() - 1] == last);
        if shorter.contains(name) {
            assert(before[shorter.index_of(name)] == name);
        }
        if before.contains(name) && name != last {
            assert(shorter[before.index_of(name)] == name);
        }
        if !after.contains(last) {
            assert(removed.push(last)[removed.len() as int] == last);
            if removed.contains(name) {
                assert(removed.push(last)[removed.index_of(name)] == name);
            }
            if removed.push(last).contains(name) && name != last {
                assert(removed[removed.push(last).index_of(name)] == name);
            }
        }
    }
}

/// Where a keymap comes from.
#[derive(Clone, Copy, Debug, PartialEq, Eq, Structural)]
pub enum KeymapSource {
    /// The file that is configured.
    File,
    /// The names that are configured.
    Names,
    /// The settings of the system, because nothing is configured.
    System,
}

/// Where the keymap comes from after it was tried to load the configured file: `loaded` says how that
/// went, if there is such a file. If it cannot be loaded, the names count.
pub fn keymap_source(loaded: Option<bool>, nothing_configured: bool) -> (r: KeymapSource)
    ensures
        r == (if loaded == Some(true) {
            KeymapSource::File
        } else if nothing_configured {
            KeymapSource::System
        } else {
            KeymapSource::Names
        }),
{
    let mut set_xkb_config = true;
    if let Some(loaded) = loaded {
        if loaded {
            set_xkb_config = false;
        }
    }
    if set_xkb_config {
        if nothing_configured {
            return KeymapSource::System;
        }
        return KeymapSource::Names;
    }
    KeymapSource::File
}

/// Whether the sets of modifiers are those of the binds.
pub open spec fn mods_match(input: InputState, mod_key: ModKey, binds: Seq<Bind>) -> bool {
    &&& input.mods_with_mouse_binds@.no_duplicates()
    &&& input.mods_with_wheel_binds@.no_duplicates()
    &&& forall|m: Modifiers| #[trigger]
        input.mods_with_mouse_binds@.contains(m) <==> has_bind_with(
            binds,
            mod_key,
            mouse_triggers(),
            m,
        )
    &&& forall|m: Modifiers| #[trigger]
        input.mods_with_wheel_binds@.contains(m) <==> has_bind_with(
            binds,
            mod_key,
            wheel_triggers(),
            m,
        )
}

/// What a configuration does to the state, after it was loaded with some changes or could not be loaded.
pub open spec fn state_follows(before: Niri, after: Niri, diff: Option<ConfigDiff>) -> bool {
    &&& after == (Niri {
        config_error_shown: diff is None,
        input: InputState {
            mods_with_mouse_binds: after.input.mods_with_mouse_binds,
            mods_with_wheel_binds: after.input.mods_with_wheel_binds,
            ..before.input
        },
        pointer: PointerState {
            inactivity_timer_got_reset: before.pointer.inactivity_timer_got_reset && !(
            diff matches Some(diff) && diff.inactivity_timeout),
            ..before.pointer
        },
        output_state: after.output_state,
        ..before
    })
    &&& !(diff matches Some(diff) && (diff.mod_key || diff.binds)) ==> after.input == before.input
    &&& after.output_state@ == all_queued(before.output_state@)
}

impl Niri {
    /// Follows a configuration with some changes.
    fn follow_config(&mut self, diff: &ConfigDiff, mod_key: ModKey, binds: &Binds)
        ensures
            state_follows(*old(self), *final(self), Some(*diff)),
            diff.mod_key || diff.binds ==> mods_match(final(self).input, mod_key, binds.0@),
    {
        self.config_error_shown = false;
        if diff.mod_key || diff.binds {
            self.input.mods_with_mouse_binds = mods_with_mouse_binds(mod_key, binds);
            self.input.mods_with_wheel_binds = mods_with_wheel_binds(mod_key, binds);
        }
        if diff.inactivity_timeout {
            self.pointer.inactivity_timer_got_reset = false;
        }
        self.queue_redraw_all();
    }

    /// Shows that the configuration could not be loaded.
    fn show_config_error(&mut self)
        ensures
            state_follows(*old(self), *final(self), None),
    {
        self.config_error_shown = true;
        self.queue_redraw_all();
    }
}

impl State {
    /// Takes over a changed configuration. Returns what is to be done.
    ///
    /// `config` is missing if it could not be loaded, which is then shown.
    pub fn reload_config(&mut self, active: &mut ActiveConfig, config: Option<Config>) -> (r:
        ReloadPlan)
        ensures
            match config {
                None => {
                    &&& r.steps@ == seq![ReloadStep::ShowErrorNotification]
                    &&& r.removed_workspaces@.len() == 0
                    &&& r.environment is None
                    &&& *final(active) == *old(active)
                    &&& state_follows(old(self).niri, final(self).niri, None)
                },
                Some(config) => {
                    let diff = changes(old(active)@, config@);
                    &&& r.steps@ == reload_steps(diff)
                    &&& texts(r.removed_workspaces@) == removed_names(
                        workspace_names(old(active).config.workspaces@),
                        workspace_names(config.workspaces@),
                    )
                    &&& r.environment matches Some(environment) && environment@
                        == config@.environment
                    &&& final(active)@ == taken_over(old(active)@, config@)
                    &&& state_follows(old(self).niri, final(self).niri, Some(diff))
                    &&& diff.mod_key || diff.binds ==> mods_match(
                        final(self).niri.input,
                        mod_key_or_default(config.input.mod_key),
                        config@.binds,
                    )
                },
            },
            final(self).backend == old(self).backend,
    {
        let Some(config) = config else {
            let mut steps: Vec<ReloadStep> = Vec::new();
            steps.push(ReloadStep::ShowErrorNotification);
            self.niri.show_config_error();
            return ReloadPlan { steps, removed_workspaces: Vec::new(), environment: None };
        };
        let removed_workspaces = removed_workspaces(
            &active.config.workspaces,
            &config.workspaces,
        );
        let diff = self.backend.config_diff(active, &config);
        let mod_key = self.backend.mod_key(config.input.mod_key);
        self.niri.follow_config(&diff, mod_key, &config.binds);
        let (environment, _) = active.take_over(config);
        let steps = plan_reload(&diff);
        ReloadPlan { steps, removed_workspaces, environment: Some(environment) }
    }
}

/// Loading the same configuration once more leads to no step but the common ones, and changes nothing
/// that counts.
pub proof fn law_unchanged_config(active: ActiveView, new: ConfigView)
    requires
        new.outputs == active.file_outputs,
        (ConfigView {
            outputs: active.config.outputs,
            environment: active.config.environment,
            ..new
        }) == active.config,
    ensures
        reload_steps(changes(active, new)) == common_steps(),
        taken_over(active, new) == (ActiveView {
            config: ConfigView { environment: Seq::empty(), ..active.config },
            ..active
        }),
{
    law_binds_agree(active.config.binds, new.binds);
    assert(active.config.binds == new.binds);
    assert(reload_steps(changes(active, new)) =~= common_steps());
    assert(taken_over(active, new) =~= (ActiveView {
        config: ConfigView { environment: Seq::empty(), ..active.config },
        ..active
    }));
}

/// What has changed decides what is done, each thing for its own reason, and the rules are looked at only
/// once the outputs are there.
pub proof fn law_changes_lead_to_steps(diff: ConfigDiff, step: ReloadStep)
    ensures
        reload_steps(diff).contains(step) <==> (match step {
            ReloadStep::ReloadCursor => diff.cursor,
            ReloadStep::ChangeRepeatInfo => diff.repeat,
            ReloadStep::UpdateHotkeyOverlay => diff.mod_key || diff.binds,
            ReloadStep::ReloadKeymap => diff.keymap,
            ReloadStep::ApplyDeviceSettings => diff.mouse,
            ReloadStep::ReloadOutputs => diff.outputs || diff.backdrop_color || diff.background_color,
            ReloadStep::RecomputeWindowRules => diff.window_rules,
            ReloadStep::RecomputeLayerRules => diff.layer_rules,
            ReloadStep::RestartInactivityTimer => diff.inactivity_timeout,
            ReloadStep::ShowErrorNotification => false,
            ReloadStep::HideErrorNotification | ReloadStep::UnnameRemovedWorkspaces
            | ReloadStep::UpdateLayout | ReloadStep::UpdateLayerSurfaces
            | ReloadStep::EnsureNamedWorkspaces | ReloadStep::SetAnimationRate
            | ReloadStep::SetChildEnvironment => true,
        }),
{
    let a = common_steps();
    let b = step_if(diff.cursor, ReloadStep::ReloadCursor);
    let c = step_if(diff.repeat, ReloadStep::ChangeRepeatInfo);
    let d = step_if(diff.mod_key || diff.binds, ReloadStep::UpdateHotkeyOverlay);
    let e = step_if(diff.keymap, ReloadStep::ReloadKeymap);
    let f = step_if(diff.mouse, ReloadStep::ApplyDeviceSettings);
    let g = step_if(
        diff.outputs || diff.backdrop_color || diff.background_color,
        ReloadStep::ReloadOutputs,
    );
    let h = step_if(diff.window_rules, ReloadStep::RecomputeWindowRules);
    let i = step_if(diff.layer_rules, ReloadStep::RecomputeLayerRules);
    let j = step_if(diff.inactivity_timeout, ReloadStep::RestartInactivityTimer);
    lemma_in_both(a, b, step);
    lemma_in_both(a + b, c, step);
    lemma_in_both(a + b + c, d, step);
    lemma_in_both(a + b + c + d, e, step);
    lemma_in_both(a + b + c + d + e, f, step);
    lemma_in_both(a + b + c + d + e + f, g, step);
    lemma_in_both(a + b + c + d + e + f + g, h, step);
    lemma_in_both(a + b + c + d + e + f + g + h, i, step);
    lemma_in_both(a + b + c + d + e + f + g + h + i, j, step);
    lemma_in_if(diff.cursor, ReloadStep::ReloadCursor, step);
    lemma_in_if(diff.repeat, ReloadStep::ChangeRepeatInfo, step);
    lemma_in_if(diff.mod_key || diff.binds, ReloadStep::UpdateHotkeyOverlay, step);
    lemma_in_if(diff.keymap, ReloadStep::ReloadKeymap, step);
    lemma_in_if(diff.mouse, ReloadStep::ApplyDeviceSettings, step);
    lemma_in_if(
        diff.outputs || diff.backdrop_color || diff.background_color,
        ReloadStep::ReloadOutputs,
        step,
    );
    lemma_in_if(diff.window_rules, ReloadStep::RecomputeWindowRules, step);
    lemma_in_if(diff.layer_rules, ReloadStep::RecomputeLayerRules, step);
    lemma_in_if(diff.inactivity_timeout, ReloadStep::RestartInactivityTimer, step);
    assert(a[0] == ReloadStep::HideErrorNotification);
    assert(a[1] == ReloadStep::UnnameRemovedWorkspaces);
    assert(a[2] == ReloadStep::UpdateLayout);
    assert(a[3] == ReloadStep::UpdateLayerSurfaces);
    assert(a[4] == ReloadStep::EnsureNamedWorkspaces);
    assert(a[5] == ReloadStep::SetAnimationRate);
    assert(a[6] == ReloadStep::SetChildEnvironment);
    if a.contains(step) {
        assert(a[a.index_of(step)] == step);
    }
}

/// What is in two lists of steps.
proof fn lemma_in_both(a: Seq<ReloadStep>, b: Seq<ReloadStep>, step: ReloadStep)
    ensures
        (a + b).contains(step) <==> a.contains(step) || b.contains(step),
{
    if a.contains(step) {
        assert((a + b)[a.index_of(step)] == step);
    }
    if b.contains(step) {
        assert((a + b)[a.len() + b.index_of(step)] == step);
    }
    if (a + b).contains(step) {
        let i = (a + b).index_of(step);
        if i < a.len() {
            assert(a[i] == step);
        } else {
            assert(b[i - a.len()] == step);
        }
    }
}

/// A step that is taken if something asks for it.
proof fn lemma_in_if(wanted: bool, only: ReloadStep, step: ReloadStep)
    ensures
        step_if(wanted, only).contains(step) <==> wanted && step == only,
{
    if wanted {
        assert(step_if(wanted, only)[0] == only);
    }
}

/// How late a step comes: workspaces lose their names before the layout learns of the configuration and get
/// them after that, the keymap comes before the devices, those before the outputs, and those before the
/// rules.
pub open spec fn lateness(step: ReloadStep) -> int {
    match step {
        ReloadStep::ShowErrorNotification | ReloadStep::HideErrorNotification => 0,
        ReloadStep::UnnameRemovedWorkspaces => 1,
        ReloadStep::UpdateLayout => 2,
        ReloadStep::UpdateLayerSurfaces => 3,
        ReloadStep::EnsureNamedWorkspaces => 4,
        ReloadStep::SetAnimationRate => 5,
        ReloadStep::SetChildEnvironment => 6,
        ReloadStep::ReloadCursor => 7,
        ReloadStep::ChangeRepeatInfo => 8,
        ReloadStep::UpdateHotkeyOverlay => 9,
        ReloadStep::ReloadKeymap => 10,
        ReloadStep::ApplyDeviceSettings => 11,
        ReloadStep::ReloadOutputs => 12,
        ReloadStep::RecomputeWindowRules => 13,
        ReloadStep::RecomputeLayerRules => 14,
        ReloadStep::RestartInactivityTimer => 15,
    }
}

/// Whether steps come in order, and none later than a limit.
spec fn in_order(steps: Seq<ReloadStep>, limit: int) -> bool {
    &&& forall|i: int, j: int|
        0 <= i < j < steps.len() ==> lateness(#[trigger] steps[i]) < lateness(#[trigger] steps[j])
    &&& forall|i: int| 0 <= i < steps.len() ==> lateness(#[trigger] steps[i]) <= limit
}

/// A step that comes later than all others can follow.
proof fn lemma_one_later(steps: Seq<ReloadStep>, limit: int, wanted: bool, step: ReloadStep)
    requires
        in_order(steps, limit),
        limit < lateness(step),
    ensures
        in_order(steps + step_if(wanted, step), lateness(step)),
{
    let all = steps + step_if(wanted, step);
    assert forall|i: int| 0 <= i < all.len() implies lateness(#[trigger] all[i]) <= lateness(step) by {
        if i < steps.len() {
            assert(all[i] == steps[i]);
        }
    }
    assert forall|i: int, j: int| 0 <= i < j < all.len() implies lateness(#[trigger] all[i])
        < lateness(#[trigger] all[j]) by {
        assert(all[i] == steps[i]);
        if j < steps.len() {
            assert(all[j] == steps[j]);
        }
    }
}

/// Whatever has changed, the steps are taken in this order.
pub proof fn law_steps_come_in_order(diff: ConfigDiff, i: int, j: int)
    requires
        0 <= i < j < reload_steps(diff).len(),
    ensures
        lateness(reload_steps(diff)[i]) < lateness(reload_steps(diff)[j]),
{
    let a = common_steps();
    assert(in_order(a, 6));
    let outputs = diff.outputs || diff.backdrop_color || diff.background_color;
    let b = a + step_if(diff.cursor, ReloadStep::ReloadCursor);
    lemma_one_later(a, 6, diff.cursor, ReloadStep::ReloadCursor);
    let c = b + step_if(diff.repeat, ReloadStep::ChangeRepeatInfo);
    lemma_one_later(b, 7, diff.repeat, ReloadStep::ChangeRepeatInfo);
    let d = c + step_if(diff.mod_key || diff.binds, ReloadStep::UpdateHotkeyOverlay);
    lemma_one_later(c, 8, diff.mod_key || diff.binds, ReloadStep::UpdateHotkeyOverlay);
    let e = d + step_if(diff.keymap, ReloadStep::ReloadKeymap);
    lemma_one_later(d, 9, diff.keymap, ReloadStep::ReloadKeymap);
    let f = e + step_if(diff.mouse, ReloadStep::ApplyDeviceSettings);
    lemma_one_later(e, 10, diff.mouse, ReloadStep::ApplyDeviceSettings);
    let g = f + step_if(outputs, ReloadStep::ReloadOutputs);
    lemma_one_later(f, 11, outputs, ReloadStep::ReloadOutputs);
    let h = g + step_if(diff.window_rules, ReloadStep::RecomputeWindowRules);
    lemma_one_later(g, 12, diff.window_rules, ReloadStep::RecomputeWindowRules);
    let k = h + step_if(diff.layer_rules, ReloadStep::RecomputeLayerRules);
    lemma_one_later(h, 13, diff.layer_rules, ReloadStep::RecomputeLayerRules);
    lemma_one_later(k, 14, diff.inactivity_timeout, ReloadStep::RestartInactivityTimer);
}

/// What counts as changed: whatever differs, with the built-in colors where none are configured.
pub proof fn law_changes_are_differences(active: ActiveView, new: ConfigView)
    ensures
        ({
            let diff = changes(active, new);
            let old = active.config;
            let backdrop = |color: Option<Color>|
                match color {
                    Some(color) => color,
                    None => active.built_in.backdrop,
                };
            let background = |color: Option<Color>|
                match color {
                    Some(color) => color,
                    None => active.built_in.background,
                };
            &&& diff.cursor <==> new.cursor != old.cursor
            &&& diff.keymap <==> new.xkb != old.xkb
            &&& diff.repeat <==> new.input.keyboard.repeat_rate != old.input.keyboard.repeat_rate
                || new.input.keyboard.repeat_delay != old.input.keyboard.repeat_delay
            &&& diff.mouse <==> new.input.mouse != old.input.mouse
            &&& diff.outputs <==> new.outputs != active.file_outputs
            &&& diff.window_rules <==> new.window_rules != old.window_rules
            &&& diff.layer_rules <==> new.layer_rules != old.layer_rules
            &&& diff.inactivity_timeout <==> new.cursor.hide_after_inactive_ms
                != old.cursor.hide_after_inactive_ms
            &&& diff.backdrop_color <==> backdrop(new.overview.backdrop_color) != backdrop(
                old.overview.backdrop_color,
            )
            &&& diff.background_color <==> background(new.layout.background_color) != background(
                old.layout.background_color,
            )
            &&& old.binds == new.binds ==> !diff.binds
        }),
{
    law_binds_agree(active.config.binds, new.binds);
}

} // verus!
