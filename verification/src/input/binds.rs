//! Key, mouse and wheel binds.
use std::collections::HashSet;

use vstd::prelude::*;

use crate::input::action::{
    allowed_during_screenshot, works_during_screenshot, works_when_locked, Action,
};

verus! {

broadcast use vstd::std_specs::hash::group_hash_axioms;

/// The key that stands for the compositor's own modifier.
#[derive(Clone, Copy, Debug, PartialEq, Eq, Structural)]
pub enum ModKey {
    Ctrl,
    Shift,
    Alt,
    Super,
    IsoLevel3Shift,
    IsoLevel5Shift,
}

/// A set of modifiers. `compositor` stands for whichever key is configured as such.
#[derive(Clone, Copy, Debug, PartialEq, Eq, Structural)]
pub struct Modifiers {
    pub ctrl: bool,
    pub shift: bool,
    pub alt: bool,
    pub super_key: bool,
    pub iso_level3_shift: bool,
    pub iso_level5_shift: bool,
    pub compositor: bool,
}

/// The modifiers that are held down or locked on a keyboard.
#[derive(Clone, Copy, Debug, PartialEq, Eq, Structural)]
pub struct ModifiersState {
    pub ctrl: bool,
    pub alt: bool,
    pub shift: bool,
    pub caps_lock: bool,
    pub logo: bool,
    pub num_lock: bool,
    pub iso_level3_shift: bool,
    pub iso_level5_shift: bool,
}

/// What sets off a bind.
#[derive(Clone, Copy, Debug, PartialEq, Eq, Structural)]
pub enum Trigger {
    Keysym(u32),
    MouseLeft,
    MouseRight,
    MouseMiddle,
    MouseBack,
    MouseForward,
    WheelScrollDown,
    WheelScrollUp,
    WheelScrollLeft,
    WheelScrollRight,
}

/// A trigger together with the modifiers that have to be held.
#[derive(Clone, Copy, Debug, PartialEq, Eq, Structural)]
pub struct Key {
    pub trigger: Trigger,
    pub modifiers: Modifiers,
}

/// An action and what sets it off.
#[derive(Clone, Debug)]
pub struct Bind {
    pub key: Key,
    pub action: Action,
    /// Whether the action is repeated while the key is held.
    pub repeat: bool,
    /// For how many milliseconds the bind rests after it was set off.
    pub cooldown: Option<u64>,
    pub allow_when_locked: bool,
    pub hotkey_overlay_title: Option<Option<String>>,
}

/// All configured binds.
#[derive(Clone, Debug)]
pub struct Binds(pub Vec<Bind>);

/// The first key symbol that switches to a virtual terminal.
pub const KEY_XF86SWITCH_VT_1: u32 = 0x1008FE01;

/// The last key symbol that switches to a virtual terminal.
pub const KEY_XF86SWITCH_VT_12: u32 = 0x1008FE0C;

/// The key symbol of the power key.
pub const KEY_XF86POWEROFF: u32 = 0x1008FF2A;

/// The key symbol of the escape key.
pub const KEY_ESCAPE: u32 = 0xFF1B;

/// The key symbol of the return key.
pub const KEY_RETURN: u32 = 0xFF0D;

/// The key symbol of the space bar.
pub const KEY_SPACE: u32 = 0x20;

/// The key symbol of the left arrow.
pub const KEY_LEFT: u32 = 0xFF51;

/// The key symbol of the up arrow.
pub const KEY_UP: u32 = 0xFF52;

/// The key symbol of the right arrow.
pub const KEY_RIGHT: u32 = 0xFF53;

/// The key symbol of the down arrow.
pub const KEY_DOWN: u32 = 0xFF54;

impl Modifiers {
    /// No modifiers.
    pub open spec fn none() -> Modifiers {
        Modifiers {
            ctrl: false,
            shift: false,
            alt: false,
            super_key: false,
            iso_level3_shift: false,
            iso_level5_shift: false,
            compositor: false,
        }
    }

    /// No modifiers.
    pub fn empty() -> (r: Modifiers)
        ensures
            r == Modifiers::none(),
    {
        Modifiers {
            ctrl: false,
            shift: false,
            alt: false,
            super_key: false,
            iso_level3_shift: false,
            iso_level5_shift: false,
            compositor: false,
        }
    }

    /// Whether no modifier is in the set.
    pub fn is_empty(&self) -> (r: bool)
        ensures
            r == (*self == Modifiers::none()),
    {
        *self == Modifiers::empty()
    }

    /// Whether the set holds the modifier of a key.
    pub open spec fn has(self, key: ModKey) -> bool {
        match key {
            ModKey::Ctrl => self.ctrl,
            ModKey::Shift => self.shift,
            ModKey::Alt => self.alt,
            ModKey::Super => self.super_key,
            ModKey::IsoLevel3Shift => self.iso_level3_shift,
            ModKey::IsoLevel5Shift => self.iso_level5_shift,
        }
    }

    /// The set with the modifier of a key added.
    pub open spec fn with(self, key: ModKey) -> Modifiers {
        match key {
            ModKey::Ctrl => Modifiers { ctrl: true, ..self },
            ModKey::Shift => Modifiers { shift: true, ..self },
            ModKey::Alt => Modifiers { alt: true, ..self },
            ModKey::Super => Modifiers { super_key: true, ..self },
            ModKey::IsoLevel3Shift => Modifiers { iso_level3_shift: true, ..self },
            ModKey::IsoLevel5Shift => Modifiers { iso_level5_shift: true, ..self },
        }
    }

    /// Whether the set holds all modifiers of another.
    pub fn contains(&self, other: Modifiers) -> (r: bool)
        ensures
            r == (self.union(other) == *self),
    {
        (self.ctrl || !other.ctrl) && (self.shift || !other.shift) && (self.alt || !other.alt) && (
        self.super_key || !other.super_key) && (self.iso_level3_shift || !other.iso_level3_shift)
            && (self.iso_level5_shift || !other.iso_level5_shift) && (self.compositor
            || !other.compositor)
    }

    /// The modifiers of either set.
    pub open spec fn union(self, other: Modifiers) -> Modifiers {
        Modifiers {
            ctrl: self.ctrl || other.ctrl,
            shift: self.shift || other.shift,
            alt: self.alt || other.alt,
            super_key: self.super_key || other.super_key,
            iso_level3_shift: self.iso_level3_shift || other.iso_level3_shift,
            iso_level5_shift: self.iso_level5_shift || other.iso_level5_shift,
            compositor: self.compositor || other.compositor,
        }
    }

    /// Adds the modifiers of another set.
    pub fn insert(&mut self, other: Modifiers)
        ensures
            *final(self) == old(self).union(other),
    {
        self.ctrl = self.ctrl || other.ctrl;
        self.shift = self.shift || other.shift;
        self.alt = self.alt || other.alt;
        self.super_key = self.super_key || other.super_key;
        self.iso_level3_shift = self.iso_level3_shift || other.iso_level3_shift;
        self.iso_level5_shift = self.iso_level5_shift || other.iso_level5_shift;
        self.compositor = self.compositor || other.compositor;
    }
}

impl ModKey {
    /// The modifier of the key, as a set.
    pub fn to_modifiers(&self) -> (r: Modifiers)
        ensures
            r == Modifiers::none().with(*self),
    {
        let mut modifiers = Modifiers::empty();
        match self {
            ModKey::Ctrl => {
                modifiers.ctrl = true;
            },
            ModKey::Shift => {
                modifiers.shift = true;
            },
            ModKey::Alt => {
                modifiers.alt = true;
            },
            ModKey::Super => {
                modifiers.super_key = true;
            },
            ModKey::IsoLevel3Shift => {
                modifiers.iso_level3_shift = true;
            },
            ModKey::IsoLevel5Shift => {
                modifiers.iso_level5_shift = true;
            },
        }
        modifiers
    }
}

/// The modifiers that are held down. Locks do not count.
pub open spec fn held(mods: ModifiersState) -> Modifiers {
    Modifiers {
        ctrl: mods.ctrl,
        shift: mods.shift,
        alt: mods.alt,
        super_key: mods.logo,
        iso_level3_shift: mods.iso_level3_shift,
        iso_level5_shift: mods.iso_level5_shift,
        compositor: false,
    }
}

/// The modifiers that are held down.
pub fn modifiers_from_state(mods: ModifiersState) -> (r: Modifiers)
    ensures
        r == held(mods),
{
    let mut modifiers = Modifiers::empty();
    if mods.ctrl {
        modifiers.ctrl = true;
    }
    if mods.shift {
        modifiers.shift = true;
    }
    if mods.alt {
        modifiers.alt = true;
    }
    if mods.logo {
        modifiers.super_key = true;
    }
    if mods.iso_level3_shift {
        modifiers.iso_level3_shift = true;
    }
    if mods.iso_level5_shift {
        modifiers.iso_level5_shift = true;
    }
    modifiers
}

/// Modifiers with the compositor's own spelled both ways, by its name and by its key.
pub open spec fn spelled_out(modifiers: Modifiers, mod_key: ModKey) -> Modifiers {
    if modifiers.compositor || modifiers.has(mod_key) {
        Modifiers { compositor: true, ..modifiers.with(mod_key) }
    } else {
        modifiers
    }
}

/// Whether a trigger with some modifiers held sets off a bind.
pub open spec fn sets_off(bind: Bind, mod_key: ModKey, trigger: Trigger, mods: ModifiersState) -> bool {
    bind.key.trigger == trigger && spelled_out(bind.key.modifiers, mod_key) == spelled_out(
        held(mods),
        mod_key,
    )
}

/// The first of some binds that a trigger sets off.
pub open spec fn first_set_off(
    binds: Seq<Bind>,
    mod_key: ModKey,
    trigger: Trigger,
    mods: ModifiersState,
) -> Option<int> {
    if exists|i: int| is_first_set_off(binds, mod_key, trigger, mods, i) {
        Some(choose|i: int| is_first_set_off(binds, mod_key, trigger, mods, i))
    } else {
        None
    }
}

/// Whether a bind is set off, and none before it.
pub open spec fn is_first_set_off(
    binds: Seq<Bind>,
    mod_key: ModKey,
    trigger: Trigger,
    mods: ModifiersState,
    i: int,
) -> bool {
    &&& 0 <= i < binds.len()
    &&& sets_off(binds[i], mod_key, trigger, mods)
    &&& forall|j: int| 0 <= j < i ==> !sets_off(#[trigger] binds[j], mod_key, trigger, mods)
}

/// Finds the configured bind that a trigger sets off.
pub fn find_configured_bind(
    bindings: &Vec<Bind>,
    mod_key: ModKey,
    trigger: Trigger,
    mods: ModifiersState,
) -> (r: Option<usize>)
    ensures
        match (r, first_set_off(bindings@, mod_key, trigger, mods)) {
            (Some(i), Some(k)) => i == k && i < bindings@.len(),
            (None, None) => true,
            _ => false,
        },
{
    let mut modifiers = modifiers_from_state(mods);
    let own = mod_key.to_modifiers();
    let mod_down = modifiers_from_state(mods).contains(own);
    if mod_down {
        modifiers.compositor = true;
    }
    assert(modifiers == spelled_out(held(mods), mod_key));
    let mut i: usize = 0;
    while i < bindings.len()
        invariant
            i <= bindings.len(),
            own == Modifiers::none().with(mod_key),
            modifiers == spelled_out(held(mods), mod_key),
            forall|j: int| 0 <= j < i ==> !sets_off(#[trigger] bindings@[j], mod_key, trigger, mods),
        decreases bindings.len() - i,
    {
        if bindings[i].key.trigger == trigger {
            let mut bind_modifiers = bindings[i].key.modifiers;
            if bind_modifiers.compositor {
                bind_modifiers.insert(own);
            } else if bind_modifiers.contains(own) {
                bind_modifiers.compositor = true;
            }
            assert(bind_modifiers == spelled_out(bindings@[i as int].key.modifiers, mod_key));
            if bind_modifiers == modifiers {
                proof {
                    assert(is_first_set_off(bindings@, mod_key, trigger, mods, i as int));
                    let k = choose|k: int| is_first_set_off(bindings@, mod_key, trigger, mods, k);
                    assert(k == i);
                }
                return Some(i);
            }
        }
        i = i + 1;
    }
    None
}

/// A bind that is not configured but always there.
pub open spec fn fixed_bind(
    trigger: Trigger,
    action: Action,
    repeat: bool,
    cooldown: Option<u64>,
) -> Bind {
    Bind {
        key: Key { trigger, modifiers: Modifiers::none() },
        action,
        repeat,
        cooldown,
        allow_when_locked: false,
        hotkey_overlay_title: None,
    }
}

/// A bind that is not configured but always there.
pub fn make_fixed_bind(
    trigger: Trigger,
    action: Action,
    repeat: bool,
    cooldown: Option<u64>,
) -> (r: Bind)
    ensures
        r == fixed_bind(trigger, action, repeat, cooldown),
{
    Bind {
        key: Key { trigger, modifiers: Modifiers::empty() },
        action,
        repeat,
        cooldown,
        allow_when_locked: false,
        hotkey_overlay_title: None,
    }
}

/// The action of a key that no configuration can take away: switching terminals, and suspending by
/// the power key unless that is turned off.
pub open spec fn hardcoded_action(modified: u32, disable_power_key_handling: bool) -> Option<Action> {
    if KEY_XF86SWITCH_VT_1 <= modified <= KEY_XF86SWITCH_VT_12 {
        Some(Action::ChangeVt((modified - KEY_XF86SWITCH_VT_1 + 1) as i32))
    } else if modified == KEY_XF86POWEROFF && !disable_power_key_handling {
        Some(Action::Suspend)
    } else {
        None
    }
}

/// A bind that was found.
#[derive(Debug)]
pub enum FoundBind {
    /// One that is always there.
    Fixed(Bind),
    /// A configured one, by its place in the list.
    Configured(usize),
}

impl FoundBind {
    /// The bind itself.
    pub open spec fn get(self, binds: Seq<Bind>) -> Bind {
        match self {
            FoundBind::Fixed(bind) => bind,
            FoundBind::Configured(i) => binds[i as int],
        }
    }

    /// Whether a configured bind is in the list.
    pub open spec fn within(self, binds: Seq<Bind>) -> bool {
        self matches FoundBind::Configured(i) ==> i < binds.len()
    }
}

/// What a key finds.
pub open spec fn found_bind(
    binds: Seq<Bind>,
    mod_key: ModKey,
    modified: u32,
    raw: Option<u32>,
    mods: ModifiersState,
    disable_power_key_handling: bool,
) -> Option<FoundBind> {
    match (hardcoded_action(modified, disable_power_key_handling), raw) {
        (Some(action), _) => Some(
            FoundBind::Fixed(fixed_bind(Trigger::Keysym(modified), action, true, None)),
        ),
        (None, None) => None,
        (None, Some(raw)) => match first_set_off(binds, mod_key, Trigger::Keysym(raw), mods) {
            Some(i) => Some(FoundBind::Configured(i as usize)),
            None => None,
        },
    }
}

/// Finds the bind of a key.
pub fn find_bind(
    bindings: &Vec<Bind>,
    mod_key: ModKey,
    modified: u32,
    raw: Option<u32>,
    mods: ModifiersState,
    disable_power_key_handling: bool,
) -> (r: Option<FoundBind>)
    ensures
        r == found_bind(bindings@, mod_key, modified, raw, mods, disable_power_key_handling),
        r matches Some(found) ==> found.within(bindings@),
{
    let hardcoded = if KEY_XF86SWITCH_VT_1 <= modified && modified <= KEY_XF86SWITCH_VT_12 {
        let vt: i32 = (modified - KEY_XF86SWITCH_VT_1 + 1) as i32;
        Some(Action::ChangeVt(vt))
    } else if modified == KEY_XF86POWEROFF && !disable_power_key_handling {
        Some(Action::Suspend)
    } else {
        None
    };
    if let Some(action) = hardcoded {
        return Some(
            FoundBind::Fixed(make_fixed_bind(Trigger::Keysym(modified), action, true, None)),
        );
    }
    let Some(raw) = raw else {
        return None;
    };
    match find_configured_bind(bindings, mod_key, Trigger::Keysym(raw), mods) {
        Some(i) => Some(FoundBind::Configured(i)),
        None => None,
    }
}

/// What is to happen with a key event.
#[derive(Debug)]
pub enum FilterResult {
    /// It goes to the focused client.
    Forward,
    /// It stays here, and may set off a bind.
    Intercept(Option<FoundBind>),
}

/// The bind that a key sets off. While a screenshot is being selected, that is only one that is
/// carried out then, or else what the selection itself makes of the key.
pub open spec fn effective_bind(
    found: Option<FoundBind>,
    binds: Seq<Bind>,
    raw: Option<u32>,
    selecting: bool,
    screenshot_action: Option<Action>,
) -> Option<FoundBind> {
    let kept = found matches Some(bind) && works_during_screenshot(bind.get(binds).action);
    match raw {
        Some(raw) if selecting && !kept => match screenshot_action {
            Some(action) => Some(
                FoundBind::Fixed(fixed_bind(Trigger::Keysym(raw), action, true, None)),
            ),
            None => None,
        },
        _ => found,
    }
}

/// The keys whose release is to be swallowed after a key event.
pub open spec fn suppressed_after(
    suppressed: Set<u32>,
    key_code: u32,
    pressed: bool,
    bound: bool,
) -> Set<u32> {
    if !pressed {
        suppressed.remove(key_code)
    } else if bound {
        suppressed.insert(key_code)
    } else {
        suppressed
    }
}

/// Whether a key event stays here.
pub open spec fn is_intercepted(
    suppressed: Set<u32>,
    key_code: u32,
    pressed: bool,
    bound: bool,
) -> bool {
    if pressed {
        bound
    } else {
        suppressed.contains(key_code)
    }
}

/// Decides whether a key event stays here, and remembers the keys whose release is to stay too.
///
/// `screenshot_action` is what the screenshot selection would make of the key.
pub fn should_intercept_key(
    suppressed_keys: &mut HashSet<u32>,
    bindings: &Vec<Bind>,
    mod_key: ModKey,
    key_code: u32,
    modified: u32,
    raw: Option<u32>,
    pressed: bool,
    mods: ModifiersState,
    selecting: bool,
    screenshot_action: Option<Action>,
    disable_power_key_handling: bool,
) -> (r: FilterResult)
    ensures
        ({
            let found = found_bind(
                bindings@,
                mod_key,
                modified,
                raw,
                mods,
                disable_power_key_handling,
            );
            let bind = effective_bind(found, bindings@, raw, selecting, screenshot_action);
            &&& final(suppressed_keys)@ == suppressed_after(
                old(suppressed_keys)@,
                key_code,
                pressed,
                bind is Some,
            )
            &&& r == if is_intercepted(old(suppressed_keys)@, key_code, pressed, bind is Some) {
                FilterResult::Intercept(
                    if pressed {
                        bind
                    } else {
                        None
                    },
                )
            } else {
                FilterResult::Forward
            }
        }),
        r matches FilterResult::Intercept(Some(found)) ==> found.within(bindings@),
{
    if !pressed && !suppressed_keys.contains(&key_code) {
        assert(suppressed_keys@ =~= suppressed_keys@.remove(key_code));
        return FilterResult::Forward;
    }
    let mut final_bind = find_bind(
        bindings,
        mod_key,
        modified,
        raw,
        mods,
        disable_power_key_handling,
    );
    if selecting {
        let use_screenshot_ui_action: bool = match &final_bind {
            Some(FoundBind::Fixed(bind)) => !allowed_during_screenshot(&bind.action),
            Some(FoundBind::Configured(i)) => !allowed_during_screenshot(&bindings[*i].action),
            None => true,
        };
        if use_screenshot_ui_action {
            if let Some(raw) = raw {
                final_bind = match screenshot_action {
                    Some(action) => Some(
                        FoundBind::Fixed(
                            make_fixed_bind(Trigger::Keysym(raw), action, true, None),
                        ),
                    ),
                    None => None,
                };
            }
        }
    }
    if pressed {
        match final_bind {
            Some(bind) => {
                suppressed_keys.insert(key_code);
                FilterResult::Intercept(Some(bind))
            },
            None => FilterResult::Forward,
        }
    } else {
        suppressed_keys.remove(&key_code);
        FilterResult::Intercept(None)
    }
}

/// A key whose press stayed here has its release stay here too, whichever binds there are by then,
/// and after that all is as before. A key whose press went to a client has its release go there.
pub proof fn law_release_follows_press(
    suppressed: Set<u32>,
    key_code: u32,
    bound_on_press: bool,
    bound_on_release: bool,
)
    requires
        !suppressed.contains(key_code),
    ensures
        ({
            let between = suppressed_after(suppressed, key_code, true, bound_on_press);
            let stays = is_intercepted(suppressed, key_code, true, bound_on_press);
            &&& is_intercepted(between, key_code, false, bound_on_release) == stays
            &&& suppressed_after(between, key_code, false, bound_on_release) == suppressed
        }),
{
    let between = suppressed_after(suppressed, key_code, true, bound_on_press);
    assert(suppressed_after(between, key_code, false, bound_on_release) =~= suppressed);
}

/// What a key does in the overview, where no bind says otherwise.
pub open spec fn overview_action(raw: u32) -> Option<Action> {
    if raw == KEY_ESCAPE || raw == KEY_RETURN {
        Some(Action::ToggleOverview)
    } else if raw == KEY_LEFT {
        Some(Action::FocusColumnLeft)
    } else if raw == KEY_RIGHT {
        Some(Action::FocusColumnRight)
    } else if raw == KEY_UP {
        Some(Action::FocusWindowOrWorkspaceUp)
    } else if raw == KEY_DOWN {
        Some(Action::FocusWindowOrWorkspaceDown)
    } else {
        None
    }
}

/// The bind of a key in the overview: only without modifiers, and opening and closing it does not
/// repeat.
pub open spec fn overview_bind(raw: u32, mods: ModifiersState) -> Option<Bind> {
    match overview_action(raw) {
        Some(action) if held(mods) == Modifiers::none() => Some(
            fixed_bind(Trigger::Keysym(raw), action, !(action is ToggleOverview), None),
        ),
        _ => None,
    }
}

/// The bind of a key in the overview.
pub fn hardcoded_overview_bind(raw: u32, mods: ModifiersState) -> (r: Option<Bind>)
    ensures
        r == overview_bind(raw, mods),
{
    if !modifiers_from_state(mods).is_empty() {
        return None;
    }
    let mut repeat = true;
    let action = if raw == KEY_ESCAPE || raw == KEY_RETURN {
        repeat = false;
        Action::ToggleOverview
    } else if raw == KEY_LEFT {
        Action::FocusColumnLeft
    } else if raw == KEY_RIGHT {
        Action::FocusColumnRight
    } else if raw == KEY_UP {
        Action::FocusWindowOrWorkspaceUp
    } else if raw == KEY_DOWN {
        Action::FocusWindowOrWorkspaceDown
    } else {
        return None;
    };
    Some(make_fixed_bind(Trigger::Keysym(raw), action, repeat, None))
}

/// The modifiers of a bind with the compositor's own replaced by its key.
pub open spec fn resolved(modifiers: Modifiers, mod_key: ModKey) -> Modifiers {
    if modifiers.compositor {
        Modifiers { compositor: false, ..modifiers }.with(mod_key)
    } else {
        modifiers
    }
}

/// Whether some bind with one of the triggers is set off by exactly these modifiers.
pub open spec fn has_bind_with(
    binds: Seq<Bind>,
    mod_key: ModKey,
    triggers: Seq<Trigger>,
    modifiers: Modifiers,
) -> bool {
    exists|i: int|
        0 <= i < binds.len() && triggers.contains((#[trigger] binds[i]).key.trigger) && resolved(
            binds[i].key.modifiers,
            mod_key,
        ) == modifiers
}

fn trigger_in(triggers: &Vec<Trigger>, trigger: Trigger) -> (r: bool)
    ensures
        r == triggers@.contains(trigger),
{
    let mut i: usize = 0;
    while i < triggers.len()
        invariant
            i <= triggers.len(),
            forall|k: int| 0 <= k < i ==> triggers@[k] != trigger,
        decreases triggers.len() - i,
    {
        if triggers[i] == trigger {
            assert(triggers@[i as int] == trigger);
            return true;
        }
        i = i + 1;
    }
    false
}

/// Whether a list holds a set of modifiers.
pub fn modifiers_in(list: &Vec<Modifiers>, modifiers: Modifiers) -> (r: bool)
    ensures
        r == list@.contains(modifiers),
{
    let mut i: usize = 0;
    while i < list.len()
        invariant
            i <= list.len(),
            forall|k: int| 0 <= k < i ==> list@[k] != modifiers,
        decreases list.len() - i,
    {
        if list[i] == modifiers {
            assert(list@[i as int] == modifiers);
            return true;
        }
        i = i + 1;
    }
    false
}

/// All sets of modifiers that set off a bind with one of the triggers.
pub fn mods_with_binds(mod_key: ModKey, binds: &Binds, triggers: &Vec<Trigger>) -> (r: Vec<Modifiers>)
    ensures
        r@.no_duplicates(),
        forall|m: Modifiers| #[trigger]
            r@.contains(m) <==> has_bind_with(binds.0@, mod_key, triggers@, m),
{
    let mut rv: Vec<Modifiers> = Vec::new();
    let ghost all = binds.0@;
    let mut i: usize = 0;
    while i < binds.0.len()
        invariant
            i <= binds.0.len(),
            all == binds.0@,
            rv@.no_duplicates(),
            forall|m: Modifiers| #[trigger]
                rv@.contains(m) <==> has_bind_with(all.take(i as int), mod_key, triggers@, m),
        decreases binds.0.len() - i,
    {
        let ghost before = rv@;
        let key = binds.0[i].key;
        let ghost added = triggers@.contains(key.trigger);
        let ghost shorter = all.take(i as int);
        let ghost longer = all.take(i + 1);
        let mut mods = key.modifiers;
        if trigger_in(triggers, key.trigger) {
            if mods.compositor {
                mods.compositor = false;
                mods.insert(mod_key.to_modifiers());
            }
            assert(mods == resolved(key.modifiers, mod_key));
            if !modifiers_in(&rv, mods) {
                rv.push(mods);
            }
        }
        proof {
            assert forall|m: Modifiers| #[trigger]
                rv@.contains(m) <==> has_bind_with(longer, mod_key, triggers@, m) by {
                assert(before.contains(m) <==> has_bind_with(shorter, mod_key, triggers@, m));
                assert(longer[i as int] == all[i as int]);
                if before.contains(m) {
                    let k = choose|k: int| 0 <= k < before.len() && before[k] == m;
                    assert(rv@[k] == m);
                }
                if added {
                    assert(rv@.contains(mods)) by {
                        if !before.contains(mods) {
                            assert(rv@[rv@.len() - 1] == mods);
                        }
                    }
                }
                if rv@.contains(m) && !before.contains(m) {
                    let k = choose|k: int| 0 <= k < rv@.len() && rv@[k] == m;
                    assert(k == before.len());
                    assert(m == mods);
                }
                if has_bind_with(shorter, mod_key, triggers@, m) {
                    let k = choose|k: int|
                        0 <= k < shorter.len() && triggers@.contains(
                            (#[trigger] shorter[k]).key.trigger,
                        ) && resolved(shorter[k].key.modifiers, mod_key) == m;
                    assert(longer[k] == shorter[k]);
                }
                if has_bind_with(longer, mod_key, triggers@, m) {
                    let k = choose|k: int|
                        0 <= k < longer.len() && triggers@.contains(
                            (#[trigger] longer[k]).key.trigger,
                        ) && resolved(longer[k].key.modifiers, mod_key) == m;
                    if k < i {
                        assert(longer[k] == shorter[k]);
                    }
                }
            }
        }
        i = i + 1;
    }
    assert(all.take(i as int) =~= all);
    rv
}

/// The mouse buttons that binds can use.
pub open spec fn mouse_triggers() -> Seq<Trigger> {
    seq![
        Trigger::MouseLeft,
        Trigger::MouseRight,
        Trigger::MouseMiddle,
        Trigger::MouseBack,
        Trigger::MouseForward,
    ]
}

/// The wheel directions that binds can use.
pub open spec fn wheel_triggers() -> Seq<Trigger> {
    seq![
        Trigger::WheelScrollUp,
        Trigger::WheelScrollDown,
        Trigger::WheelScrollLeft,
        Trigger::WheelScrollRight,
    ]
}

/// All sets of modifiers that set off a mouse bind.
pub fn mods_with_mouse_binds(mod_key: ModKey, binds: &Binds) -> (r: Vec<Modifiers>)
    ensures
        r@.no_duplicates(),
        forall|m: Modifiers| #[trigger]
            r@.contains(m) <==> has_bind_with(binds.0@, mod_key, mouse_triggers(), m),
{
    let triggers: Vec<Trigger> = vec![
        Trigger::MouseLeft,
        Trigger::MouseRight,
        Trigger::MouseMiddle,
        Trigger::MouseBack,
        Trigger::MouseForward,
    ];
    assert(triggers@ =~= mouse_triggers());
    mods_with_binds(mod_key, binds, &triggers)
}

/// All sets of modifiers that set off a wheel bind.
pub fn mods_with_wheel_binds(mod_key: ModKey, binds: &Binds) -> (r: Vec<Modifiers>)
    ensures
        r@.no_duplicates(),
        forall|m: Modifiers| #[trigger]
            r@.contains(m) <==> has_bind_with(binds.0@, mod_key, wheel_triggers(), m),
{
    let triggers: Vec<Trigger> = vec![
        Trigger::WheelScrollUp,
        Trigger::WheelScrollDown,
        Trigger::WheelScrollLeft,
        Trigger::WheelScrollRight,
    ];
    assert(triggers@ =~= wheel_triggers());
    mods_with_binds(mod_key, binds, &triggers)
}

/// The keys that switch terminals always do: no bind takes their place, they work while the session is
/// locked, and they work while a screenshot is being selected.
pub proof fn law_terminals_can_be_switched(
    binds: Seq<Bind>,
    mod_key: ModKey,
    modified: u32,
    raw: Option<u32>,
    mods: ModifiersState,
    disable_power_key_handling: bool,
    selecting: bool,
    screenshot_action: Option<Action>,
)
    requires
        KEY_XF86SWITCH_VT_1 <= modified <= KEY_XF86SWITCH_VT_12,
    ensures
        ({
            let found = found_bind(binds, mod_key, modified, raw, mods, disable_power_key_handling);
            let action = Action::ChangeVt((modified - KEY_XF86SWITCH_VT_1 + 1) as i32);
            &&& effective_bind(found, binds, raw, selecting, screenshot_action) == Some(
                FoundBind::Fixed(fixed_bind(Trigger::Keysym(modified), action, true, None)),
            )
            &&& works_when_locked(action)
        }),
{
}

} // verus!
