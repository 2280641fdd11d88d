//! The smaller sections of the configuration, and how their parts are put together.
//!
//! A configuration can be spread over several files. Each file gives a part of a section, in which
//! everything can be missing. The parts are merged into the section in the order in which they are
//! read.
use vstd::prelude::*;

use crate::config::grammar::{
    annotation_faults, argument_missing, check_annotation, check_end, ended_after, first_called,
    flag_reading, read_flag, read_section, read_text, rule_views, section_fields, take_first_called,
    text_faults, text_of, Fault, FaultKind, FieldKind, FieldRule, FieldRuleView, Fields, IntType,
    Reading, Scalar, ScalarView,
};
use crate::config::kdl::{KdlLiteral, KdlNode, KdlValue};
use crate::config::layout::ONE_HALF;
use crate::geometry::FloatBits;

verus! {

/// A part that was decoded, unless the decoding was given up, and the faults.
pub struct Decoded<T> {
    pub part: Option<T>,
    pub faults: Vec<Fault>,
}

/// A setting that is on or off.
#[derive(Clone, Copy, Debug, PartialEq, Eq, Structural)]
pub struct Flag(pub bool);

/// The text of an optional string.
pub open spec fn opt_text(text: Option<String>) -> Option<Seq<char>> {
    match text {
        Some(text) => Some(text@),
        None => None,
    }
}

/// A setting after a part that may set it.
pub open spec fn set_by<T>(current: T, part: Option<T>) -> T {
    match part {
        Some(value) => value,
        None => current,
    }
}

/// A switch after a part that may set it.
pub open spec fn switched(current: bool, part: Option<Flag>) -> bool {
    match part {
        Some(flag) => flag.0,
        None => current,
    }
}

/// A setting after a part that may set it.
pub fn pick<T: Copy>(current: T, part: Option<T>) -> (r: T)
    ensures
        r == set_by(current, part),
{
    match part {
        Some(value) => value,
        None => current,
    }
}

/// A switch after a part that may set it.
pub fn switch(current: bool, part: Option<Flag>) -> (r: bool)
    ensures
        r == switched(current, part),
{
    match part {
        Some(flag) => flag.0,
        None => current,
    }
}

/// A flag among the fields of a section.
pub open spec fn flag_field(fields: Fields, i: int) -> Option<Flag> {
    match fields.values[i] {
        Some(ScalarView::Flag(b)) => Some(Flag(b)),
        _ => None,
    }
}

/// A text among the fields of a section.
pub open spec fn text_field(fields: Fields, i: int) -> Option<Seq<char>> {
    match fields.values[i] {
        Some(ScalarView::Text(text)) => Some(text),
        _ => None,
    }
}

/// A number among the fields of a section.
pub open spec fn number_field(fields: Fields, i: int) -> Option<int> {
    match fields.values[i] {
        Some(ScalarView::Number(n)) => Some(n),
        _ => None,
    }
}

/// A rule for a field.
pub fn rule(name: &str, kind: FieldKind) -> (r: FieldRule)
    ensures
        r@ == (FieldRuleView { name: name@, kind }),
{
    FieldRule { name: name.to_owned(), kind }
}

/// Takes a flag out of the values of a section.
pub fn take_flag(value: &Option<Scalar>) -> (r: Option<Flag>)
    ensures
        r == (match *value {
            Some(Scalar::Flag(b)) => Some(Flag(b)),
            _ => None,
        }),
{
    match value {
        Some(Scalar::Flag(b)) => Some(Flag(*b)),
        _ => None,
    }
}

/// Takes a text out of the values of a section.
pub fn take_text(value: &Option<Scalar>) -> (r: Option<String>)
    ensures
        opt_text(r) == (match *value {
            Some(Scalar::Text(text)) => Some(text@),
            _ => None,
        }),
{
    match value {
        Some(Scalar::Text(text)) => Some(text.clone()),
        _ => None,
    }
}

/// Takes a number out of the values of a section.
pub fn take_number(value: &Option<Scalar>) -> (r: Option<u32>)
    ensures
        r == (match *value {
            Some(Scalar::Number(n)) => Some(n),
            _ => None,
        }),
{
    match value {
        Some(Scalar::Number(n)) => Some(*n),
        _ => None,
    }
}

/// A command to be run at startup.
#[derive(Debug)]
pub struct SpawnAtStartup {
    pub command: Vec<String>,
}

/// A command to be run by a shell at startup.
#[derive(Debug)]
pub struct SpawnShAtStartup {
    pub command: String,
}

/// The texts of some strings.
pub open spec fn texts(strings: Seq<String>) -> Seq<Seq<char>> {
    strings.map_values(|s: String| s@)
}

/// The texts that some values are.
pub open spec fn value_texts(values: Seq<KdlValue>) -> Seq<Seq<char>> {
    values.map_values(|v: KdlValue| text_of(v))
}

/// The faults of some values that are to be texts.
pub open spec fn all_text_faults(values: Seq<KdlValue>) -> Seq<Fault>
    decreases values.len(),
{
    if values.len() == 0 {
        Seq::empty()
    } else {
        all_text_faults(values.drop_last()) + text_faults(values.last())
    }
}

/// The reading of a command to be run at startup: any number of texts.
pub open spec fn spawn_reading(node: KdlNode) -> Reading<Seq<Seq<char>>> {
    let values = node.arguments@;
    ended_after(
        values.len() as int,
        value_texts(values),
        annotation_faults(node.annotation) + all_text_faults(values),
        node,
    )
}

/// The reading of a command to be run by a shell at startup: one text.
pub open spec fn spawn_sh_reading(node: KdlNode) -> Reading<Seq<char>> {
    let faults = annotation_faults(node.annotation);
    if node.arguments@.len() == 0 {
        argument_missing(faults, node)
    } else {
        let value = node.arguments@[0];
        ended_after(1, text_of(value), faults + text_faults(value), node)
    }
}

impl SpawnAtStartup {
    /// Decodes a command to be run at startup.
    pub fn decode_node(node: &KdlNode) -> (r: Decoded<SpawnAtStartup>)
        ensures
            r.faults@ == spawn_reading(*node).faults,
            match (r.part, spawn_reading(*node).value) {
                (Some(part), Some(command)) => texts(part.command@) == command,
                (None, None) => true,
                _ => false,
            },
    {
        let mut faults: Vec<Fault> = Vec::new();
        check_annotation(&node.annotation, &mut faults);
        let ghost start = faults@;
        assert(start =~= annotation_faults(node.annotation));
        let mut command: Vec<String> = Vec::new();
        let mut i: usize = 0;
        assert(node.arguments@.take(0) =~= Seq::<KdlValue>::empty());
        assert(faults@ =~= start + all_text_faults(node.arguments@.take(0)));
        while i < node.arguments.len()
            invariant
                i <= node.arguments@.len(),
                texts(command@) == value_texts(node.arguments@.take(i as int)),
                faults@ == start + all_text_faults(node.arguments@.take(i as int)),
            decreases node.arguments@.len() - i,
        {
            assert(node.arguments@.take(i + 1).drop_last() =~= node.arguments@.take(i as int));
            let text = read_text(&node.arguments[i], &mut faults);
            let ghost before = command@;
            let ghost so_far = node.arguments@.take(i as int);
            command.push(text);
            assert(texts(command@) =~= texts(before).push(text@));
            assert(value_texts(node.arguments@.take(i + 1)) =~= value_texts(so_far).push(text@));
            assert(faults@ =~= start + all_text_faults(node.arguments@.take(i + 1)));
            i = i + 1;
        }
        assert(node.arguments@.take(i as int) =~= node.arguments@);
        let goes_on = check_end(node, node.arguments.len(), &mut faults);
        if goes_on {
            Decoded { part: Some(SpawnAtStartup { command }), faults }
        } else {
            Decoded { part: None, faults }
        }
    }
}

impl SpawnShAtStartup {
    /// Decodes a command to be run by a shell at startup.
    pub fn decode_node(node: &KdlNode) -> (r: Decoded<SpawnShAtStartup>)
        ensures
            r.faults@ == spawn_sh_reading(*node).faults,
            match (r.part, spawn_sh_reading(*node).value) {
                (Some(part), Some(command)) => part.command@ == command,
                (None, None) => true,
                _ => false,
            },
    {
        let mut faults: Vec<Fault> = Vec::new();
        check_annotation(&node.annotation, &mut faults);
        assert(faults@ =~= annotation_faults(node.annotation));
        if node.arguments.len() == 0 {
            faults.push(Fault { kind: FaultKind::MissingArgument, spot: node.spot });
            return Decoded { part: None, faults };
        }
        let command = read_text(&node.arguments[0], &mut faults);
        let goes_on = check_end(node, 1, &mut faults);
        if goes_on {
            Decoded { part: Some(SpawnShAtStartup { command }), faults }
        } else {
            Decoded { part: None, faults }
        }
    }
}

/// The look of the cursor, and when it hides.
#[derive(Debug)]
pub struct Cursor {
    pub xcursor_theme: String,
    pub xcursor_size: u8,
    pub hide_when_typing: bool,
    pub hide_after_inactive_ms: Option<u32>,
}

/// The cursor section in the abstract.
pub struct CursorView {
    pub xcursor_theme: Seq<char>,
    pub xcursor_size: u8,
    pub hide_when_typing: bool,
    pub hide_after_inactive_ms: Option<u32>,
}

impl View for Cursor {
    type V = CursorView;

    open spec fn view(&self) -> CursorView {
        CursorView {
            xcursor_theme: self.xcursor_theme@,
            xcursor_size: self.xcursor_size,
            hide_when_typing: self.hide_when_typing,
            hide_after_inactive_ms: self.hide_after_inactive_ms,
        }
    }
}

/// The cursor before anything is configured.
pub open spec fn default_cursor() -> CursorView {
    CursorView {
        xcursor_theme: "default"@,
        xcursor_size: 24,
        hide_when_typing: false,
        hide_after_inactive_ms: None,
    }
}

impl Default for Cursor {
    fn default() -> (r: Cursor)
        ensures
            r@ == default_cursor(),
    {
        Cursor {
            xcursor_theme: "default".to_owned(),
            xcursor_size: 24,
            hide_when_typing: false,
            hide_after_inactive_ms: None,
        }
    }
}

/// A part of the cursor section.
#[derive(Debug)]
pub struct CursorPart {
    pub xcursor_theme: Option<String>,
    pub xcursor_size: Option<u8>,
    pub hide_when_typing: Option<Flag>,
    pub hide_after_inactive_ms: Option<u32>,
}

/// A part of the cursor section in the abstract.
pub struct CursorPartView {
    pub xcursor_theme: Option<Seq<char>>,
    pub xcursor_size: Option<u8>,
    pub hide_when_typing: Option<Flag>,
    pub hide_after_inactive_ms: Option<u32>,
}

impl View for CursorPart {
    type V = CursorPartView;

    open spec fn view(&self) -> CursorPartView {
        CursorPartView {
            xcursor_theme: opt_text(self.xcursor_theme),
            xcursor_size: self.xcursor_size,
            hide_when_typing: self.hide_when_typing,
            hide_after_inactive_ms: self.hide_after_inactive_ms,
        }
    }
}

/// The fields of the cursor section.
pub open spec fn cursor_rules() -> Seq<FieldRuleView> {
    seq![
        FieldRuleView { name: "xcursor-theme"@, kind: FieldKind::Text },
        FieldRuleView { name: "xcursor-size"@, kind: FieldKind::Number(IntType::U8) },
        FieldRuleView { name: "hide-when-typing"@, kind: FieldKind::Flag },
        FieldRuleView { name: "hide-after-inactive-ms"@, kind: FieldKind::Number(IntType::U32) },
    ]
}

/// The cursor after a part was merged into it.
pub open spec fn merged_cursor(cursor: CursorView, part: CursorPartView) -> CursorView {
    CursorView {
        xcursor_theme: set_by(cursor.xcursor_theme, part.xcursor_theme),
        xcursor_size: set_by(cursor.xcursor_size, part.xcursor_size),
        hide_when_typing: switched(cursor.hide_when_typing, part.hide_when_typing),
        hide_after_inactive_ms: if part.hide_after_inactive_ms is Some {
            part.hide_after_inactive_ms
        } else {
            cursor.hide_after_inactive_ms
        },
    }
}

/// The part that the fields of a cursor section make.
pub open spec fn cursor_part_of(fields: Fields) -> CursorPartView {
    CursorPartView {
        xcursor_theme: text_field(fields, 0),
        xcursor_size: match number_field(fields, 1) {
            Some(n) => Some(n as u8),
            None => None,
        },
        hide_when_typing: flag_field(fields, 2),
        hide_after_inactive_ms: match number_field(fields, 3) {
            Some(n) => Some(n as u32),
            None => None,
        },
    }
}

impl Cursor {
    /// Merges a part into the section.
    pub fn merge_with(&mut self, part: &CursorPart)
        ensures
            final(self)@ == merged_cursor(old(self)@, part@),
    {
        if let Some(theme) = &part.xcursor_theme {
            self.xcursor_theme = theme.clone();
        }
        if let Some(size) = part.xcursor_size {
            self.xcursor_size = size;
        }
        if let Some(flag) = part.hide_when_typing {
            self.hide_when_typing = flag.0;
        }
        if part.hide_after_inactive_ms.is_some() {
            self.hide_after_inactive_ms = part.hide_after_inactive_ms;
        }
    }
}

impl CursorPart {
    /// Decodes a part of the cursor section.
    pub fn decode_node(node: &KdlNode) -> (r: Decoded<CursorPart>)
        ensures
            ({
                let fields = section_fields(*node, cursor_rules());
                &&& r.faults@ == fields.faults
                &&& match r.part {
                    Some(part) => !fields.stopped && part@ == cursor_part_of(fields),
                    None => fields.stopped,
                }
            }),
    {
        let mut rules: Vec<FieldRule> = Vec::new();
        rules.push(rule("xcursor-theme", FieldKind::Text));
        rules.push(rule("xcursor-size", FieldKind::Number(IntType::U8)));
        rules.push(rule("hide-when-typing", FieldKind::Flag));
        rules.push(rule("hide-after-inactive-ms", FieldKind::Number(IntType::U32)));
        assert(rule_views(rules@) =~= cursor_rules());
        let fields = read_section(node, &rules);
        if fields.stopped {
            return Decoded { part: None, faults: fields.faults };
        }
        let xcursor_size: Option<u8> = match take_number(&fields.values[1]) {
            Some(n) => Some(n as u8),
            None => None,
        };
        let part = CursorPart {
            xcursor_theme: take_text(&fields.values[0]),
            xcursor_size,
            hide_when_typing: take_flag(&fields.values[2]),
            hide_after_inactive_ms: take_number(&fields.values[3]),
        };
        assert(fields@.values.len() == 4);
        Decoded { part: Some(part), faults: fields.faults }
    }
}

/// Where screenshots are saved, if they are.
#[derive(Debug)]
pub struct ScreenshotPath(pub Option<String>);

impl Default for ScreenshotPath {
    fn default() -> (r: ScreenshotPath)
        ensures
            opt_text(r.0) == Some("~/Pictures/Screenshots/Screenshot from %Y-%m-%d %H-%M-%S.png"@),
    {
        ScreenshotPath(
            Some("~/Pictures/Screenshots/Screenshot from %Y-%m-%d %H-%M-%S.png".to_owned()),
        )
    }
}

/// The faults of a value that is to be a text or nothing.
pub open spec fn opt_text_faults(value: KdlValue) -> Seq<Fault> {
    if value.literal is Null {
        annotation_faults(value.annotation)
    } else {
        text_faults(value)
    }
}

/// The text that a value is, unless it says that there is none.
pub open spec fn opt_text_of(value: KdlValue) -> Option<Seq<char>> {
    if value.literal is Null {
        None
    } else {
        Some(text_of(value))
    }
}

/// The reading of a node with one text, which can also be missing or said to be none.
pub open spec fn opt_argument_reading(node: KdlNode) -> Reading<Option<Seq<char>>> {
    let faults = annotation_faults(node.annotation);
    if node.arguments@.len() == 0 {
        ended_after(0, None, faults, node)
    } else {
        let value = node.arguments@[0];
        ended_after(1, opt_text_of(value), faults + opt_text_faults(value), node)
    }
}

/// Decodes a node with one text, which can also be missing or said to be none.
fn decode_opt_argument(node: &KdlNode, faults: &mut Vec<Fault>) -> (r: Option<Option<String>>)
    ensures
        final(faults)@ == old(faults)@ + opt_argument_reading(*node).faults,
        match (r, opt_argument_reading(*node).value) {
            (Some(text), Some(wanted)) => opt_text(text) == wanted,
            (None, None) => true,
            _ => false,
        },
{
    let mut own: Vec<Fault> = Vec::new();
    check_annotation(&node.annotation, &mut own);
    assert(own@ =~= annotation_faults(node.annotation));
    let mut text: Option<String> = None;
    let mut count: usize = 0;
    if node.arguments.len() > 0 {
        count = 1;
        let value = &node.arguments[0];
        match &value.literal {
            KdlLiteral::Null => {
                check_annotation(&value.annotation, &mut own);
            },
            _ => {
                text = Some(read_text(value, &mut own));
            },
        }
    }
    let goes_on = check_end(node, count, &mut own);
    assert(own@ == opt_argument_reading(*node).faults);
    faults.append(&mut own);
    if goes_on {
        Some(text)
    } else {
        None
    }
}

impl ScreenshotPath {
    /// Decodes where screenshots are saved.
    pub fn decode_node(node: &KdlNode) -> (r: Decoded<ScreenshotPath>)
        ensures
            r.faults@ == opt_argument_reading(*node).faults,
            match (r.part, opt_argument_reading(*node).value) {
                (Some(part), Some(wanted)) => opt_text(part.0) == wanted,
                (None, None) => true,
                _ => false,
            },
    {
        let mut faults: Vec<Fault> = Vec::new();
        let path = decode_opt_argument(node, &mut faults);
        assert(faults@ =~= opt_argument_reading(*node).faults);
        match path {
            Some(path) => Decoded { part: Some(ScreenshotPath(path)), faults },
            None => Decoded { part: None, faults },
        }
    }
}

/// The overview of the hotkeys.
#[derive(Clone, Copy, Debug, PartialEq, Eq, Structural)]
pub struct HotkeyOverlay {
    pub skip_at_startup: bool,
    pub hide_not_bound: bool,
}

/// A part of the section on the overview of the hotkeys.
#[derive(Clone, Copy, Debug, PartialEq, Eq, Structural)]
pub struct HotkeyOverlayPart {
    pub skip_at_startup: Option<Flag>,
    pub hide_not_bound: Option<Flag>,
}

/// The fields of the section on the overview of the hotkeys.
pub open spec fn hotkey_overlay_rules() -> Seq<FieldRuleView> {
    seq![
        FieldRuleView { name: "skip-at-startup"@, kind: FieldKind::Flag },
        FieldRuleView { name: "hide-not-bound"@, kind: FieldKind::Flag },
    ]
}

impl Default for HotkeyOverlay {
    fn default() -> (r: HotkeyOverlay)
        ensures
            r == (HotkeyOverlay { skip_at_startup: false, hide_not_bound: false }),
    {
        HotkeyOverlay { skip_at_startup: false, hide_not_bound: false }
    }
}

impl HotkeyOverlay {
    /// The section after a part was merged into it.
    pub open spec fn merged(self, part: HotkeyOverlayPart) -> HotkeyOverlay {
        HotkeyOverlay {
            skip_at_startup: switched(self.skip_at_startup, part.skip_at_startup),
            hide_not_bound: switched(self.hide_not_bound, part.hide_not_bound),
        }
    }

    /// Merges a part into the section.
    pub fn merge_with(&mut self, part: &HotkeyOverlayPart)
        ensures
            *final(self) == old(self).merged(*part),
    {
        if let Some(flag) = part.skip_at_startup {
            self.skip_at_startup = flag.0;
        }
        if let Some(flag) = part.hide_not_bound {
            self.hide_not_bound = flag.0;
        }
    }
}

impl HotkeyOverlayPart {
    /// Decodes a part of the section.
    pub fn decode_node(node: &KdlNode) -> (r: Decoded<HotkeyOverlayPart>)
        ensures
            ({
                let fields = section_fields(*node, hotkey_overlay_rules());
                &&& r.faults@ == fields.faults
                &&& r.part == if fields.stopped {
                    None
                } else {
                    Some(
                        HotkeyOverlayPart {
                            skip_at_startup: flag_field(fields, 0),
                            hide_not_bound: flag_field(fields, 1),
                        },
                    )
                }
            }),
    {
        let mut rules: Vec<FieldRule> = Vec::new();
        rules.push(rule("skip-at-startup", FieldKind::Flag));
        rules.push(rule("hide-not-bound", FieldKind::Flag));
        assert(rule_views(rules@) =~= hotkey_overlay_rules());
        let fields = read_section(node, &rules);
        if fields.stopped {
            return Decoded { part: None, faults: fields.faults };
        }
        let part = HotkeyOverlayPart {
            skip_at_startup: take_flag(&fields.values[0]),
            hide_not_bound: take_flag(&fields.values[1]),
        };
        assert(fields@.values.len() == 2);
        Decoded { part: Some(part), faults: fields.faults }
    }
}

/// Reads a section with one flag.
fn decode_one_flag(node: &KdlNode, name: &str) -> (r: Decoded<Option<Flag>>)
    ensures
        ({
            let fields = section_fields(
                *node,
                seq![FieldRuleView { name: name@, kind: FieldKind::Flag }],
            );
            &&& r.faults@ == fields.faults
            &&& r.part == if fields.stopped {
                None
            } else {
                Some(flag_field(fields, 0))
            }
        }),
{
    let mut rules: Vec<FieldRule> = Vec::new();
    rules.push(rule(name, FieldKind::Flag));
    assert(rule_views(rules@) =~= seq![FieldRuleView { name: name@, kind: FieldKind::Flag }]);
    let fields = read_section(node, &rules);
    if fields.stopped {
        return Decoded { part: None, faults: fields.faults };
    }
    let flag = take_flag(&fields.values[0]);
    assert(fields@.values.len() == 1);
    Decoded { part: Some(flag), faults: fields.faults }
}

/// Whether faults of the configuration are shown.
#[derive(Clone, Copy, Debug, PartialEq, Eq, Structural)]
pub struct ConfigNotification {
    pub disable_failed: bool,
}

/// A part of the section on showing faults.
#[derive(Clone, Copy, Debug, PartialEq, Eq, Structural)]
pub struct ConfigNotificationPart {
    pub disable_failed: Option<Flag>,
}

/// The fields of the section on showing faults.
pub open spec fn config_notification_rules() -> Seq<FieldRuleView> {
    seq![FieldRuleView { name: "disable-failed"@, kind: FieldKind::Flag }]
}

impl Default for ConfigNotification {
    fn default() -> (r: ConfigNotification)
        ensures
            r == (ConfigNotification { disable_failed: false }),
    {
        ConfigNotification { disable_failed: false }
    }
}

impl ConfigNotification {
    /// The section after a part was merged into it.
    pub open spec fn merged(self, part: ConfigNotificationPart) -> ConfigNotification {
        ConfigNotification { disable_failed: switched(self.disable_failed, part.disable_failed) }
    }

    /// Merges a part into the section.
    pub fn merge_with(&mut self, part: &ConfigNotificationPart)
        ensures
            *final(self) == old(self).merged(*part),
    {
        if let Some(flag) = part.disable_failed {
            self.disable_failed = flag.0;
        }
    }
}

impl ConfigNotificationPart {
    /// Decodes a part of the section.
    pub fn decode_node(node: &KdlNode) -> (r: Decoded<ConfigNotificationPart>)
        ensures
            ({
                let fields = section_fields(*node, config_notification_rules());
                &&& r.faults@ == fields.faults
                &&& r.part == if fields.stopped {
                    None
                } else {
                    Some(ConfigNotificationPart { disable_failed: flag_field(fields, 0) })
                }
            }),
    {
        let read = decode_one_flag(node, "disable-failed");
        let part = match read.part {
            Some(disable_failed) => Some(ConfigNotificationPart { disable_failed }),
            None => None,
        };
        Decoded { part, faults: read.faults }
    }
}

/// The clipboard.
#[derive(Clone, Copy, Debug, PartialEq, Eq, Structural)]
pub struct Clipboard {
    pub disable_primary: bool,
}

/// A part of the clipboard section.
#[derive(Clone, Copy, Debug, PartialEq, Eq, Structural)]
pub struct ClipboardPart {
    pub disable_primary: Option<Flag>,
}

/// The fields of the clipboard section.
pub open spec fn clipboard_rules() -> Seq<FieldRuleView> {
    seq![FieldRuleView { name: "disable-primary"@, kind: FieldKind::Flag }]
}

impl Default for Clipboard {
    fn default() -> (r: Clipboard)
        ensures
            r == (Clipboard { disable_primary: false }),
    {
        Clipboard { disable_primary: false }
    }
}

impl Clipboard {
    /// The section after a part was merged into it.
    pub open spec fn merged(self, part: ClipboardPart) -> Clipboard {
        Clipboard { disable_primary: switched(self.disable_primary, part.disable_primary) }
    }

    /// Merges a part into the section.
    pub fn merge_with(&mut self, part: &ClipboardPart)
        ensures
            *final(self) == old(self).merged(*part),
    {
        if let Some(flag) = part.disable_primary {
            self.disable_primary = flag.0;
        }
    }
}

impl ClipboardPart {
    /// Decodes a part of the section.
    pub fn decode_node(node: &KdlNode) -> (r: Decoded<ClipboardPart>)
        ensures
            ({
                let fields = section_fields(*node, clipboard_rules());
                &&& r.faults@ == fields.faults
                &&& r.part == if fields.stopped {
                    None
                } else {
                    Some(ClipboardPart { disable_primary: flag_field(fields, 0) })
                }
            }),
    {
        let read = decode_one_flag(node, "disable-primary");
        let part = match read.part {
            Some(disable_primary) => Some(ClipboardPart { disable_primary }),
            None => None,
        };
        Decoded { part, faults: read.faults }
    }
}

/// A color with its opacity, each component as the bits of a number.
#[derive(Clone, Copy, Debug, PartialEq, Eq, Structural)]
pub struct Color {
    pub r: u32,
    pub g: u32,
    pub b: u32,
    pub a: u32,
}

/// The overview of the workspaces.
#[derive(Debug)]
pub struct Overview {
    pub zoom: FloatBits,
    /// The color behind the workspaces, if it is not the built-in one.
    pub backdrop_color: Option<Color>,
    /// What is set of the shadow of the workspaces, in the order in which it was read.
    pub workspace_shadow: Vec<KdlNode>,
}

/// The overview in the abstract.
#[verifier::ext_equal]
pub struct OverviewView {
    pub zoom: FloatBits,
    pub backdrop_color: Option<Color>,
    pub workspace_shadow: Seq<KdlNode>,
}

impl View for Overview {
    type V = OverviewView;

    open spec fn view(&self) -> OverviewView {
        OverviewView {
            zoom: self.zoom,
            backdrop_color: self.backdrop_color,
            workspace_shadow: self.workspace_shadow@,
        }
    }
}

/// A part of the overview section.
#[derive(Debug)]
pub struct OverviewPart {
    pub zoom: Option<FloatBits>,
    pub backdrop_color: Option<Color>,
    pub workspace_shadow: Option<KdlNode>,
}

/// What was read elsewhere of an overview section: a number with a fraction, and a color.
#[derive(Clone, Copy, Debug, PartialEq, Eq, Structural)]
pub struct OverviewValues {
    pub zoom: Option<FloatBits>,
    pub backdrop_color: Option<Color>,
}

/// The overview before anything is configured.
pub open spec fn default_overview() -> OverviewView {
    OverviewView {
        zoom: FloatBits { bits: ONE_HALF },
        backdrop_color: None,
        workspace_shadow: Seq::empty(),
    }
}

/// The overview after a part was merged into it.
pub open spec fn merged_overview(overview: OverviewView, part: OverviewPart) -> OverviewView {
    OverviewView {
        zoom: set_by(overview.zoom, part.zoom),
        backdrop_color: if part.backdrop_color is Some {
            part.backdrop_color
        } else {
            overview.backdrop_color
        },
        workspace_shadow: match part.workspace_shadow {
            Some(node) => overview.workspace_shadow.push(node),
            None => overview.workspace_shadow,
        },
    }
}

/// The fields of the overview section.
pub open spec fn overview_rules() -> Seq<FieldRuleView> {
    seq![
        FieldRuleView { name: "zoom"@, kind: FieldKind::Elsewhere },
        FieldRuleView { name: "backdrop-color"@, kind: FieldKind::Elsewhere },
        FieldRuleView { name: "workspace-shadow"@, kind: FieldKind::Elsewhere },
    ]
}

/// What was read elsewhere of a field that is there.
pub open spec fn read_elsewhere<T>(fields: Fields, i: int, value: Option<T>) -> Option<T> {
    if fields.values[i] is Some {
        value
    } else {
        None
    }
}

/// The part that an overview section makes.
pub open spec fn overview_part_of(node: KdlNode, fields: Fields, values: OverviewValues) -> OverviewPart {
    OverviewPart {
        zoom: read_elsewhere(fields, 0, values.zoom),
        backdrop_color: read_elsewhere(fields, 1, values.backdrop_color),
        workspace_shadow: first_called(node.children@, "workspace-shadow"@),
    }
}

/// Takes what was read elsewhere of a field if it is there.
pub fn take_if<T>(there: bool, value: Option<T>) -> (r: Option<T>)
    ensures
        r == (if there {
            value
        } else {
            None
        }),
{
    if there {
        value
    } else {
        None
    }
}

impl OverviewPart {
    /// Decodes a part of the overview section. `values` are what was read elsewhere of its fields.
    pub fn decode_node(node: KdlNode, values: OverviewValues) -> (r: Decoded<OverviewPart>)
        ensures
            ({
                let fields = section_fields(node, overview_rules());
                &&& r.faults@ == fields.faults
                &&& match r.part {
                    Some(part) => !fields.stopped && part == overview_part_of(node, fields, values),
                    None => fields.stopped,
                }
            }),
    {
        let mut rules: Vec<FieldRule> = Vec::new();
        rules.push(rule("zoom", FieldKind::Elsewhere));
        rules.push(rule("backdrop-color", FieldKind::Elsewhere));
        rules.push(rule("workspace-shadow", FieldKind::Elsewhere));
        assert(rule_views(rules@) =~= overview_rules());
        let fields = read_section(&node, &rules);
        if fields.stopped {
            return Decoded { part: None, faults: fields.faults };
        }
        assert(fields@.values.len() == 3);
        let part = OverviewPart {
            zoom: take_if(fields.values[0].is_some(), values.zoom),
            backdrop_color: take_if(fields.values[1].is_some(), values.backdrop_color),
            workspace_shadow: take_first_called(node.children, "workspace-shadow"),
        };
        Decoded { part: Some(part), faults: fields.faults }
    }
}

impl Default for Overview {
    fn default() -> (r: Overview)
        ensures
            r@ == default_overview(),
    {
        Overview {
            zoom: FloatBits { bits: ONE_HALF },
            backdrop_color: None,
            workspace_shadow: Vec::new(),
        }
    }
}

impl Overview {
    /// Merges a part into the section.
    pub fn merge_with(&mut self, part: OverviewPart)
        ensures
            final(self)@ == merged_overview(old(self)@, part),
    {
        if let Some(zoom) = part.zoom {
            self.zoom = zoom;
        }
        if part.backdrop_color.is_some() {
            self.backdrop_color = part.backdrop_color;
        }
        if let Some(node) = part.workspace_shadow {
            self.workspace_shadow.push(node);
        }
    }
}

/// A variable for the environment of what is started, or one to be taken out of it.
#[derive(Debug)]
pub struct EnvironmentVariable {
    pub name: String,
    pub value: Option<String>,
}

/// A variable in the abstract.
pub struct VariableView {
    pub name: Seq<char>,
    pub value: Option<Seq<char>>,
}

impl View for EnvironmentVariable {
    type V = VariableView;

    open spec fn view(&self) -> VariableView {
        VariableView { name: self.name@, value: opt_text(self.value) }
    }
}

/// The environment of what is started.
#[derive(Debug)]
pub struct Environment(pub Vec<EnvironmentVariable>);

impl View for Environment {
    type V = Seq<VariableView>;

    open spec fn view(&self) -> Seq<VariableView> {
        self.0@.map_values(|v: EnvironmentVariable| v@)
    }
}

/// The reading of variables, one after the other until one is given up.
pub open spec fn variables_reading(nodes: Seq<KdlNode>, faults: Seq<Fault>) -> Reading<Seq<VariableView>>
    decreases nodes.len(),
{
    if nodes.len() == 0 {
        Reading { value: Some(Seq::empty()), faults }
    } else {
        let before = variables_reading(nodes.drop_last(), faults);
        match before.value {
            None => before,
            Some(variables) => {
                let read = opt_argument_reading(nodes.last());
                Reading {
                    value: match read.value {
                        Some(value) => Some(
                            variables.push(VariableView { name: nodes.last().name@, value }),
                        ),
                        None => None,
                    },
                    faults: before.faults + read.faults,
                }
            },
        }
    }
}

/// The reading of the environment: nodes that are named like the variables.
pub open spec fn environment_reading(node: KdlNode) -> Reading<Seq<VariableView>> {
    let faults = annotation_faults(node.annotation);
    if node.arguments@.len() > 0 {
        Reading {
            value: None,
            faults: faults.push(
                Fault { kind: FaultKind::UnexpectedArgument, spot: node.arguments@[0].spot },
            ),
        }
    } else if node.properties@.len() > 0 {
        Reading {
            value: None,
            faults: faults.push(
                Fault { kind: FaultKind::UnexpectedProperty, spot: node.properties@[0].spot },
            ),
        }
    } else {
        variables_reading(node.children@, faults)
    }
}

/// Once a variable is given up, no further one is read.
proof fn lemma_given_up(nodes: Seq<KdlNode>, count: int, faults: Seq<Fault>)
    requires
        0 <= count <= nodes.len(),
        variables_reading(nodes.take(count), faults).value is None,
    ensures
        variables_reading(nodes, faults) == variables_reading(nodes.take(count), faults),
    decreases nodes.len(),
{
    if count == nodes.len() {
        assert(nodes.take(count) =~= nodes);
    } else {
        assert(nodes.drop_last().take(count) =~= nodes.take(count));
        lemma_given_up(nodes.drop_last(), count, faults);
    }
}

impl Environment {
    /// Decodes the environment.
    pub fn decode_node(node: &KdlNode) -> (r: Decoded<Environment>)
        ensures
            r.faults@ == environment_reading(*node).faults,
            match (r.part, environment_reading(*node).value) {
                (Some(part), Some(variables)) => part@ == variables,
                (None, None) => true,
                _ => false,
            },
    {
        let mut faults: Vec<Fault> = Vec::new();
        check_annotation(&node.annotation, &mut faults);
        let ghost start = faults@;
        assert(start =~= annotation_faults(node.annotation));
        if node.arguments.len() > 0 {
            faults.push(
                Fault { kind: FaultKind::UnexpectedArgument, spot: node.arguments[0].spot },
            );
            return Decoded { part: None, faults };
        }
        if node.properties.len() > 0 {
            faults.push(
                Fault { kind: FaultKind::UnexpectedProperty, spot: node.properties[0].spot },
            );
            return Decoded { part: None, faults };
        }
        let mut environment = Environment(Vec::new());
        let mut i: usize = 0;
        assert(node.children@.take(0) =~= Seq::<KdlNode>::empty());
        assert(environment@ =~= Seq::<VariableView>::empty());
        while i < node.children.len()
            invariant
                i <= node.children@.len(),
                node.arguments@.len() == 0,
                node.properties@.len() == 0,
                start == annotation_faults(node.annotation),
                variables_reading(node.children@.take(i as int), start) == (Reading {
                    value: Some(environment@),
                    faults: faults@,
                }),
            decreases node.children@.len() - i,
        {
            let child = &node.children[i];
            let ghost before = environment@;
            assert(node.children@.take(i + 1).drop_last() =~= node.children@.take(i as int));
            match decode_opt_argument(child, &mut faults) {
                Some(value) => {
                    let variable = EnvironmentVariable { name: child.name.clone(), value };
                    environment.0.push(variable);
                    assert(environment@ =~= before.push(variable@));
                },
                None => {
                    proof {
                        lemma_given_up(node.children@, i + 1, start);
                    }
                    return Decoded { part: None, faults };
                },
            }
            i = i + 1;
        }
        assert(node.children@.take(i as int) =~= node.children@);
        Decoded { part: Some(environment), faults }
    }

    /// Adds the variables of a part after those that are there.
    pub fn extend(&mut self, part: Environment)
        ensures
            final(self)@ == old(self)@ + part@,
    {
        let mut part = part;
        let ghost added = part@;
        self.0.append(&mut part.0);
        assert(self@ =~= old(self)@ + added);
    }
}

/// Decodes a flag that is a section of its own.
pub fn decode_flag(node: &KdlNode) -> (r: Decoded<Flag>)
    ensures
        r.faults@ == flag_reading(*node).faults,
        r.part == (match flag_reading(*node).value {
            Some(b) => Some(Flag(b)),
            None => None,
        }),
{
    let mut faults: Vec<Fault> = Vec::new();
    let flag = read_flag(node, &mut faults);
    assert(faults@ =~= flag_reading(*node).faults);
    match flag {
        Some(b) => Decoded { part: Some(Flag(b)), faults },
        None => Decoded { part: None, faults },
    }
}

/// The program that runs X11 clients.
#[derive(Debug)]
pub struct XwaylandSatellite {
    pub off: bool,
    pub path: String,
}

/// A part of the section on the program that runs X11 clients.
#[derive(Debug)]
pub struct XwaylandSatellitePart {
    pub off: bool,
    pub on: bool,
    pub path: Option<String>,
}

impl Default for XwaylandSatellite {
    fn default() -> (r: XwaylandSatellite)
        ensures
            !r.off,
            r.path@ == "xwayland-satellite"@,
    {
        XwaylandSatellite { off: false, path: "xwayland-satellite".to_owned() }
    }
}

impl XwaylandSatellite {
    /// Merges a part into the section. A part that says both on and off says on.
    pub fn merge_with(&mut self, part: &XwaylandSatellitePart)
        ensures
            final(self).off == ((old(self).off || part.off) && !part.on),
            final(self).path@ == set_by(old(self).path@, opt_text(part.path)),
    {
        self.off = self.off || part.off;
        if part.on {
            self.off = false;
        }
        if let Some(path) = &part.path {
            self.path = path.clone();
        }
    }
}

/// A part that sets nothing.
pub open spec fn empty_cursor_part() -> CursorPartView {
    CursorPartView {
        xcursor_theme: None,
        xcursor_size: None,
        hide_when_typing: None,
        hide_after_inactive_ms: None,
    }
}

/// Merging a part that sets nothing changes nothing, and merging a part twice is the same as merging
/// it once.
pub proof fn law_merge_cursor(cursor: CursorView, part: CursorPartView)
    ensures
        merged_cursor(cursor, empty_cursor_part()) == cursor,
        merged_cursor(merged_cursor(cursor, part), part) == merged_cursor(cursor, part),
{
}

/// What a later part sets counts, whatever an earlier one said, and what it leaves out stays as the
/// earlier one made it.
pub proof fn law_later_part_counts(cursor: CursorView, first: CursorPartView, second: CursorPartView)
    ensures
        ({
            let merged = merged_cursor(merged_cursor(cursor, first), second);
            &&& merged.xcursor_theme == set_by(
                set_by(cursor.xcursor_theme, first.xcursor_theme),
                second.xcursor_theme,
            )
            &&& second.xcursor_theme is Some ==> merged.xcursor_theme == second.xcursor_theme->0
            &&& second.xcursor_size is Some ==> merged.xcursor_size == second.xcursor_size->0
            &&& second.hide_when_typing is Some ==> merged.hide_when_typing == switched(
                false,
                second.hide_when_typing,
            )
            &&& second.hide_after_inactive_ms is Some ==> merged.hide_after_inactive_ms
                == second.hide_after_inactive_ms
        }),
{
}

/// The same holds of the sections that are made of flags.
pub proof fn law_merge_flags(
    overlay: HotkeyOverlay,
    overlay_part: HotkeyOverlayPart,
    notification: ConfigNotification,
    notification_part: ConfigNotificationPart,
    clipboard: Clipboard,
    clipboard_part: ClipboardPart,
)
    ensures
        overlay.merged(overlay_part).merged(overlay_part) == overlay.merged(overlay_part),
        overlay.merged(HotkeyOverlayPart { skip_at_startup: None, hide_not_bound: None }) == overlay,
        notification.merged(notification_part).merged(notification_part) == notification.merged(
            notification_part,
        ),
        notification.merged(ConfigNotificationPart { disable_failed: None }) == notification,
        clipboard.merged(clipboard_part).merged(clipboard_part) == clipboard.merged(clipboard_part),
        clipboard.merged(ClipboardPart { disable_primary: None }) == clipboard,
{
}

} // verus!
