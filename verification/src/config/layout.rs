//! The layout section of the configuration, and how its parts are put together.
use vstd::prelude::*;

use crate::config::grammar::{
    annotation_faults, check_annotation, find_called, first_called, read_section, rule_views,
    section_fields, Fault, FaultKind, FieldKind, FieldRule, FieldRuleView, Fields,
};
use crate::config::kdl::{KdlNode, KdlProperty, KdlValue};
use crate::config::misc::{
    flag_field, number_field, pick, read_elsewhere, rule, set_by, switch, switched, take_flag,
    take_if, take_number, Color, Decoded, Flag,
};
use crate::geometry::FloatBits;
use crate::input::action::ColumnDisplay;

verus! {

/// A size that can be cycled through.
#[derive(Clone, Copy, Debug, PartialEq, Eq, Structural)]
pub enum PresetSize {
    /// A share of the output.
    Proportion(FloatBits),
    /// A number of pixels.
    Fixed(i32),
}

/// A size that new windows get, unless they choose their own.
#[derive(Clone, Copy, Debug, PartialEq, Eq, Structural)]
pub struct DefaultPresetSize(pub Option<PresetSize>);

/// The space that is left free along the edges of an output.
#[derive(Clone, Copy, Debug, PartialEq, Eq, Structural)]
pub struct Struts {
    pub left: FloatBits,
    pub right: FloatBits,
    pub top: FloatBits,
    pub bottom: FloatBits,
}

/// When a focused column is centered.
#[derive(Clone, Copy, Debug, PartialEq, Eq, Structural)]
pub enum CenterFocusedColumn {
    /// Focusing a column will not center the column.
    Never,
    /// The focused column will always be centered.
    Always,
    /// Focusing a column will center it if it doesn't fit on the screen together with the previously
    /// focused column.
    OnOverflow,
}

impl Default for CenterFocusedColumn {
    fn default() -> (r: CenterFocusedColumn)
        ensures
            r == CenterFocusedColumn::Never,
    {
        CenterFocusedColumn::Never
    }
}

/// Whether windows have a border. What it looks like is kept elsewhere.
#[derive(Clone, Copy, Debug, PartialEq, Eq, Structural)]
pub struct Border {
    pub off: bool,
}

/// A part of the section on borders, as far as it says on or off.
#[derive(Clone, Copy, Debug, PartialEq, Eq, Structural)]
pub struct BorderPart {
    pub on: bool,
    pub off: bool,
}

/// The layout.
#[derive(Debug)]
pub struct Layout {
    pub border: Border,
    pub preset_column_widths: Vec<PresetSize>,
    pub default_column_width: Option<PresetSize>,
    pub preset_window_heights: Vec<PresetSize>,
    pub center_focused_column: CenterFocusedColumn,
    pub always_center_single_column: bool,
    pub empty_workspace_above_first: bool,
    pub default_column_display: ColumnDisplay,
    pub gaps: FloatBits,
    pub struts: Struts,
    /// The color behind the windows, if it is not the built-in one.
    pub background_color: Option<Color>,
    /// The sections that were merged, in their order, for what is drawn around windows.
    pub looks: Vec<KdlNode>,
}

/// The layout in the abstract.
#[verifier::ext_equal]
pub struct LayoutView {
    pub border: Border,
    pub preset_column_widths: Seq<PresetSize>,
    pub default_column_width: Option<PresetSize>,
    pub preset_window_heights: Seq<PresetSize>,
    pub center_focused_column: CenterFocusedColumn,
    pub always_center_single_column: bool,
    pub empty_workspace_above_first: bool,
    pub default_column_display: ColumnDisplay,
    pub gaps: FloatBits,
    pub struts: Struts,
    pub background_color: Option<Color>,
    pub looks: Seq<KdlNode>,
}

impl View for Layout {
    type V = LayoutView;

    open spec fn view(&self) -> LayoutView {
        LayoutView {
            border: self.border,
            preset_column_widths: self.preset_column_widths@,
            default_column_width: self.default_column_width,
            preset_window_heights: self.preset_window_heights@,
            center_focused_column: self.center_focused_column,
            always_center_single_column: self.always_center_single_column,
            empty_workspace_above_first: self.empty_workspace_above_first,
            default_column_display: self.default_column_display,
            gaps: self.gaps,
            struts: self.struts,
            background_color: self.background_color,
            looks: self.looks@,
        }
    }
}

/// A part of the layout section.
#[derive(Debug)]
pub struct LayoutPart {
    pub border: Option<BorderPart>,
    pub preset_column_widths: Option<Vec<PresetSize>>,
    pub default_column_width: Option<DefaultPresetSize>,
    pub preset_window_heights: Option<Vec<PresetSize>>,
    pub center_focused_column: Option<CenterFocusedColumn>,
    pub always_center_single_column: Option<Flag>,
    pub empty_workspace_above_first: Option<Flag>,
    pub default_column_display: Option<ColumnDisplay>,
    pub gaps: Option<FloatBits>,
    pub struts: Option<Struts>,
    pub background_color: Option<Color>,
    /// The section itself.
    pub node: KdlNode,
}

/// A part of the layout section in the abstract.
#[verifier::ext_equal]
pub struct LayoutPartView {
    pub border: Option<BorderPart>,
    pub preset_column_widths: Option<Seq<PresetSize>>,
    pub default_column_width: Option<DefaultPresetSize>,
    pub preset_window_heights: Option<Seq<PresetSize>>,
    pub center_focused_column: Option<CenterFocusedColumn>,
    pub always_center_single_column: Option<Flag>,
    pub empty_workspace_above_first: Option<Flag>,
    pub default_column_display: Option<ColumnDisplay>,
    pub gaps: Option<FloatBits>,
    pub struts: Option<Struts>,
    pub background_color: Option<Color>,
    pub node: KdlNode,
}

impl View for LayoutPart {
    type V = LayoutPartView;

    open spec fn view(&self) -> LayoutPartView {
        LayoutPartView {
            border: self.border,
            preset_column_widths: opt_presets(self.preset_column_widths),
            default_column_width: self.default_column_width,
            preset_window_heights: opt_presets(self.preset_window_heights),
            center_focused_column: self.center_focused_column,
            always_center_single_column: self.always_center_single_column,
            empty_workspace_above_first: self.empty_workspace_above_first,
            default_column_display: self.default_column_display,
            gaps: self.gaps,
            struts: self.struts,
            background_color: self.background_color,
            node: self.node,
        }
    }
}

/// What was read elsewhere of a layout section: numbers with fractions, and colors.
#[derive(Debug)]
pub struct LayoutValues {
    pub preset_column_widths: Option<Vec<PresetSize>>,
    pub default_column_width: Option<DefaultPresetSize>,
    pub preset_window_heights: Option<Vec<PresetSize>>,
    pub default_column_display: Option<ColumnDisplay>,
    pub gaps: Option<FloatBits>,
    pub struts: Option<Struts>,
    pub background_color: Option<Color>,
}

/// The number zero.
pub const ZERO: u64 = 0;

/// A third.
pub const ONE_THIRD: u64 = 0x3FD5_5555_5555_5555;

/// A half.
pub const ONE_HALF: u64 = 0x3FE0_0000_0000_0000;

/// Two thirds.
pub const TWO_THIRDS: u64 = 0x3FE5_5555_5555_5555;

/// Sixteen.
pub const SIXTEEN: u64 = 0x4030_0000_0000_0000;

/// A share of the output.
pub open spec fn share(bits: u64) -> PresetSize {
    PresetSize::Proportion(FloatBits { bits })
}

/// The sizes that can be cycled through if none are configured.
pub open spec fn default_presets() -> Seq<PresetSize> {
    seq![share(ONE_THIRD), share(ONE_HALF), share(TWO_THIRDS)]
}

/// Some sizes, or the default ones if there are none.
pub open spec fn or_default_presets(presets: Seq<PresetSize>) -> Seq<PresetSize> {
    if presets.len() == 0 {
        default_presets()
    } else {
        presets
    }
}

/// The sizes of an optional list.
pub open spec fn opt_presets(presets: Option<Vec<PresetSize>>) -> Option<Seq<PresetSize>> {
    match presets {
        Some(presets) => Some(presets@),
        None => None,
    }
}

/// The layout before anything is configured.
pub open spec fn default_layout() -> LayoutView {
    let zero = FloatBits { bits: ZERO };
    LayoutView {
        border: Border { off: true },
        preset_column_widths: default_presets(),
        default_column_width: Some(share(ONE_HALF)),
        preset_window_heights: default_presets(),
        center_focused_column: CenterFocusedColumn::Never,
        always_center_single_column: false,
        empty_workspace_above_first: false,
        default_column_display: ColumnDisplay::Normal,
        gaps: FloatBits { bits: SIXTEEN },
        struts: Struts { left: zero, right: zero, top: zero, bottom: zero },
        background_color: None,
        looks: Seq::empty(),
    }
}

/// The layout after a part was merged into it. An empty list of sizes stands for the default one.
pub open spec fn merged_layout(layout: LayoutView, part: LayoutPartView) -> LayoutView {
    LayoutView {
        border: match part.border {
            Some(border) => Border { off: (layout.border.off || border.off) && !border.on },
            None => layout.border,
        },
        preset_column_widths: or_default_presets(
            set_by(layout.preset_column_widths, part.preset_column_widths),
        ),
        default_column_width: match part.default_column_width {
            Some(width) => width.0,
            None => layout.default_column_width,
        },
        preset_window_heights: or_default_presets(
            set_by(layout.preset_window_heights, part.preset_window_heights),
        ),
        center_focused_column: set_by(layout.center_focused_column, part.center_focused_column),
        always_center_single_column: switched(
            layout.always_center_single_column,
            part.always_center_single_column,
        ),
        empty_workspace_above_first: switched(
            layout.empty_workspace_above_first,
            part.empty_workspace_above_first,
        ),
        default_column_display: set_by(layout.default_column_display, part.default_column_display),
        gaps: set_by(layout.gaps, part.gaps),
        struts: set_by(layout.struts, part.struts),
        background_color: if part.background_color is Some {
            part.background_color
        } else {
            layout.background_color
        },
        looks: layout.looks.push(part.node),
    }
}

/// A part with its border settled: one of the main file that has a section on borders which says
/// neither on nor off turns the border on.
pub open spec fn settled_part(part: LayoutPartView, recursion: u8) -> LayoutPartView {
    LayoutPartView {
        border: match part.border {
            Some(border) => Some(
                BorderPart { on: border.on || recursion == 0 && !border.off, ..border },
            ),
            None => None,
        },
        ..part
    }
}

/// The fields of the layout section.
pub open spec fn layout_rules() -> Seq<FieldRuleView> {
    seq![
        FieldRuleView { name: "focus-ring"@, kind: FieldKind::Elsewhere },
        FieldRuleView { name: "border"@, kind: FieldKind::Elsewhere },
        FieldRuleView { name: "shadow"@, kind: FieldKind::Elsewhere },
        FieldRuleView { name: "tab-indicator"@, kind: FieldKind::Elsewhere },
        FieldRuleView { name: "insert-hint"@, kind: FieldKind::Elsewhere },
        FieldRuleView { name: "preset-column-widths"@, kind: FieldKind::Elsewhere },
        FieldRuleView { name: "default-column-width"@, kind: FieldKind::Elsewhere },
        FieldRuleView { name: "preset-window-heights"@, kind: FieldKind::Elsewhere },
        FieldRuleView { name: "center-focused-column"@, kind: FieldKind::Centering },
        FieldRuleView { name: "always-center-single-column"@, kind: FieldKind::Flag },
        FieldRuleView { name: "empty-workspace-above-first"@, kind: FieldKind::Flag },
        FieldRuleView { name: "default-column-display"@, kind: FieldKind::Elsewhere },
        FieldRuleView { name: "gaps"@, kind: FieldKind::Elsewhere },
        FieldRuleView { name: "struts"@, kind: FieldKind::Elsewhere },
        FieldRuleView { name: "background-color"@, kind: FieldKind::Elsewhere },
    ]
}

/// Whether a node has a child with a name.
pub open spec fn names_child(node: KdlNode, name: Seq<char>) -> bool {
    first_called(node.children@, name) is Some
}

/// What the section on borders says, if there is one.
pub open spec fn border_of(nodes: Seq<KdlNode>) -> Option<BorderPart> {
    match first_called(nodes, "border"@) {
        Some(node) => Some(
            BorderPart { on: names_child(node, "on"@), off: names_child(node, "off"@) },
        ),
        None => None,
    }
}

/// The part that a layout section makes.
pub open spec fn layout_part_of(node: KdlNode, fields: Fields, values: LayoutValues) -> LayoutPartView {
    LayoutPartView {
        border: border_of(node.children@),
        preset_column_widths: read_elsewhere(fields, 5, opt_presets(values.preset_column_widths)),
        default_column_width: read_elsewhere(fields, 6, values.default_column_width),
        preset_window_heights: read_elsewhere(fields, 7, opt_presets(values.preset_window_heights)),
        center_focused_column: match number_field(fields, 8) {
            Some(n) => Some(
                if n == 0 {
                    CenterFocusedColumn::Never
                } else if n == 1 {
                    CenterFocusedColumn::Always
                } else {
                    CenterFocusedColumn::OnOverflow
                },
            ),
            None => None,
        },
        always_center_single_column: flag_field(fields, 9),
        empty_workspace_above_first: flag_field(fields, 10),
        default_column_display: read_elsewhere(fields, 11, values.default_column_display),
        gaps: read_elsewhere(fields, 12, values.gaps),
        struts: read_elsewhere(fields, 13, values.struts),
        background_color: read_elsewhere(fields, 14, values.background_color),
        node,
    }
}

/// The sizes that can be cycled through if none are configured.
fn make_default_presets() -> (r: Vec<PresetSize>)
    ensures
        r@ == default_presets(),
{
    let mut presets: Vec<PresetSize> = Vec::new();
    presets.push(PresetSize::Proportion(FloatBits { bits: ONE_THIRD }));
    presets.push(PresetSize::Proportion(FloatBits { bits: ONE_HALF }));
    presets.push(PresetSize::Proportion(FloatBits { bits: TWO_THIRDS }));
    assert(presets@ =~= default_presets());
    presets
}

/// The fields of the layout section.
pub fn make_layout_rules() -> (r: Vec<FieldRule>)
    ensures
        rule_views(r@) == layout_rules(),
{
    let mut rules: Vec<FieldRule> = Vec::new();
    rules.push(rule("focus-ring", FieldKind::Elsewhere));
    rules.push(rule("border", FieldKind::Elsewhere));
    rules.push(rule("shadow", FieldKind::Elsewhere));
    rules.push(rule("tab-indicator", FieldKind::Elsewhere));
    rules.push(rule("insert-hint", FieldKind::Elsewhere));
    rules.push(rule("preset-column-widths", FieldKind::Elsewhere));
    rules.push(rule("default-column-width", FieldKind::Elsewhere));
    rules.push(rule("preset-window-heights", FieldKind::Elsewhere));
    rules.push(rule("center-focused-column", FieldKind::Centering));
    rules.push(rule("always-center-single-column", FieldKind::Flag));
    rules.push(rule("empty-workspace-above-first", FieldKind::Flag));
    rules.push(rule("default-column-display", FieldKind::Elsewhere));
    rules.push(rule("gaps", FieldKind::Elsewhere));
    rules.push(rule("struts", FieldKind::Elsewhere));
    rules.push(rule("background-color", FieldKind::Elsewhere));
    assert(rule_views(rules@) =~= layout_rules());
    rules
}

/// The faults of a node that is to have nothing but children.
pub open spec fn only_children_faults(node: KdlNode) -> Seq<Fault> {
    annotation_faults(node.annotation) + node.arguments@.map_values(
        |v: KdlValue| Fault { kind: FaultKind::UnexpectedArgument, spot: v.spot },
    ) + node.properties@.map_values(
        |p: KdlProperty| Fault { kind: FaultKind::UnexpectedProperty, spot: p.spot },
    )
}

/// Looks for all that is not a child.
fn check_only_children(node: &KdlNode) -> (r: Vec<Fault>)
    ensures
        r@ == only_children_faults(*node),
{
    let mut faults: Vec<Fault> = Vec::new();
    check_annotation(&node.annotation, &mut faults);
    let ghost first = faults@;
    let ghost of_arguments = node.arguments@.map_values(
        |v: KdlValue| Fault { kind: FaultKind::UnexpectedArgument, spot: v.spot },
    );
    assert(first =~= annotation_faults(node.annotation));
    let mut i: usize = 0;
    while i < node.arguments.len()
        invariant
            i <= node.arguments@.len(),
            of_arguments == node.arguments@.map_values(
                |v: KdlValue| Fault { kind: FaultKind::UnexpectedArgument, spot: v.spot },
            ),
            faults@ =~= first + of_arguments.take(i as int),
        decreases node.arguments@.len() - i,
    {
        faults.push(
            Fault { kind: FaultKind::UnexpectedArgument, spot: node.arguments[i].spot },
        );
        i = i + 1;
    }
    let ghost second = faults@;
    assert(second =~= first + of_arguments);
    let ghost of_properties = node.properties@.map_values(
        |p: KdlProperty| Fault { kind: FaultKind::UnexpectedProperty, spot: p.spot },
    );
    let mut i: usize = 0;
    while i < node.properties.len()
        invariant
            i <= node.properties@.len(),
            of_properties == node.properties@.map_values(
                |p: KdlProperty| Fault { kind: FaultKind::UnexpectedProperty, spot: p.spot },
            ),
            faults@ =~= second + of_properties.take(i as int),
        decreases node.properties@.len() - i,
    {
        faults.push(
            Fault { kind: FaultKind::UnexpectedProperty, spot: node.properties[i].spot },
        );
        i = i + 1;
    }
    assert(faults@ =~= only_children_faults(*node));
    faults
}

impl DefaultPresetSize {
    /// Decodes a size that new windows get: there can be one child, and without any the windows choose.
    /// `size` is what was read elsewhere of the first child, unless its decoding was given up.
    pub fn decode_node(node: &KdlNode, size: Option<PresetSize>) -> (r: Decoded<DefaultPresetSize>)
        ensures
            r.faults@ == only_children_faults(*node) + (if node.children@.len() > 1 {
                seq![Fault { kind: FaultKind::UnexpectedNode, spot: node.children@[1].spot }]
            } else {
                Seq::empty()
            }),
            r.part == (if node.children@.len() == 0 {
                Some(DefaultPresetSize(None))
            } else {
                match size {
                    Some(size) => Some(DefaultPresetSize(Some(size))),
                    None => None,
                }
            }),
    {
        let mut faults = check_only_children(node);
        if node.children.len() > 1 {
            faults.push(Fault { kind: FaultKind::UnexpectedNode, spot: node.children[1].spot });
        }
        assert(faults@ =~= only_children_faults(*node) + (if node.children@.len() > 1 {
            seq![Fault { kind: FaultKind::UnexpectedNode, spot: node.children@[1].spot }]
        } else {
            Seq::empty()
        }));
        let part = if node.children.len() == 0 {
            Some(DefaultPresetSize(None))
        } else {
            match size {
                Some(size) => Some(DefaultPresetSize(Some(size))),
                None => None,
            }
        };
        Decoded { part, faults }
    }
}

/// Finds out what the section on borders says.
fn find_border(nodes: &Vec<KdlNode>) -> (r: Option<BorderPart>)
    ensures
        r == border_of(nodes@),
{
    match find_called(nodes, "border") {
        Some(i) => {
            let children = &nodes[i].children;
            Some(
                BorderPart {
                    on: find_called(children, "on").is_some(),
                    off: find_called(children, "off").is_some(),
                },
            )
        },
        None => None,
    }
}

impl LayoutPart {
    /// Decodes a part of the layout section. `values` are what was read elsewhere of its fields.
    pub fn decode_node(node: KdlNode, values: LayoutValues) -> (r: Decoded<LayoutPart>)
        ensures
            ({
                let fields = section_fields(node, layout_rules());
                &&& r.faults@ == fields.faults
                &&& match r.part {
                    Some(part) => !fields.stopped && part@ == layout_part_of(node, fields, values),
                    None => fields.stopped,
                }
            }),
    {
        let rules = make_layout_rules();
        let fields = read_section(&node, &rules);
        if fields.stopped {
            return Decoded { part: None, faults: fields.faults };
        }
        assert(fields@.values.len() == 15);
        let center_focused_column = match take_number(&fields.values[8]) {
            Some(n) => if n == 0 {
                Some(CenterFocusedColumn::Never)
            } else if n == 1 {
                Some(CenterFocusedColumn::Always)
            } else {
                Some(CenterFocusedColumn::OnOverflow)
            },
            None => None,
        };
        let border = find_border(&node.children);
        let part = LayoutPart {
            border,
            preset_column_widths: take_if(fields.values[5].is_some(), values.preset_column_widths),
            default_column_width: take_if(fields.values[6].is_some(), values.default_column_width),
            preset_window_heights: take_if(
                fields.values[7].is_some(),
                values.preset_window_heights,
            ),
            center_focused_column,
            always_center_single_column: take_flag(&fields.values[9]),
            empty_workspace_above_first: take_flag(&fields.values[10]),
            default_column_display: take_if(
                fields.values[11].is_some(),
                values.default_column_display,
            ),
            gaps: take_if(fields.values[12].is_some(), values.gaps),
            struts: take_if(fields.values[13].is_some(), values.struts),
            background_color: take_if(fields.values[14].is_some(), values.background_color),
            node,
        };
        Decoded { part: Some(part), faults: fields.faults }
    }

    /// Turns the border on if a part of the main file has a section on borders that says neither on
    /// nor off. Elsewhere an empty section changes nothing.
    pub fn settle_border(&mut self, recursion: u8)
        ensures
            final(self)@ == settled_part(old(self)@, recursion),
    {
        if recursion == 0 {
            if let Some(border) = self.border {
                if !border.on && !border.off {
                    self.border = Some(BorderPart { on: true, off: false });
                }
            }
        }
    }
}

impl Default for Layout {
    fn default() -> (r: Layout)
        ensures
            r@ == default_layout(),
    {
        let zero = FloatBits { bits: ZERO };
        let layout = Layout {
            border: Border { off: true },
            preset_column_widths: make_default_presets(),
            default_column_width: Some(PresetSize::Proportion(FloatBits { bits: ONE_HALF })),
            preset_window_heights: make_default_presets(),
            center_focused_column: CenterFocusedColumn::Never,
            always_center_single_column: false,
            empty_workspace_above_first: false,
            default_column_display: ColumnDisplay::Normal,
            gaps: FloatBits { bits: SIXTEEN },
            struts: Struts { left: zero, right: zero, top: zero, bottom: zero },
            background_color: None,
            looks: Vec::new(),
        };
        assert(layout@ =~= default_layout());
        layout
    }
}

impl Layout {
    /// Merges a part into the section. An empty list of sizes stands for the default one.
    pub fn merge_with(&mut self, part: LayoutPart)
        ensures
            final(self)@ == merged_layout(old(self)@, part@),
    {
        if let Some(border) = part.border {
            self.border.off = (self.border.off || border.off) && !border.on;
        }
        self.always_center_single_column = switch(
            self.always_center_single_column,
            part.always_center_single_column,
        );
        self.empty_workspace_above_first = switch(
            self.empty_workspace_above_first,
            part.empty_workspace_above_first,
        );
        self.gaps = pick(self.gaps, part.gaps);
        self.center_focused_column = pick(self.center_focused_column, part.center_focused_column);
        self.default_column_display = pick(
            self.default_column_display,
            part.default_column_display,
        );
        self.struts = pick(self.struts, part.struts);
        if part.background_color.is_some() {
            self.background_color = part.background_color;
        }
        if let Some(width) = part.default_column_width {
            self.default_column_width = width.0;
        }
        if let Some(widths) = part.preset_column_widths {
            self.preset_column_widths = widths;
        }
        if let Some(heights) = part.preset_window_heights {
            self.preset_window_heights = heights;
        }
        if self.preset_column_widths.len() == 0 {
            self.preset_column_widths = make_default_presets();
        }
        if self.preset_window_heights.len() == 0 {
            self.preset_window_heights = make_default_presets();
        }
        self.looks.push(part.node);
        assert(self@ =~= merged_layout(old(self)@, part@));
    }
}

/// There are always sizes to cycle through, whatever a part says.
pub proof fn law_presets_remain(layout: LayoutView, part: LayoutPartView)
    ensures
        merged_layout(layout, part).preset_column_widths.len() > 0,
        merged_layout(layout, part).preset_window_heights.len() > 0,
{
}

/// A section on borders in the main file turns the border on unless it says off, whatever was said
/// before. One in another file does so only if it says on.
pub proof fn law_border_is_meant_to_be_shown(
    layout: LayoutView,
    part: LayoutPartView,
    recursion: u8,
)
    requires
        part.border is Some,
    ensures
        ({
            let border = part.border->0;
            let after = merged_layout(layout, settled_part(part, recursion)).border;
            &&& recursion == 0 ==> after.off == (border.off && !border.on)
            &&& recursion != 0 && !border.on ==> after.off == (layout.border.off || border.off)
            &&& border.on ==> !after.off
        }),
{
}

} // verus!
