//! What is written in a section is what comes of it.
use vstd::prelude::*;

use crate::config::grammar::{
    annotation_faults, field_reading, no_fields, rule_for, section_fields, with_field, with_fields,
    Fault, FieldRuleView, Fields,
};
use crate::config::input::{Input, InputPart};
use crate::config::kdl::{KdlLiteral, KdlNode};
use crate::config::layout::{
    layout_part_of, layout_rules, merged_layout, CenterFocusedColumn, LayoutPartView, LayoutValues,
    LayoutView,
};
use crate::config::misc::{
    clipboard_rules, config_notification_rules, cursor_rules, environment_reading,
    hotkey_overlay_rules, merged_overview, opt_argument_reading, overview_part_of, overview_rules,
    variables_reading, Flag, OverviewValues, OverviewView,
};
use crate::config::section::Section;
use crate::config::workspace::{is_taken, name_reading, workspace_rules};
use crate::config::{section_effect, ConfigView};

verus! {

/// Whether a section has a field.
pub open spec fn has_field(node: KdlNode, name: Seq<char>) -> bool {
    exists|k: int| 0 <= k < node.children@.len() && (#[trigger] node.children@[k]).name@ == name
}

/// Whether no two fields have one name.
spec fn distinct(rules: Seq<FieldRuleView>) -> bool {
    forall|i: int, j: int|
        0 <= i < j < rules.len() ==> (#[trigger] rules[i]).name != (#[trigger] rules[j]).name
}

/// A rule that is found has the name.
proof fn lemma_found(rules: Seq<FieldRuleView>, name: Seq<char>)
    ensures
        match rule_for(rules, name) {
            Some(i) => 0 <= i < rules.len() && rules[i].name == name,
            None => forall|i: int| 0 <= i < rules.len() ==> (#[trigger] rules[i]).name != name,
        },
    decreases rules.len(),
{
    if rules.len() > 0 {
        let shorter = rules.drop_last();
        lemma_found(shorter, name);
        if rule_for(rules, name) is None {
            assert forall|i: int| 0 <= i < rules.len() implies (#[trigger] rules[i]).name != name by {
                if i < shorter.len() {
                    assert(shorter[i].name != name);
                }
            }
        }
    }
}

/// The rule for a name is the one that has it.
proof fn lemma_rule_index(rules: Seq<FieldRuleView>, i: int)
    requires
        distinct(rules),
        0 <= i < rules.len(),
    ensures
        rule_for(rules, rules[i].name) == Some(i),
{
    lemma_found(rules, rules[i].name);
    let found = rule_for(rules, rules[i].name);
    if found is None {
        assert(rules[i].name != rules[i].name);
    } else {
        let k = found->0;
        if k < i {
            assert(rules[k].name != rules[i].name);
        } else if i < k {
            assert(rules[i].name != rules[k].name);
        }
    }
}

/// What was read of the nodes of a section.
proof fn lemma_read_so_far(
    start: Fields,
    rules: Seq<FieldRuleView>,
    nodes: Seq<KdlNode>,
    i: int,
)
    requires
        distinct(rules),
        start.values.len() == rules.len(),
        0 <= i < rules.len(),
        start.values[i] is None,
        !with_fields(start, rules, nodes).stopped,
        !start.stopped,
    ensures
        with_fields(start, rules, nodes).values.len() == rules.len(),
        forall|k: int|
            0 <= k < nodes.len() && (#[trigger] nodes[k]).name@ == rules[i].name ==> {
                let value = with_fields(start, rules, nodes).values[i];
                value is Some && value == field_reading(nodes[k], rules[i].kind).value
            },
        (forall|k: int| 0 <= k < nodes.len() ==> (#[trigger] nodes[k]).name@ != rules[i].name)
            ==> with_fields(start, rules, nodes).values[i] is None,
    decreases nodes.len(),
{
    if nodes.len() > 0 {
        let shorter = nodes.drop_last();
        let last = nodes.last();
        let before = with_fields(start, rules, shorter);
        let after = with_fields(start, rules, nodes);
        assert(after == with_field(before, rules, last));
        assert(!before.stopped);
        lemma_read_so_far(start, rules, shorter, i);
        lemma_rule_index(rules, i);
        lemma_found(rules, last.name@);
        assert(nodes[nodes.len() - 1] == last);
        if last.name@ == rules[i].name {
            assert(before.values[i] is None);
            assert forall|k: int|
                0 <= k < nodes.len() && (#[trigger] nodes[k]).name@ == rules[i].name implies {
                let value = after.values[i];
                value is Some && value == field_reading(nodes[k], rules[i].kind).value
            } by {
                if k < shorter.len() {
                    assert(shorter[k].name@ == rules[i].name);
                }
            }
        } else {
            assert(after.values[i] == before.values[i]);
            assert forall|k: int|
                0 <= k < nodes.len() && (#[trigger] nodes[k]).name@ == rules[i].name implies {
                let value = after.values[i];
                value is Some && value == field_reading(nodes[k], rules[i].kind).value
            } by {
                assert(shorter[k] == nodes[k]);
            }
            if forall|k: int|
                0 <= k < nodes.len() ==> (#[trigger] nodes[k]).name@ != rules[i].name {
                assert forall|k: int| 0 <= k < shorter.len() implies (#[trigger] shorter[k]).name@
                    != rules[i].name by {
                    assert(shorter[k] == nodes[k]);
                }
            }
        }
    }
}

/// What was read of a field: the value of its node if there is one, and else nothing.
proof fn lemma_field(node: KdlNode, rules: Seq<FieldRuleView>, i: int)
    requires
        distinct(rules),
        0 <= i < rules.len(),
        !section_fields(node, rules).stopped,
    ensures
        forall|k: int|
            0 <= k < node.children@.len() && (#[trigger] node.children@[k]).name@ == rules[i].name ==> {
                let value = section_fields(node, rules).values[i];
                value is Some && value == field_reading(node.children@[k], rules[i].kind).value
            },
        !has_field(node, rules[i].name) ==> section_fields(node, rules).values[i] is None,
        has_field(node, rules[i].name) ==> section_fields(node, rules).values[i] is Some,
{
    let start = no_fields(rules, annotation_faults(node.annotation));
    lemma_read_so_far(start, rules, node.children@, i);
    if has_field(node, rules[i].name) {
        let k = choose|k: int|
            0 <= k < node.children@.len() && (#[trigger] node.children@[k]).name@ == rules[i].name;
        assert(node.children@[k].name@ == rules[i].name);
    }
}

/// Whether a node has just one argument, which is a text.
pub open spec fn says(node: KdlNode, text: Seq<char>) -> bool {
    node.arguments@.len() > 0 && (node.arguments@[0].literal matches KdlLiteral::Text(t) && t@ == text)
}

/// Whether a node switches something: on if it says nothing, and else as it says.
pub open spec fn switches(node: KdlNode, on: bool) -> bool {
    if node.arguments@.len() == 0 {
        on
    } else {
        node.arguments@[0].literal matches KdlLiteral::Bool(b) && b == on
    }
}

/// What names can be told apart by: how long they are, and how they begin.
spec fn mark(name: Seq<char>) -> int {
    name.len() * 65536 + name[0] as int * 256 + name[1] as int
}

/// The fields have different names.
proof fn lemma_layout_rules_are_distinct()
    ensures
        distinct(layout_rules()),
{
    reveal_strlit("focus-ring");
    reveal_strlit("border");
    reveal_strlit("shadow");
    reveal_strlit("tab-indicator");
    reveal_strlit("insert-hint");
    reveal_strlit("preset-column-widths");
    reveal_strlit("default-column-width");
    reveal_strlit("preset-window-heights");
    reveal_strlit("center-focused-column");
    reveal_strlit("always-center-single-column");
    reveal_strlit("empty-workspace-above-first");
    reveal_strlit("default-column-display");
    reveal_strlit("gaps");
    reveal_strlit("struts");
    reveal_strlit("background-color");
    let rules = layout_rules();
    assert(mark(rules[0].name) == 681583);
    assert(mark(rules[1].name) == 418415);
    assert(mark(rules[2].name) == 422760);
    assert(mark(rules[3].name) == 881761);
    assert(mark(rules[4].name) == 747886);
    assert(mark(rules[5].name) == 1339506);
    assert(mark(rules[6].name) == 1336421);
    assert(mark(rules[7].name) == 1405042);
    assert(mark(rules[8].name) == 1401701);
    assert(mark(rules[9].name) == 1794412);
    assert(mark(rules[10].name) == 1795437);
    assert(mark(rules[11].name) == 1467493);
    assert(mark(rules[12].name) == 288609);
    assert(mark(rules[13].name) == 422772);
    assert(mark(rules[14].name) == 1073761);
    assert forall|i: int, j: int| 0 <= i < j < rules.len() implies (#[trigger] rules[i]).name != (
    #[trigger] rules[j]).name by {
        if i == 0 {
        } else if i == 1 {
        } else if i == 2 {
        } else if i == 3 {
        } else if i == 4 {
        } else if i == 5 {
        } else if i == 6 {
        } else if i == 7 {
        } else if i == 8 {
        } else if i == 9 {
        } else if i == 10 {
        } else if i == 11 {
        } else if i == 12 {
        } else if i == 13 {
        }
        if j == 0 {
        } else if j == 1 {
        } else if j == 2 {
        } else if j == 3 {
        } else if j == 4 {
        } else if j == 5 {
        } else if j == 6 {
        } else if j == 7 {
        } else if j == 8 {
        } else if j == 9 {
        } else if j == 10 {
        } else if j == 11 {
        } else if j == 12 {
        } else if j == 13 {
        }
    }
}

/// What a layout section says is in the part that it makes: when columns are centered by the word that
/// is written, the switches as they are written, and the values that were read elsewhere in their places.
pub proof fn law_layout_is_read(node: KdlNode, values: LayoutValues, k: int)
    requires
        !section_fields(node, layout_rules()).stopped,
        0 <= k < node.children@.len(),
    ensures
        ({
            let part = layout_part_of(node, section_fields(node, layout_rules()), values);
            let child = node.children@[k];
            let name = child.name@;
            &&& name == "center-focused-column"@ ==> {
                &&& says(child, "never"@) ==> part.center_focused_column == Some(
                    CenterFocusedColumn::Never,
                )
                &&& says(child, "always"@) ==> part.center_focused_column == Some(
                    CenterFocusedColumn::Always,
                )
                &&& says(child, "on-overflow"@) ==> part.center_focused_column == Some(
                    CenterFocusedColumn::OnOverflow,
                )
                &&& says(child, "never"@) || says(child, "always"@) || says(child, "on-overflow"@)
            }
            &&& name == "always-center-single-column"@ ==> {
                &&& switches(child, true) ==> part.always_center_single_column == Some(Flag(true))
                &&& child.arguments@.len() > 0 && switches(child, false)
                    ==> part.always_center_single_column == Some(Flag(false))
            }
            &&& name == "empty-workspace-above-first"@ ==> {
                &&& switches(child, true) ==> part.empty_workspace_above_first == Some(Flag(true))
                &&& child.arguments@.len() > 0 && switches(child, false)
                    ==> part.empty_workspace_above_first == Some(Flag(false))
            }
            &&& name == "gaps"@ ==> part.gaps == values.gaps
            &&& name == "struts"@ ==> part.struts == values.struts
            &&& name == "background-color"@ ==> part.background_color == values.background_color
            &&& name == "default-column-display"@ ==> part.default_column_display
                == values.default_column_display
            &&& name == "default-column-width"@ ==> part.default_column_width
                == values.default_column_width
            &&& name == "preset-column-widths"@ ==> (match (
                part.preset_column_widths,
                values.preset_column_widths,
            ) {
                (Some(a), Some(b)) => a == b@,
                (None, None) => true,
                _ => false,
            })
            &&& name == "preset-window-heights"@ ==> (match (
                part.preset_window_heights,
                values.preset_window_heights,
            ) {
                (Some(a), Some(b)) => a == b@,
                (None, None) => true,
                _ => false,
            })
        }),
{
    let rules = layout_rules();
    lemma_layout_rules_are_distinct();
    lemma_field(node, rules, 5);
    lemma_field(node, rules, 6);
    lemma_field(node, rules, 7);
    lemma_field(node, rules, 8);
    lemma_field(node, rules, 9);
    lemma_field(node, rules, 10);
    lemma_field(node, rules, 11);
    lemma_field(node, rules, 12);
    lemma_field(node, rules, 13);
    lemma_field(node, rules, 14);
    reveal_strlit("never");
    reveal_strlit("always");
    reveal_strlit("on-overflow");
    assert("never"@.len() == 5 && "always"@.len() == 6 && "on-overflow"@.len() == 11);
    let child = node.children@[k];
    assert(node.children@[k].name@ == child.name@);
}

/// What a layout section does not say is not in the part that it makes.
pub proof fn law_layout_says_no_more(node: KdlNode, values: LayoutValues)
    requires
        !section_fields(node, layout_rules()).stopped,
    ensures
        ({
            let part = layout_part_of(node, section_fields(node, layout_rules()), values);
            &&& !has_field(node, "center-focused-column"@) ==> part.center_focused_column is None
            &&& !has_field(node, "always-center-single-column"@)
                ==> part.always_center_single_column is None
            &&& !has_field(node, "empty-workspace-above-first"@)
                ==> part.empty_workspace_above_first is None
            &&& !has_field(node, "gaps"@) ==> part.gaps is None
            &&& !has_field(node, "struts"@) ==> part.struts is None
            &&& !has_field(node, "background-color"@) ==> part.background_color is None
            &&& !has_field(node, "default-column-display"@) ==> part.default_column_display is None
            &&& !has_field(node, "default-column-width"@) ==> part.default_column_width is None
            &&& !has_field(node, "preset-column-widths"@) ==> part.preset_column_widths is None
            &&& !has_field(node, "preset-window-heights"@) ==> part.preset_window_heights is None
        }),
{
    let rules = layout_rules();
    lemma_layout_rules_are_distinct();
    lemma_field(node, rules, 5);
    lemma_field(node, rules, 6);
    lemma_field(node, rules, 7);
    lemma_field(node, rules, 8);
    lemma_field(node, rules, 9);
    lemma_field(node, rules, 10);
    lemma_field(node, rules, 11);
    lemma_field(node, rules, 12);
    lemma_field(node, rules, 13);
    lemma_field(node, rules, 14);
}

/// The fields have different names.
proof fn lemma_cursor_rules_are_distinct()
    ensures
        distinct(cursor_rules()),
{
    reveal_strlit("xcursor-theme");
    reveal_strlit("xcursor-size");
    reveal_strlit("hide-when-typing");
    reveal_strlit("hide-after-inactive-ms");
    let rules = cursor_rules();
    assert(mark(rules[0].name) == 882787);
    assert(mark(rules[1].name) == 817251);
    assert(mark(rules[2].name) == 1075305);
    assert(mark(rules[3].name) == 1468521);
    assert forall|i: int, j: int| 0 <= i < j < rules.len() implies (#[trigger] rules[i]).name != (
    #[trigger] rules[j]).name by {
        if i == 0 {
        } else if i == 1 {
        } else if i == 2 {
        }
        if j == 0 {
        } else if j == 1 {
        } else if j == 2 {
        }
    }
}

/// The fields have different names.
proof fn lemma_hotkey_overlay_rules_are_distinct()
    ensures
        distinct(hotkey_overlay_rules()),
{
    reveal_strlit("skip-at-startup");
    reveal_strlit("hide-not-bound");
    let rules = hotkey_overlay_rules();
    assert(mark(rules[0].name) == 1012587);
    assert(mark(rules[1].name) == 944233);
    assert forall|i: int, j: int| 0 <= i < j < rules.len() implies (#[trigger] rules[i]).name != (
    #[trigger] rules[j]).name by {
    }
}

/// The fields have different names.
proof fn lemma_overview_rules_are_distinct()
    ensures
        distinct(overview_rules()),
{
    reveal_strlit("zoom");
    reveal_strlit("backdrop-color");
    reveal_strlit("workspace-shadow");
    let rules = overview_rules();
    assert(mark(rules[0].name) == 293487);
    assert(mark(rules[1].name) == 942689);
    assert(mark(rules[2].name) == 1079151);
    assert forall|i: int, j: int| 0 <= i < j < rules.len() implies (#[trigger] rules[i]).name != (
    #[trigger] rules[j]).name by {
        if i == 0 {
        } else if i == 1 {
        }
        if j == 0 {
        } else if j == 1 {
        }
    }
}

/// A cursor section changes the cursor as it says and nothing else, and what it does not say stays.
pub proof fn law_cursor_section(config: ConfigView, node: KdlNode, names: Seq<Seq<char>>, k: int)
    requires
        section_effect(config, Section::Cursor, node, names).config is Some,
    ensures
        ({
            let after = section_effect(config, Section::Cursor, node, names).config->0;
            let child = node.children@[k];
            let there = 0 <= k < node.children@.len();
            &&& after == (ConfigView { cursor: after.cursor, ..config })
            &&& there && child.name@ == "xcursor-theme"@ ==> forall|text: Seq<char>| #[trigger]
                says(child, text) ==> after.cursor.xcursor_theme == text
            &&& there && child.name@ == "hide-when-typing"@ ==> {
                &&& switches(child, true) ==> after.cursor.hide_when_typing
                &&& child.arguments@.len() > 0 && switches(child, false)
                    ==> !after.cursor.hide_when_typing
            }
            &&& there && child.name@ == "hide-after-inactive-ms"@
                ==> after.cursor.hide_after_inactive_ms is Some
            &&& !has_field(node, "xcursor-theme"@) ==> after.cursor.xcursor_theme
                == config.cursor.xcursor_theme
            &&& !has_field(node, "xcursor-size"@) ==> after.cursor.xcursor_size
                == config.cursor.xcursor_size
            &&& !has_field(node, "hide-when-typing"@) ==> after.cursor.hide_when_typing
                == config.cursor.hide_when_typing
            &&& !has_field(node, "hide-after-inactive-ms"@) ==> after.cursor.hide_after_inactive_ms
                == config.cursor.hide_after_inactive_ms
        }),
{
    let rules = cursor_rules();
    lemma_cursor_rules_are_distinct();
    lemma_field(node, rules, 0);
    lemma_field(node, rules, 1);
    lemma_field(node, rules, 2);
    lemma_field(node, rules, 3);
    if 0 <= k < node.children@.len() {
        let child = node.children@[k];
        assert(node.children@[k].name@ == child.name@);
    }
}

/// The smaller sections switch what they name and nothing else.
pub proof fn law_switches_are_read(config: ConfigView, node: KdlNode, names: Seq<Seq<char>>, k: int)
    requires
        0 <= k < node.children@.len(),
    ensures
        ({
            let child = node.children@[k];
            let name = child.name@;
            &&& section_effect(config, Section::Clipboard, node, names).config matches Some(after) ==> {
                &&& after == (ConfigView { clipboard: after.clipboard, ..config })
                &&& name == "disable-primary"@ && switches(child, true)
                    ==> after.clipboard.disable_primary
                &&& name == "disable-primary"@ && child.arguments@.len() > 0 && switches(child, false)
                    ==> !after.clipboard.disable_primary
            }
            &&& section_effect(config, Section::ConfigNotification, node, names).config matches Some(
                after,
            ) ==> {
                &&& after == (ConfigView { config_notification: after.config_notification, ..config })
                &&& name == "disable-failed"@ && switches(child, true)
                    ==> after.config_notification.disable_failed
                &&& name == "disable-failed"@ && child.arguments@.len() > 0 && switches(child, false)
                    ==> !after.config_notification.disable_failed
            }
            &&& section_effect(config, Section::HotkeyOverlay, node, names).config matches Some(
                after,
            ) ==> {
                &&& after == (ConfigView { hotkey_overlay: after.hotkey_overlay, ..config })
                &&& name == "skip-at-startup"@ && switches(child, true)
                    ==> after.hotkey_overlay.skip_at_startup
                &&& name == "hide-not-bound"@ && switches(child, true)
                    ==> after.hotkey_overlay.hide_not_bound
                &&& !has_field(node, "skip-at-startup"@) ==> after.hotkey_overlay.skip_at_startup
                    == config.hotkey_overlay.skip_at_startup
                &&& !has_field(node, "hide-not-bound"@) ==> after.hotkey_overlay.hide_not_bound
                    == config.hotkey_overlay.hide_not_bound
            }
        }),
{
    let child = node.children@[k];
    assert(node.children@[k].name@ == child.name@);
    if !section_fields(node, clipboard_rules()).stopped {
        lemma_field(node, clipboard_rules(), 0);
    }
    if !section_fields(node, config_notification_rules()).stopped {
        lemma_field(node, config_notification_rules(), 0);
    }
    if !section_fields(node, hotkey_overlay_rules()).stopped {
        lemma_hotkey_overlay_rules_are_distinct();
        lemma_field(node, hotkey_overlay_rules(), 0);
        lemma_field(node, hotkey_overlay_rules(), 1);
    }
}

/// The sections of one node set what they name, from what they say, and nothing else.
pub proof fn law_single_nodes_are_read(config: ConfigView, node: KdlNode, names: Seq<Seq<char>>)
    ensures
        section_effect(config, Section::PreferNoCsd, node, names).config matches Some(after) ==> {
            &&& after == (ConfigView { prefer_no_csd: after.prefer_no_csd, ..config })
            &&& switches(node, true) ==> after.prefer_no_csd
            &&& node.arguments@.len() > 0 && switches(node, false) ==> !after.prefer_no_csd
        },
        section_effect(config, Section::ScreenshotPath, node, names).config matches Some(after) ==> {
            &&& after == (ConfigView { screenshot_path: after.screenshot_path, ..config })
            &&& forall|text: Seq<char>| #[trigger]
                says(node, text) ==> after.screenshot_path == Some(text)
            &&& node.arguments@.len() == 0 || node.arguments@[0].literal is Null
                ==> after.screenshot_path is None
        },
        section_effect(config, Section::SpawnShAtStartup, node, names).config matches Some(after) ==> {
            &&& after == (ConfigView { spawn_sh_at_startup: after.spawn_sh_at_startup, ..config })
            &&& forall|text: Seq<char>| #[trigger]
                says(node, text) ==> after.spawn_sh_at_startup == config.spawn_sh_at_startup.push(text)
        },
        section_effect(config, Section::SpawnAtStartup, node, names).config matches Some(after) ==> {
            &&& after == (ConfigView { spawn_at_startup: after.spawn_at_startup, ..config })
            &&& after.spawn_at_startup.len() == config.spawn_at_startup.len() + 1
            &&& after.spawn_at_startup.drop_last() == config.spawn_at_startup
            &&& after.spawn_at_startup.last().len() == node.arguments@.len()
            &&& forall|i: int|
                0 <= i < node.arguments@.len() ==> (#[trigger] node.arguments@[i].literal matches
                    KdlLiteral::Text(t) ==> after.spawn_at_startup.last()[i] == t@)
        },
{
    if let Some(after) = section_effect(config, Section::SpawnAtStartup, node, names).config {
        assert(after.spawn_at_startup.drop_last() =~= config.spawn_at_startup);
    }
}

/// Merging a part of the layout section sets what the part says and leaves the rest.
pub proof fn law_merge_layout(layout: LayoutView, part: LayoutPartView)
    ensures
        ({
            let after = merged_layout(layout, part);
            &&& match part.gaps {
                Some(gaps) => after.gaps == gaps,
                None => after.gaps == layout.gaps,
            }
            &&& match part.struts {
                Some(struts) => after.struts == struts,
                None => after.struts == layout.struts,
            }
            &&& match part.center_focused_column {
                Some(center) => after.center_focused_column == center,
                None => after.center_focused_column == layout.center_focused_column,
            }
            &&& match part.always_center_single_column {
                Some(flag) => after.always_center_single_column == flag.0,
                None => after.always_center_single_column == layout.always_center_single_column,
            }
            &&& match part.empty_workspace_above_first {
                Some(flag) => after.empty_workspace_above_first == flag.0,
                None => after.empty_workspace_above_first == layout.empty_workspace_above_first,
            }
            &&& match part.default_column_display {
                Some(display) => after.default_column_display == display,
                None => after.default_column_display == layout.default_column_display,
            }
            &&& match part.default_column_width {
                Some(width) => after.default_column_width == width.0,
                None => after.default_column_width == layout.default_column_width,
            }
            &&& match part.background_color {
                Some(color) => after.background_color == Some(color),
                None => after.background_color == layout.background_color,
            }
            &&& match part.preset_column_widths {
                Some(widths) => widths.len() > 0 ==> after.preset_column_widths == widths,
                None => layout.preset_column_widths.len() > 0 ==> after.preset_column_widths
                    == layout.preset_column_widths,
            }
            &&& match part.preset_window_heights {
                Some(heights) => heights.len() > 0 ==> after.preset_window_heights == heights,
                None => layout.preset_window_heights.len() > 0 ==> after.preset_window_heights
                    == layout.preset_window_heights,
            }
            &&& match part.border {
                Some(border) => {
                    &&& border.on ==> !after.border.off
                    &&& border.off && !border.on ==> after.border.off
                    &&& !border.off && !border.on ==> after.border == layout.border
                },
                None => after.border == layout.border,
            }
            &&& after.looks.len() == layout.looks.len() + 1 && after.looks.last() == part.node
        }),
{
}

/// Merging a part of the input section sets what the part says and leaves the rest.
pub proof fn law_merge_input(input: Input, part: InputPart)
    ensures
        ({
            let after = input.merged(part);
            &&& match part.repeat_delay {
                Some(delay) => after.keyboard.repeat_delay == delay,
                None => after.keyboard.repeat_delay == input.keyboard.repeat_delay,
            }
            &&& match part.repeat_rate {
                Some(rate) => after.keyboard.repeat_rate == rate,
                None => after.keyboard.repeat_rate == input.keyboard.repeat_rate,
            }
            &&& match part.track_layout {
                Some(track) => after.keyboard.track_layout == track,
                None => after.keyboard.track_layout == input.keyboard.track_layout,
            }
            &&& match part.mouse {
                Some(mouse) => after.mouse == mouse,
                None => after.mouse == input.mouse,
            }
            &&& match part.disable_power_key_handling {
                Some(flag) => after.disable_power_key_handling == flag.0,
                None => after.disable_power_key_handling == input.disable_power_key_handling,
            }
            &&& match part.workspace_auto_back_and_forth {
                Some(flag) => after.workspace_auto_back_and_forth == flag.0,
                None => after.workspace_auto_back_and_forth == input.workspace_auto_back_and_forth,
            }
            &&& after.warp_mouse_to_focus == (if part.warp_mouse_to_focus is Some {
                part.warp_mouse_to_focus
            } else {
                input.warp_mouse_to_focus
            })
            &&& after.focus_follows_mouse == (if part.focus_follows_mouse is Some {
                part.focus_follows_mouse
            } else {
                input.focus_follows_mouse
            })
            &&& after.mod_key == (if part.mod_key is Some {
                part.mod_key
            } else {
                input.mod_key
            })
            &&& after.mod_key_nested == (if part.mod_key_nested is Some {
                part.mod_key_nested
            } else {
                input.mod_key_nested
            })
        }),
{
}

/// What an overview section says is merged into the overview, and the rest stays.
pub proof fn law_overview_is_read(overview: OverviewView, node: KdlNode, values: OverviewValues)
    requires
        !section_fields(node, overview_rules()).stopped,
    ensures
        ({
            let part = overview_part_of(node, section_fields(node, overview_rules()), values);
            let after = merged_overview(overview, part);
            &&& has_field(node, "zoom"@) && values.zoom is Some ==> Some(after.zoom) == values.zoom
            &&& !has_field(node, "zoom"@) ==> after.zoom == overview.zoom
            &&& has_field(node, "backdrop-color"@) && values.backdrop_color is Some
                ==> after.backdrop_color == values.backdrop_color
            &&& !has_field(node, "backdrop-color"@) ==> after.backdrop_color
                == overview.backdrop_color
            &&& part.workspace_shadow is None ==> after.workspace_shadow == overview.workspace_shadow
            &&& part.workspace_shadow matches Some(shadow) ==> after.workspace_shadow
                == overview.workspace_shadow.push(shadow)
        }),
{
    let rules = overview_rules();
    lemma_overview_rules_are_distinct();
    lemma_field(node, rules, 0);
    lemma_field(node, rules, 1);
}

/// What was read of variables, one for each node.
proof fn lemma_variables(nodes: Seq<KdlNode>, faults: Seq<Fault>)
    ensures
        variables_reading(nodes, faults).value matches Some(variables) ==> {
            &&& variables.len() == nodes.len()
            &&& forall|i: int|
                0 <= i < nodes.len() ==> {
                    &&& (#[trigger] variables[i]).name == nodes[i].name@
                    &&& Some(variables[i].value) == opt_argument_reading(nodes[i]).value
                }
        },
    decreases nodes.len(),
{
    if nodes.len() > 0 {
        let shorter = nodes.drop_last();
        lemma_variables(shorter, faults);
        if let Some(variables) = variables_reading(nodes, faults).value {
            let before = variables_reading(shorter, faults).value->0;
            assert forall|i: int| 0 <= i < nodes.len() implies {
                &&& (#[trigger] variables[i]).name == nodes[i].name@
                &&& Some(variables[i].value) == opt_argument_reading(nodes[i]).value
            } by {
                if i < shorter.len() {
                    assert(variables[i] == before[i]);
                    assert(shorter[i] == nodes[i]);
                }
            }
        }
    }
}

/// The environment section adds a variable for every node, named like the node, with the text that the node
/// says. One that says nothing is to be taken out. Those of earlier sections stay before them.
pub proof fn law_environment_section(config: ConfigView, node: KdlNode, names: Seq<Seq<char>>, i: int)
    requires
        section_effect(config, Section::Environment, node, names).config is Some,
        0 <= i < node.children@.len(),
    ensures
        ({
            let after = section_effect(config, Section::Environment, node, names).config->0;
            let n = config.environment.len() as int;
            let child = node.children@[i];
            &&& after == (ConfigView { environment: after.environment, ..config })
            &&& after.environment.len() == n + node.children@.len()
            &&& after.environment.take(n) == config.environment
            &&& after.environment[n + i].name == child.name@
            &&& forall|text: Seq<char>| #[trigger]
                says(child, text) ==> after.environment[n + i].value == Some(text)
            &&& child.arguments@.len() == 0 || child.arguments@[0].literal is Null
                ==> after.environment[n + i].value is None
        }),
{
    let faults = annotation_faults(node.annotation);
    lemma_variables(node.children@, faults);
    let after = section_effect(config, Section::Environment, node, names).config->0;
    let n = config.environment.len() as int;
    let part = environment_reading(node).value->0;
    assert(after.environment == config.environment + part);
    assert(after.environment.take(n) =~= config.environment);
    assert(after.environment[n + i] == part[i]);
}

/// A workspace section adds a workspace with the name that it says, after those that are there. A name that
/// is taken in the file, even in other letters, is a fault.
pub proof fn law_workspace_section(config: ConfigView, node: KdlNode, names: Seq<Seq<char>>, text: Seq<char>)
    requires
        section_effect(config, Section::Workspace, node, names).config is Some,
        says(node, text),
    ensures
        ({
            let effect = section_effect(config, Section::Workspace, node, names);
            let after = effect.config->0;
            let n = config.workspaces.len() as int;
            &&& after == (ConfigView { workspaces: after.workspaces, ..config })
            &&& after.workspaces.len() == n + 1
            &&& after.workspaces.take(n) == config.workspaces
            &&& !is_taken(names, text) ==> after.workspaces[n].name == text && effect.names
                == names.push(text)
            &&& is_taken(names, text) ==> effect.faults.len() > 0 && effect.names == names
        }),
{
    let effect = section_effect(config, Section::Workspace, node, names);
    let after = effect.config->0;
    let n = config.workspaces.len() as int;
    assert(after.workspaces.take(n) =~= config.workspaces);
    if is_taken(names, text) {
        let faults = annotation_faults(node.annotation) + name_reading(
            node.arguments@[0],
            names,
        ).faults;
        lemma_faults_stay(
            no_fields(workspace_rules(), faults),
            workspace_rules(),
            node.children@,
        );
    }
}

/// Reading on takes back no fault.
proof fn lemma_faults_stay(fields: Fields, rules: Seq<FieldRuleView>, nodes: Seq<KdlNode>)
    ensures
        with_fields(fields, rules, nodes).faults.len() >= fields.faults.len(),
    decreases nodes.len(),
{
    if nodes.len() > 0 {
        lemma_faults_stay(fields, rules, nodes.drop_last());
    }
}

} // verus!
