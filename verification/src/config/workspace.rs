//! Named workspaces.
use vstd::prelude::*;

use crate::config::grammar::{
    annotation_faults, argument_missing, check_annotation, first_called, no_fields, read_children,
    read_section, rule_views, section_fields, take_first_called, with_fields, Fault, FaultKind,
    FieldKind, FieldRule, FieldRuleView, Fields,
};
use crate::config::kdl::{KdlLiteral, KdlNode, KdlValue};
use crate::config::layout::{layout_rules, make_layout_rules};
use crate::config::misc::{opt_text, rule, take_text, text_field, texts, Decoded};

verus! {

/// The name of a workspace.
#[derive(Debug)]
pub struct WorkspaceName(pub String);

/// A part of the layout section that counts on one workspace only.
#[derive(Debug)]
pub struct WorkspaceLayoutPart(pub KdlNode);

/// A named workspace.
#[derive(Debug)]
pub struct Workspace {
    pub name: WorkspaceName,
    pub open_on_output: Option<String>,
    pub layout: Option<WorkspaceLayoutPart>,
}

/// A named workspace in the abstract.
pub struct WorkspaceView {
    pub name: Seq<char>,
    pub open_on_output: Option<Seq<char>>,
    pub layout: Option<KdlNode>,
}

impl View for Workspace {
    type V = WorkspaceView;

    open spec fn view(&self) -> WorkspaceView {
        WorkspaceView {
            name: self.name.0@,
            open_on_output: opt_text(self.open_on_output),
            layout: match self.layout {
                Some(part) => Some(part.0),
                None => None,
            },
        }
    }
}

/// The names of workspaces.
pub open spec fn workspace_names(workspaces: Seq<Workspace>) -> Seq<Seq<char>> {
    workspaces.map_values(|w: Workspace| w.name.0@)
}

/// A character in small letters, if it is one of the Latin alphabet.
pub open spec fn small_letter(c: char) -> int {
    let code = c as int;
    if 'A' as int <= code <= 'Z' as int {
        code + 32
    } else {
        code
    }
}

/// Whether two names are the same but for capital letters.
pub open spec fn same_name(a: Seq<char>, b: Seq<char>) -> bool {
    a.len() == b.len() && forall|i: int|
        0 <= i < a.len() ==> small_letter(#[trigger] a[i]) == small_letter(b[i])
}

/// Whether a name is taken.
pub open spec fn is_taken(names: Seq<Seq<char>>, name: Seq<char>) -> bool {
    exists|i: int| 0 <= i < names.len() && same_name(#[trigger] names[i], name)
}

/// What was read of a name: the name, the faults, and the names that are then taken.
#[verifier::ext_equal]
pub struct NameReading {
    pub name: Seq<char>,
    pub faults: Seq<Fault>,
    pub names: Seq<Seq<char>>,
}

/// The reading of a name. One that is taken in the same file is a fault.
pub open spec fn name_reading(value: KdlValue, names: Seq<Seq<char>>) -> NameReading {
    let faults = annotation_faults(value.annotation);
    match value.literal {
        KdlLiteral::Text(text) => if is_taken(names, text@) {
            NameReading {
                name: Seq::empty(),
                faults: faults.push(Fault { kind: FaultKind::DuplicateWorkspace, spot: value.spot }),
                names,
            }
        } else {
            NameReading { name: text@, faults, names: names.push(text@) }
        },
        _ => NameReading {
            name: Seq::empty(),
            faults: faults.push(Fault { kind: FaultKind::WorkspaceNameNotText, spot: value.spot }),
            names,
        },
    }
}

/// The fields of a workspace.
pub open spec fn workspace_rules() -> Seq<FieldRuleView> {
    seq![
        FieldRuleView { name: "open-on-output"@, kind: FieldKind::Text },
        FieldRuleView { name: "layout"@, kind: FieldKind::WorkspaceLayout },
    ]
}

/// What was read of a workspace: the workspace unless the reading was given up, the faults, and the
/// names that are then taken.
pub struct WorkspaceReading {
    pub value: Option<WorkspaceView>,
    pub faults: Seq<Fault>,
    pub names: Seq<Seq<char>>,
}

/// The fields of a workspace whose name was read.
pub open spec fn workspace_fields(node: KdlNode, names: Seq<Seq<char>>) -> Fields {
    let read = name_reading(node.arguments@[0], names);
    let faults = annotation_faults(node.annotation) + read.faults;
    if node.arguments@.len() > 1 {
        Fields {
            faults: faults.push(
                Fault { kind: FaultKind::UnexpectedArgument, spot: node.arguments@[1].spot },
            ),
            stopped: true,
            ..no_fields(workspace_rules(), Seq::empty())
        }
    } else if node.properties@.len() > 0 {
        Fields {
            faults: faults.push(
                Fault { kind: FaultKind::UnexpectedProperty, spot: node.properties@[0].spot },
            ),
            stopped: true,
            ..no_fields(workspace_rules(), Seq::empty())
        }
    } else {
        with_fields(no_fields(workspace_rules(), faults), workspace_rules(), node.children@)
    }
}

/// The reading of a workspace.
pub open spec fn workspace_reading(node: KdlNode, names: Seq<Seq<char>>) -> WorkspaceReading {
    if node.arguments@.len() == 0 {
        WorkspaceReading {
            value: None,
            faults: argument_missing::<()>(annotation_faults(node.annotation), node).faults,
            names,
        }
    } else {
        let read = name_reading(node.arguments@[0], names);
        let fields = workspace_fields(node, names);
        let layout = first_called(node.children@, "layout"@);
        let inner = match layout {
            Some(layout) => section_fields(layout, layout_rules()),
            None => no_fields(layout_rules(), Seq::empty()),
        };
        WorkspaceReading {
            value: if fields.stopped || inner.stopped {
                None
            } else {
                Some(
                    WorkspaceView {
                        name: read.name,
                        open_on_output: text_field(fields, 0),
                        layout,
                    },
                )
            },
            faults: if fields.stopped {
                fields.faults
            } else {
                fields.faults + inner.faults
            },
            names: read.names,
        }
    }
}

/// A character in small letters.
fn to_small_letter(c: char) -> (r: u32)
    ensures
        r == small_letter(c),
{
    let code: u32 = c as u32;
    if 'A' as u32 <= code && code <= 'Z' as u32 {
        code + 32
    } else {
        code
    }
}

/// Compares two names without regard to capital letters.
pub fn eq_ignore_ascii_case(a: &str, b: &str) -> (r: bool)
    ensures
        r == same_name(a@, b@),
{
    let len: usize = a.unicode_len();
    if len != b.unicode_len() {
        return false;
    }
    let mut i: usize = 0;
    while i < len
        invariant
            i <= len,
            len == a@.len(),
            len == b@.len(),
            forall|k: int|
                0 <= k < i ==> small_letter(#[trigger] a@[k]) == small_letter(b@[k]),
        decreases len - i,
    {
        if to_small_letter(a.get_char(i)) != to_small_letter(b.get_char(i)) {
            assert(small_letter(a@[i as int]) != small_letter(b@[i as int]));
            return false;
        }
        i = i + 1;
    }
    true
}

/// Looks whether a name is taken.
fn name_taken(names: &Vec<String>, name: &str) -> (r: bool)
    ensures
        r == is_taken(texts(names@), name@),
{
    let mut i: usize = 0;
    while i < names.len()
        invariant
            i <= names@.len(),
            forall|k: int| 0 <= k < i ==> !same_name(#[trigger] texts(names@)[k], name@),
        decreases names@.len() - i,
    {
        assert(texts(names@)[i as int] == names@[i as int]@);
        if eq_ignore_ascii_case(names[i].as_str(), name) {
            return true;
        }
        i = i + 1;
    }
    false
}

impl WorkspaceName {
    /// Decodes a name, and remembers it among those that are taken in the file.
    pub fn raw_decode(value: &KdlValue, names: &mut Vec<String>, faults: &mut Vec<Fault>) -> (r:
        WorkspaceName)
        ensures
            ({
                let read = name_reading(*value, texts(old(names)@));
                &&& r.0@ == read.name
                &&& final(faults)@ == old(faults)@ + read.faults
                &&& texts(final(names)@) == read.names
            }),
    {
        check_annotation(&value.annotation, faults);
        match &value.literal {
            KdlLiteral::Text(text) => {
                if name_taken(names, text.as_str()) {
                    faults.push(Fault { kind: FaultKind::DuplicateWorkspace, spot: value.spot });
                    assert(faults@ =~= old(faults)@ + name_reading(
                        *value,
                        texts(old(names)@),
                    ).faults);
                    return WorkspaceName(String::new());
                }
                names.push(text.clone());
                assert(texts(names@) =~= texts(old(names)@).push(text@));
                WorkspaceName(text.clone())
            },
            _ => {
                faults.push(Fault { kind: FaultKind::WorkspaceNameNotText, spot: value.spot });
                assert(faults@ =~= old(faults)@ + name_reading(*value, texts(old(names)@)).faults);
                WorkspaceName(String::new())
            },
        }
    }
}

impl Workspace {
    /// Decodes a named workspace, and remembers its name among those that are taken in the file.
    pub fn decode_node(node: KdlNode, names: &mut Vec<String>) -> (r: Decoded<Workspace>)
        ensures
            ({
                let read = workspace_reading(node, texts(old(names)@));
                &&& r.faults@ == read.faults
                &&& texts(final(names)@) == read.names
                &&& match (r.part, read.value) {
                    (Some(part), Some(wanted)) => part@ == wanted,
                    (None, None) => true,
                    _ => false,
                }
            }),
    {
        let mut faults: Vec<Fault> = Vec::new();
        check_annotation(&node.annotation, &mut faults);
        assert(faults@ =~= annotation_faults(node.annotation));
        if node.arguments.len() == 0 {
            faults.push(Fault { kind: FaultKind::MissingArgument, spot: node.spot });
            return Decoded { part: None, faults };
        }
        let name = WorkspaceName::raw_decode(&node.arguments[0], names, &mut faults);
        if node.arguments.len() > 1 {
            faults.push(
                Fault { kind: FaultKind::UnexpectedArgument, spot: node.arguments[1].spot },
            );
            return Decoded { part: None, faults };
        }
        if node.properties.len() > 0 {
            faults.push(
                Fault { kind: FaultKind::UnexpectedProperty, spot: node.properties[0].spot },
            );
            return Decoded { part: None, faults };
        }
        let mut rules: Vec<FieldRule> = Vec::new();
        rules.push(rule("open-on-output", FieldKind::Text));
        rules.push(rule("layout", FieldKind::WorkspaceLayout));
        assert(rule_views(rules@) =~= workspace_rules());
        let fields = read_children(&node, &rules, faults);
        assert(fields@ == workspace_fields(node, texts(old(names)@)));
        if fields.stopped {
            return Decoded { part: None, faults: fields.faults };
        }
        let open_on_output = take_text(&fields.values[0]);
        assert(fields@.values.len() == 2);
        let mut faults = fields.faults;
        let layout = match take_first_called(node.children, "layout") {
            Some(layout) => {
                let mut inner = read_section(&layout, &make_layout_rules());
                faults.append(&mut inner.faults);
                if inner.stopped {
                    return Decoded { part: None, faults };
                }
                Some(WorkspaceLayoutPart(layout))
            },
            None => None,
        };
        assert(faults@ =~= workspace_reading(node, texts(old(names)@)).faults);
        Decoded { part: Some(Workspace { name, open_on_output, layout }), faults }
    }
}

/// Within one file no name is given to two workspaces: the names that are taken stay different, even
/// without regard to capital letters.
pub proof fn law_workspace_names_differ(value: KdlValue, names: Seq<Seq<char>>)
    requires
        forall|i: int, j: int|
            0 <= i < j < names.len() ==> !same_name(#[trigger] names[i], #[trigger] names[j]),
    ensures
        ({
            let after = name_reading(value, names).names;
            forall|i: int, j: int|
                0 <= i < j < after.len() ==> !same_name(#[trigger] after[i], #[trigger] after[j])
        }),
{
    let after = name_reading(value, names).names;
    assert forall|i: int, j: int| 0 <= i < j < after.len() implies !same_name(
        #[trigger] after[i],
        #[trigger] after[j],
    ) by {
        assert(after[i] == names[i]);
        if j < names.len() {
            assert(after[j] == names[j]);
        }
    }
}

} // verus!
