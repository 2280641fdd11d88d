//! How values, flags and sections are read from the tree of a configuration file.
use vstd::prelude::*;

use crate::config::kdl::{KdlLiteral, KdlNode, KdlType, KdlValue, Spot};

verus! {

/// What is wrong in a configuration file.
#[derive(Clone, Copy, Debug, PartialEq, Eq, Structural)]
pub enum FaultKind {
    /// A type is written where none belongs, or another one belongs.
    Annotation,
    /// A value is not of the right kind.
    WrongKind,
    /// A number is not one, or is too large.
    Conversion,
    MissingArgument,
    UnexpectedArgument,
    UnexpectedProperty,
    UnexpectedNode,
    DuplicateNode,
    /// A name is given to two workspaces.
    DuplicateWorkspace,
    /// A workspace has a name that is no text.
    WorkspaceNameNotText,
    /// A node does not belong in the layout of a workspace.
    NotInWorkspaceLayout,
    /// The home directory is not known.
    NoHomeDirectory,
    /// Files are nested too deep.
    RecursionLimit,
    /// The path of another file has no name at its end.
    InvalidFileName,
    /// A file is nested in itself.
    RecursiveFile,
    /// Another file cannot be read.
    UnreadableFile,
    /// Another file has faults of its own.
    FaultyFile,
}

/// Something wrong, and where.
#[derive(Clone, Copy, Debug, PartialEq, Eq, Structural)]
pub struct Fault {
    pub kind: FaultKind,
    pub spot: Spot,
}

/// What a value is to be.
#[derive(Clone, Copy, Debug, PartialEq, Eq, Structural)]
pub enum FieldKind {
    /// A text, as the argument of a node.
    Text,
    /// A number up to a limit, as the argument of a node.
    Number(IntType),
    /// A node that stands for itself, or has yes or no as its argument.
    Flag,
    /// The layout of a workspace, which is only looked through for nodes that do not belong there.
    WorkspaceLayout,
    /// When a focused column is centered, as the argument of a node.
    Centering,
    /// A node that is read elsewhere.
    Elsewhere,
}

/// The type of a number.
#[derive(Clone, Copy, Debug, PartialEq, Eq, Structural)]
pub enum IntType {
    U8,
    U32,
}

impl IntType {
    /// The largest number.
    pub open spec fn limit(self) -> int {
        match self {
            IntType::U8 => u8::MAX as int,
            IntType::U32 => u32::MAX as int,
        }
    }

    /// What the type is called.
    pub open spec fn called(self) -> Seq<char> {
        match self {
            IntType::U8 => "u8"@,
            IntType::U32 => "u32"@,
        }
    }
}

/// A value that was read.
#[derive(Debug)]
pub enum Scalar {
    Text(String),
    Number(u32),
    Flag(bool),
}

/// A value that was read, in the abstract.
pub enum ScalarView {
    Text(Seq<char>),
    Number(int),
    Flag(bool),
}

impl View for Scalar {
    type V = ScalarView;

    open spec fn view(&self) -> ScalarView {
        match self {
            Scalar::Text(text) => ScalarView::Text(text@),
            Scalar::Number(n) => ScalarView::Number(*n as int),
            Scalar::Flag(b) => ScalarView::Flag(*b),
        }
    }
}

/// The value of a digit.
pub open spec fn digit_value(c: char) -> int {
    let code = c as int;
    if '0' as int <= code <= '9' as int {
        code - '0' as int
    } else if 'a' as int <= code <= 'z' as int {
        code - 'a' as int + 10
    } else if 'A' as int <= code <= 'Z' as int {
        code - 'A' as int + 10
    } else {
        36
    }
}

/// The number that some digits write, if all of them are digits.
pub open spec fn digits_value(digits: Seq<char>, base: int) -> Option<int>
    decreases digits.len(),
{
    if digits.len() == 0 {
        Some(0)
    } else {
        match digits_value(digits.drop_last(), base) {
            Some(n) if digit_value(digits.last()) < base => Some(
                n * base + digit_value(digits.last()),
            ),
            _ => None,
        }
    }
}

/// The digits of a number without a plus in front.
pub open spec fn unsigned_digits(text: Seq<char>) -> Seq<char> {
    if text.len() > 0 && text[0] == '+' {
        text.skip(1)
    } else {
        text
    }
}

/// The number that a text writes, if it writes one up to a limit.
pub open spec fn number_of(text: Seq<char>, base: int, limit: int) -> Option<int> {
    let digits = unsigned_digits(text);
    match digits_value(digits, base) {
        Some(n) if digits.len() > 0 && n <= limit => Some(n),
        _ => None,
    }
}

/// The fault of a type where none belongs.
pub open spec fn annotation_faults(annotation: Option<KdlType>) -> Seq<Fault> {
    match annotation {
        Some(t) => seq![Fault { kind: FaultKind::Annotation, spot: t.spot }],
        None => Seq::empty(),
    }
}

/// The faults of a value that is to be a text.
pub open spec fn text_faults(value: KdlValue) -> Seq<Fault> {
    annotation_faults(value.annotation) + (if value.literal is Text {
        Seq::empty()
    } else {
        seq![Fault { kind: FaultKind::WrongKind, spot: value.spot }]
    })
}

/// The text that a value is, or an empty one.
pub open spec fn text_of(value: KdlValue) -> Seq<char> {
    match value.literal {
        KdlLiteral::Text(text) => text@,
        _ => Seq::empty(),
    }
}

/// The faults of a value that is to be yes or no.
pub open spec fn bool_faults(value: KdlValue) -> Seq<Fault> {
    annotation_faults(value.annotation) + (if value.literal is Bool {
        Seq::empty()
    } else {
        seq![Fault { kind: FaultKind::WrongKind, spot: value.spot }]
    })
}

/// Yes or no, as a value says, or no.
pub open spec fn bool_of(value: KdlValue) -> bool {
    value.literal matches KdlLiteral::Bool(b) && b
}

/// The number that a value is, if it is one up to the limit.
pub open spec fn int_of(value: KdlValue, int_type: IntType) -> Option<int> {
    match value.literal {
        KdlLiteral::Int(radix, digits) => number_of(digits@, radix.base(), int_type.limit()),
        _ => None,
    }
}

/// The faults of a value that is to be a number.
pub open spec fn int_faults(value: KdlValue, int_type: IntType) -> Seq<Fault> {
    (match value.annotation {
        Some(t) if t.name@ != int_type.called() => seq![
            Fault { kind: FaultKind::Annotation, spot: t.spot },
        ],
        _ => Seq::empty(),
    }) + (if !(value.literal is Int) {
        seq![Fault { kind: FaultKind::WrongKind, spot: value.spot }]
    } else if int_of(value, int_type) is None {
        seq![Fault { kind: FaultKind::Conversion, spot: value.spot }]
    } else {
        Seq::empty()
    })
}

/// The faults of nodes where none belong.
pub open spec fn stray_nodes(nodes: Seq<KdlNode>) -> Seq<Fault> {
    nodes.map_values(|node: KdlNode| Fault { kind: FaultKind::UnexpectedNode, spot: node.spot })
}

/// What was read of something: its value unless the reading was given up, and the faults.
#[verifier::ext_equal]
pub struct Reading<T> {
    pub value: Option<T>,
    pub faults: Seq<Fault>,
}

/// What follows the arguments of a node that has neither properties nor children: a property ends the
/// reading, children are faults.
pub open spec fn ended<T>(value: T, faults: Seq<Fault>, node: KdlNode) -> Reading<T> {
    if node.properties@.len() > 0 {
        Reading {
            value: None,
            faults: faults.push(
                Fault { kind: FaultKind::UnexpectedProperty, spot: node.properties@[0].spot },
            ),
        }
    } else {
        Reading { value: Some(value), faults: faults + stray_nodes(node.children@) }
    }
}

/// What follows the arguments that belong to a node, so many of them: a further one ends the reading.
pub open spec fn ended_after<T>(count: int, value: T, faults: Seq<Fault>, node: KdlNode) -> Reading<T> {
    if node.arguments@.len() > count {
        Reading {
            value: None,
            faults: faults.push(
                Fault {
                    kind: FaultKind::UnexpectedArgument,
                    spot: node.arguments@[count].spot,
                },
            ),
        }
    } else {
        ended(value, faults, node)
    }
}

/// The reading of a node that has no argument but needs one.
pub open spec fn argument_missing<T>(faults: Seq<Fault>, node: KdlNode) -> Reading<T> {
    Reading {
        value: None,
        faults: faults.push(Fault { kind: FaultKind::MissingArgument, spot: node.spot }),
    }
}

/// The reading of a flag.
pub open spec fn flag_reading(node: KdlNode) -> Reading<bool> {
    let faults = annotation_faults(node.annotation);
    if node.arguments@.len() == 0 {
        ended(true, faults, node)
    } else {
        let value = node.arguments@[0];
        ended_after(1, bool_of(value), faults + bool_faults(value), node)
    }
}

/// Whether a node does not belong in the layout of a workspace: what lies between workspaces is up to
/// the monitor.
pub open spec fn is_monitor_level(name: Seq<char>) -> bool {
    name == "empty-workspace-above-first"@ || name == "insert-hint"@
}

/// The faults of the nodes in the layout of a workspace.
pub open spec fn layout_faults(nodes: Seq<KdlNode>) -> Seq<Fault>
    decreases nodes.len(),
{
    if nodes.len() == 0 {
        Seq::empty()
    } else {
        let before = layout_faults(nodes.drop_last());
        if is_monitor_level(nodes.last().name@) {
            before.push(Fault { kind: FaultKind::NotInWorkspaceLayout, spot: nodes.last().spot })
        } else {
            before
        }
    }
}

/// When a focused column is centered, by the place in the list of choices.
pub open spec fn centering_of(value: KdlValue) -> Option<int> {
    match value.literal {
        KdlLiteral::Text(text) => if text@ == "never"@ {
            Some(0)
        } else if text@ == "always"@ {
            Some(1)
        } else if text@ == "on-overflow"@ {
            Some(2)
        } else {
            None
        },
        _ => None,
    }
}

/// The reading of when a focused column is centered. What is no choice ends the reading.
pub open spec fn centering_reading(node: KdlNode) -> Reading<ScalarView> {
    if node.arguments@.len() == 0 {
        argument_missing(Seq::empty(), node)
    } else {
        let value = node.arguments@[0];
        let faults = annotation_faults(value.annotation);
        match centering_of(value) {
            Some(n) => ended_after(1, ScalarView::Number(n), faults, node),
            None => Reading {
                value: None,
                faults: faults.push(
                    Fault {
                        kind: if value.literal is Text {
                            FaultKind::Conversion
                        } else {
                            FaultKind::WrongKind
                        },
                        spot: value.spot,
                    },
                ),
            },
        }
    }
}

/// The reading of the field of a section.
pub open spec fn field_reading(node: KdlNode, kind: FieldKind) -> Reading<ScalarView> {
    match kind {
        FieldKind::Flag => {
            let read = flag_reading(node);
            Reading {
                value: match read.value {
                    Some(b) => Some(ScalarView::Flag(b)),
                    None => None,
                },
                faults: read.faults,
            }
        },
        FieldKind::WorkspaceLayout => Reading {
            value: Some(ScalarView::Flag(true)),
            faults: layout_faults(node.children@),
        },
        FieldKind::Elsewhere => Reading {
            value: Some(ScalarView::Flag(true)),
            faults: Seq::empty(),
        },
        FieldKind::Centering => centering_reading(node),
        _ if node.arguments@.len() == 0 => argument_missing(Seq::empty(), node),
        FieldKind::Text => {
            let value = node.arguments@[0];
            ended_after(1, ScalarView::Text(text_of(value)), text_faults(value), node)
        },
        FieldKind::Number(int_type) => {
            let value = node.arguments@[0];
            let n = match int_of(value, int_type) {
                Some(n) => n,
                None => 0,
            };
            ended_after(1, ScalarView::Number(n), int_faults(value, int_type), node)
        },
    }
}

/// A field of a section.
pub struct FieldRule {
    pub name: String,
    pub kind: FieldKind,
}

/// A field of a section, in the abstract.
pub struct FieldRuleView {
    pub name: Seq<char>,
    pub kind: FieldKind,
}

impl View for FieldRule {
    type V = FieldRuleView;

    open spec fn view(&self) -> FieldRuleView {
        FieldRuleView { name: self.name@, kind: self.kind }
    }
}

/// The rules in the abstract.
pub open spec fn rule_views(rules: Seq<FieldRule>) -> Seq<FieldRuleView> {
    rules.map_values(|rule: FieldRule| rule@)
}

/// The first rule with a name.
pub open spec fn rule_for(rules: Seq<FieldRuleView>, name: Seq<char>) -> Option<int>
    decreases rules.len(),
{
    if rules.len() == 0 {
        None
    } else {
        match rule_for(rules.drop_last(), name) {
            Some(i) => Some(i),
            None => if rules.last().name == name {
                Some(rules.len() - 1)
            } else {
                None
            },
        }
    }
}

/// What was read of a section: a value for each rule, the faults, and whether the reading was given up.
#[verifier::ext_equal]
pub struct Fields {
    pub values: Seq<Option<ScalarView>>,
    pub faults: Seq<Fault>,
    pub stopped: bool,
}

/// The fields with one more node read. A field that is there twice ends the reading.
pub open spec fn with_field(fields: Fields, rules: Seq<FieldRuleView>, node: KdlNode) -> Fields {
    if fields.stopped {
        fields
    } else {
        match rule_for(rules, node.name@) {
            None => Fields {
                faults: fields.faults.push(
                    Fault { kind: FaultKind::UnexpectedNode, spot: node.spot },
                ),
                ..fields
            },
            Some(i) => if fields.values[i] is Some {
                Fields {
                    faults: fields.faults.push(
                        Fault { kind: FaultKind::DuplicateNode, spot: node.name_spot },
                    ),
                    stopped: true,
                    ..fields
                }
            } else {
                let read = field_reading(node, rules[i].kind);
                Fields {
                    values: fields.values.update(i, read.value),
                    faults: fields.faults + read.faults,
                    stopped: read.value is None,
                }
            },
        }
    }
}

/// The fields with more nodes read.
pub open spec fn with_fields(fields: Fields, rules: Seq<FieldRuleView>, nodes: Seq<KdlNode>) -> Fields
    decreases nodes.len(),
{
    if nodes.len() == 0 {
        fields
    } else {
        with_field(with_fields(fields, rules, nodes.drop_last()), rules, nodes.last())
    }
}

/// No fields read yet.
pub open spec fn no_fields(rules: Seq<FieldRuleView>, faults: Seq<Fault>) -> Fields {
    Fields { values: Seq::new(rules.len(), |i: int| None), faults, stopped: false }
}

/// The reading of a section that has fields and nothing else.
pub open spec fn section_fields(node: KdlNode, rules: Seq<FieldRuleView>) -> Fields {
    let start = no_fields(rules, annotation_faults(node.annotation));
    if node.arguments@.len() > 0 {
        Fields {
            faults: start.faults.push(
                Fault { kind: FaultKind::UnexpectedArgument, spot: node.arguments@[0].spot },
            ),
            stopped: true,
            ..start
        }
    } else if node.properties@.len() > 0 {
        Fields {
            faults: start.faults.push(
                Fault { kind: FaultKind::UnexpectedProperty, spot: node.properties@[0].spot },
            ),
            stopped: true,
            ..start
        }
    } else {
        with_fields(start, rules, node.children@)
    }
}

/// Whether a name is a certain one.
pub fn is_called(name: &String, wanted: &str) -> (r: bool)
    ensures
        r == (name@ == wanted@),
{
    *name == wanted.to_owned()
}

/// The value of a digit.
fn digit(c: char) -> (r: u32)
    ensures
        r == digit_value(c),
        r <= 36,
{
    let code: u32 = c as u32;
    if '0' as u32 <= code && code <= '9' as u32 {
        code - '0' as u32
    } else if 'a' as u32 <= code && code <= 'z' as u32 {
        code - 'a' as u32 + 10
    } else if 'A' as u32 <= code && code <= 'Z' as u32 {
        code - 'A' as u32 + 10
    } else {
        36
    }
}

/// More digits make no smaller number, and what is no number stays none.
proof fn lemma_more_digits(digits: Seq<char>, count: int, base: int)
    requires
        0 <= count <= digits.len(),
        base >= 1,
    ensures
        digits_value(digits.take(count), base) is None ==> digits_value(digits, base) is None,
        match (digits_value(digits.take(count), base), digits_value(digits, base)) {
            (Some(a), Some(b)) => 0 <= a <= b,
            (Some(a), None) => 0 <= a,
            _ => true,
        },
    decreases digits.len(),
{
    if count == digits.len() {
        assert(digits.take(count) =~= digits);
        if digits.len() > 0 {
            lemma_more_digits(digits.drop_last(), 0, base);
            let shorter = digits_value(digits.drop_last(), base);
            if let Some(n) = shorter {
                assert(n * base >= 0) by (nonlinear_arith)
                    requires
                        n >= 0,
                        base >= 1,
                ;
            }
        }
    } else {
        lemma_more_digits(digits.drop_last(), count, base);
        assert(digits.drop_last().take(count) =~= digits.take(count));
        let shorter = digits_value(digits.drop_last(), base);
        if let Some(n) = shorter {
            assert(n >= 0) by {
                lemma_more_digits(digits.drop_last(), digits.len() - 1, base);
                assert(digits.drop_last().take(digits.len() - 1) =~= digits.drop_last());
            }
            assert(n * base >= n) by (nonlinear_arith)
                requires
                    n >= 0,
                    base >= 1,
            ;
        }
    }
}

/// Reads the number that a text writes, if it writes one up to a limit.
fn parse_number(text: &str, base: u32, limit: u32) -> (r: Option<u32>)
    requires
        2 <= base <= 16,
    ensures
        match (r, number_of(text@, base as int, limit as int)) {
            (Some(n), Some(k)) => n == k,
            (None, None) => true,
            _ => false,
        },
{
    let len: usize = text.unicode_len();
    let first: usize = if len > 0 && text.get_char(0) == '+' {
        1
    } else {
        0
    };
    let ghost digits = unsigned_digits(text@);
    assert(forall|k: int| 0 <= k < digits.len() ==> #[trigger] digits[k] == text@[first + k]);
    if first == len {
        return None;
    }
    let mut n: u64 = 0;
    let mut i: usize = first;
    assert(digits.take(0) =~= Seq::<char>::empty());
    while i < len
        invariant
            first <= i <= len,
            len == text@.len(),
            2 <= base <= 16,
            n <= limit,
            digits == unsigned_digits(text@),
            digits.len() == len - first,
            first < len,
            forall|k: int| 0 <= k < digits.len() ==> #[trigger] digits[k] == text@[first + k],
            digits_value(digits.take(i - first), base as int) == Some(n as int),
        decreases len - i,
    {
        let d: u32 = digit(text.get_char(i));
        proof {
            let next = digits.take(i - first + 1);
            assert(next.drop_last() =~= digits.take(i - first));
            assert(next.last() == text@[i as int]);
            lemma_more_digits(digits, i - first + 1, base as int);
        }
        if d >= base {
            return None;
        }
        assert(n * base <= u32::MAX * 16) by (nonlinear_arith)
            requires
                0 <= n <= u32::MAX,
                2 <= base <= 16,
        ;
        n = n * (base as u64) + d as u64;
        if n > limit as u64 {
            return None;
        }
        i = i + 1;
    }
    assert(digits.take(len - first) =~= digits);
    Some(n as u32)
}

/// Notes a type where none belongs.
pub fn check_annotation(annotation: &Option<KdlType>, faults: &mut Vec<Fault>)
    ensures
        final(faults)@ == old(faults)@ + annotation_faults(*annotation),
{
    if let Some(t) = annotation {
        faults.push(Fault { kind: FaultKind::Annotation, spot: t.spot });
    }
    assert(faults@ =~= old(faults)@ + annotation_faults(*annotation));
}

/// Reads a text.
pub fn read_text(value: &KdlValue, faults: &mut Vec<Fault>) -> (r: String)
    ensures
        r@ == text_of(*value),
        final(faults)@ == old(faults)@ + text_faults(*value),
{
    check_annotation(&value.annotation, faults);
    match &value.literal {
        KdlLiteral::Text(text) => {
            assert(faults@ =~= old(faults)@ + text_faults(*value));
            text.clone()
        },
        _ => {
            faults.push(Fault { kind: FaultKind::WrongKind, spot: value.spot });
            assert(faults@ =~= old(faults)@ + text_faults(*value));
            String::new()
        },
    }
}

/// Reads yes or no.
pub fn read_bool(value: &KdlValue, faults: &mut Vec<Fault>) -> (r: bool)
    ensures
        r == bool_of(*value),
        final(faults)@ == old(faults)@ + bool_faults(*value),
{
    check_annotation(&value.annotation, faults);
    match &value.literal {
        KdlLiteral::Bool(b) => {
            assert(faults@ =~= old(faults)@ + bool_faults(*value));
            *b
        },
        _ => {
            faults.push(Fault { kind: FaultKind::WrongKind, spot: value.spot });
            assert(faults@ =~= old(faults)@ + bool_faults(*value));
            false
        },
    }
}

/// Reads a number.
fn read_int(value: &KdlValue, int_type: IntType, faults: &mut Vec<Fault>) -> (r: u32)
    ensures
        r == (match int_of(*value, int_type) {
            Some(n) => n,
            None => 0,
        }),
        final(faults)@ == old(faults)@ + int_faults(*value, int_type),
{
    let (called, limit): (&str, u32) = match int_type {
        IntType::U8 => ("u8", u8::MAX as u32),
        IntType::U32 => ("u32", u32::MAX),
    };
    if let Some(t) = &value.annotation {
        if !is_called(&t.name, called) {
            faults.push(Fault { kind: FaultKind::Annotation, spot: t.spot });
        }
    }
    let r: u32 = match &value.literal {
        KdlLiteral::Int(radix, digits) => match parse_number(
            digits.as_str(),
            radix.number(),
            limit,
        ) {
            Some(n) => n,
            None => {
                faults.push(Fault { kind: FaultKind::Conversion, spot: value.spot });
                0
            },
        },
        _ => {
            faults.push(Fault { kind: FaultKind::WrongKind, spot: value.spot });
            0
        },
    };
    assert(faults@ =~= old(faults)@ + int_faults(*value, int_type));
    r
}

/// Notes nodes where none belong.
pub fn check_children(node: &KdlNode, faults: &mut Vec<Fault>)
    ensures
        final(faults)@ == old(faults)@ + stray_nodes(node.children@),
{
    let ghost before = faults@;
    let mut i: usize = 0;
    assert(stray_nodes(node.children@.take(0)) =~= Seq::<Fault>::empty());
    while i < node.children.len()
        invariant
            i <= node.children@.len(),
            faults@ == before + stray_nodes(node.children@.take(i as int)),
        decreases node.children@.len() - i,
    {
        faults.push(Fault { kind: FaultKind::UnexpectedNode, spot: node.children[i].spot });
        assert(faults@ =~= before + stray_nodes(node.children@.take(i + 1)));
        i = i + 1;
    }
    assert(node.children@.take(i as int) =~= node.children@);
}

/// Checks what follows the arguments that belong to a node, so many of them. Returns whether the
/// reading goes on.
pub fn check_end(node: &KdlNode, count: usize, faults: &mut Vec<Fault>) -> (r: bool)
    requires
        count <= node.arguments@.len() || node.arguments@.len() == 0,
    ensures
        ({
            let end = ended_after(count as int, (), old(faults)@, *node);
            &&& final(faults)@ == end.faults
            &&& r == (end.value is Some)
        }),
{
    if node.arguments.len() > count {
        faults.push(
            Fault { kind: FaultKind::UnexpectedArgument, spot: node.arguments[count].spot },
        );
        return false;
    }
    if node.properties.len() > 0 {
        faults.push(Fault { kind: FaultKind::UnexpectedProperty, spot: node.properties[0].spot });
        return false;
    }
    check_children(node, faults);
    true
}

/// Reads a flag.
pub fn read_flag(node: &KdlNode, faults: &mut Vec<Fault>) -> (r: Option<bool>)
    ensures
        r == flag_reading(*node).value,
        final(faults)@ == old(faults)@ + flag_reading(*node).faults,
{
    let ghost before = faults@;
    let mut own: Vec<Fault> = Vec::new();
    check_annotation(&node.annotation, &mut own);
    assert(own@ =~= annotation_faults(node.annotation));
    let mut flag = true;
    let mut count: usize = 0;
    if node.arguments.len() > 0 {
        flag = read_bool(&node.arguments[0], &mut own);
        count = 1;
    }
    let goes_on = check_end(node, count, &mut own);
    assert(own@ == flag_reading(*node).faults);
    faults.append(&mut own);
    if goes_on {
        Some(flag)
    } else {
        None
    }
}

/// Looks through the layout of a workspace for nodes that do not belong there.
fn check_workspace_layout(node: &KdlNode, faults: &mut Vec<Fault>)
    ensures
        final(faults)@ == old(faults)@ + layout_faults(node.children@),
{
    let ghost before = faults@;
    let mut i: usize = 0;
    assert(node.children@.take(0) =~= Seq::<KdlNode>::empty());
    while i < node.children.len()
        invariant
            i <= node.children@.len(),
            faults@ == before + layout_faults(node.children@.take(i as int)),
        decreases node.children@.len() - i,
    {
        let child = &node.children[i];
        assert(node.children@.take(i + 1).drop_last() =~= node.children@.take(i as int));
        if is_called(&child.name, "empty-workspace-above-first") || is_called(
            &child.name,
            "insert-hint",
        ) {
            faults.push(Fault { kind: FaultKind::NotInWorkspaceLayout, spot: child.spot });
        }
        assert(faults@ =~= before + layout_faults(node.children@.take(i + 1)));
        i = i + 1;
    }
    assert(node.children@.take(i as int) =~= node.children@);
}

/// Reads when a focused column is centered.
fn read_centering(node: &KdlNode, faults: &mut Vec<Fault>) -> (r: Option<Scalar>)
    ensures
        match (r, centering_reading(*node).value) {
            (Some(value), Some(wanted)) => value@ == wanted,
            (None, None) => true,
            _ => false,
        },
        final(faults)@ == old(faults)@ + centering_reading(*node).faults,
{
    let mut own: Vec<Fault> = Vec::new();
    if node.arguments.len() == 0 {
        own.push(Fault { kind: FaultKind::MissingArgument, spot: node.spot });
        assert(own@ =~= centering_reading(*node).faults);
        faults.append(&mut own);
        return None;
    }
    let value = &node.arguments[0];
    check_annotation(&value.annotation, &mut own);
    assert(own@ =~= annotation_faults(value.annotation));
    let mut kind = FaultKind::WrongKind;
    let mut choice: Option<u32> = None;
    if let KdlLiteral::Text(text) = &value.literal {
        kind = FaultKind::Conversion;
        if is_called(text, "never") {
            choice = Some(0);
        } else if is_called(text, "always") {
            choice = Some(1);
        } else if is_called(text, "on-overflow") {
            choice = Some(2);
        }
    }
    let Some(n) = choice else {
        own.push(Fault { kind, spot: value.spot });
        assert(own@ =~= centering_reading(*node).faults);
        faults.append(&mut own);
        return None;
    };
    let goes_on = check_end(node, 1, &mut own);
    assert(own@ == centering_reading(*node).faults);
    faults.append(&mut own);
    if goes_on {
        Some(Scalar::Number(n))
    } else {
        None
    }
}

/// Reads the field of a section.
fn read_field(node: &KdlNode, kind: FieldKind, faults: &mut Vec<Fault>) -> (r: Option<Scalar>)
    ensures
        match (r, field_reading(*node, kind).value) {
            (Some(value), Some(wanted)) => value@ == wanted,
            (None, None) => true,
            _ => false,
        },
        final(faults)@ == old(faults)@ + field_reading(*node, kind).faults,
{
    if let FieldKind::Flag = kind {
        return match read_flag(node, faults) {
            Some(b) => Some(Scalar::Flag(b)),
            None => None,
        };
    }
    if let FieldKind::WorkspaceLayout = kind {
        check_workspace_layout(node, faults);
        return Some(Scalar::Flag(true));
    }
    if let FieldKind::Elsewhere = kind {
        assert(faults@ =~= old(faults)@ + field_reading(*node, kind).faults);
        return Some(Scalar::Flag(true));
    }
    if let FieldKind::Centering = kind {
        return read_centering(node, faults);
    }
    let mut own: Vec<Fault> = Vec::new();
    if node.arguments.len() == 0 {
        own.push(Fault { kind: FaultKind::MissingArgument, spot: node.spot });
        assert(own@ =~= field_reading(*node, kind).faults);
        faults.append(&mut own);
        return None;
    }
    let value = match kind {
        FieldKind::Number(int_type) => Scalar::Number(
            read_int(&node.arguments[0], int_type, &mut own),
        ),
        _ => Scalar::Text(read_text(&node.arguments[0], &mut own)),
    };
    assert(match kind {
        FieldKind::Number(int_type) => own@ =~= int_faults(node.arguments@[0], int_type),
        _ => own@ =~= text_faults(node.arguments@[0]),
    });
    let goes_on = check_end(node, 1, &mut own);
    assert(own@ == field_reading(*node, kind).faults);
    faults.append(&mut own);
    if goes_on {
        Some(value)
    } else {
        None
    }
}

/// Finds the first rule with a name.
fn find_rule(rules: &Vec<FieldRule>, name: &String) -> (r: Option<usize>)
    ensures
        match (r, rule_for(rule_views(rules@), name@)) {
            (Some(i), Some(k)) => i == k && i < rules@.len(),
            (None, None) => true,
            _ => false,
        },
{
    let ghost views = rule_views(rules@);
    let mut i: usize = 0;
    while i < rules.len()
        invariant
            i <= rules@.len(),
            views == rule_views(rules@),
            rule_for(views.take(i as int), name@) is None,
        decreases rules@.len() - i,
    {
        assert(views.take(i + 1).drop_last() =~= views.take(i as int));
        assert(views.take(i + 1).last() == rules@[i as int]@);
        if rules[i].name == *name {
            proof {
                lemma_first_rule(views, name@, i as int);
            }
            return Some(i);
        }
        i = i + 1;
    }
    assert(views.take(i as int) =~= views);
    None
}

/// A rule that is the first with a name among some stays so among more.
proof fn lemma_first_rule(rules: Seq<FieldRuleView>, name: Seq<char>, i: int)
    requires
        0 <= i < rules.len(),
        rule_for(rules.take(i + 1), name) == Some(i),
    ensures
        rule_for(rules, name) == Some(i),
    decreases rules.len(),
{
    if i + 1 == rules.len() {
        assert(rules.take(i + 1) =~= rules);
    } else {
        assert(rules.drop_last().take(i + 1) =~= rules.take(i + 1));
        lemma_first_rule(rules.drop_last(), name, i);
    }
}

/// The first node with a name.
pub open spec fn first_called(nodes: Seq<KdlNode>, name: Seq<char>) -> Option<KdlNode>
    decreases nodes.len(),
{
    if nodes.len() == 0 {
        None
    } else {
        match first_called(nodes.drop_last(), name) {
            Some(node) => Some(node),
            None => if nodes.last().name@ == name {
                Some(nodes.last())
            } else {
                None
            },
        }
    }
}

/// Finds the first node with a name.
pub fn find_called(nodes: &Vec<KdlNode>, name: &str) -> (r: Option<usize>)
    ensures
        match r {
            Some(i) => i < nodes@.len() && first_called(nodes@, name@) == Some(nodes@[i as int]),
            None => first_called(nodes@, name@) is None,
        },
{
    let mut i: usize = 0;
    while i < nodes.len()
        invariant
            i <= nodes@.len(),
            first_called(nodes@.take(i as int), name@) is None,
        decreases nodes@.len() - i,
    {
        assert(nodes@.take(i + 1).drop_last() =~= nodes@.take(i as int));
        if is_called(&nodes[i].name, name) {
            proof {
                lemma_first_called(nodes@, name@, i as int);
            }
            return Some(i);
        }
        i = i + 1;
    }
    assert(nodes@.take(i as int) =~= nodes@);
    None
}

/// Takes the first node with a name out of some nodes.
pub fn take_first_called(nodes: Vec<KdlNode>, name: &str) -> (r: Option<KdlNode>)
    ensures
        r == first_called(nodes@, name@),
{
    let mut rest = nodes;
    match find_called(&rest, name) {
        Some(i) => Some(rest.remove(i)),
        None => None,
    }
}

/// A node that is the first with a name among some stays so among more.
proof fn lemma_first_called(nodes: Seq<KdlNode>, name: Seq<char>, i: int)
    requires
        0 <= i < nodes.len(),
        first_called(nodes.take(i + 1), name) == Some(nodes[i]),
    ensures
        first_called(nodes, name) == Some(nodes[i]),
    decreases nodes.len(),
{
    if i + 1 == nodes.len() {
        assert(nodes.take(i + 1) =~= nodes);
    } else {
        assert(nodes.drop_last().take(i + 1) =~= nodes.take(i + 1));
        lemma_first_called(nodes.drop_last(), name, i);
    }
}

/// What was read of a section.
pub struct SectionFields {
    /// A value for each rule.
    pub values: Vec<Option<Scalar>>,
    pub faults: Vec<Fault>,
    /// Whether the reading was given up.
    pub stopped: bool,
}

/// The values in the abstract.
pub open spec fn value_views(values: Seq<Option<Scalar>>) -> Seq<Option<ScalarView>> {
    values.map_values(
        |value: Option<Scalar>| match value {
            Some(scalar) => Some(scalar@),
            None => None,
        },
    )
}

impl View for SectionFields {
    type V = Fields;

    open spec fn view(&self) -> Fields {
        Fields {
            values: value_views(self.values@),
            faults: self.faults@,
            stopped: self.stopped,
        }
    }
}

/// No fields read yet.
fn start_fields(rules: &Vec<FieldRule>, faults: Vec<Fault>) -> (r: SectionFields)
    ensures
        r@ == no_fields(rule_views(rules@), faults@),
        r.values@.len() == rules@.len(),
{
    let mut values: Vec<Option<Scalar>> = Vec::new();
    let mut n: usize = 0;
    while n < rules.len()
        invariant
            n <= rules@.len(),
            values@.len() == n,
            forall|i: int| 0 <= i < n ==> #[trigger] values@[i] is None,
        decreases rules@.len() - n,
    {
        values.push(None);
        n = n + 1;
    }
    let fields = SectionFields { values, faults, stopped: false };
    assert(fields@ =~= no_fields(rule_views(rules@), faults@));
    fields
}

/// Reads the nodes in a section as its fields, after the faults that were found before.
pub fn read_children(node: &KdlNode, rules: &Vec<FieldRule>, faults: Vec<Fault>) -> (r: SectionFields)
    ensures
        r@ == with_fields(
            no_fields(rule_views(rules@), faults@),
            rule_views(rules@),
            node.children@,
        ),
        r.values@.len() == rules@.len(),
{
    let ghost views = rule_views(rules@);
    let mut fields = start_fields(rules, faults);
    let ghost start = fields@;
    let mut i: usize = 0;
    assert(node.children@.take(0) =~= Seq::<KdlNode>::empty());
    while i < node.children.len()
        invariant
            i <= node.children@.len(),
            views == rule_views(rules@),
            fields.values@.len() == rules@.len(),
            fields@ == with_fields(start, views, node.children@.take(i as int)),
        decreases node.children@.len() - i,
    {
        let child = &node.children[i];
        let ghost before = fields@;
        assert(node.children@.take(i + 1).drop_last() =~= node.children@.take(i as int));
        assert(node.children@.take(i + 1).last() == *child);
        if !fields.stopped {
            match find_rule(rules, &child.name) {
                None => {
                    fields.faults.push(
                        Fault { kind: FaultKind::UnexpectedNode, spot: child.spot },
                    );
                },
                Some(k) => {
                    assert(before.values[k as int] is Some == fields.values@[k as int] is Some);
                    if fields.values[k].is_some() {
                        fields.faults.push(
                            Fault { kind: FaultKind::DuplicateNode, spot: child.name_spot },
                        );
                        fields.stopped = true;
                    } else {
                        assert(views[k as int].kind == rules@[k as int].kind);
                        let value = read_field(child, rules[k].kind, &mut fields.faults);
                        if value.is_none() {
                            fields.stopped = true;
                        }
                        fields.values.set(k, value);
                    }
                },
            }
        }
        assert(fields@ =~= with_field(before, views, *child));
        i = i + 1;
    }
    assert(node.children@.take(i as int) =~= node.children@);
    fields
}

/// Reads a section that has fields and nothing else.
pub fn read_section(node: &KdlNode, rules: &Vec<FieldRule>) -> (r: SectionFields)
    ensures
        r@ == section_fields(*node, rule_views(rules@)),
        r.values@.len() == rules@.len(),
{
    let mut faults: Vec<Fault> = Vec::new();
    check_annotation(&node.annotation, &mut faults);
    assert(faults@ =~= annotation_faults(node.annotation));
    if node.arguments.len() > 0 {
        let mut fields = start_fields(rules, faults);
        fields.faults.push(
            Fault { kind: FaultKind::UnexpectedArgument, spot: node.arguments[0].spot },
        );
        fields.stopped = true;
        return fields;
    }
    if node.properties.len() > 0 {
        let mut fields = start_fields(rules, faults);
        fields.faults.push(
            Fault { kind: FaultKind::UnexpectedProperty, spot: node.properties[0].spot },
        );
        fields.stopped = true;
        return fields;
    }
    read_children(node, rules, faults)
}

/// A section without faults was read to its end, and every node in it is a field that is there once.
pub proof fn law_faultless_section(fields: Fields, rules: Seq<FieldRuleView>, nodes: Seq<KdlNode>)
    requires
        fields.values.len() == rules.len(),
        !fields.stopped,
        with_fields(fields, rules, nodes).faults.len() == 0,
    ensures
        !with_fields(fields, rules, nodes).stopped,
        fields.faults.len() == 0,
        forall|i: int|
            0 <= i < nodes.len() ==> rule_for(rules, #[trigger] nodes[i].name@) is Some,
    decreases nodes.len(),
{
    if nodes.len() > 0 {
        let shorter = nodes.drop_last();
        let before = with_fields(fields, rules, shorter);
        law_faultless_section(fields, rules, shorter);
        assert forall|i: int| 0 <= i < nodes.len() implies rule_for(
            rules,
            #[trigger] nodes[i].name@,
        ) is Some by {
            if i < nodes.len() - 1 {
                assert(nodes[i] == shorter[i]);
            }
        }
    }
}

} // verus!
