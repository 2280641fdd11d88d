//! Taking a text apart into nodes.
use vstd::prelude::*;

use crate::config::kdl::{KdlLiteral, KdlNode, KdlProperty, KdlType, KdlValue, Radix, Spot};

verus! {

/// A stretch of a text, as the parser has it.
#[verifier::external_type_specification]
#[verifier::external_body]
pub struct ExSpan(knus::span::Span);

/// Something and where it is, as the parser has it.
#[verifier::external_type_specification]
#[verifier::external_body]
#[verifier::reject_recursive_types(T)]
#[verifier::reject_recursive_types(S)]
pub struct ExSpanned<T, S>(knus::span::Spanned<T, S>);

/// A node, as the parser has it.
#[verifier::external_type_specification]
#[verifier::external_body]
#[verifier::reject_recursive_types(S)]
pub struct ExNode<S>(knus::ast::Node<S>);

/// A value, as the parser has it.
#[verifier::external_type_specification]
#[verifier::external_body]
#[verifier::reject_recursive_types(S)]
pub struct ExValue<S>(knus::ast::Value<S>);

/// A value without its type, as the parser has it.
#[verifier::external_type_specification]
#[verifier::external_body]
pub struct ExLiteral(knus::ast::Literal);

/// The view of a value without its type.
pub enum LiteralView {
    Null,
    Bool(bool),
    Int(Radix, Seq<char>),
    Decimal(Seq<char>),
    Text(Seq<char>),
}

/// The view of a type that is written before a node or a value.
pub struct TypeView {
    pub name: Seq<char>,
    pub spot: Spot,
}

/// The view of a value.
pub struct ValueView {
    pub annotation: Option<TypeView>,
    pub literal: LiteralView,
    pub spot: Spot,
}

/// The view of a named value.
pub struct PropertyView {
    pub name: Seq<char>,
    pub spot: Spot,
    pub value: ValueView,
}

/// The view of a node with all that belongs to it.
pub struct NodeView {
    pub annotation: Option<TypeView>,
    pub name: Seq<char>,
    pub name_spot: Spot,
    pub arguments: Seq<ValueView>,
    pub properties: Seq<PropertyView>,
    pub children: Seq<NodeView>,
    pub spot: Spot,
}

impl View for KdlLiteral {
    type V = LiteralView;

    open spec fn view(&self) -> LiteralView {
        match self {
            KdlLiteral::Null => LiteralView::Null,
            KdlLiteral::Bool(b) => LiteralView::Bool(*b),
            KdlLiteral::Int(radix, digits) => LiteralView::Int(*radix, digits@),
            KdlLiteral::Decimal(digits) => LiteralView::Decimal(digits@),
            KdlLiteral::Text(text) => LiteralView::Text(text@),
        }
    }
}

/// The view of an optional type.
pub open spec fn opt_type(annotation: Option<KdlType>) -> Option<TypeView> {
    match annotation {
        Some(t) => Some(TypeView { name: t.name@, spot: t.spot }),
        None => None,
    }
}

impl View for KdlValue {
    type V = ValueView;

    open spec fn view(&self) -> ValueView {
        ValueView {
            annotation: opt_type(self.annotation),
            literal: self.literal@,
            spot: self.spot,
        }
    }
}

impl View for KdlProperty {
    type V = PropertyView;

    open spec fn view(&self) -> PropertyView {
        PropertyView { name: self.name@, spot: self.spot, value: self.value@ }
    }
}

/// The view of a node.
pub open spec fn node_view(node: KdlNode) -> NodeView
    decreases node,
{
    NodeView {
        annotation: opt_type(node.annotation),
        name: node.name@,
        name_spot: node.name_spot,
        arguments: node.arguments@.map_values(|v: KdlValue| v@),
        properties: node.properties@.map_values(|p: KdlProperty| p@),
        children: Seq::new(
            node.children@.len(),
            |i: int|
                if 0 <= i < node.children@.len() {
                    node_view(node.children@[i])
                } else {
                    arbitrary()
                },
        ),
        spot: node.spot,
    }
}

/// The views of some nodes.
pub open spec fn node_views(nodes: Seq<KdlNode>) -> Seq<NodeView> {
    nodes.map_values(|node: KdlNode| node_view(node))
}

/// The nodes that a text is taken apart into, if it can be.
pub uninterp spec fn kdl_nodes(text: Seq<char>) -> Option<Seq<NodeView>>;

/// Converts where something is.
#[verifier::external_body]
fn plain_spot(span: &knus::span::Span) -> Spot {
    Spot { start: span.0, end: span.1 }
}

/// Converts a value without its type.
#[verifier::external_body]
fn plain_literal(literal: &knus::ast::Literal) -> KdlLiteral {
    match literal {
        knus::ast::Literal::Null => KdlLiteral::Null,
        knus::ast::Literal::Bool(b) => KdlLiteral::Bool(*b),
        knus::ast::Literal::Int(number) => match number.0 {
            knus::ast::Radix::Bin => KdlLiteral::Int(Radix::Bin, number.1.to_string()),
            knus::ast::Radix::Oct => KdlLiteral::Int(Radix::Oct, number.1.to_string()),
            knus::ast::Radix::Dec => KdlLiteral::Int(Radix::Dec, number.1.to_string()),
            knus::ast::Radix::Hex => KdlLiteral::Int(Radix::Hex, number.1.to_string()),
        },
        knus::ast::Literal::Decimal(decimal) => KdlLiteral::Decimal(decimal.0.to_string()),
        knus::ast::Literal::String(text) => KdlLiteral::Text(text.to_string()),
    }
}

/// Converts a type that is written in parentheses before a node or a value. It is written as the name of
/// a node can be, so `knus::parse_ast` tells which name it is. There is none if the stretch is empty.
#[verifier::external_body]
fn plain_type(text: &str, start: usize, end: usize) -> Option<KdlType> {
    let written = text.get(start + 1..end.wrapping_sub(1))?;
    let document = knus::parse_ast::<knus::span::Span>("", written).ok()?;
    let name = document.nodes.first()?.node_name.to_string();
    Some(KdlType { name, spot: Spot { start, end } })
}

/// Converts a value. Its type, if it has one, is what stands in the parentheses right before it.
#[verifier::external_body]
fn plain_value(text: &str, value: &knus::ast::Value<knus::span::Span>) -> KdlValue {
    let bare = knus::ast::Value { literal: value.literal.clone(), ..Default::default() };
    let before = &text[..value.literal.span().0];
    let mut starts = before.rmatch_indices('(').filter(|_| *value != bare);
    KdlValue {
        annotation: starts.find_map(|(start, _)| plain_type(text, start, before.len())),
        literal: plain_literal(&value.literal),
        spot: plain_spot(value.literal.span()),
    }
}

/// Converts a property.
#[verifier::external_body]
fn plain_property(
    text: &str,
    name: &knus::span::Spanned<Box<str>, knus::span::Span>,
    value: &knus::ast::Value<knus::span::Span>,
) -> KdlProperty {
    KdlProperty {
        name: name.to_string(),
        spot: plain_spot(name.span()),
        value: plain_value(text, value),
    }
}

/// Converts a node. Its type, if it has one, is what stands in the parentheses right before its name.
#[verifier::external_body]
fn plain_node(
    text: &str,
    node: &knus::span::Spanned<knus::ast::Node<knus::span::Span>, knus::span::Span>,
) -> KdlNode {
    let (start, end) = (node.span().0, node.node_name.span().0);
    KdlNode {
        annotation: plain_type(text, start, end),
        name: node.node_name.to_string(),
        name_spot: plain_spot(node.node_name.span()),
        arguments: node.arguments.iter().map(|v| plain_value(text, v)).collect(),
        properties: node.properties.iter().map(|(n, v)| plain_property(text, n, v)).collect(),
        children: node.children().map(|child| plain_node(text, child)).collect(),
        spot: plain_spot(node.span()),
    }
}

/// Takes a text apart into nodes by `knus::parse_ast`, and converts them.
///
/// The contract claims that what comes out depends on the text alone, and that an empty text has no
/// nodes; otherwise it does not say what it is. The name of the file only goes into the error, which
/// is left out.
#[verifier::external_body]
pub(crate) fn parse_kdl(file_name: &str, text: &str) -> (r: Option<Vec<KdlNode>>)
    ensures
        match (r, kdl_nodes(text@)) {
            (Some(nodes), Some(wanted)) => node_views(nodes@) == wanted,
            (None, None) => true,
            _ => false,
        },
        text@.len() == 0 ==> r is Some && r->0@.len() == 0,
{
    let document = knus::parse_ast::<knus::span::Span>(file_name, text).ok()?;
    Some(document.nodes.iter().map(|node| plain_node(text, node)).collect())
}

} // verus!
