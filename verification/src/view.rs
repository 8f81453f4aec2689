//! The view-node model: an immutable ownership tree describing what should be
//! displayed. A parent owns its children outright; attributes are key/value
//! pairs whose value is either a plain scalar or an event binding that
//! produces a message when the node fires. A freshly produced tree is a pure
//! function of the state alone; diffing it against the previous tree is the
//! external renderer's concern, not the core's.

use vstd::prelude::*;

use crate::msg::{Msg, MsgV};

verus! {

/// An attribute value: a plain scalar, or an event binding. Every
/// interactive node in the gallery ignores the raw event payload, so a
/// binding carries the message it produces, parameterized at
/// view-construction time by the value the node represents.
#[derive(Debug, PartialEq)]
pub enum AttrValue {
    Text(String),
    Listener(Msg),
}

/// One attribute: a name and a value.
#[derive(Debug, PartialEq)]
pub struct Attr {
    pub name: String,
    pub value: AttrValue,
}

/// One node of a view tree: a text leaf, or an element with attributes and
/// child nodes.
#[derive(Debug, PartialEq)]
pub enum Node {
    Text(String),
    Element(Element),
}

/// An element node.
#[derive(Debug, PartialEq)]
pub struct Element {
    pub tag: String,
    pub attrs: Vec<Attr>,
    pub children: Vec<Node>,
}

/// The mathematical value of an attribute value.
pub enum AttrValueV {
    Text(Seq<char>),
    Listener(MsgV),
}

/// The mathematical value of an attribute.
#[verifier::ext_equal]
pub struct AttrV {
    pub name: Seq<char>,
    pub value: AttrValueV,
}

/// The mathematical value of a view node.
#[verifier::ext_equal]
pub enum NodeV {
    Text(Seq<char>),
    Element(ElementV),
}

/// The mathematical value of an element node.
#[verifier::ext_equal]
pub struct ElementV {
    pub tag: Seq<char>,
    pub attrs: Seq<AttrV>,
    pub children: Seq<NodeV>,
}

impl View for AttrValue {
    type V = AttrValueV;

    open spec fn view(&self) -> AttrValueV {
        match self {
            AttrValue::Text(s) => AttrValueV::Text(s@),
            AttrValue::Listener(m) => AttrValueV::Listener(m@),
        }
    }
}

impl View for Attr {
    type V = AttrV;

    open spec fn view(&self) -> AttrV {
        AttrV { name: self.name@, value: self.value@ }
    }
}

/// The values of a sequence of attributes.
pub open spec fn attrs_view(s: Seq<Attr>) -> Seq<AttrV> {
    Seq::new(s.len(), |i: int| s[i]@)
}

/// The mathematical value of a view node.
pub open spec fn node_v(n: Node) -> NodeV
    decreases n,
    via node_v_dec
{
    match n {
        Node::Text(s) => NodeV::Text(s@),
        Node::Element(e) => NodeV::Element(
            ElementV { tag: e.tag@, attrs: attrs_view(e.attrs@), children: nodes_v(e.children@) },
        ),
    }
}

/// The mathematical values of a sequence of view nodes, in order.
pub open spec fn nodes_v(s: Seq<Node>) -> Seq<NodeV>
    decreases s,
{
    if s.len() == 0 {
        Seq::empty()
    } else {
        seq![node_v(s[0])] + nodes_v(s.drop_first())
    }
}

#[via_fn]
proof fn node_v_dec(n: Node) {
    match n {
        Node::Element(e) => {
            assert(decreases_to!(n => e));
            assert(decreases_to!(e => e.children));
            assert(decreases_to!(e.children => e.children@));
        },
        _ => {},
    }
}

/// `nodes_v` is the pointwise value of the sequence.
pub proof fn lemma_nodes_v(s: Seq<Node>)
    ensures
        nodes_v(s).len() == s.len(),
        forall|i: int| 0 <= i < s.len() ==> nodes_v(s)[i] == node_v(s[i]),
    decreases s.len(),
{
    if s.len() > 0 {
        lemma_nodes_v(s.drop_first());
    }
}

impl View for Node {
    type V = NodeV;

    open spec fn view(&self) -> NodeV {
        node_v(*self)
    }
}

impl Attr {
    /// A plain scalar attribute.
    pub fn text(name: &str, value: &str) -> (r: Attr)
        ensures
            r@ == (AttrV { name: name@, value: AttrValueV::Text(value@) }),
    {
        Attr { name: name.to_owned(), value: AttrValue::Text(value.to_owned()) }
    }

    /// A plain scalar attribute whose value is an owned string.
    pub fn text_string(name: &str, value: String) -> (r: Attr)
        ensures
            r@ == (AttrV { name: name@, value: AttrValueV::Text(value@) }),
    {
        Attr { name: name.to_owned(), value: AttrValue::Text(value) }
    }

    /// A click binding: when the node fires, the given message is produced
    /// and handed to the runtime's dispatch.
    pub fn on_click(m: Msg) -> (r: Attr)
        ensures
            r@ == (AttrV { name: "on_click"@, value: AttrValueV::Listener(m@) }),
    {
        Attr { name: "on_click".to_owned(), value: AttrValue::Listener(m) }
    }
}

impl Node {
    /// A text leaf.
    pub fn text(s: &str) -> (r: Node)
        ensures
            r@ == NodeV::Text(s@),
    {
        Node::Text(s.to_owned())
    }

    /// A text leaf holding an owned string.
    pub fn text_string(s: String) -> (r: Node)
        ensures
            r@ == NodeV::Text(s@),
    {
        Node::Text(s)
    }

    /// An element node with the given tag, attributes and children.
    pub fn element(tag: &str, attrs: Vec<Attr>, children: Vec<Node>) -> (r: Node)
        ensures
            r@ == NodeV::Element(
                ElementV { tag: tag@, attrs: attrs_view(attrs@), children: nodes_v(children@) },
            ),
    {
        Node::Element(Element { tag: tag.to_owned(), attrs, children })
    }
}

} // verus!
