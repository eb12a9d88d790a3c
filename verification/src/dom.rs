//! A minimal UI tree, generic over the message type its event handlers emit.
//!
//! The shell's view composer produces values of this tree; the rendering
//! environment around the crate turns them into real DOM nodes. Styling is a
//! separate concern of that environment and carries no logic, so an element
//! holds only what the shell decides: tag, class tokens, link target, click
//! handler and children.

use vstd::prelude::*;
use crate::Url;

verus! {

/// The closed set of element names the shell emits.
#[derive(Clone, Copy, PartialEq, Eq, Structural, Debug)]
pub enum Tag {
    Div,
    Nav,
    A,
    Span,
    Strong,
}

/// The closed set of style-sheet class tokens the shell attaches to elements.
#[derive(Clone, Copy, PartialEq, Eq, Structural, Debug)]
pub enum Class {
    Container,
    Navbar,
    NavbarBrand,
    NavbarItem,
    NavbarBurger,
    NavbarMenu,
    NavbarStart,
    NavbarEnd,
    Buttons,
    Button,
    IsTab,
    IsActive,
    IsPrimary,
    IsLight,
}

/// A click handler: the message it emits, and whether the element stops the
/// click from propagating to the document-level listener.
#[derive(PartialEq, Eq, Debug)]
pub struct OnClick<M> {
    pub msg: M,
    pub stop_propagation: bool,
}

/// One node of the UI tree.
#[derive(PartialEq, Eq, Debug)]
pub enum Node<M> {
    Text(String),
    Element(Element<M>),
}

/// An element node.
#[derive(PartialEq, Eq, Debug)]
pub struct Element<M> {
    pub tag: Tag,
    pub classes: Vec<Class>,
    pub href: Option<Url>,
    pub on_click: Option<OnClick<M>>,
    pub children: Vec<Node<M>>,
}

/// The mathematical shape of a UI node: the same tree with sequences in
/// place of vectors and character sequences in place of strings. Two nodes
/// with equal shapes are structurally identical.
#[verifier::ext_equal]
pub enum VNode<M> {
    Text(Seq<char>),
    Element(VElement<M>),
}

/// The mathematical shape of an element node.
#[verifier::ext_equal]
pub struct VElement<M> {
    pub tag: Tag,
    pub classes: Seq<Class>,
    pub href: Option<Seq<Seq<char>>>,
    pub on_click: Option<OnClick<M>>,
    pub children: Seq<VNode<M>>,
}

/// The shape of a node.
pub open spec fn node_view<M>(n: Node<M>) -> VNode<M>
    decreases n,
{
    match n {
        Node::Text(s) => VNode::Text(s@),
        Node::Element(e) => VNode::Element(VElement {
            tag: e.tag,
            classes: e.classes@,
            href: match e.href {
                Option::Some(u) => Option::Some(u@),
                Option::None => Option::None,
            },
            on_click: e.on_click,
            children: {
                proof {
                    assert(decreases_to!(n => e));
                    assert(decreases_to!(e => e.children));
                    assert(decreases_to!(e.children => e.children@));
                }
                nodes_view(e.children@)
            },
        }),
    }
}

/// The shapes of a sequence of sibling nodes.
pub open spec fn nodes_view<M>(s: Seq<Node<M>>) -> Seq<VNode<M>>
    decreases s,
{
    if s.len() == 0 {
        Seq::empty()
    } else {
        seq![node_view(s[0])] + nodes_view(s.drop_first())
    }
}

/// `nodes_view` is the element-wise shape of its input.
pub broadcast proof fn lemma_nodes_view<M>(s: Seq<Node<M>>)
    ensures
        (#[trigger] nodes_view(s)).len() == s.len(),
        forall|i: int| 0 <= i < s.len() ==> nodes_view(s)[i] == node_view(s[i]),
    decreases s,
{
    if s.len() == 0 {
    } else {
        lemma_nodes_view(s.drop_first());
    }
}

/// Rewrites every handler message of a node through `f`, leaving the rest of
/// the shape unchanged.
pub open spec fn vnode_map<A, B>(v: VNode<A>, f: spec_fn(A) -> B) -> VNode<B>
    decreases v,
{
    match v {
        VNode::Text(s) => VNode::Text(s),
        VNode::Element(e) => VNode::Element(VElement {
            tag: e.tag,
            classes: e.classes,
            href: e.href,
            on_click: match e.on_click {
                Option::Some(oc) => Option::Some(
                    OnClick { msg: f(oc.msg), stop_propagation: oc.stop_propagation },
                ),
                Option::None => Option::None,
            },
            children: {
                proof {
                    assert(decreases_to!(v => e));
                    assert(decreases_to!(e => e.children));
                }
                vnodes_map(e.children, f)
            },
        }),
    }
}

/// Rewrites every handler message of a sequence of sibling nodes through `f`.
pub open spec fn vnodes_map<A, B>(s: Seq<VNode<A>>, f: spec_fn(A) -> B) -> Seq<VNode<B>>
    decreases s,
{
    if s.len() == 0 {
        Seq::empty()
    } else {
        seq![vnode_map(s[0], f)] + vnodes_map(s.drop_first(), f)
    }
}

/// `vnodes_map` is the element-wise message rewrite of its input.
pub broadcast proof fn lemma_vnodes_map<A, B>(s: Seq<VNode<A>>, f: spec_fn(A) -> B)
    ensures
        (#[trigger] vnodes_map(s, f)).len() == s.len(),
        forall|i: int| 0 <= i < s.len() ==> vnodes_map(s, f)[i] == vnode_map(s[i], f),
    decreases s,
{
    if s.len() == 0 {
    } else {
        lemma_vnodes_map(s.drop_first(), f);
    }
}

} // verus!
