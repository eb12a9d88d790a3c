//! The home page: a static view with no state of its own.

use vstd::prelude::*;
use crate::dom::{Class, Element, Node, Tag, VElement, VNode, node_view, nodes_view};

verus! {

/// The shape of the page's view.
pub open spec fn view_spec<M>() -> VNode<M> {
    VNode::Element(
        VElement {
            tag: Tag::Div,
            classes: Seq::<Class>::empty(),
            href: Option::None,
            on_click: Option::None,
            children: seq![VNode::Text("Home"@)],
        },
    )
}

/// The page's pure view; it emits no messages, so its handler type is free.
pub fn view<M>() -> (node: Node<M>)
    ensures
        node_view(node) == view_spec::<M>(),
{
    let mut children: Vec<Node<M>> = Vec::new();
    children.push(Node::Text(String::from_str("Home")));
    let ghost cs = children@;
    let node = Node::Element(
        Element {
            tag: Tag::Div,
            classes: Vec::new(),
            href: Option::None,
            on_click: Option::None,
            children,
        },
    );
    proof {
        crate::dom::lemma_nodes_view(cs);
        assert(nodes_view(cs) =~= seq![VNode::<M>::Text("Home"@)]);
        assert(node_view(node) =~~= view_spec::<M>());
    }
    node
}

} // verus!
