//! The settings page: a small, independently stateful collaborator of the
//! shell. It keeps a list of error texts and can clear it from its own view.

use vstd::prelude::*;
use crate::Sink;
use crate::Url;
use crate::dom::{Class, Element, Node, OnClick, Tag, VElement, VNode, node_view, nodes_view};

verus! {

/// The page's own state.
#[derive(PartialEq, Eq, Debug)]
pub struct Model {
    pub errors: Vec<String>,
}

/// The page's own messages.
#[derive(Clone, Copy, PartialEq, Eq, Structural, Debug)]
pub enum Msg {
    ClearErrors,
}

/// The state `init` hands out: no errors recorded.
pub open spec fn fresh(m: Model) -> bool {
    m.errors@.len() == 0
}

/// How one of the page's own messages rewrites its state.
pub open spec fn updates_to(msg: Msg, m0: Model, m1: Model) -> bool {
    match msg {
        Msg::ClearErrors => m1.errors@.len() == 0,
    }
}

/// Initializes the page from scratch. It emits no messages during
/// initialization.
pub fn init(url: Url, sink: &mut Sink<Msg>) -> (model: Model)
    ensures
        fresh(model),
        *final(sink) == *old(sink),
{
    let _ = url;
    Model { errors: Vec::new() }
}

/// Reacts to one of the page's own messages, emitting none in turn.
pub fn update(msg: Msg, model: &mut Model, sink: &mut Sink<Msg>)
    ensures
        updates_to(msg, *old(model), *final(model)),
        *final(sink) == *old(sink),
{
    match msg {
        Msg::ClearErrors => {
            model.errors = Vec::new();
        },
    }
}

/// The shape of the page's view: the title text beside a button that clears
/// the recorded errors.
pub open spec fn view_spec(model: Model) -> VNode<Msg> {
    VNode::Element(
        VElement {
            tag: Tag::Div,
            classes: Seq::<Class>::empty(),
            href: Option::None,
            on_click: Option::None,
            children: seq![
                VNode::Text("Settings view"@),
                VNode::Element(
                    VElement {
                        tag: Tag::A,
                        classes: seq![Class::Button],
                        href: Option::None,
                        on_click: Option::Some(
                            OnClick { msg: Msg::ClearErrors, stop_propagation: false },
                        ),
                        children: Seq::<VNode<Msg>>::empty(),
                    },
                ),
            ],
        },
    )
}

/// The page's own pure view.
pub fn view(model: &Model) -> (node: Node<Msg>)
    ensures
        node_view(node) == view_spec(*model),
{
    let _ = model;
    let mut classes: Vec<Class> = Vec::new();
    classes.push(Class::Button);
    let button = Node::Element(
        Element {
            tag: Tag::A,
            classes,
            href: Option::None,
            on_click: Option::Some(OnClick { msg: Msg::ClearErrors, stop_propagation: false }),
            children: Vec::new(),
        },
    );
    let ghost bv = node_view(button);
    let mut children: Vec<Node<Msg>> = Vec::new();
    children.push(Node::Text(String::from_str("Settings view")));
    children.push(button);
    let ghost cs = children@;
    let node = Node::Element(
        Element {
            tag: Tag::Div,
            classes: Vec::new(),
            href: Option::None,
            on_click: Option::None,
            children,
        },
    );
    proof {
        crate::dom::lemma_nodes_view(cs);
        assert(nodes_view(cs) =~= seq![VNode::<Msg>::Text("Settings view"@), bv]);
        assert(node_view(node) =~~= view_spec(*model));
    }
    node
}

} // verus!
