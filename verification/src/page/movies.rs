//! The movie-list page: an independently stateful collaborator of the shell.
//! Its editing flow is intentionally inert — no message changes its state —
//! but it owns its state exclusively and keeps its own well-formedness.

use vstd::prelude::*;
use crate::Sink;
use crate::Url;
use crate::dom::{Class, Element, Node, Tag, VElement, VNode, node_view, nodes_view};

verus! {

/// A movie's identity, as the 128-bit value the shell reads of it.
pub type MovieId = u128;

/// One movie record.
#[derive(PartialEq, Eq, Debug)]
pub struct Movie {
    pub name: String,
}

/// Data owned by a remote source, in the three states a request can be in.
#[derive(PartialEq, Eq, Debug)]
pub enum RemoteData<T> {
    NotAsked,
    Loading,
    Loaded(T),
}

/// Whether local edits have been written back, and when; a save time is a
/// local timestamp in whole seconds.
#[derive(Clone, Copy, PartialEq, Eq, Structural, Debug)]
pub enum ChangesStatus {
    NoChanges,
    Saving { requests_in_flight: usize },
    Saved(i64),
}

/// The page's own state.
#[derive(PartialEq, Eq, Debug)]
pub struct Model {
    pub changes_status: ChangesStatus,
    pub errors: Vec<String>,
    pub clients: RemoteData<Vec<(MovieId, Movie)>>,
}

/// The page's own messages. A fetch that fails carries the failure's text.
#[derive(PartialEq, Eq, Debug)]
pub enum Msg {
    MoviesFetched(Result<Vec<(MovieId, Movie)>, String>),
    ChangesSaved(Option<String>),
    ClearErrors,
    AddMovie,
    DeleteMovie(MovieId),
}

/// Entries of a loaded movie map are strictly sorted by id, so each id owns
/// one entry.
pub open spec fn keys_sorted(entries: Seq<(MovieId, Movie)>) -> bool {
    forall|i: int, j: int| 0 <= i < j < entries.len() ==> entries[i].0 < entries[j].0
}

/// Well-formedness of the page state.
pub open spec fn wf(m: Model) -> bool {
    match m.clients {
        RemoteData::Loaded(entries) => keys_sorted(entries@),
        _ => true,
    }
}

/// The state `init` hands out: nothing fetched, nothing failed, nothing
/// saved.
pub open spec fn fresh(m: Model) -> bool {
    &&& m.changes_status == ChangesStatus::NoChanges
    &&& m.errors@.len() == 0
    &&& m.clients is NotAsked
}

/// Initializes the page from scratch. It emits no messages during
/// initialization.
pub fn init(url: Url, sink: &mut Sink<Msg>) -> (model: Model)
    ensures
        fresh(model),
        wf(model),
        *final(sink) == *old(sink),
{
    let _ = url;
    Model {
        changes_status: ChangesStatus::NoChanges,
        errors: Vec::new(),
        clients: RemoteData::NotAsked,
    }
}

/// Reacts to one of the page's own messages. None of them changes the state
/// or emits further messages: the page is an inert collaborator around the
/// shell's routing core.
pub fn update(msg: Msg, model: &mut Model, sink: &mut Sink<Msg>)
    ensures
        *final(model) == *old(model),
        *final(sink) == *old(sink),
{
    match msg {
        Msg::MoviesFetched(Result::Ok(_)) => {},
        Msg::MoviesFetched(Result::Err(_)) => {},
        Msg::ChangesSaved(Option::None) => {},
        Msg::ChangesSaved(Option::Some(_)) => {},
        Msg::ClearErrors => {},
        Msg::AddMovie => {},
        Msg::DeleteMovie(_) => {},
    }
}

/// The shape of the page's view: one plain container with its title text.
pub open spec fn view_spec(model: Model) -> VNode<Msg> {
    VNode::Element(
        VElement {
            tag: Tag::Div,
            classes: Seq::<Class>::empty(),
            href: Option::None,
            on_click: Option::None,
            children: seq![VNode::Text("Movies view"@)],
        },
    )
}

/// The page's own pure view.
pub fn view(model: &Model) -> (node: Node<Msg>)
    ensures
        node_view(node) == view_spec(*model),
{
    let _ = model;
    let mut children: Vec<Node<Msg>> = Vec::new();
    children.push(Node::Text(String::from_str("Movies view")));
    let ghost cs = children@;
    let node = Node::Element(
        Element {
            tag: Tag::Div,
            classes: Vec::new(),
            href: Option::None,
            on_click: Option::None,
            children,
        },
    );
    proof {
        crate::dom::lemma_nodes_view(cs);
        assert(nodes_view(cs) =~= seq![VNode::<Msg>::Text("Movies view"@)]);
        assert(node_view(node) =~~= view_spec(*model));
    }
    node
}

} // verus!
