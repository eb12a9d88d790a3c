//! The view composer: a pure function from the root state to the UI tree.
//! It delegates to the active page's own view, wraps that page's message
//! type into the root message type, and merges the result with the
//! always-present shell (navigation bar and menu).

use vstd::prelude::*;
use crate::dom::{
    Class, Element, Node, OnClick, Tag, VElement, VNode, lemma_nodes_view, lemma_vnodes_map,
    node_view, nodes_view, vnode_map, vnodes_map,
};
use crate::page;
use crate::{Model, Msg, Page, Url, Urls, User};

verus! {

/// The wrapper that scopes a movie-page message to its variant of the root
/// message type.
pub open spec fn wrap_movies() -> spec_fn(page::movies::Msg) -> Msg {
    |s: page::movies::Msg| Msg::MoviesMsg(s)
}

/// The wrapper that scopes a settings-page message to its variant of the
/// root message type.
pub open spec fn wrap_settings() -> spec_fn(page::settings::Msg) -> Msg {
    |s: page::settings::Msg| Msg::SettingsMsg(s)
}

/// Rewrites a movie-page node into a root node: every message a handler
/// emits is wrapped in its root variant; nothing else changes.
#[verifier::loop_isolation(false)]
fn map_movies_node(n: Node<page::movies::Msg>) -> (r: Node<Msg>)
    ensures
        node_view(r) == vnode_map(node_view(n), wrap_movies()),
    decreases n,
{
    let ghost gn = n;
    match n {
        Node::Text(s) => Node::Text(s),
        Node::Element(e) => {
            let ghost ge = e;
            let Element { tag, classes, href, on_click, children } = e;
            let ghost gchildren = children@;
            proof {
                assert(decreases_to!(gn => ge));
                assert(decreases_to!(ge => ge.children));
                assert(decreases_to!(ge.children => ge.children@));
            }
            let mut rest = children;
            let mut mapped: Vec<Node<Msg>> = Vec::new();
            while rest.len() > 0
                invariant
                    rest@.len() <= gchildren.len(),
                    gchildren.skip(gchildren.len() - rest@.len()) =~= rest@,
                    mapped@.len() == gchildren.len() - rest@.len(),
                    forall|i: int|
                        0 <= i < mapped@.len() ==> node_view(mapped@[i]) == vnode_map(
                            node_view(gchildren[i]),
                            wrap_movies(),
                        ),
                    decreases_to!(gn => gchildren),
                decreases rest@.len(),
            {
                let ghost k = gchildren.len() - rest@.len();
                let c = rest.remove(0);
                proof {
                    assert(c == gchildren[k]);
                    assert(decreases_to!(gchildren => gchildren[k]));
                    assert(decreases_to!(gn => c));
                }
                let mc = map_movies_node(c);
                mapped.push(mc);
                proof {
                    assert(gchildren.skip(gchildren.len() - rest@.len()) =~= rest@);
                }
            }
            let mapped_click = match on_click {
                Option::Some(oc) => Option::Some(
                    OnClick { msg: Msg::MoviesMsg(oc.msg), stop_propagation: oc.stop_propagation },
                ),
                Option::None => Option::None,
            };
            let r = Node::Element(
                Element { tag, classes, href, on_click: mapped_click, children: mapped },
            );
            proof {
                lemma_nodes_view(mapped@);
                lemma_nodes_view(gchildren);
                lemma_vnodes_map(nodes_view(gchildren), wrap_movies());
                assert(nodes_view(mapped@) =~= vnodes_map(nodes_view(gchildren), wrap_movies()));
                assert(node_view(r) =~~= vnode_map(node_view(gn), wrap_movies()));
            }
            r
        },
    }
}

/// Rewrites a settings-page node into a root node, as `map_movies_node`
/// does for the movie page.
#[verifier::loop_isolation(false)]
fn map_settings_node(n: Node<page::settings::Msg>) -> (r: Node<Msg>)
    ensures
        node_view(r) == vnode_map(node_view(n), wrap_settings()),
    decreases n,
{
    let ghost gn = n;
    match n {
        Node::Text(s) => Node::Text(s),
        Node::Element(e) => {
            let ghost ge = e;
            let Element { tag, classes, href, on_click, children } = e;
            let ghost gchildren = children@;
            proof {
                assert(decreases_to!(gn => ge));
                assert(decreases_to!(ge => ge.children));
                assert(decreases_to!(ge.children => ge.children@));
            }
            let mut rest = children;
            let mut mapped: Vec<Node<Msg>> = Vec::new();
            while rest.len() > 0
                invariant
                    rest@.len() <= gchildren.len(),
                    gchildren.skip(gchildren.len() - rest@.len()) =~= rest@,
                    mapped@.len() == gchildren.len() - rest@.len(),
                    forall|i: int|
                        0 <= i < mapped@.len() ==> node_view(mapped@[i]) == vnode_map(
                            node_view(gchildren[i]),
                            wrap_settings(),
                        ),
                    decreases_to!(gn => gchildren),
                decreases rest@.len(),
            {
                let ghost k = gchildren.len() - rest@.len();
                let c = rest.remove(0);
                proof {
                    assert(c == gchildren[k]);
                    assert(decreases_to!(gchildren => gchildren[k]));
                    assert(decreases_to!(gn => c));
                }
                let mc = map_settings_node(c);
                mapped.push(mc);
                proof {
                    assert(gchildren.skip(gchildren.len() - rest@.len()) =~= rest@);
                }
            }
            let mapped_click = match on_click {
                Option::Some(oc) => Option::Some(
                    OnClick {
                        msg: Msg::SettingsMsg(oc.msg),
                        stop_propagation: oc.stop_propagation,
                    },
                ),
                Option::None => Option::None,
            };
            let r = Node::Element(
                Element { tag, classes, href, on_click: mapped_click, children: mapped },
            );
            proof {
                lemma_nodes_view(mapped@);
                lemma_nodes_view(gchildren);
                lemma_vnodes_map(nodes_view(gchildren), wrap_settings());
                assert(nodes_view(mapped@) =~= vnodes_map(nodes_view(gchildren), wrap_settings()));
                assert(node_view(r) =~~= vnode_map(node_view(gn), wrap_settings()));
            }
            r
        },
    }
}

/// The shape of the content area: the container, holding the active page's
/// own view with its messages wrapped for the root.
pub open spec fn content_spec(p: Page) -> VNode<Msg> {
    VNode::Element(
        VElement {
            tag: Tag::Div,
            classes: seq![Class::Container],
            href: Option::None,
            on_click: Option::None,
            children: seq![
                match p {
                    Page::Home => page::home::view_spec::<Msg>(),
                    Page::Movies(m) => vnode_map(page::movies::view_spec(m), wrap_movies()),
                    Page::Settings(m) => vnode_map(page::settings::view_spec(m), wrap_settings()),
                    Page::NotFound => page::not_found::view_spec::<Msg>(),
                },
            ],
        },
    )
}

/// Renders the content area for the active page.
pub fn view_content(page: &Page) -> (node: Node<Msg>)
    ensures
        node_view(node) == content_spec(*page),
{
    let inner: Node<Msg> = match page {
        Page::Home => page::home::view(),
        Page::Movies(model) => map_movies_node(page::movies::view(model)),
        Page::Settings(model) => map_settings_node(page::settings::view(model)),
        Page::NotFound => page::not_found::view(),
    };
    let ghost vinner = node_view(inner);
    let mut classes: Vec<Class> = Vec::new();
    classes.push(Class::Container);
    let ghost gcl = classes@;
    let mut children: Vec<Node<Msg>> = Vec::new();
    children.push(inner);
    let ghost cs = children@;
    let node = Node::Element(
        Element { tag: Tag::Div, classes, href: Option::None, on_click: Option::None, children },
    );
    proof {
        lemma_nodes_view(cs);
        assert(gcl =~= seq![Class::Container]);
        assert(nodes_view(cs) =~= seq![vinner]);
        assert(node_view(node) =~~= content_spec(*page));
    }
    node
}

/// The shape of one hamburger line. The line's placement by index and its
/// animation when the menu is open are styling concerns outside the shell.
pub open spec fn hamburger_line_spec(index: u8, menu_visible: bool) -> VNode<Msg> {
    VNode::Element(
        VElement {
            tag: Tag::Span,
            classes: Seq::<Class>::empty(),
            href: Option::None,
            on_click: Option::None,
            children: Seq::<VNode<Msg>>::empty(),
        },
    )
}

/// Renders one of the hamburger's three lines; there is no fourth.
pub fn view_hamburger_line(index: u8, menu_visible: bool) -> (node: Node<Msg>)
    requires
        index < 3,
    ensures
        node_view(node) == hamburger_line_spec(index, menu_visible),
{
    let _ = index;
    let _ = menu_visible;
    let node = Node::Element(
        Element {
            tag: Tag::Span,
            classes: Vec::new(),
            href: Option::None,
            on_click: Option::None,
            children: Vec::new(),
        },
    );
    proof {
        assert(node_view(node) =~~= hamburger_line_spec(index, menu_visible));
    }
    node
}

/// The shape of the brand-and-hamburger block: the logo link home, and the
/// hamburger that toggles the menu. The hamburger stops the propagation of
/// its own clicks, so that toggling the menu open is not immediately undone
/// by the document-level click listener.
pub open spec fn brand_and_hamburger_spec(menu_visible: bool, base: Seq<Seq<char>>) -> VNode<
    Msg,
> {
    VNode::Element(
        VElement {
            tag: Tag::Div,
            classes: seq![Class::NavbarBrand],
            href: Option::None,
            on_click: Option::None,
            children: seq![
                VNode::Element(
                    VElement {
                        tag: Tag::A,
                        classes: seq![Class::NavbarItem],
                        href: Option::Some(base),
                        on_click: Option::None,
                        children: seq![VNode::Text("SM"@)],
                    },
                ),
                VNode::Element(
                    VElement {
                        tag: Tag::A,
                        classes: if menu_visible {
                            seq![Class::NavbarBurger, Class::IsActive]
                        } else {
                            seq![Class::NavbarBurger]
                        },
                        href: Option::None,
                        on_click: Option::Some(
                            OnClick { msg: Msg::ToggleMenu, stop_propagation: true },
                        ),
                        children: seq![
                            hamburger_line_spec(0, menu_visible),
                            hamburger_line_spec(1, menu_visible),
                            hamburger_line_spec(2, menu_visible),
                        ],
                    },
                ),
            ],
        },
    )
}

/// Renders the navigation bar's brand block: logo and hamburger.
pub fn view_brand_and_hamburger(menu_visible: bool, base_url: &Url) -> (node: Node<Msg>)
    ensures
        node_view(node) == brand_and_hamburger_spec(menu_visible, base_url@),
{
    let mut logo_classes: Vec<Class> = Vec::new();
    logo_classes.push(Class::NavbarItem);
    let ghost glogo_cl = logo_classes@;
    let mut logo_children: Vec<Node<Msg>> = Vec::new();
    logo_children.push(Node::Text(String::from_str("SM")));
    let ghost glc = logo_children@;
    let logo = Node::Element(
        Element {
            tag: Tag::A,
            classes: logo_classes,
            href: Option::Some(Urls::new(base_url).home()),
            on_click: Option::None,
            children: logo_children,
        },
    );
    let ghost vlogo = node_view(logo);

    let mut burger_classes: Vec<Class> = Vec::new();
    burger_classes.push(Class::NavbarBurger);
    if menu_visible {
        burger_classes.push(Class::IsActive);
    }
    let ghost gburger_cl = burger_classes@;
    proof {
        if menu_visible {
            assert(gburger_cl =~= seq![Class::NavbarBurger, Class::IsActive]);
        } else {
            assert(gburger_cl =~= seq![Class::NavbarBurger]);
        }
    }
    let mut lines: Vec<Node<Msg>> = Vec::new();
    let mut index: u8 = 0;
    while index < 3
        invariant
            index <= 3,
            lines@.len() == index as int,
            forall|i: int|
                0 <= i < lines@.len() ==> node_view(lines@[i]) == hamburger_line_spec(
                    i as u8,
                    menu_visible,
                ),
        decreases 3 - index as int,
    {
        let line = view_hamburger_line(index, menu_visible);
        lines.push(line);
        index = index + 1;
    }
    let ghost gl = lines@;
    let burger = Node::Element(
        Element {
            tag: Tag::A,
            classes: burger_classes,
            href: Option::None,
            on_click: Option::Some(OnClick { msg: Msg::ToggleMenu, stop_propagation: true }),
            children: lines,
        },
    );
    let ghost vburger = node_view(burger);

    let mut classes: Vec<Class> = Vec::new();
    classes.push(Class::NavbarBrand);
    let ghost gcl = classes@;
    let mut children: Vec<Node<Msg>> = Vec::new();
    children.push(logo);
    children.push(burger);
    let ghost cs = children@;
    let node = Node::Element(
        Element { tag: Tag::Div, classes, href: Option::None, on_click: Option::None, children },
    );
    proof {
        lemma_nodes_view(glc);
        assert(glogo_cl =~= seq![Class::NavbarItem]);
        assert(gcl =~= seq![Class::NavbarBrand]);
        assert(nodes_view(glc) =~= seq![VNode::<Msg>::Text("SM"@)]);
        lemma_nodes_view(gl);
        assert(nodes_view(gl) =~= seq![
            hamburger_line_spec(0, menu_visible),
            hamburger_line_spec(1, menu_visible),
            hamburger_line_spec(2, menu_visible),
        ]);
        lemma_nodes_view(cs);
        assert(nodes_view(cs) =~= seq![vlogo, vburger]);
        assert(node_view(node) =~~= brand_and_hamburger_spec(menu_visible, base_url@));
    }
    node
}

/// The shape of the menu's start block: the tab that links to the movie
/// page, marked active while that page is the one shown.
pub open spec fn navbar_menu_start_spec(base: Seq<Seq<char>>, p: Page) -> VNode<Msg> {
    VNode::Element(
        VElement {
            tag: Tag::Div,
            classes: seq![Class::NavbarStart],
            href: Option::None,
            on_click: Option::None,
            children: seq![
                VNode::Element(
                    VElement {
                        tag: Tag::A,
                        classes: if p is Movies {
                            seq![Class::NavbarItem, Class::IsTab, Class::IsActive]
                        } else {
                            seq![Class::NavbarItem, Class::IsTab]
                        },
                        href: Option::Some(base.push("movies"@)),
                        on_click: Option::None,
                        children: seq![VNode::Text("Movies"@)],
                    },
                ),
            ],
        },
    )
}

/// Renders the menu's start block.
pub fn view_navbar_menu_start(base_url: &Url, page: &Page) -> (node: Node<Msg>)
    ensures
        node_view(node) == navbar_menu_start_spec(base_url@, *page),
{
    let is_active = matches!(page, Page::Movies(_));
    let mut link_classes: Vec<Class> = Vec::new();
    link_classes.push(Class::NavbarItem);
    link_classes.push(Class::IsTab);
    if is_active {
        link_classes.push(Class::IsActive);
    }
    let ghost glink_cl = link_classes@;
    proof {
        if is_active {
            assert(glink_cl =~= seq![Class::NavbarItem, Class::IsTab, Class::IsActive]);
        } else {
            assert(glink_cl =~= seq![Class::NavbarItem, Class::IsTab]);
        }
    }
    let mut link_children: Vec<Node<Msg>> = Vec::new();
    link_children.push(Node::Text(String::from_str("Movies")));
    let ghost glc = link_children@;
    let link = Node::Element(
        Element {
            tag: Tag::A,
            classes: link_classes,
            href: Option::Some(Urls::new(base_url).movies()),
            on_click: Option::None,
            children: link_children,
        },
    );
    let ghost vlink = node_view(link);
    let mut classes: Vec<Class> = Vec::new();
    classes.push(Class::NavbarStart);
    let ghost gcl = classes@;
    let mut children: Vec<Node<Msg>> = Vec::new();
    children.push(link);
    let ghost cs = children@;
    let node = Node::Element(
        Element { tag: Tag::Div, classes, href: Option::None, on_click: Option::None, children },
    );
    proof {
        lemma_nodes_view(glc);
        assert(gcl =~= seq![Class::NavbarStart]);
        assert(nodes_view(glc) =~= seq![VNode::<Msg>::Text("Movies"@)]);
        lemma_nodes_view(cs);
        assert(nodes_view(cs) =~= seq![vlink]);
        assert(node_view(node) =~~= navbar_menu_start_spec(base_url@, *page));
    }
    node
}

/// The shape of the account buttons for a signed-in user: their name links
/// to the settings page, beside a plain log-out link back to the root.
pub open spec fn buttons_for_logged_in_user_spec(base: Seq<Seq<char>>, user: User) -> Seq<
    VNode<Msg>,
> {
    seq![
        VNode::Element(
            VElement {
                tag: Tag::A,
                classes: seq![Class::Button, Class::IsPrimary],
                href: Option::Some(base.push("settings"@)),
                on_click: Option::None,
                children: seq![
                    VNode::Element(
                        VElement {
                            tag: Tag::Strong,
                            classes: Seq::<Class>::empty(),
                            href: Option::None,
                            on_click: Option::None,
                            children: seq![VNode::Text(user.username@)],
                        },
                    ),
                ],
            },
        ),
        VNode::Element(
            VElement {
                tag: Tag::A,
                classes: seq![Class::Button, Class::IsLight],
                href: Option::Some(Seq::<Seq<char>>::empty()),
                on_click: Option::None,
                children: seq![VNode::Text("Log out"@)],
            },
        ),
    ]
}

/// Renders the account buttons for a signed-in user.
pub fn view_buttons_for_logged_in_user(base_url: &Url, user: &User) -> (nodes: Vec<Node<Msg>>)
    ensures
        nodes_view(nodes@) == buttons_for_logged_in_user_spec(base_url@, *user),
{
    let mut strong_children: Vec<Node<Msg>> = Vec::new();
    strong_children.push(Node::Text(user.username.clone()));
    let ghost gsc = strong_children@;
    let name = Node::Element(
        Element {
            tag: Tag::Strong,
            classes: Vec::new(),
            href: Option::None,
            on_click: Option::None,
            children: strong_children,
        },
    );
    let ghost vname = node_view(name);

    let mut primary_classes: Vec<Class> = Vec::new();
    primary_classes.push(Class::Button);
    primary_classes.push(Class::IsPrimary);
    let ghost gprim_cl = primary_classes@;
    let mut primary_children: Vec<Node<Msg>> = Vec::new();
    primary_children.push(name);
    let ghost gpc = primary_children@;
    let settings_button = Node::Element(
        Element {
            tag: Tag::A,
            classes: primary_classes,
            href: Option::Some(Urls::new(base_url).settings()),
            on_click: Option::None,
            children: primary_children,
        },
    );
    let ghost vsettings = node_view(settings_button);

    let mut light_classes: Vec<Class> = Vec::new();
    light_classes.push(Class::Button);
    light_classes.push(Class::IsLight);
    let ghost glight_cl = light_classes@;
    let mut light_children: Vec<Node<Msg>> = Vec::new();
    light_children.push(Node::Text(String::from_str("Log out")));
    let ghost glc = light_children@;
    let root_url = Url { path: Vec::new() };
    proof {
        assert(root_url@ =~= Seq::<Seq<char>>::empty());
    }
    let logout_button = Node::Element(
        Element {
            tag: Tag::A,
            classes: light_classes,
            href: Option::Some(root_url),
            on_click: Option::None,
            children: light_children,
        },
    );
    let ghost vlogout = node_view(logout_button);

    let mut nodes: Vec<Node<Msg>> = Vec::new();
    nodes.push(settings_button);
    nodes.push(logout_button);
    proof {
        lemma_nodes_view(gsc);
        assert(gprim_cl =~= seq![Class::Button, Class::IsPrimary]);
        assert(glight_cl =~= seq![Class::Button, Class::IsLight]);
        assert(nodes_view(gsc) =~= seq![VNode::<Msg>::Text(user.username@)]);
        lemma_nodes_view(gpc);
        assert(nodes_view(gpc) =~= seq![vname]);
        lemma_nodes_view(glc);
        assert(nodes_view(glc) =~= seq![VNode::<Msg>::Text("Log out"@)]);
        lemma_nodes_view(nodes@);
        assert(nodes_view(nodes@) =~= seq![vsettings, vlogout]);
        assert(nodes_view(nodes@) =~~= buttons_for_logged_in_user_spec(base_url@, *user));
    }
    nodes
}

/// The shape of the account buttons shown to an anonymous visitor.
pub open spec fn buttons_for_anonymous_user_spec() -> Seq<VNode<Msg>> {
    seq![
        VNode::Element(
            VElement {
                tag: Tag::A,
                classes: seq![Class::Button, Class::IsPrimary],
                href: Option::Some(Seq::<Seq<char>>::empty()),
                on_click: Option::None,
                children: seq![
                    VNode::Element(
                        VElement {
                            tag: Tag::Strong,
                            classes: Seq::<Class>::empty(),
                            href: Option::None,
                            on_click: Option::None,
                            children: seq![VNode::Text("Sign up"@)],
                        },
                    ),
                ],
            },
        ),
        VNode::Element(
            VElement {
                tag: Tag::A,
                classes: seq![Class::Button, Class::IsLight],
                href: Option::Some(Seq::<Seq<char>>::empty()),
                on_click: Option::None,
                children: seq![VNode::Text("Log in"@)],
            },
        ),
    ]
}

/// Renders the account buttons for an anonymous visitor.
pub fn view_buttons_for_anonymous_user() -> (nodes: Vec<Node<Msg>>)
    ensures
        nodes_view(nodes@) == buttons_for_anonymous_user_spec(),
{
    let mut strong_children: Vec<Node<Msg>> = Vec::new();
    strong_children.push(Node::Text(String::from_str("Sign up")));
    let ghost gsc = strong_children@;
    let signup_text = Node::Element(
        Element {
            tag: Tag::Strong,
            classes: Vec::new(),
            href: Option::None,
            on_click: Option::None,
            children: strong_children,
        },
    );
    let ghost vsignup_text = node_view(signup_text);

    let mut primary_classes: Vec<Class> = Vec::new();
    primary_classes.push(Class::Button);
    primary_classes.push(Class::IsPrimary);
    let ghost gprim_cl = primary_classes@;
    let mut primary_children: Vec<Node<Msg>> = Vec::new();
    primary_children.push(signup_text);
    let ghost gpc = primary_children@;
    let signup_root = Url { path: Vec::new() };
    proof {
        assert(signup_root@ =~= Seq::<Seq<char>>::empty());
    }
    let signup_button = Node::Element(
        Element {
            tag: Tag::A,
            classes: primary_classes,
            href: Option::Some(signup_root),
            on_click: Option::None,
            children: primary_children,
        },
    );
    let ghost vsignup = node_view(signup_button);

    let mut light_classes: Vec<Class> = Vec::new();
    light_classes.push(Class::Button);
    light_classes.push(Class::IsLight);
    let ghost glight_cl = light_classes@;
    let mut light_children: Vec<Node<Msg>> = Vec::new();
    light_children.push(Node::Text(String::from_str("Log in")));
    let ghost glc = light_children@;
    let login_root = Url { path: Vec::new() };
    proof {
        assert(login_root@ =~= Seq::<Seq<char>>::empty());
    }
    let login_button = Node::Element(
        Element {
            tag: Tag::A,
            classes: light_classes,
            href: Option::Some(login_root),
            on_click: Option::None,
            children: light_children,
        },
    );
    let ghost vlogin = node_view(login_button);

    let mut nodes: Vec<Node<Msg>> = Vec::new();
    nodes.push(signup_button);
    nodes.push(login_button);
    proof {
        lemma_nodes_view(gsc);
        assert(gprim_cl =~= seq![Class::Button, Class::IsPrimary]);
        assert(glight_cl =~= seq![Class::Button, Class::IsLight]);
        assert(nodes_view(gsc) =~= seq![VNode::<Msg>::Text("Sign up"@)]);
        lemma_nodes_view(gpc);
        assert(nodes_view(gpc) =~= seq![vsignup_text]);
        lemma_nodes_view(glc);
        assert(nodes_view(glc) =~= seq![VNode::<Msg>::Text("Log in"@)]);
        lemma_nodes_view(nodes@);
        assert(nodes_view(nodes@) =~= seq![vsignup, vlogin]);
        assert(nodes_view(nodes@) =~~= buttons_for_anonymous_user_spec());
    }
    nodes
}

/// The shape of the menu's end block: the account buttons for the session's
/// user, or for an anonymous visitor.
pub open spec fn navbar_menu_end_spec(base: Seq<Seq<char>>, user: Option<User>) -> VNode<Msg> {
    VNode::Element(
        VElement {
            tag: Tag::Div,
            classes: seq![Class::NavbarEnd],
            href: Option::None,
            on_click: Option::None,
            children: seq![
                VNode::Element(
                    VElement {
                        tag: Tag::Div,
                        classes: seq![Class::NavbarItem],
                        href: Option::None,
                        on_click: Option::None,
                        children: seq![
                            VNode::Element(
                                VElement {
                                    tag: Tag::Div,
                                    classes: seq![Class::Buttons],
                                    href: Option::None,
                                    on_click: Option::None,
                                    children: match user {
                                        Option::Some(u) => buttons_for_logged_in_user_spec(
                                            base,
                                            u,
                                        ),
                                        Option::None => buttons_for_anonymous_user_spec(),
                                    },
                                },
                            ),
                        ],
                    },
                ),
            ],
        },
    )
}

/// Renders the menu's end block.
pub fn view_navbar_menu_end(base_url: &Url, user: &Option<User>) -> (node: Node<Msg>)
    ensures
        node_view(node) == navbar_menu_end_spec(base_url@, *user),
{
    let buttons: Vec<Node<Msg>> = match user {
        Option::Some(u) => view_buttons_for_logged_in_user(base_url, u),
        Option::None => view_buttons_for_anonymous_user(),
    };
    let ghost gb = buttons@;
    let mut buttons_classes: Vec<Class> = Vec::new();
    buttons_classes.push(Class::Buttons);
    let ghost gbtn_cl = buttons_classes@;
    let buttons_box = Node::Element(
        Element {
            tag: Tag::Div,
            classes: buttons_classes,
            href: Option::None,
            on_click: Option::None,
            children: buttons,
        },
    );
    let ghost vbox = node_view(buttons_box);
    let mut item_classes: Vec<Class> = Vec::new();
    item_classes.push(Class::NavbarItem);
    let ghost gitem_cl = item_classes@;
    let mut item_children: Vec<Node<Msg>> = Vec::new();
    item_children.push(buttons_box);
    let ghost gic = item_children@;
    let item = Node::Element(
        Element {
            tag: Tag::Div,
            classes: item_classes,
            href: Option::None,
            on_click: Option::None,
            children: item_children,
        },
    );
    let ghost vitem = node_view(item);
    let mut classes: Vec<Class> = Vec::new();
    classes.push(Class::NavbarEnd);
    let ghost gcl = classes@;
    let mut children: Vec<Node<Msg>> = Vec::new();
    children.push(item);
    let ghost cs = children@;
    let node = Node::Element(
        Element { tag: Tag::Div, classes, href: Option::None, on_click: Option::None, children },
    );
    proof {
        lemma_nodes_view(gic);
        assert(gbtn_cl =~= seq![Class::Buttons]);
        assert(gitem_cl =~= seq![Class::NavbarItem]);
        assert(gcl =~= seq![Class::NavbarEnd]);
        assert(nodes_view(gic) =~= seq![vbox]);
        lemma_nodes_view(cs);
        assert(nodes_view(cs) =~= seq![vitem]);
        assert(node_view(node) =~~= navbar_menu_end_spec(base_url@, *user));
    }
    node
}

/// The shape of the navigation menu: its start and end blocks, the whole
/// menu marked active while it is visible.
pub open spec fn navbar_menu_spec(
    menu_visible: bool,
    base: Seq<Seq<char>>,
    user: Option<User>,
    p: Page,
) -> VNode<Msg> {
    VNode::Element(
        VElement {
            tag: Tag::Div,
            classes: if menu_visible {
                seq![Class::NavbarMenu, Class::IsActive]
            } else {
                seq![Class::NavbarMenu]
            },
            href: Option::None,
            on_click: Option::None,
            children: seq![navbar_menu_start_spec(base, p), navbar_menu_end_spec(base, user)],
        },
    )
}

/// Renders the navigation menu.
pub fn view_navbar_menu(
    menu_visible: bool,
    base_url: &Url,
    user: &Option<User>,
    page: &Page,
) -> (node: Node<Msg>)
    ensures
        node_view(node) == navbar_menu_spec(menu_visible, base_url@, *user, *page),
{
    let start = view_navbar_menu_start(base_url, page);
    let ghost vstart = node_view(start);
    let end = view_navbar_menu_end(base_url, user);
    let ghost vend = node_view(end);
    let mut classes: Vec<Class> = Vec::new();
    classes.push(Class::NavbarMenu);
    if menu_visible {
        classes.push(Class::IsActive);
    }
    let ghost gcl = classes@;
    proof {
        if menu_visible {
            assert(gcl =~= seq![Class::NavbarMenu, Class::IsActive]);
        } else {
            assert(gcl =~= seq![Class::NavbarMenu]);
        }
    }
    let mut children: Vec<Node<Msg>> = Vec::new();
    children.push(start);
    children.push(end);
    let ghost cs = children@;
    let node = Node::Element(
        Element { tag: Tag::Div, classes, href: Option::None, on_click: Option::None, children },
    );
    proof {
        lemma_nodes_view(cs);
        assert(nodes_view(cs) =~= seq![vstart, vend]);
        assert(node_view(node) =~~= navbar_menu_spec(menu_visible, base_url@, *user, *page));
    }
    node
}

/// The shape of the navigation bar: the brand block and the menu.
pub open spec fn navbar_spec(
    menu_visible: bool,
    base: Seq<Seq<char>>,
    user: Option<User>,
    p: Page,
) -> VNode<Msg> {
    VNode::Element(
        VElement {
            tag: Tag::Nav,
            classes: seq![Class::Navbar],
            href: Option::None,
            on_click: Option::None,
            children: seq![
                brand_and_hamburger_spec(menu_visible, base),
                navbar_menu_spec(menu_visible, base, user, p),
            ],
        },
    )
}

/// Renders the navigation bar.
pub fn view_navbar(
    menu_visible: bool,
    base_url: &Url,
    user: &Option<User>,
    page: &Page,
) -> (node: Node<Msg>)
    ensures
        node_view(node) == navbar_spec(menu_visible, base_url@, *user, *page),
{
    let brand = view_brand_and_hamburger(menu_visible, base_url);
    let ghost vbrand = node_view(brand);
    let menu = view_navbar_menu(menu_visible, base_url, user, page);
    let ghost vmenu = node_view(menu);
    let mut classes: Vec<Class> = Vec::new();
    classes.push(Class::Navbar);
    let ghost gcl = classes@;
    let mut children: Vec<Node<Msg>> = Vec::new();
    children.push(brand);
    children.push(menu);
    let ghost cs = children@;
    let node = Node::Element(
        Element { tag: Tag::Nav, classes, href: Option::None, on_click: Option::None, children },
    );
    proof {
        lemma_nodes_view(cs);
        assert(gcl =~= seq![Class::Navbar]);
        assert(nodes_view(cs) =~= seq![vbrand, vmenu]);
        assert(node_view(node) =~~= navbar_spec(menu_visible, base_url@, *user, *page));
    }
    node
}

/// The shape of the whole UI for a root state: the shell's navigation bar,
/// then the content area of the active page. A pure function of the state —
/// equal states always have the same shape.
pub open spec fn view_spec(m: Model) -> Seq<VNode<Msg>> {
    seq![navbar_spec(m.menu_visible, m.base_url@, m.ctx.user, m.page), content_spec(m.page)]
}

/// The view composer: renders the root state, without mutating it.
pub fn view(model: &Model) -> (nodes: Vec<Node<Msg>>)
    ensures
        nodes_view(nodes@) == view_spec(*model),
{
    let navbar = view_navbar(model.menu_visible, &model.base_url, &model.ctx.user, &model.page);
    let ghost vnavbar = node_view(navbar);
    let content = view_content(&model.page);
    let ghost vcontent = node_view(content);
    let mut nodes: Vec<Node<Msg>> = Vec::new();
    nodes.push(navbar);
    nodes.push(content);
    proof {
        lemma_nodes_view(nodes@);
        assert(nodes_view(nodes@) =~= seq![vnavbar, vcontent]);
        assert(nodes_view(nodes@) =~~= view_spec(*model));
    }
    nodes
}

/// The view composer is idempotent: two renderings of one unchanged root
/// state — any two outputs `view` can return for it — are structurally
/// identical.
pub proof fn lemma_view_idempotent(m: Model, r1: Seq<Node<Msg>>, r2: Seq<Node<Msg>>)
    requires
        nodes_view(r1) == view_spec(m),
        nodes_view(r2) == view_spec(m),
    ensures
        nodes_view(r1) == nodes_view(r2),
{
}

} // verus!
