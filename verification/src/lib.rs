//! Shell of a single-page client application: a coordinator that owns the
//! global session context, routes URL paths to a closed set of pages,
//! multiplexes messages between the root dispatch loop and the active page,
//! and drives ephemeral UI state (menu visibility) from global events.
//!
//! The browser wiring itself (event subscriptions, rendering) is the
//! unverified edge around this crate; everything here is pure state and
//! message logic over plain values.

use vstd::prelude::*;

pub mod dom;
pub mod page;
pub mod view;

verus! {

/// What one dispatch asks of the runtime around the shell: further messages
/// to feed back into the single inbound queue, in order, and whether the
/// update was a no-visual-change skip, so that no re-render is owed.
pub struct Sink<M> {
    pub messages: Vec<M>,
    pub render_skipped: bool,
}

impl<M> Sink<M> {
    /// An empty sink, made fresh for each dispatch.
    pub fn new() -> (s: Sink<M>)
        ensures
            s.messages@ == Seq::<M>::empty(),
            !s.render_skipped,
    {
        Sink { messages: Vec::new(), render_skipped: false }
    }

    /// Queues one message behind those already emitted.
    pub fn send(&mut self, msg: M)
        ensures
            final(self).messages@ == old(self).messages@.push(msg),
            final(self).render_skipped == old(self).render_skipped,
    {
        self.messages.push(msg);
    }

    /// Marks the running update as a no-visual-change skip.
    pub fn skip(&mut self)
        ensures
            final(self).messages@ == old(self).messages@,
            final(self).render_skipped,
    {
        self.render_skipped = true;
    }
}

/// A URL, reduced to what the shell reads of it: the ordered literal path
/// segments relative to the application's mount point.
#[derive(Debug, PartialEq, Eq)]
pub struct Url {
    pub path: Vec<String>,
}

impl View for Url {
    type V = Seq<Seq<char>>;

    open spec fn view(&self) -> Seq<Seq<char>> {
        self.path.deep_view()
    }
}

impl Clone for Url {
    fn clone(&self) -> (r: Url)
        ensures
            r@ == self@,
    {
        let r = Url { path: self.path.clone() };
        proof {
            assert(r.path@ =~= self.path@);
            assert(r@ =~= self@);
        }
        r
    }
}

impl Url {
    /// The application is mounted at the URL root, so the base URL carries no
    /// path segments.
    pub fn to_base_url(&self) -> (r: Url)
        ensures
            r@ == Seq::<Seq<char>>::empty(),
    {
        let r = Url { path: Vec::new() };
        proof {
            assert(r@ =~= Seq::<Seq<char>>::empty());
        }
        r
    }

    /// Appends one literal segment to the path.
    pub fn add_path_part(self, part: &str) -> (r: Url)
        ensures
            r@ == self@.push(part@),
    {
        let mut path = self.path;
        path.push(String::from_str(part));
        let r = Url { path };
        proof {
            assert(r@ =~= self@.push(part@));
        }
        r
    }
}

/// Compares one path segment against a route literal.
fn seg_eq(seg: &String, lit: &str) -> (r: bool)
    ensures
        r == (seg@ == lit@),
{
    let l = String::from_str(lit);
    *seg == l
}

/// The authenticated identity of the session, when there is one.
#[derive(PartialEq, Eq, Debug)]
pub struct User {
    pub username: String,
    pub email: String,
}

/// Global session context: optional identity and optional auth token,
/// replaced wholesale on login or logout by the world outside the shell.
#[derive(PartialEq, Eq, Debug)]
pub struct Context {
    pub user: Option<User>,
    pub token: Option<String>,
}

/// The closed, tagged set of pages. Exactly one is active at a time, owned
/// by the root state; each stateful variant wraps its page's own state.
#[derive(PartialEq, Eq, Debug)]
pub enum Page {
    Home,
    Movies(page::movies::Model),
    Settings(page::settings::Model),
    NotFound,
}

/// The bare identity of a page, apart from any nested state.
#[derive(Clone, Copy, PartialEq, Eq, Structural, Debug)]
pub enum PageId {
    Home,
    Movies,
    Settings,
    NotFound,
}

impl Page {
    /// Which variant this page is.
    pub open spec fn id(self) -> PageId {
        match self {
            Page::Home => PageId::Home,
            Page::Movies(_) => PageId::Movies,
            Page::Settings(_) => PageId::Settings,
            Page::NotFound => PageId::NotFound,
        }
    }
}

/// Whether two sink states ask the same of the runtime: the same emitted
/// messages in the same order, and the same word on skipping the render.
pub open spec fn sink_same<M>(s0: Sink<M>, s1: Sink<M>) -> bool {
    &&& s1.messages@ == s0.messages@
    &&& s1.render_skipped == s0.render_skipped
}

/// The fixed route table over exact literal path segments: the empty path is
/// home, one known segment picks its page, and every other path misses.
pub open spec fn route(path: Seq<Seq<char>>) -> PageId {
    if path.len() == 0 {
        PageId::Home
    } else if path.len() == 1 && path[0] == "movies"@ {
        PageId::Movies
    } else if path.len() == 1 && path[0] == "settings"@ {
        PageId::Settings
    } else {
        PageId::NotFound
    }
}

/// The page the router hands out for a path: the routed variant, carrying a
/// freshly initialized state — never one kept from an earlier occupancy.
pub open spec fn routed_fresh(path: Seq<Seq<char>>, p: Page) -> bool {
    &&& p.id() == route(path)
    &&& match p {
        Page::Movies(m) => page::movies::fresh(m) && page::movies::wf(m),
        Page::Settings(m) => page::settings::fresh(m),
        _ => true,
    }
}

/// The root message type: root-level control messages, and one wrapper
/// variant per page carrying that page's own messages unmodified.
#[derive(PartialEq, Eq, Debug)]
pub enum Msg {
    UrlChanged(Url),
    ToggleMenu,
    HideMenu,
    MoviesMsg(page::movies::Msg),
    SettingsMsg(page::settings::Msg),
}

/// The root state: the single top-level mutable container, mutated only by
/// `update`.
#[derive(PartialEq, Eq, Debug)]
pub struct Model {
    pub ctx: Context,
    pub base_url: Url,
    pub page: Page,
    pub menu_visible: bool,
}

impl Page {
    /// The router: matches the URL's path segments against the route table
    /// and initializes the routed page from scratch. Total over all paths —
    /// an unknown path is a local miss, answered with the not-found page.
    /// Messages a page emits while initializing are forwarded into `sink`,
    /// wrapped in the page's own variant.
    pub fn init(url: Url, sink: &mut Sink<Msg>) -> (p: Page)
        ensures
            routed_fresh(url@, p),
            sink_same(*old(sink), *final(sink)),
    {
        proof {
            assert(url@.len() == url.path@.len());
        }
        if url.path.len() == 0 {
            Page::Home
        } else if url.path.len() == 1 && seg_eq(&url.path[0], "movies") {
            let mut sub: Sink<page::movies::Msg> = Sink::new();
            let m = page::movies::init(url, &mut sub);
            forward_movies(sub.messages, sink);
            proof {
                assert(sink.messages@ =~= old(sink).messages@);
            }
            Page::Movies(m)
        } else if url.path.len() == 1 && seg_eq(&url.path[0], "settings") {
            let mut sub: Sink<page::settings::Msg> = Sink::new();
            let m = page::settings::init(url, &mut sub);
            forward_settings(sub.messages, sink);
            proof {
                assert(sink.messages@ =~= old(sink).messages@);
            }
            Page::Settings(m)
        } else {
            Page::NotFound
        }
    }
}

/// Forwards a movie page's emitted messages into the root sink, each
/// wrapped in its own variant, in order and otherwise unmodified.
fn forward_movies(sub: Vec<page::movies::Msg>, sink: &mut Sink<Msg>)
    ensures
        final(sink).messages@.len() == old(sink).messages@.len() + sub@.len(),
        forall|i: int|
            0 <= i < old(sink).messages@.len() ==> final(sink).messages@[i] == old(
                sink,
            ).messages@[i],
        forall|i: int|
            0 <= i < sub@.len() ==> final(sink).messages@[old(sink).messages@.len() + i]
                == Msg::MoviesMsg(sub@[i]),
        final(sink).render_skipped == old(sink).render_skipped,
{
    let ghost subv = sub@;
    let ghost base = sink.messages@;
    let ghost skipped = sink.render_skipped;
    let mut rest = sub;
    while rest.len() > 0
        invariant
            rest@.len() <= subv.len(),
            subv.skip(subv.len() - rest@.len()) =~= rest@,
            sink.messages@.len() == base.len() + subv.len() - rest@.len(),
            forall|i: int| 0 <= i < base.len() ==> sink.messages@[i] == base[i],
            forall|i: int|
                0 <= i < subv.len() - rest@.len() ==> sink.messages@[base.len() + i]
                    == Msg::MoviesMsg(subv[i]),
            sink.render_skipped == skipped,
        decreases rest@.len(),
    {
        let ghost k = subv.len() - rest@.len();
        let m = rest.remove(0);
        sink.send(Msg::MoviesMsg(m));
        proof {
            assert(m == subv[k]);
            assert(subv.skip(subv.len() - rest@.len()) =~= rest@);
        }
    }
}

/// Forwards a settings page's emitted messages into the root sink, each
/// wrapped in its own variant, in order and otherwise unmodified.
fn forward_settings(sub: Vec<page::settings::Msg>, sink: &mut Sink<Msg>)
    ensures
        final(sink).messages@.len() == old(sink).messages@.len() + sub@.len(),
        forall|i: int|
            0 <= i < old(sink).messages@.len() ==> final(sink).messages@[i] == old(
                sink,
            ).messages@[i],
        forall|i: int|
            0 <= i < sub@.len() ==> final(sink).messages@[old(sink).messages@.len() + i]
                == Msg::SettingsMsg(sub@[i]),
        final(sink).render_skipped == old(sink).render_skipped,
{
    let ghost subv = sub@;
    let ghost base = sink.messages@;
    let ghost skipped = sink.render_skipped;
    let mut rest = sub;
    while rest.len() > 0
        invariant
            rest@.len() <= subv.len(),
            subv.skip(subv.len() - rest@.len()) =~= rest@,
            sink.messages@.len() == base.len() + subv.len() - rest@.len(),
            forall|i: int| 0 <= i < base.len() ==> sink.messages@[i] == base[i],
            forall|i: int|
                0 <= i < subv.len() - rest@.len() ==> sink.messages@[base.len() + i]
                    == Msg::SettingsMsg(subv[i]),
            sink.render_skipped == skipped,
        decreases rest@.len(),
    {
        let ghost k = subv.len() - rest@.len();
        let m = rest.remove(0);
        sink.send(Msg::SettingsMsg(m));
        proof {
            assert(m == subv[k]);
            assert(subv.skip(subv.len() - rest@.len()) =~= rest@);
        }
    }
}

/// How one message rewrites the root state. Exactly one of: mutate a
/// root-only field, replace the active page wholesale through the route
/// table, or forward to the active page's own update if and only if the
/// message's target variant equals the active page's variant — a mismatched
/// (stale) page message is a silent no-op.
pub open spec fn steps_to(msg: Msg, m0: Model, m1: Model) -> bool {
    match msg {
        Msg::UrlChanged(url) => {
            &&& routed_fresh(url@, m1.page)
            &&& m1.ctx == m0.ctx
            &&& m1.base_url == m0.base_url
            &&& m1.menu_visible == m0.menu_visible
        },
        Msg::ToggleMenu => {
            &&& m1.menu_visible == !m0.menu_visible
            &&& m1.ctx == m0.ctx
            &&& m1.base_url == m0.base_url
            &&& m1.page == m0.page
        },
        Msg::HideMenu => {
            &&& !m1.menu_visible
            &&& m1.ctx == m0.ctx
            &&& m1.base_url == m0.base_url
            &&& m1.page == m0.page
        },
        Msg::MoviesMsg(sub) => m1 == m0,
        Msg::SettingsMsg(sub) => match m0.page {
            Page::Settings(p0) => {
                &&& match m1.page {
                    Page::Settings(p1) => page::settings::updates_to(sub, p0, p1),
                    _ => false,
                }
                &&& m1.ctx == m0.ctx
                &&& m1.base_url == m0.base_url
                &&& m1.menu_visible == m0.menu_visible
            },
            _ => m1 == m0,
        },
    }
}

/// What one dispatch asks of the runtime. No page of this application emits
/// messages, so the queue is left as found; the only update reported as a
/// no-visual-change skip is hiding a menu that is already hidden.
pub open spec fn effect_of(msg: Msg, m0: Model, s0: Sink<Msg>, s1: Sink<Msg>) -> bool {
    &&& s1.messages@ == s0.messages@
    &&& s1.render_skipped == (s0.render_skipped || (msg is HideMenu && !m0.menu_visible))
}

/// The composition coordinator: the single dispatch entrypoint, and the only
/// function that mutates the root state.
pub fn update(msg: Msg, model: &mut Model, orders: &mut Sink<Msg>)
    ensures
        steps_to(msg, *old(model), *final(model)),
        effect_of(msg, *old(model), *old(orders), *final(orders)),
{
    match msg {
        Msg::UrlChanged(url) => {
            let p = Page::init(url, orders);
            model.page = p;
        },
        Msg::ToggleMenu => {
            model.menu_visible = !model.menu_visible;
        },
        Msg::HideMenu => {
            if model.menu_visible {
                model.menu_visible = false;
            } else {
                orders.skip();
            }
        },
        Msg::MoviesMsg(sub) => {
            if let Page::Movies(page_model) = &mut model.page {
                let mut sub_sink: Sink<page::movies::Msg> = Sink::new();
                page::movies::update(sub, page_model, &mut sub_sink);
                forward_movies(sub_sink.messages, orders);
                proof {
                    assert(orders.messages@ =~= old(orders).messages@);
                }
            }
        },
        Msg::SettingsMsg(sub) => {
            if let Page::Settings(page_model) = &mut model.page {
                let mut sub_sink: Sink<page::settings::Msg> = Sink::new();
                page::settings::update(sub, page_model, &mut sub_sink);
                forward_settings(sub_sink.messages, orders);
                proof {
                    assert(orders.messages@ =~= old(orders).messages@);
                }
            }
        },
    }
}

/// The same dispatch as a pure reducer over the root state, for headless
/// embedding and snapshot tests; the emitted-message queue and the
/// no-render mark of the dispatch are discarded here.
pub fn reduce(msg: Msg, model: Model) -> (r: Model)
    ensures
        steps_to(msg, model, r),
{
    let mut m = model;
    let mut orders: Sink<Msg> = Sink::new();
    update(msg, &mut m, &mut orders);
    m
}

/// The context a session starts with: a sample signed-in identity and no
/// auth token; login and logout replace it wholesale from outside the shell.
pub open spec fn default_context(ctx: Context) -> bool {
    &&& match ctx.user {
        Option::Some(u) => u.username@ == "John"@ && u.email@ == "john@email.com"@,
        Option::None => false,
    }
    &&& ctx.token is None
}

/// Builds the root state for the URL the process started on. The runtime
/// around the shell performs the one-time global subscriptions and feeds
/// every later signal in through `subscription_msg`.
pub fn init(url: Url, orders: &mut Sink<Msg>) -> (model: Model)
    ensures
        default_context(model.ctx),
        model.base_url@ == Seq::<Seq<char>>::empty(),
        routed_fresh(url@, model.page),
        !model.menu_visible,
        sink_same(*old(orders), *final(orders)),
{
    let base_url = url.to_base_url();
    let page = Page::init(url, orders);
    Model {
        ctx: Context {
            user: Option::Some(
                User {
                    username: String::from_str("John"),
                    email: String::from_str("john@email.com"),
                },
            ),
            token: Option::None,
        },
        base_url,
        page,
        menu_visible: false,
    }
}

/// Typed constructors for the URLs the shell links to, all rooted at the
/// application's base URL.
pub struct Urls {
    pub base_url: Url,
}

impl Urls {
    /// Roots the constructors at a base URL.
    pub fn new(base_url: &Url) -> (u: Urls)
        ensures
            u.base_url@ == base_url@,
    {
        Urls { base_url: base_url.clone() }
    }

    /// The home page's URL.
    pub fn home(self) -> (u: Url)
        ensures
            u@ == self.base_url@,
    {
        self.base_url
    }

    /// The movie page's URL.
    pub fn movies(self) -> (u: Url)
        ensures
            u@ == self.base_url@.push("movies"@),
    {
        self.base_url.add_path_part("movies")
    }

    /// The settings page's URL.
    pub fn settings(self) -> (u: Url)
        ensures
            u@ == self.base_url@.push("settings"@),
    {
        self.base_url.add_path_part("settings")
    }
}

/// The two process-wide signal sources the shell is subscribed to once, for
/// the life of the process: navigation changes, and document-level clicks
/// heard in the capture phase.
#[derive(PartialEq, Eq, Debug)]
pub enum GlobalEvent {
    UrlChanged(Url),
    WindowClicked,
}

/// Translates one global event into the root message it feeds into the
/// single inbound queue: a navigation change carries the new URL, and any
/// document-wide click asks to hide the menu.
pub fn subscription_msg(event: GlobalEvent) -> (msg: Msg)
    ensures
        match event {
            GlobalEvent::UrlChanged(url) => msg == Msg::UrlChanged(url),
            GlobalEvent::WindowClicked => msg == Msg::HideMenu,
        },
{
    match event {
        GlobalEvent::UrlChanged(url) => Msg::UrlChanged(url),
        GlobalEvent::WindowClicked => Msg::HideMenu,
    }
}

/// The responsive breakpoints of the default theme.
#[derive(Hash, Clone, Copy, PartialEq, Eq, Structural, Debug)]
pub enum Breakpoint {
    Mobile,
    Tablet,
    Desktop,
    WideScreen,
    FullHD,
    TabletOnly,
    Touch,
    DesktopOnly,
    WideScreenOnly,
}

impl Breakpoint {
    /// The pixel range `[lower, upper)` of the breakpoint in the default
    /// theme; an absent upper bound means the range is open above.
    pub open spec fn range_spec(self) -> (u32, Option<u32>) {
        match self {
            Breakpoint::Mobile => (0u32, Option::Some(769u32)),
            Breakpoint::Tablet => (769u32, Option::Some(1024u32)),
            Breakpoint::Desktop => (1024u32, Option::Some(1216u32)),
            Breakpoint::WideScreen => (1216u32, Option::Some(1408u32)),
            Breakpoint::FullHD => (1408u32, Option::None),
            Breakpoint::TabletOnly => (769u32, Option::Some(1024u32)),
            Breakpoint::Touch => (0u32, Option::Some(1024u32)),
            Breakpoint::DesktopOnly => (1024u32, Option::Some(1216u32)),
            Breakpoint::WideScreenOnly => (1216u32, Option::Some(1408u32)),
        }
    }

    /// The breakpoint's pixel range in the default theme.
    pub fn range(self) -> (r: (u32, Option<u32>))
        ensures
            r == self.range_spec(),
    {
        match self {
            Breakpoint::Mobile => (0, Option::Some(769)),
            Breakpoint::Tablet => (769, Option::Some(1024)),
            Breakpoint::Desktop => (1024, Option::Some(1216)),
            Breakpoint::WideScreen => (1216, Option::Some(1408)),
            Breakpoint::FullHD => (1408, Option::None),
            Breakpoint::TabletOnly => (769, Option::Some(1024)),
            Breakpoint::Touch => (0, Option::Some(1024)),
            Breakpoint::DesktopOnly => (1024, Option::Some(1216)),
            Breakpoint::WideScreenOnly => (1216, Option::Some(1408)),
        }
    }
}


/// The shell's structural invariant over the root state: whatever page is
/// active, its nested state is well-formed.
pub open spec fn model_wf(m: Model) -> bool {
    match m.page {
        Page::Movies(p) => page::movies::wf(p),
        _ => true,
    }
}

/// The router is deterministic and total: it answers every path, and equal
/// paths always yield the same page identity, however often it is asked.
pub proof fn lemma_router_deterministic(
    path1: Seq<Seq<char>>,
    path2: Seq<Seq<char>>,
    p1: Page,
    p2: Page,
)
    requires
        path1 == path2,
        routed_fresh(path1, p1),
        routed_fresh(path2, p2),
    ensures
        p1.id() == p2.id(),
        p1.id() == route(path1),
{
}

/// The menu's state machine under the toggle message: closed becomes open,
/// open becomes closed, and toggling twice returns to where it began.
pub proof fn lemma_menu_toggle(m0: Model, m1: Model, m2: Model)
    requires
        steps_to(Msg::ToggleMenu, m0, m1),
        steps_to(Msg::ToggleMenu, m1, m2),
    ensures
        m1.menu_visible == !m0.menu_visible,
        m2.menu_visible == m0.menu_visible,
{
}

/// The menu's state machine under a global click: the menu ends closed
/// either way; a click while it is already closed changes nothing and is
/// reported as a no-visual-change skip, never as a real re-render.
pub proof fn lemma_menu_global_click(m0: Model, m1: Model, s0: Sink<Msg>, s1: Sink<Msg>)
    requires
        steps_to(Msg::HideMenu, m0, m1),
        effect_of(Msg::HideMenu, m0, s0, s1),
    ensures
        !m1.menu_visible,
        !m0.menu_visible ==> m1 == m0,
        !m0.menu_visible ==> s1.render_skipped,
        m0.menu_visible ==> s1.render_skipped == s0.render_skipped,
{
}

/// A stale movie-page message — one whose target variant is not the active
/// page — leaves the whole root state unchanged.
pub proof fn lemma_stale_movies_message(sub: page::movies::Msg, m0: Model, m1: Model)
    requires
        steps_to(Msg::MoviesMsg(sub), m0, m1),
        !(m0.page is Movies),
    ensures
        m1 == m0,
{
}

/// A stale settings-page message — one whose target variant is not the
/// active page — leaves the whole root state unchanged.
pub proof fn lemma_stale_settings_message(sub: page::settings::Msg, m0: Model, m1: Model)
    requires
        steps_to(Msg::SettingsMsg(sub), m0, m1),
        !(m0.page is Settings),
    ensures
        m1 == m0,
{
}

/// Navigation always reinitializes the target page from scratch: the page
/// landed on depends on the path alone, never on the state navigated away
/// from, and returning to a page whose earlier instance had any history
/// yields an instance structurally distinct from that earlier one.
pub proof fn lemma_navigation_reinitializes(
    u: Url,
    ma0: Model,
    ma1: Model,
    mb0: Model,
    mb1: Model,
)
    requires
        steps_to(Msg::UrlChanged(u), ma0, ma1),
        steps_to(Msg::UrlChanged(u), mb0, mb1),
    ensures
        routed_fresh(u@, ma1.page),
        ma1.page.id() == mb1.page.id(),
        match (ma0.page, ma1.page) {
            (Page::Movies(before), Page::Movies(after)) => !page::movies::fresh(before)
                ==> after != before,
            (Page::Settings(before), Page::Settings(after)) => !page::settings::fresh(before)
                ==> after != before,
            _ => true,
        },
{
}

/// Every dispatch preserves the shell's structural invariant.
pub proof fn lemma_dispatch_preserves_wf(msg: Msg, m0: Model, m1: Model)
    requires
        steps_to(msg, m0, m1),
        model_wf(m0),
    ensures
        model_wf(m1),
{
}

} // verus!
