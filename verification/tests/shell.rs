use spa_shell::dom::{Class, Node, Tag};
use spa_shell::page::{movies, settings};
use spa_shell::view::view;
use spa_shell::{
    init, reduce, subscription_msg, update, Breakpoint, Context, GlobalEvent, Model, Msg, Page,
    Sink, Url, Urls, User,
};

fn url_of(parts: &[&str]) -> Url {
    Url { path: parts.iter().map(|p| p.to_string()).collect() }
}

fn model_with_page(page: Page) -> Model {
    Model {
        ctx: Context {
            user: Some(User { username: "John".to_string(), email: "john@email.com".to_string() }),
            token: None,
        },
        base_url: url_of(&[]),
        page,
        menu_visible: false,
    }
}

fn fresh_movies_model() -> movies::Model {
    movies::Model {
        changes_status: movies::ChangesStatus::NoChanges,
        errors: Vec::new(),
        clients: movies::RemoteData::NotAsked,
    }
}

#[test]
fn route_empty_path_is_home() {
    let mut sink: Sink<Msg> = Sink::new();
    let page = Page::init(url_of(&[]), &mut sink);
    assert!(matches!(page, Page::Home));
    assert!(sink.messages.is_empty());
}

#[test]
fn route_movies_initializes_default_substate() {
    let mut sink: Sink<Msg> = Sink::new();
    let page = Page::init(url_of(&["movies"]), &mut sink);
    match page {
        Page::Movies(m) => assert_eq!(m, fresh_movies_model()),
        _ => panic!("expected the movie page"),
    }
}

#[test]
fn route_settings_initializes_default_substate() {
    let mut sink: Sink<Msg> = Sink::new();
    let page = Page::init(url_of(&["settings"]), &mut sink);
    match page {
        Page::Settings(m) => assert_eq!(m.errors, Vec::<String>::new()),
        _ => panic!("expected the settings page"),
    }
}

#[test]
fn route_unknown_path_is_not_found() {
    let mut sink: Sink<Msg> = Sink::new();
    assert!(matches!(Page::init(url_of(&["unknown"]), &mut sink), Page::NotFound));
    assert!(matches!(Page::init(url_of(&["movies", "7"]), &mut sink), Page::NotFound));
    assert!(matches!(Page::init(url_of(&[""]), &mut sink), Page::NotFound));
}

#[test]
fn route_is_case_sensitive() {
    let mut sink: Sink<Msg> = Sink::new();
    assert!(matches!(Page::init(url_of(&["Movies"]), &mut sink), Page::NotFound));
}

#[test]
fn route_is_deterministic_across_calls() {
    let mut sink: Sink<Msg> = Sink::new();
    let first = Page::init(url_of(&["movies"]), &mut sink);
    let second = Page::init(url_of(&["movies"]), &mut sink);
    assert_eq!(first, second);
}

#[test]
fn init_builds_root_state() {
    let mut sink: Sink<Msg> = Sink::new();
    let model = init(url_of(&["movies"]), &mut sink);
    assert!(matches!(model.page, Page::Movies(_)));
    assert!(!model.menu_visible);
    assert_eq!(model.base_url, url_of(&[]));
    let user = model.ctx.user.expect("a signed-in session");
    assert_eq!(user.username, "John");
    assert_eq!(user.email, "john@email.com");
    assert!(model.ctx.token.is_none());
}

#[test]
fn menu_toggle_opens_then_closes() {
    let mut model = model_with_page(Page::Home);
    let mut sink: Sink<Msg> = Sink::new();
    update(Msg::ToggleMenu, &mut model, &mut sink);
    assert!(model.menu_visible);
    assert!(!sink.render_skipped);
    update(Msg::ToggleMenu, &mut model, &mut sink);
    assert!(!model.menu_visible);
    assert!(!sink.render_skipped);
}

#[test]
fn global_click_closes_open_menu() {
    let mut model = model_with_page(Page::Home);
    model.menu_visible = true;
    let mut sink: Sink<Msg> = Sink::new();
    update(Msg::HideMenu, &mut model, &mut sink);
    assert!(!model.menu_visible);
    assert!(!sink.render_skipped);
}

#[test]
fn global_click_on_closed_menu_is_a_skip() {
    let mut model = model_with_page(Page::Home);
    let untouched = model_with_page(Page::Home);
    let mut sink: Sink<Msg> = Sink::new();
    update(Msg::HideMenu, &mut model, &mut sink);
    assert!(!model.menu_visible);
    assert!(sink.render_skipped);
    assert_eq!(model, untouched);
}

#[test]
fn stale_movies_message_is_a_silent_noop() {
    let settings_state = settings::Model { errors: vec!["boom".to_string()] };
    let mut model = model_with_page(Page::Settings(settings::Model {
        errors: vec!["boom".to_string()],
    }));
    let untouched = model_with_page(Page::Settings(settings_state));
    let mut sink: Sink<Msg> = Sink::new();
    update(Msg::MoviesMsg(movies::Msg::ClearErrors), &mut model, &mut sink);
    assert_eq!(model, untouched);
    assert!(sink.messages.is_empty());
    assert!(!sink.render_skipped);
}

#[test]
fn stale_settings_message_is_a_silent_noop() {
    let mut model = model_with_page(Page::Movies(fresh_movies_model()));
    let untouched = model_with_page(Page::Movies(fresh_movies_model()));
    let mut sink: Sink<Msg> = Sink::new();
    update(Msg::SettingsMsg(settings::Msg::ClearErrors), &mut model, &mut sink);
    assert_eq!(model, untouched);
}

#[test]
fn matching_settings_message_is_forwarded() {
    let mut model = model_with_page(Page::Settings(settings::Model {
        errors: vec!["boom".to_string()],
    }));
    let mut sink: Sink<Msg> = Sink::new();
    update(Msg::SettingsMsg(settings::Msg::ClearErrors), &mut model, &mut sink);
    match &model.page {
        Page::Settings(m) => assert!(m.errors.is_empty()),
        _ => panic!("the active page must stay the settings page"),
    }
    assert!(!model.menu_visible);
}

#[test]
fn movies_update_changes_nothing() {
    let mut state = fresh_movies_model();
    let mut sink: Sink<movies::Msg> = Sink::new();
    let msgs = vec![
        movies::Msg::MoviesFetched(Ok(vec![(7u128, movies::Movie { name: "Alien".to_string() })])),
        movies::Msg::MoviesFetched(Err("offline".to_string())),
        movies::Msg::ChangesSaved(None),
        movies::Msg::ChangesSaved(Some("offline".to_string())),
        movies::Msg::ClearErrors,
        movies::Msg::AddMovie,
        movies::Msg::DeleteMovie(7u128),
    ];
    for msg in msgs {
        movies::update(msg, &mut state, &mut sink);
        assert_eq!(state, fresh_movies_model());
        assert!(sink.messages.is_empty());
    }
}

#[test]
fn navigation_reinitializes_from_scratch() {
    let dirty = movies::Model {
        changes_status: movies::ChangesStatus::Saving { requests_in_flight: 2 },
        errors: vec!["offline".to_string()],
        clients: movies::RemoteData::Loading,
    };
    let mut model = model_with_page(Page::Movies(dirty));
    let mut sink: Sink<Msg> = Sink::new();
    update(Msg::UrlChanged(url_of(&["settings"])), &mut model, &mut sink);
    assert!(matches!(model.page, Page::Settings(_)));
    update(Msg::UrlChanged(url_of(&["movies"])), &mut model, &mut sink);
    match model.page {
        Page::Movies(m) => assert_eq!(m, fresh_movies_model()),
        _ => panic!("expected the movie page again"),
    }
}

#[test]
fn reduce_is_the_same_dispatch_as_a_pure_function() {
    let model = model_with_page(Page::Home);
    let next = reduce(Msg::ToggleMenu, model);
    assert!(next.menu_visible);
    assert!(matches!(next.page, Page::Home));
}

#[test]
fn subscription_translates_global_events() {
    let msg = subscription_msg(GlobalEvent::UrlChanged(url_of(&["movies"])));
    assert_eq!(msg, Msg::UrlChanged(url_of(&["movies"])));
    let msg = subscription_msg(GlobalEvent::WindowClicked);
    assert_eq!(msg, Msg::HideMenu);
}

#[test]
fn sink_keeps_order_and_skip_mark() {
    let mut sink: Sink<u32> = Sink::new();
    sink.send(1);
    sink.send(2);
    assert_eq!(sink.messages, vec![1, 2]);
    assert!(!sink.render_skipped);
    sink.skip();
    assert!(sink.render_skipped);
    assert_eq!(sink.messages, vec![1, 2]);
}

#[test]
fn urls_build_the_route_paths() {
    let base = url_of(&[]);
    assert_eq!(Urls::new(&base).home(), url_of(&[]));
    assert_eq!(Urls::new(&base).movies(), url_of(&["movies"]));
    assert_eq!(Urls::new(&base).settings(), url_of(&["settings"]));
}

#[test]
fn breakpoint_ranges_match_the_default_theme() {
    assert_eq!(Breakpoint::Mobile.range(), (0, Some(769)));
    assert_eq!(Breakpoint::Tablet.range(), (769, Some(1024)));
    assert_eq!(Breakpoint::FullHD.range(), (1408, None));
    assert_eq!(Breakpoint::Touch.range(), (0, Some(1024)));
}

#[test]
fn view_is_idempotent_on_an_unchanged_state() {
    let model = model_with_page(Page::Movies(fresh_movies_model()));
    let first = view(&model);
    let second = view(&model);
    assert_eq!(first, second);
}

#[test]
fn view_renders_home_for_the_root_path() {
    let model = model_with_page(Page::Home);
    let nodes = view(&model);
    assert_eq!(nodes.len(), 2);
    let content = match &nodes[1] {
        Node::Element(e) => e,
        Node::Text(_) => panic!("the content area is an element"),
    };
    assert_eq!(content.classes, vec![Class::Container]);
    let page_root = match &content.children[0] {
        Node::Element(e) => e,
        Node::Text(_) => panic!("the page view is an element"),
    };
    assert_eq!(page_root.children[0], Node::Text("Home".to_string()));
}

#[test]
fn view_renders_the_movie_page_content() {
    let model = model_with_page(Page::Movies(fresh_movies_model()));
    let nodes = view(&model);
    let content = match &nodes[1] {
        Node::Element(e) => e,
        Node::Text(_) => panic!("the content area is an element"),
    };
    let page_root = match &content.children[0] {
        Node::Element(e) => e,
        Node::Text(_) => panic!("the page view is an element"),
    };
    assert_eq!(page_root.children[0], Node::Text("Movies view".to_string()));
}

#[test]
fn view_hamburger_stops_click_propagation() {
    let model = model_with_page(Page::Home);
    let nodes = view(&model);
    let navbar = match &nodes[0] {
        Node::Element(e) => e,
        Node::Text(_) => panic!("the navbar is an element"),
    };
    let brand = match &navbar.children[0] {
        Node::Element(e) => e,
        Node::Text(_) => panic!("the brand block is an element"),
    };
    let burger = match &brand.children[1] {
        Node::Element(e) => e,
        Node::Text(_) => panic!("the hamburger is an element"),
    };
    let handler = burger.on_click.as_ref().expect("the hamburger toggles the menu");
    assert_eq!(handler.msg, Msg::ToggleMenu);
    assert!(handler.stop_propagation);
    assert_eq!(burger.children.len(), 3);
    assert_eq!(burger.tag, Tag::A);
}

#[test]
fn view_wraps_page_messages_into_root_messages() {
    let model = model_with_page(Page::Settings(settings::Model { errors: Vec::new() }));
    let nodes = view(&model);
    let content = match &nodes[1] {
        Node::Element(e) => e,
        Node::Text(_) => panic!("the content area is an element"),
    };
    let page_root = match &content.children[0] {
        Node::Element(e) => e,
        Node::Text(_) => panic!("the page view is an element"),
    };
    let button = match &page_root.children[1] {
        Node::Element(e) => e,
        Node::Text(_) => panic!("the clear button is an element"),
    };
    let handler = button.on_click.as_ref().expect("the button emits a message");
    assert_eq!(handler.msg, Msg::SettingsMsg(settings::Msg::ClearErrors));
}

#[test]
fn view_marks_the_open_menu_active() {
    let mut model = model_with_page(Page::Home);
    let closed = view(&model);
    model.menu_visible = true;
    let open = view(&model);
    assert_ne!(closed, open);
    let navbar = match &open[0] {
        Node::Element(e) => e,
        Node::Text(_) => panic!("the navbar is an element"),
    };
    let menu = match &navbar.children[1] {
        Node::Element(e) => e,
        Node::Text(_) => panic!("the menu is an element"),
    };
    assert!(menu.classes.contains(&Class::IsActive));
}

#[test]
fn scenario_menu_click_on_movie_page() {
    let mut sink: Sink<Msg> = Sink::new();
    let mut model = init(url_of(&["movies"]), &mut sink);
    update(Msg::ToggleMenu, &mut model, &mut sink);
    assert!(model.menu_visible);
    let click = subscription_msg(GlobalEvent::WindowClicked);
    update(click, &mut model, &mut sink);
    assert!(!model.menu_visible);
    match model.page {
        Page::Movies(m) => assert_eq!(m, fresh_movies_model()),
        _ => panic!("the movie page stays active"),
    }
}
