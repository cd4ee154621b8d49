use tanoshi::app::navigation_bar::{NavigationBar, Props as NavProps};
use tanoshi::app::reader_toolbar::{Props, ReaderToolbar, ToolbarEffect};
use tanoshi::app::settings::SettingRoute;
use tanoshi::app::{
    token_check_msg, App, AppRoute, AppRouteMatch, BrowseRoute, CatalogueRoute, ClassChange,
    DomNode, Msg,
};

fn class(node: DomNode, class: &str, add: bool) -> ClassChange {
    ClassChange { node, class: class.to_string(), add }
}

#[test]
fn app_starts_at_root() {
    let (app, classes) = App::create(false);
    assert_eq!(app.route, "/");
    assert_eq!(classes, vec![class(DomNode::Body, "bg-white", true), class(DomNode::Body, "dark:bg-black", true)]);
    let (_, classes) = App::create(true);
    assert_eq!(classes[2], class(DomNode::DocumentElement, "dark", true));
    assert!(app.rendered(true));
    assert!(!app.rendered(false));
}

#[test]
fn app_messages() {
    let (mut app, _) = App::create(false);
    assert_eq!(app.update(Msg::RouterCallback("/history".to_string())), (true, None));
    assert_eq!(app.route, "/history");
    assert_eq!(app.update(Msg::Noop), (false, None));
    let (render, redirect) = app.update(Msg::TokenInvalidOrExpired);
    assert!(render);
    let redirect = redirect.unwrap();
    assert_eq!(redirect, "/login");
    assert_eq!(AppRoute::match_path(&redirect), Some(AppRouteMatch::Route(AppRoute::Login)));
}

#[test]
fn token_check_answers() {
    assert_eq!(token_check_msg(None), Msg::TokenInvalidOrExpired);
    assert_eq!(token_check_msg(Some(401)), Msg::TokenInvalidOrExpired);
    assert_eq!(token_check_msg(Some(200)), Msg::Noop);
    assert_eq!(token_check_msg(Some(500)), Msg::Noop);
}

#[test]
fn navigation_tabs() {
    let bar = NavigationBar::create(NavProps {});
    let tabs = bar.tabs();
    let got: Vec<(String, AppRoute)> = tabs.into_iter().map(|t| (t.label, t.route)).collect();
    assert_eq!(
        got,
        vec![
            ("Favorites".to_string(), AppRoute::Browse(BrowseRoute::Home)),
            ("Catalogue".to_string(), AppRoute::Browse(BrowseRoute::Catalogue(CatalogueRoute::Select))),
            ("Updates".to_string(), AppRoute::Browse(BrowseRoute::Updates)),
            ("History".to_string(), AppRoute::Browse(BrowseRoute::History)),
            ("Settings".to_string(), AppRoute::Browse(BrowseRoute::Settings(SettingRoute::Home))),
        ]
    );
}

fn props(visible: bool, title: &str) -> Props {
    Props { visible, manga_id: 3, title: title.to_string(), chapter: "Ch. 1".to_string() }
}

#[test]
fn toolbar_slides() {
    let mut bar = ReaderToolbar::create(props(true, "A"));
    assert_eq!(bar.change(props(true, "A"), true), (false, vec![]));
    let (render, e) = bar.change(props(false, "A"), true);
    assert!(render);
    assert_eq!(
        e,
        vec![
            ToolbarEffect::SetTitle("A".to_string()),
            ToolbarEffect::Class(class(DomNode::ReaderToolbar, "slideInDown", false)),
            ToolbarEffect::Class(class(DomNode::ReaderToolbar, "slideOutUp", true)),
        ]
    );
    let (render, e) = bar.change(props(true, "B"), true);
    assert!(render);
    assert_eq!(e[0], ToolbarEffect::SetTitle("B".to_string()));
    assert_eq!(e[1], ToolbarEffect::Class(class(DomNode::ReaderToolbar, "slideOutUp", false)));
    assert_eq!(e[2], ToolbarEffect::Class(class(DomNode::ReaderToolbar, "slideInDown", true)));
    let (render, _) = bar.change(props(true, "B"), false);
    assert!(render);
    assert_eq!(bar.close_route(), AppRoute::Browse(BrowseRoute::Detail(3)));
}
