use tanoshi::app::settings::SettingRoute;
use tanoshi::app::{AppRoute, AppRouteMatch, BrowseRoute};

fn route(path: &str) -> Option<AppRouteMatch> {
    AppRoute::match_path(path)
}

#[test]
fn reader_path_is_read() {
    assert_eq!(
        route("/chapter/12/page/3"),
        Some(AppRouteMatch::Route(AppRoute::Reader(12, 3)))
    );
}

#[test]
fn reader_path_with_negative_chapter_and_signs() {
    assert_eq!(
        route("/chapter/-5/page/0"),
        Some(AppRouteMatch::Route(AppRoute::Reader(-5, 0)))
    );
    assert_eq!(
        route("/chapter/+7/page/+8"),
        Some(AppRouteMatch::Route(AppRoute::Reader(7, 8)))
    );
}

#[test]
fn reader_path_ignores_what_follows_the_page() {
    assert_eq!(
        route("/chapter/12/page/3?x=1"),
        Some(AppRouteMatch::Route(AppRoute::Reader(12, 3)))
    );
    assert_eq!(
        route("/chapter/12/page/3/more"),
        Some(AppRouteMatch::Route(AppRoute::Reader(12, 3)))
    );
}

#[test]
fn reader_path_with_bad_numbers_goes_to_browse() {
    assert_eq!(
        route("/chapter/abc/page/3"),
        Some(AppRouteMatch::Browse("/chapter/abc/page/3".to_string()))
    );
    assert_eq!(
        route("/chapter/2147483648/page/3"),
        Some(AppRouteMatch::Browse("/chapter/2147483648/page/3".to_string()))
    );
    assert_eq!(
        route("/chapter/-2147483648/page/3"),
        Some(AppRouteMatch::Route(AppRoute::Reader(-2147483648, 3)))
    );
    assert_eq!(
        route("/chapter/1/page/-3"),
        Some(AppRouteMatch::Browse("/chapter/1/page/-3".to_string()))
    );
    assert_eq!(
        route("/chapter/1/page/"),
        Some(AppRouteMatch::Browse("/chapter/1/page/".to_string()))
    );
}

#[test]
fn login_and_logout_paths() {
    assert_eq!(route("/login"), Some(AppRouteMatch::Route(AppRoute::Login)));
    assert_eq!(route("/login/again"), Some(AppRouteMatch::Route(AppRoute::Login)));
    assert_eq!(route("/logout"), Some(AppRouteMatch::Route(AppRoute::Logout)));
}

#[test]
fn other_paths_go_to_browse() {
    assert_eq!(route("/"), Some(AppRouteMatch::Browse("/".to_string())));
    assert_eq!(route(""), Some(AppRouteMatch::Browse("".to_string())));
    assert_eq!(
        route("/settings/account?x"),
        Some(AppRouteMatch::Browse("/settings/account".to_string()))
    );
    assert_eq!(route("?x=1"), None);
}

#[test]
fn paths_are_written_and_read_back() {
    for r in [
        AppRoute::Reader(12, 3),
        AppRoute::Reader(-2147483648, 0),
        AppRoute::Reader(2147483647, usize::MAX),
        AppRoute::Login,
        AppRoute::Logout,
    ] {
        let p = r.path().unwrap();
        assert_eq!(route(&p), Some(AppRouteMatch::Route(r)));
    }
    assert_eq!(AppRoute::Reader(12, 3).path(), Some("/chapter/12/page/3".to_string()));
    assert_eq!(AppRoute::Reader(-40, 7).path(), Some("/chapter/-40/page/7".to_string()));
    assert_eq!(AppRoute::Login.path(), Some("/login".to_string()));
    assert_eq!(AppRoute::Logout.path(), Some("/logout".to_string()));
    assert_eq!(AppRoute::Browse(BrowseRoute::Home).path(), None);
}

#[test]
fn setting_routes() {
    assert_eq!(SettingRoute::from_path("/account"), Some(SettingRoute::Account));
    assert_eq!(SettingRoute::from_path("/accounts"), Some(SettingRoute::Account));
    assert_eq!(SettingRoute::from_path("/admin"), Some(SettingRoute::Admin));
    assert_eq!(SettingRoute::from_path("/reading"), Some(SettingRoute::Reading));
    assert_eq!(SettingRoute::from_path("/misc"), Some(SettingRoute::Misc));
    assert_eq!(SettingRoute::from_path("/"), Some(SettingRoute::Home));
    assert_eq!(SettingRoute::from_path("/other"), None);
    assert_eq!(SettingRoute::from_path(""), None);
    for r in [
        SettingRoute::Account,
        SettingRoute::Admin,
        SettingRoute::Reading,
        SettingRoute::Misc,
        SettingRoute::Home,
    ] {
        assert_eq!(SettingRoute::from_path(&r.to_path()), Some(r));
    }
    assert_eq!(SettingRoute::Home.to_path(), "/");
    assert_eq!(SettingRoute::Misc.to_path(), "/misc");
}
