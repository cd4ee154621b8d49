//! The web client: its routes, the top-level component and its navigation.
use vstd::prelude::*;
use crate::app::settings::SettingRoute;
use crate::fetch::{is_unauthorized, is_unauthorized_code};
use crate::route::{
    chars_of, find_from, find_from_exec, is_digit, lemma_decimal, lemma_find_from_first,
    lemma_i32_text_chars, lemma_parse_i32_text, lemma_parse_usize_text, lemma_run_end_all, has_prefix, i32_text, occurs_at, occurs_at_exec,
    parse_i32, parse_i32_spec, parse_usize, parse_usize_spec, push_i32, push_usize, run_end,
    run_end_exec, usize_text,
};

pub mod detail;
pub mod navigation_bar;
pub mod reader_toolbar;
pub mod settings;

verus! {

/// The pages of the catalogue section that the client links to.
#[derive(Clone, Copy, Debug, PartialEq, Eq, Structural)]
pub enum CatalogueRoute {
    Select,
}

/// The pages of the browsing section that the client links to.
#[derive(Clone, Copy, Debug, PartialEq, Eq, Structural)]
pub enum BrowseRoute {
    Home,
    Catalogue(CatalogueRoute),
    Updates,
    History,
    Settings(SettingRoute),
    Detail(i32),
}

/// The top-level pages of the client: the reader at a chapter and page
/// (`/chapter/{chapter_id}/page/{page}`), sign-in (`/login`), sign-out
/// (`/logout`), and everything else, which the browsing section routes.
#[derive(Clone, Copy, Debug, PartialEq, Eq, Structural)]
pub enum AppRoute {
    Reader(i32, usize),
    Login,
    Logout,
    Browse(BrowseRoute),
}

/// What a path is at the top level: one of the client's own pages, or a path
/// that the browsing section's router goes on to read.
#[derive(Clone, Debug, PartialEq, Eq)]
pub enum AppRouteMatch {
    Route(AppRoute),
    Browse(String),
}

/// The characters that end a captured path section.
pub open spec fn section_stop() -> Seq<char> {
    " */#&?{}="@
}

/// The characters that end a captured rest of a path.
pub open spec fn rest_stop() -> Seq<char> {
    " #&?="@
}

/// The reader page a path leads to: it begins with `/chapter/`, then comes the
/// chapter up to the first `/page/`, then the page up to the first character that
/// ends a section; both must be numbers.
pub open spec fn reader_match(s: Seq<char>) -> Option<(i32, usize)> {
    let head = "/chapter/"@;
    if !has_prefix(s, head) {
        None
    } else {
        match find_from(s, head.len() as int, "/page/"@) {
            None => None,
            Some(k) => {
                let start = k + "/page/"@.len();
                let end = run_end(s, start, section_stop());
                if end == start {
                    None
                } else {
                    match (
                        parse_i32_spec(s.subrange(head.len() as int, k)),
                        parse_usize_spec(s.subrange(start, end)),
                    ) {
                        (Some(chapter), Some(page)) => Some((chapter, page)),
                        _ => None,
                    }
                }
            },
        }
    }
}

/// The rest of a path that the browsing section reads: all of an empty path,
/// else the longest beginning free of the characters that end a rest, which
/// must not be empty.
pub open spec fn browse_rest(s: Seq<char>) -> Option<Seq<char>> {
    if s.len() == 0 {
        Some(Seq::<char>::empty())
    } else {
        let e = run_end(s, 0, rest_stop());
        if e == 0 {
            None
        } else {
            Some(s.take(e))
        }
    }
}

/// `m` is what path `s` is at the top level: the reader when it reads as one,
/// else sign-in when it begins with `/login`, sign-out when it begins with
/// `/logout`, else the rest for the browsing section, when there is one.
pub open spec fn app_route_of(s: Seq<char>, m: Option<AppRouteMatch>) -> bool {
    match reader_match(s) {
        Some((chapter, page)) => m == Some(AppRouteMatch::Route(AppRoute::Reader(chapter, page))),
        None => if has_prefix(s, "/login"@) {
            m == Some(AppRouteMatch::Route(AppRoute::Login))
        } else if has_prefix(s, "/logout"@) {
            m == Some(AppRouteMatch::Route(AppRoute::Logout))
        } else {
            match browse_rest(s) {
                Some(rest) => m matches Some(AppRouteMatch::Browse(r)) && r@ == rest,
                None => m is None,
            }
        },
    }
}

/// The path of a top-level page; the browsing section writes its own paths.
pub open spec fn app_route_path(r: AppRoute) -> Option<Seq<char>> {
    match r {
        AppRoute::Reader(chapter, page) => Some(
            "/chapter/"@ + i32_text(chapter) + "/page/"@ + usize_text(page),
        ),
        AppRoute::Login => Some("/login"@),
        AppRoute::Logout => Some("/logout"@),
        AppRoute::Browse(_) => None,
    }
}

/// The characters `s[a..b]`.
fn sub_chars(s: &Vec<char>, a: usize, b: usize) -> (v: Vec<char>)
    requires
        a <= b <= s.len(),
    ensures
        v@ == s@.subrange(a as int, b as int),
{
    let mut v: Vec<char> = Vec::new();
    let mut i: usize = a;
    while i < b
        invariant
            a <= i <= b <= s.len(),
            v@ =~= s@.subrange(a as int, i as int),
        decreases b - i,
    {
        v.push(s[i]);
        i = i + 1;
    }
    v
}

/// The reader page that the characters `s` lead to, if any.
pub fn match_reader(s: &Vec<char>) -> (r: Option<(i32, usize)>)
    ensures
        r == reader_match(s@),
{
    if !occurs_at_exec(s, 0, "/chapter/") {
        return None;
    }
    let head = "/chapter/".unicode_len();
    match find_from_exec(s, head, "/page/") {
        None => None,
        Some(k) => {
            let tail = "/page/".unicode_len();
            proof {
                reveal_strlit("/page/");
            }
            let start = k + tail;
            let end = run_end_exec(s, start, " */#&?{}=");
            if end == start {
                return None;
            }
            let chapter_text = sub_chars(s, head, k);
            let page_text = sub_chars(s, start, end);
            match (parse_i32(&chapter_text), parse_usize(&page_text)) {
                (Some(chapter), Some(page)) => Some((chapter, page)),
                _ => None,
            }
        },
    }
}

impl AppRoute {
    /// What `path` is at the top level, if anything.
    pub fn match_path(path: &str) -> (m: Option<AppRouteMatch>)
        ensures
            app_route_of(path@, m),
    {
        let s = chars_of(path);
        match match_reader(&s) {
            Some((chapter, page)) => {
                return Some(AppRouteMatch::Route(AppRoute::Reader(chapter, page)));
            },
            None => {},
        }
        if occurs_at_exec(&s, 0, "/login") {
            return Some(AppRouteMatch::Route(AppRoute::Login));
        }
        if occurs_at_exec(&s, 0, "/logout") {
            return Some(AppRouteMatch::Route(AppRoute::Logout));
        }
        if s.len() == 0 {
            return Some(AppRouteMatch::Browse(String::new()));
        }
        let e = run_end_exec(&s, 0, " #&?=");
        if e == 0 {
            None
        } else {
            let rest = path.substring_char(0, e);
            assert(s@.take(e as int) =~= path@.subrange(0, e as int));
            Some(AppRouteMatch::Browse(String::from_str(rest)))
        }
    }

    /// The path of this page; none for the pages of the browsing section, which
    /// writes its own paths.
    pub fn path(&self) -> (p: Option<String>)
        ensures
            p matches Some(t) ==> app_route_path(*self) == Some(t@),
            p is None ==> app_route_path(*self) is None,
    {
        match self {
            AppRoute::Reader(chapter, page) => {
                let mut t = String::from_str("/chapter/");
                push_i32(&mut t, *chapter);
                t.append("/page/");
                push_usize(&mut t, *page);
                Some(t)
            },
            AppRoute::Login => Some(String::from_str("/login")),
            AppRoute::Logout => Some(String::from_str("/logout")),
            AppRoute::Browse(_) => None,
        }
    }
}


/// A digit ends no path section.
proof fn lemma_digit_not_stop(c: char)
    requires
        is_digit(c),
    ensures
        !section_stop().contains(c),
{
    reveal_strlit(" */#&?{}=");
    let stop = section_stop();
    assert forall|i: int| 0 <= i < stop.len() implies stop[i] != c by {}
}

/// Every top-level page is found again from its own path.
pub proof fn lemma_app_route_round_trip(r: AppRoute)
    requires
        !(r is Browse),
    ensures
        app_route_of(app_route_path(r)->0, Some(AppRouteMatch::Route(r))),
{
    reveal_strlit("/chapter/");
    reveal_strlit("/page/");
    reveal_strlit("/login");
    reveal_strlit("/logout");
    match r {
        AppRoute::Reader(chapter, page) => {
            let id = i32_text(chapter);
            let pg = usize_text(page);
            let head = "/chapter/"@;
            let sep = "/page/"@;
            let s = head + id + sep + pg;
            assert(s == app_route_path(r)->0);
            assert(s.subrange(0, 9) =~= head);
            let t: int = 9 + id.len() as int;
            assert(s.subrange(t, t + 6) =~= sep);
            lemma_i32_text_chars(chapter);
            assert forall|j: int| 9 <= j < t implies !occurs_at(s, j, sep) by {
                assert(s[j] == id[j - 9]);
                if occurs_at(s, j, sep) {
                    assert(s.subrange(j, j + 6)[0] == sep[0]);
                }
            }
            lemma_find_from_first(s, 9, sep, t);
            let start: int = t + 6;
            lemma_decimal(page as nat);
            assert forall|j: int| start <= j < s.len() implies !section_stop().contains(
                #[trigger] s[j],
            ) by {
                assert(s[j] == pg[j - start]);
                lemma_digit_not_stop(s[j]);
            }
            lemma_run_end_all(s, start, section_stop());
            assert(s.subrange(9, t) =~= id);
            assert(s.subrange(start, s.len() as int) =~= pg);
            lemma_parse_i32_text(chapter);
            lemma_parse_usize_text(page);
        },
        AppRoute::Login => {
            let s = "/login"@;
            assert(s.subrange(0, 6) =~= s);
        },
        AppRoute::Logout => {
            let s = "/logout"@;
            assert(s.subrange(0, 6)[4] != "/login"@[4]);
            assert(s.subrange(0, 7) =~= s);
        },
        AppRoute::Browse(_) => {},
    }
}


/// An element of the page whose classes the client changes.
#[derive(Clone, Copy, Debug, PartialEq, Eq, Structural)]
pub enum DomNode {
    Body,
    DocumentElement,
    ReaderToolbar,
}

/// Add (`add`) or remove a class on an element.
#[derive(Clone, Debug, PartialEq, Eq)]
pub struct ClassChange {
    pub node: DomNode,
    pub class: String,
    pub add: bool,
}

/// `c` adds or removes (`add`) the class `class` on `node`.
pub open spec fn is_class_change(c: ClassChange, node: DomNode, class: Seq<char>, add: bool) -> bool {
    c.node == node && c.class@ == class && c.add == add
}

/// A class change.
pub fn class_change(node: DomNode, class: &str, add: bool) -> (c: ClassChange)
    ensures
        is_class_change(c, node, class@, add),
{
    ClassChange { node, class: String::from_str(class), add }
}

/// The events of the top-level component.
#[derive(Clone, Debug, PartialEq, Eq)]
pub enum Msg {
    /// The router moved to this path.
    RouterCallback(String),
    TokenInvalidOrExpired,
    Noop,
}

/// The top-level component: the path the router is at.
pub struct App {
    pub route: String,
}

/// The classes that the client sets when it starts: a white background (black
/// in dark mode) on the body, and the class `dark` on the document element when
/// the stored settings ask for dark mode.
pub open spec fn start_classes(dark_mode: bool, changes: Seq<ClassChange>) -> bool {
    &&& changes.len() == if dark_mode { 3int } else { 2int }
    &&& is_class_change(changes[0], DomNode::Body, "bg-white"@, true)
    &&& is_class_change(changes[1], DomNode::Body, "dark:bg-black"@, true)
    &&& dark_mode ==> is_class_change(changes[2], DomNode::DocumentElement, "dark"@, true)
}

/// What a message does to the top-level component: the path it is at
/// afterwards, whether it is drawn again, and the path the router is sent to.
pub open spec fn app_step(
    s: App,
    msg: Msg,
    new: App,
    render: bool,
    redirect: Option<String>,
) -> bool {
    match msg {
        Msg::RouterCallback(route) => new.route == route && render && redirect is None,
        Msg::TokenInvalidOrExpired => {
            &&& new.route == s.route
            &&& render
            &&& redirect matches Some(r) && Some(r@) == app_route_path(AppRoute::Login)
        },
        Msg::Noop => new.route == s.route && !render && redirect is None,
    }
}

impl App {
    /// The component as the client starts, at `/`, with the classes to set on
    /// the page given whether the stored settings ask for dark mode.
    pub fn create(dark_mode: bool) -> (r: (App, Vec<ClassChange>))
        ensures
            r.0.route@ == "/"@,
            start_classes(dark_mode, r.1@),
    {
        let mut changes: Vec<ClassChange> = Vec::new();
        changes.push(class_change(DomNode::Body, "bg-white", true));
        changes.push(class_change(DomNode::Body, "dark:bg-black", true));
        if dark_mode {
            changes.push(class_change(DomNode::DocumentElement, "dark", true));
        }
        (App { route: String::from_str("/") }, changes)
    }

    /// Takes `msg`: returns whether to draw again and the path to send the router
    /// to, if any.
    pub fn update(&mut self, msg: Msg) -> (r: (bool, Option<String>))
        ensures
            app_step(*old(self), msg, *final(self), r.0, r.1),
    {
        match msg {
            Msg::RouterCallback(route) => {
                self.route = route;
                (true, None)
            },
            Msg::TokenInvalidOrExpired => {
                proof {
                    reveal_strlit("/login");
                }
                (true, Some(String::from_str("/login")))
            },
            Msg::Noop => (false, None),
        }
    }

    /// After the component is drawn: the session token is checked the first time.
    pub fn rendered(&self, first_render: bool) -> (check_token: bool)
        ensures
            check_token == first_render,
    {
        first_render
    }
}

/// The answer to the token check: `status` is the answer's status, none when the
/// check could not be sent. A token that could not be checked or that the
/// server refused (`401`) is invalid; any other answer changes nothing.
pub fn token_check_msg(status: Option<u16>) -> (m: Msg)
    ensures
        m == (match status {
            None => Msg::TokenInvalidOrExpired,
            Some(code) => if is_unauthorized_code(code) {
                Msg::TokenInvalidOrExpired
            } else {
                Msg::Noop
            },
        }),
{
    match status {
        None => Msg::TokenInvalidOrExpired,
        Some(code) => if is_unauthorized(code) {
            Msg::TokenInvalidOrExpired
        } else {
            Msg::Noop
        },
    }
}

/// A token that the server refuses, or that could not be checked, sends the
/// client to the sign-in page.
pub proof fn lemma_refused_token_leads_to_login(
    s: App,
    status: Option<u16>,
    m: Msg,
    new: App,
    render: bool,
    redirect: Option<String>,
)
    requires
        status is None || status == Some(401u16),
        m == (match status {
            None => Msg::TokenInvalidOrExpired,
            Some(code) => if is_unauthorized_code(code) {
                Msg::TokenInvalidOrExpired
            } else {
                Msg::Noop
            },
        }),
        app_step(s, m, new, render, redirect),
    ensures
        redirect matches Some(r) && app_route_of(r@, Some(AppRouteMatch::Route(AppRoute::Login))),
{
    lemma_app_route_round_trip(AppRoute::Login);
}

} // verus!
