use tanoshi::app::detail::{
    chapters_msg, date_text, favorited_msg, join_strings, list_chapter, manga_msg, unfavorited_msg, Detail,
    DetailEffect, Msg, Props,
};
use tanoshi::app::AppRoute;
use tanoshi::model::{AddFavoritesResponse, Chapter, GetChaptersResponse, GetMangaResponse, Manga};

fn manga(favorite: bool) -> Manga {
    Manga {
        id: 4,
        title: "One Piece".to_string(),
        author: vec!["Oda".to_string(), "Eiichiro".to_string()],
        genre: vec!["Action".to_string()],
        status: None,
        description: Some("Pirates".to_string()),
        thumbnail_url: "http://x/y.jpg".to_string(),
        is_favorite: favorite,
    }
}

fn chapter(id: i32, vol: Option<&str>, no: Option<&str>, title: &str, read: Option<i32>) -> Chapter {
    Chapter {
        id,
        vol: vol.map(|v| v.to_string()),
        no: no.map(|v| v.to_string()),
        title: Some(title.to_string()),
        read,
        uploaded: "2021-01-02T10:20:30".to_string(),
    }
}

fn success() -> AddFavoritesResponse {
    AddFavoritesResponse { status: "success".to_string() }
}

#[test]
fn page_opens_fetching() {
    let mut d = Detail::create(Props { manga_id: 4 });
    assert!(d.is_fetching && d.should_fetch);
    assert_eq!(d.manga.title, "");
    assert_eq!(d.rendered(), Some(DetailEffect::FetchMangaInfo { manga_id: 4 }));
    assert_eq!(d.rendered(), None);
}

#[test]
fn manga_arrives() {
    let mut d = Detail::create(Props { manga_id: 4 });
    let (render, e) = d.update(Msg::MangaReady(GetMangaResponse { manga: manga(false) }));
    assert!(!render);
    assert!(!d.is_fetching);
    assert_eq!(
        e,
        vec![
            DetailEffect::FetchChapters { manga_id: 4, refresh: false, shows_spinner: false },
            DetailEffect::SetTitle("One Piece".to_string()),
            DetailEffect::SetDescription("Pirates".to_string()),
        ]
    );
    d.request_started(&e[0]);
    assert!(!d.is_fetching);
    let mut m = manga(false);
    m.description = None;
    let (_, e) = d.update(Msg::MangaReady(GetMangaResponse { manga: m }));
    assert_eq!(e[2], DetailEffect::SetDescription("N/A".to_string()));
}

#[test]
fn chapters_arrive_and_refresh() {
    let mut d = Detail::create(Props { manga_id: 4 });
    let (render, e) = d.update(Msg::ChapterReady(GetChaptersResponse { chapters: vec![chapter(1, None, None, "a", None)] }));
    assert!(render && e.is_empty() && !d.is_fetching);
    assert_eq!(d.chapters.len(), 1);
    let (_, e) = d.update(Msg::Refresh);
    assert_eq!(e, vec![DetailEffect::FetchChapters { manga_id: 4, refresh: true, shows_spinner: true }]);
    d.request_started(&e[0]);
    assert!(d.is_fetching);
}

#[test]
fn favorite_button_toggles() {
    let mut d = Detail::create(Props { manga_id: 4 });
    d.update(Msg::MangaReady(GetMangaResponse { manga: manga(false) }));
    let (_, e) = d.update(Msg::FavoriteEvent);
    assert_eq!(e, vec![DetailEffect::Favorite { manga_id: 4 }]);
    d.update(favorited_msg(200, Some(success())));
    assert!(d.manga.is_favorite);
    let (_, e) = d.update(Msg::FavoriteEvent);
    assert_eq!(e, vec![DetailEffect::Unfavorite { manga_id: 4 }]);
    d.update(Msg::Unfavorited(AddFavoritesResponse { status: "failed".to_string() }));
    assert!(d.manga.is_favorite);
    d.update(unfavorited_msg(200, Some(success())));
    assert!(!d.manga.is_favorite);
}

#[test]
fn other_manga_is_fetched_once() {
    let mut d = Detail::create(Props { manga_id: 4 });
    d.rendered();
    assert!(!d.change(Props { manga_id: 4 }));
    assert!(d.change(Props { manga_id: 9 }));
    assert_eq!(d.rendered(), Some(DetailEffect::FetchMangaInfo { manga_id: 9 }));
    assert_eq!(d.rendered(), None);
}

#[test]
fn noop_does_nothing() {
    let mut d = Detail::create(Props { manga_id: 4 });
    let (render, e) = d.update(Msg::Noop);
    assert!(!render && e.is_empty());
}

#[test]
fn detail_answers_become_messages() {
    let r = GetMangaResponse { manga: manga(true) };
    assert_eq!(manga_msg(200, Some(r.clone())), Msg::MangaReady(r.clone()));
    assert_eq!(manga_msg(404, Some(r)), Msg::Noop);
    assert_eq!(manga_msg(200, None), Msg::Noop);
    let c = GetChaptersResponse { chapters: vec![] };
    assert_eq!(chapters_msg(200, Some(c.clone())), Msg::ChapterReady(c));
    assert_eq!(chapters_msg(500, None), Msg::Noop);
    assert_eq!(favorited_msg(500, Some(success())), Msg::Noop);
    assert_eq!(unfavorited_msg(200, Some(success())), Msg::Unfavorited(success()));
}

#[test]
fn chapter_lines() {
    let e = list_chapter(&chapter(11, Some("1"), Some("2"), "Romance Dawn", Some(5)));
    assert_eq!(e.label, "Vol. 1 Ch. 2 Romance Dawn");
    assert_eq!(e.route, AppRoute::Reader(11, 6));
    assert!(e.is_read);
    assert_eq!(e.uploaded, "2021-01-02");
    let e = list_chapter(&chapter(12, None, Some("3"), "", None));
    assert_eq!(e.label, "Ch. 3 ");
    assert_eq!(e.route, AppRoute::Reader(12, 1));
    assert!(!e.is_read);
}

#[test]
fn detail_page_texts() {
    let mut d = Detail::create(Props { manga_id: 4 });
    d.update(Msg::MangaReady(GetMangaResponse { manga: manga(false) }));
    d.update(Msg::ChapterReady(GetChaptersResponse { chapters: vec![chapter(1, None, None, "a", Some(0))] }));
    let p = d.page();
    assert_eq!(p.authors, "Oda, Eiichiro");
    assert_eq!(p.status, "N/A");
    assert_eq!(p.chapters.len(), 1);
    assert_eq!(p.chapters[0].route, AppRoute::Reader(1, 1));
    assert_eq!(join_strings(&vec![], ", "), "");
    assert_eq!(join_strings(&vec!["x".to_string()], ", "), "x");
}

#[test]
fn upload_dates() {
    assert_eq!(date_text("2021-01-02T10:20:30"), "2021-01-02");
    assert_eq!(date_text("2021-01-02"), "2021-01-02");
    assert_eq!(date_text(""), "");
}
