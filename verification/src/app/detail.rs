//! The page of one manga: its details, its chapters, and whether it is a
//! favorite.
use vstd::prelude::*;
use crate::app::AppRoute;
use crate::fetch::{body_on_success, is_success_code};
use crate::model::{AddFavoritesResponse, Chapter, GetChaptersResponse, GetMangaResponse, Manga};
use crate::route::{chars_of, find_from, find_from_exec};

verus! {

/// What the manga page is opened with.
#[derive(Clone, Copy, Debug, PartialEq, Eq, Structural)]
pub struct Props {
    pub manga_id: i32,
}

/// The events of the manga page.
#[derive(Clone, Debug, PartialEq, Eq)]
pub enum Msg {
    MangaReady(GetMangaResponse),
    ChapterReady(GetChaptersResponse),
    Refresh,
    FavoriteEvent,
    Favorited(AddFavoritesResponse),
    Unfavorited(AddFavoritesResponse),
    Noop,
}

/// What the manga page asks of the server and the browser.
#[derive(Clone, Debug, PartialEq, Eq)]
pub enum DetailEffect {
    /// Ask for the manga; the spinner shows once the request is under way.
    FetchMangaInfo { manga_id: i32 },
    /// Ask for the chapters, from the source when `refresh`; the spinner shows
    /// once the request is under way only when `shows_spinner`.
    FetchChapters { manga_id: i32, refresh: bool, shows_spinner: bool },
    /// Add the manga to the favorites.
    Favorite { manga_id: i32 },
    /// Remove the manga from the favorites.
    Unfavorite { manga_id: i32 },
    /// Put this text, as HTML, in the title bar.
    SetTitle(String),
    /// Put this text, as HTML, in the description.
    SetDescription(String),
}

impl DetailEffect {
    /// Whether the spinner shows once this request is under way.
    pub open spec fn shows_spinner(self) -> bool {
        match self {
            DetailEffect::FetchMangaInfo { .. } => true,
            DetailEffect::FetchChapters { shows_spinner, .. } => shows_spinner,
            _ => false,
        }
    }
}

/// The state of the manga page.
pub struct Detail {
    pub manga_id: i32,
    pub manga: Manga,
    pub chapters: Vec<Chapter>,
    pub is_fetching: bool,
    pub should_fetch: bool,
}

/// The state of the manga page, with the chapters as a sequence.
pub struct DetailView {
    pub manga_id: i32,
    pub manga: Manga,
    pub chapters: Seq<Chapter>,
    pub is_fetching: bool,
    pub should_fetch: bool,
}

impl View for Detail {
    type V = DetailView;

    open spec fn view(&self) -> DetailView {
        DetailView {
            manga_id: self.manga_id,
            manga: self.manga,
            chapters: self.chapters@,
            is_fetching: self.is_fetching,
            should_fetch: self.should_fetch,
        }
    }
}

/// The description as the page shows it: the manga's, or `N/A`.
pub open spec fn description_text(m: Manga) -> Seq<char> {
    match m.description {
        Some(d) => d@,
        None => "N/A"@,
    }
}

/// Whether the server reported success.
pub open spec fn succeeded(r: AddFavoritesResponse) -> bool {
    r.status@ == "success"@
}

/// What taking `msg` in state `s` leads to: the state `new`, the requests
/// `effects`, in order, and whether the page is drawn again (`render`).
pub open spec fn detail_step(
    s: DetailView,
    msg: Msg,
    new: DetailView,
    render: bool,
    effects: Seq<DetailEffect>,
) -> bool {
    match msg {
        Msg::MangaReady(data) => {
            &&& new == DetailView { manga: data.manga, is_fetching: false, ..s }
            &&& !render
            &&& effects.len() == 3
            &&& effects[0] == (DetailEffect::FetchChapters {
                manga_id: s.manga_id,
                refresh: false,
                shows_spinner: false,
            })
            &&& effects[1] matches DetailEffect::SetTitle(t) && t == data.manga.title
            &&& effects[2] matches DetailEffect::SetDescription(d) && d@ == description_text(
                data.manga,
            )
        },
        Msg::ChapterReady(data) => {
            &&& new == DetailView { chapters: data.chapters@, is_fetching: false, ..s }
            &&& render
            &&& effects.len() == 0
        },
        Msg::Refresh => {
            &&& new == s
            &&& render
            &&& effects == seq![
                (DetailEffect::FetchChapters {
                    manga_id: s.manga_id,
                    refresh: true,
                    shows_spinner: true,
                }),
            ]
        },
        Msg::FavoriteEvent => {
            &&& new == s
            &&& render
            &&& effects == if s.manga.is_favorite {
                seq![(DetailEffect::Unfavorite { manga_id: s.manga_id })]
            } else {
                seq![(DetailEffect::Favorite { manga_id: s.manga_id })]
            }
        },
        Msg::Favorited(data) => {
            &&& new == if succeeded(data) {
                DetailView { manga: Manga { is_favorite: true, ..s.manga }, ..s }
            } else {
                s
            }
            &&& render
            &&& effects.len() == 0
        },
        Msg::Unfavorited(data) => {
            &&& new == if succeeded(data) {
                DetailView { manga: Manga { is_favorite: false, ..s.manga }, ..s }
            } else {
                s
            }
            &&& render
            &&& effects.len() == 0
        },
        Msg::Noop => {
            &&& new == s
            &&& !render
            &&& effects.len() == 0
        },
    }
}

impl Detail {
    /// The page as it opens: nothing known of the manga yet, the spinner on, and
    /// the manga to be asked for once the page is drawn.
    pub fn create(props: Props) -> (d: Detail)
        ensures
            d.manga_id == props.manga_id,
            d.manga.id == 0,
            d.manga.title@.len() == 0,
            d.manga.author@.len() == 0,
            d.manga.genre@.len() == 0,
            d.manga.status is None,
            d.manga.description is None,
            d.manga.thumbnail_url@.len() == 0,
            !d.manga.is_favorite,
            d.chapters@.len() == 0,
            d.is_fetching,
            d.should_fetch,
    {
        Detail {
            manga_id: props.manga_id,
            manga: Manga::empty(),
            chapters: Vec::new(),
            is_fetching: true,
            should_fetch: true,
        }
    }

    /// Takes `msg`: returns whether to draw the page again and what to ask of
    /// the server and the browser, in that order.
    pub fn update(&mut self, msg: Msg) -> (r: (bool, Vec<DetailEffect>))
        ensures
            detail_step(old(self)@, msg, final(self)@, r.0, r.1@),
    {
        let mut effects: Vec<DetailEffect> = Vec::new();
        match msg {
            Msg::MangaReady(data) => {
                self.manga = data.manga;
                effects.push(
                    DetailEffect::FetchChapters {
                        manga_id: self.manga_id,
                        refresh: false,
                        shows_spinner: false,
                    },
                );
                self.is_fetching = false;
                effects.push(DetailEffect::SetTitle(self.manga.title.clone()));
                let description = match &self.manga.description {
                    Some(d) => d.clone(),
                    None => String::from_str("N/A"),
                };
                effects.push(DetailEffect::SetDescription(description));
                return (false, effects);
            },
            Msg::ChapterReady(data) => {
                self.chapters = data.chapters;
                self.is_fetching = false;
            },
            Msg::Refresh => {
                effects.push(
                    DetailEffect::FetchChapters {
                        manga_id: self.manga_id,
                        refresh: true,
                        shows_spinner: true,
                    },
                );
            },
            Msg::FavoriteEvent => {
                if self.manga.is_favorite {
                    effects.push(DetailEffect::Unfavorite { manga_id: self.manga_id });
                } else {
                    effects.push(DetailEffect::Favorite { manga_id: self.manga_id });
                }
            },
            Msg::Favorited(data) => {
                if data.status == String::from_str("success") {
                    self.manga.is_favorite = true;
                }
            },
            Msg::Unfavorited(data) => {
                if data.status == String::from_str("success") {
                    self.manga.is_favorite = false;
                }
            },
            Msg::Noop => {
                return (false, effects);
            },
        }
        (true, effects)
    }

    /// Records that the request `effect` is under way: the spinner shows when
    /// that request shows it.
    pub fn request_started(&mut self, effect: &DetailEffect)
        ensures
            final(self)@ == (DetailView {
                is_fetching: old(self).is_fetching || effect.shows_spinner(),
                ..old(self)@
            }),
    {
        match effect {
            DetailEffect::FetchMangaInfo { .. } => {
                self.is_fetching = true;
            },
            DetailEffect::FetchChapters { shows_spinner, .. } => {
                if *shows_spinner {
                    self.is_fetching = true;
                }
            },
            _ => {},
        }
    }

    /// Takes new props: another manga is asked for once the page is drawn.
    /// Returns whether to draw the page again.
    pub fn change(&mut self, props: Props) -> (r: bool)
        ensures
            (final(self)@, r) == detail_change(old(self)@, props),
    {
        if self.manga_id != props.manga_id {
            self.manga_id = props.manga_id;
            self.should_fetch = true;
            return true;
        }
        false
    }

    /// After the page is drawn: asks for the manga when it is due.
    pub fn rendered(&mut self) -> (e: Option<DetailEffect>)
        ensures
            (final(self)@, e) == detail_rendered(old(self)@),
    {
        if self.should_fetch {
            self.should_fetch = false;
            Some(DetailEffect::FetchMangaInfo { manga_id: self.manga_id })
        } else {
            None
        }
    }
}

/// The state after new props, and whether the page is drawn again: when they
/// name another manga, that manga becomes due to be asked for.
pub open spec fn detail_change(s: DetailView, props: Props) -> (DetailView, bool) {
    if s.manga_id != props.manga_id {
        (DetailView { manga_id: props.manga_id, should_fetch: true, ..s }, true)
    } else {
        (s, false)
    }
}

/// The state after the page is drawn, and the request for the manga when it
/// was due.
pub open spec fn detail_rendered(s: DetailView) -> (DetailView, Option<DetailEffect>) {
    (
        DetailView { should_fetch: false, ..s },
        if s.should_fetch {
            Some(DetailEffect::FetchMangaInfo { manga_id: s.manga_id })
        } else {
            None
        },
    )
}

/// The answer to `FetchMangaInfo`.
pub fn manga_msg(status: u16, body: Option<GetMangaResponse>) -> (m: Msg)
    ensures
        m == (match body {
            Some(b) => if is_success_code(status) {
                Msg::MangaReady(b)
            } else {
                Msg::Noop
            },
            None => Msg::Noop,
        }),
{
    match body_on_success(status, body) {
        Some(b) => Msg::MangaReady(b),
        None => Msg::Noop,
    }
}

/// The answer to `FetchChapters`.
pub fn chapters_msg(status: u16, body: Option<GetChaptersResponse>) -> (m: Msg)
    ensures
        m == (match body {
            Some(b) => if is_success_code(status) {
                Msg::ChapterReady(b)
            } else {
                Msg::Noop
            },
            None => Msg::Noop,
        }),
{
    match body_on_success(status, body) {
        Some(b) => Msg::ChapterReady(b),
        None => Msg::Noop,
    }
}

/// The answer to `Favorite`.
pub fn favorited_msg(status: u16, body: Option<AddFavoritesResponse>) -> (m: Msg)
    ensures
        m == (match body {
            Some(b) => if is_success_code(status) {
                Msg::Favorited(b)
            } else {
                Msg::Noop
            },
            None => Msg::Noop,
        }),
{
    match body_on_success(status, body) {
        Some(b) => Msg::Favorited(b),
        None => Msg::Noop,
    }
}

/// The answer to `Unfavorite`.
pub fn unfavorited_msg(status: u16, body: Option<AddFavoritesResponse>) -> (m: Msg)
    ensures
        m == (match body {
            Some(b) => if is_success_code(status) {
                Msg::Unfavorited(b)
            } else {
                Msg::Noop
            },
            None => Msg::Noop,
        }),
{
    match body_on_success(status, body) {
        Some(b) => Msg::Unfavorited(b),
        None => Msg::Noop,
    }
}


/// The texts of `list` with `sep` between each two of them.
pub open spec fn join_texts(list: Seq<String>, sep: Seq<char>) -> Seq<char>
    decreases list.len(),
{
    if list.len() == 0 {
        Seq::<char>::empty()
    } else if list.len() == 1 {
        list[0]@
    } else {
        join_texts(list.drop_last(), sep) + sep + list.last()@
    }
}

/// The texts of `list` with `sep` between each two of them.
pub fn join_strings(list: &Vec<String>, sep: &str) -> (r: String)
    ensures
        r@ == join_texts(list@, sep@),
{
    let mut r = String::new();
    let mut i: usize = 0;
    while i < list.len()
        invariant
            i <= list@.len(),
            r@ == join_texts(list@.take(i as int), sep@),
        decreases list@.len() - i,
    {
        assert(list@.take(i + 1).drop_last() =~= list@.take(i as int));
        if i != 0 {
            r.append(sep);
        } else {
            assert(r@ =~= Seq::<char>::empty());
        }
        r.append(list[i].as_str());
        i = i + 1;
    }
    assert(list@.take(list@.len() as int) =~= list@);
    r
}

/// `prefix`, the text and a space, when there is a text; else nothing.
pub open spec fn labelled(prefix: Seq<char>, o: Option<String>) -> Seq<char> {
    match o {
        Some(v) => prefix + v@ + " "@,
        None => Seq::<char>::empty(),
    }
}

/// The name of a chapter in the list: `Vol. <vol> ` when it has a volume,
/// `Ch. <no> ` when it has a number, then its title.
pub open spec fn chapter_label(c: Chapter) -> Seq<char> {
    labelled("Vol. "@, c.vol) + labelled("Ch. "@, c.no) + c.title->0@
}

/// The last page read of a chapter, counted from zero; zero when none was.
pub open spec fn last_read(c: Chapter) -> int {
    match c.read {
        Some(p) => p as int,
        None => 0,
    }
}

/// A chapter can be listed when it has a title and the page after the last one
/// read has a number.
pub open spec fn listable(c: Chapter) -> bool {
    c.title is Some && last_read(c) < i32::MAX
}

/// The date of a date and time written as `<date>T<time>`: what comes before
/// the first `T`, or all of the text when there is none.
pub open spec fn date_of(stamp: Seq<char>) -> Seq<char> {
    match find_from(stamp, 0, "T"@) {
        Some(k) => stamp.take(k),
        None => stamp,
    }
}

/// The date of the date and time `stamp`.
pub fn date_text(stamp: &str) -> (d: String)
    ensures
        d@ == date_of(stamp@),
{
    let s = chars_of(stamp);
    match find_from_exec(&s, 0, "T") {
        Some(k) => String::from_str(stamp.substring_char(0, k)),
        None => String::from_str(stamp),
    }
}

/// One line of the chapter list: its name, the reader page it leads to (the
/// page after the last one read, counted from one), whether any page of it was
/// read, and the date it was uploaded.
#[derive(Clone, Debug, PartialEq, Eq)]
pub struct ChapterEntry {
    pub label: String,
    pub route: AppRoute,
    pub is_read: bool,
    pub uploaded: String,
}

/// How chapter `c` is listed.
pub open spec fn chapter_entry(c: Chapter, e: ChapterEntry) -> bool {
    &&& e.label@ == chapter_label(c)
    &&& e.route == AppRoute::Reader(c.id, (last_read(c) + 1) as usize)
    &&& e.is_read == (last_read(c) != 0)
    &&& e.uploaded@ == date_of(c.uploaded@)
}

/// Appends `prefix`, the text and a space, when there is a text.
fn push_labelled(out: &mut String, prefix: &str, o: &Option<String>)
    ensures
        final(out)@ == old(out)@ + labelled(prefix@, *o),
{
    match o {
        Some(v) => {
            out.append(prefix);
            out.append(v.as_str());
            out.append(" ");
            assert(final(out)@ =~= old(out)@ + labelled(prefix@, *o));
        },
        None => {
            assert(final(out)@ =~= old(out)@ + labelled(prefix@, *o));
        },
    }
}

/// The line of the chapter list for `c`.
pub fn list_chapter(c: &Chapter) -> (e: ChapterEntry)
    requires
        listable(*c),
    ensures
        chapter_entry(*c, e),
{
    let mut label = String::new();
    push_labelled(&mut label, "Vol. ", &c.vol);
    push_labelled(&mut label, "Ch. ", &c.no);
    match &c.title {
        Some(t) => label.append(t.as_str()),
        None => {},
    }
    assert(label@ =~= chapter_label(*c));
    let read: i32 = match c.read {
        Some(p) => p,
        None => 0,
    };
    let next = read + 1;
    ChapterEntry {
        label,
        route: AppRoute::Reader(c.id, next as usize),
        is_read: read != 0,
        uploaded: date_text(c.uploaded.as_str()),
    }
}

/// What the manga page shows that it computes: the authors separated by `, `,
/// the status or `N/A`, and the chapter list.
#[derive(Clone, Debug, PartialEq, Eq)]
pub struct DetailPage {
    pub authors: String,
    pub status: String,
    pub chapters: Vec<ChapterEntry>,
}

impl Detail {
    /// The computed parts of the manga page.
    pub fn page(&self) -> (p: DetailPage)
        requires
            forall|i: int| 0 <= i < self.chapters@.len() ==> listable(#[trigger] self.chapters@[i]),
        ensures
            p.authors@ == join_texts(self.manga.author@, ", "@),
            p.status@ == (match self.manga.status {
                Some(st) => st@,
                None => "N/A"@,
            }),
            p.chapters@.len() == self.chapters@.len(),
            forall|i: int|
                0 <= i < p.chapters@.len() ==> chapter_entry(
                    #[trigger] self.chapters@[i],
                    p.chapters@[i],
                ),
    {
        let authors = join_strings(&self.manga.author, ", ");
        let status = match &self.manga.status {
            Some(st) => st.clone(),
            None => String::from_str("N/A"),
        };
        let mut chapters: Vec<ChapterEntry> = Vec::new();
        let mut i: usize = 0;
        while i < self.chapters.len()
            invariant
                i <= self.chapters@.len(),
                chapters@.len() == i,
                forall|j: int|
                    0 <= j < self.chapters@.len() ==> listable(#[trigger] self.chapters@[j]),
                forall|j: int|
                    0 <= j < i ==> chapter_entry(#[trigger] self.chapters@[j], chapters@[j]),
            decreases self.chapters@.len() - i,
        {
            chapters.push(list_chapter(&self.chapters[i]));
            i = i + 1;
        }
        DetailPage { authors, status, chapters }
    }
}

/// Pressing the favorite button and then hearing the server's success turns
/// the favorite flag around; nothing else of the page changes.
pub proof fn lemma_favorite_toggle(
    s: DetailView,
    s1: DetailView,
    s2: DetailView,
    r1: bool,
    r2: bool,
    e1: Seq<DetailEffect>,
    e2: Seq<DetailEffect>,
    answer: AddFavoritesResponse,
)
    requires
        detail_step(s, Msg::FavoriteEvent, s1, r1, e1),
        succeeded(answer),
        detail_step(
            s1,
            if e1[0] is Favorite {
                Msg::Favorited(answer)
            } else {
                Msg::Unfavorited(answer)
            },
            s2,
            r2,
            e2,
        ),
    ensures
        s2.manga.is_favorite == !s.manga.is_favorite,
        s2 == (DetailView { manga: Manga { is_favorite: !s.manga.is_favorite, ..s.manga }, ..s }),
{
}

/// A manga is asked for once per change of manga: after new props name another
/// manga, the next drawing asks for that manga, and the one after asks for
/// nothing; props that name the same manga change nothing.
pub proof fn lemma_fetch_once_after_change(s: DetailView, props: Props)
    ensures
        ({
            let (s1, r1) = detail_change(s, props);
            let (s2, e2) = detail_rendered(s1);
            let (s3, e3) = detail_rendered(s2);
            &&& r1 == (s.manga_id != props.manga_id)
            &&& r1 ==> e2 == Some(DetailEffect::FetchMangaInfo { manga_id: props.manga_id })
            &&& !r1 ==> s1 == s
            &&& e3 is None
            &&& s3.manga_id == props.manga_id
        }),
{
}

/// When the manga arrives the spinner goes off and stays off while its chapters
/// are asked for.
pub proof fn lemma_manga_ready_spinner_off(
    s: DetailView,
    data: GetMangaResponse,
    s1: DetailView,
    r: bool,
    e: Seq<DetailEffect>,
)
    requires
        detail_step(s, Msg::MangaReady(data), s1, r, e),
    ensures
        !s1.is_fetching,
        !(s1.is_fetching || e[0].shows_spinner()),
{
}

/// The favorite flag follows the server: an answer whose status is not
/// `success` changes nothing; a `success` answer to adding sets the flag, and
/// one to removing clears it, and changes nothing else.
pub proof fn lemma_favorite_follows_server(
    s: DetailView,
    msg: Msg,
    new: DetailView,
    render: bool,
    effects: Seq<DetailEffect>,
)
    requires
        detail_step(s, msg, new, render, effects),
    ensures
        (msg matches Msg::Favorited(r) && r.status@ != "success"@) ==> new == s,
        (msg matches Msg::Unfavorited(r) && r.status@ != "success"@) ==> new == s,
        (msg matches Msg::Favorited(r) && r.status@ == "success"@) ==> {
            &&& new.manga.is_favorite
            &&& new.manga.id == s.manga.id
            &&& new.manga.title == s.manga.title
            &&& new.manga.author == s.manga.author
            &&& new.manga.genre == s.manga.genre
            &&& new.manga.status == s.manga.status
            &&& new.manga.description == s.manga.description
            &&& new.manga.thumbnail_url == s.manga.thumbnail_url
            &&& new.manga_id == s.manga_id
            &&& new.chapters == s.chapters
            &&& new.is_fetching == s.is_fetching
            &&& new.should_fetch == s.should_fetch
        },
        (msg matches Msg::Unfavorited(r) && r.status@ == "success"@) ==> {
            &&& !new.manga.is_favorite
            &&& new.manga.id == s.manga.id
            &&& new.manga.title == s.manga.title
            &&& new.manga.author == s.manga.author
            &&& new.manga.genre == s.manga.genre
            &&& new.manga.status == s.manga.status
            &&& new.manga.description == s.manga.description
            &&& new.manga.thumbnail_url == s.manga.thumbnail_url
            &&& new.manga_id == s.manga_id
            &&& new.chapters == s.chapters
            &&& new.is_fetching == s.is_fetching
            &&& new.should_fetch == s.should_fetch
        },
        (msg is Favorited || msg is Unfavorited) ==> render && effects.len() == 0,
{
}

/// Drawing the page asks for the manga exactly when it is due, and then for the
/// page's manga; the spinner is left as it was, and afterwards nothing is due.
pub proof fn lemma_rendered_asks_only_when_due(s: DetailView)
    ensures
        detail_rendered(s).1 is Some <==> s.should_fetch,
        detail_rendered(s).1 matches Some(e) ==> e == (DetailEffect::FetchMangaInfo {
            manga_id: s.manga_id,
        }),
        !s.should_fetch ==> detail_rendered(s).1 is None,
        !detail_rendered(s).0.should_fetch,
        detail_rendered(s).0.is_fetching == s.is_fetching,
        detail_rendered(s).0.manga_id == s.manga_id,
        detail_rendered(s).0.manga == s.manga,
        detail_rendered(s).0.chapters == s.chapters,
{
}

} // verus!
