//! The data that the web client reads from and sends to the server, and the
//! reader settings kept in the browser.
use vstd::prelude::*;

verus! {

/// The order in which pages follow each other in the reader.
#[derive(Clone, Copy, Debug, PartialEq, Eq, Structural)]
pub enum ReadingDirection {
    LeftToRight,
    RightToLeft,
}

/// The colour behind the pages in the reader.
#[derive(Clone, Copy, Debug, PartialEq, Eq, Structural)]
pub enum BackgroundColor {
    White,
    Black,
}

/// How pages are laid out in the reader.
#[derive(Clone, Copy, Debug, PartialEq, Eq, Structural)]
pub enum PageRendering {
    SinglePage,
    DoublePage,
    LongStrip,
}

/// The reader settings that the browser keeps between visits.
#[derive(Clone, Copy, Debug, PartialEq, Eq, Structural)]
pub struct SettingParams {
    pub reading_direction: ReadingDirection,
    pub background_color: BackgroundColor,
    pub page_rendering: PageRendering,
    pub dark_mode: bool,
}

/// An account on the server.
#[derive(Clone, Debug, PartialEq, Eq)]
pub struct User {
    pub username: String,
    pub password: Option<String>,
    pub role: String,
    pub telegram_chat_id: Option<i64>,
}

/// The claims of a valid session token: the user's name and role.
#[derive(Clone, Debug, PartialEq, Eq)]
pub struct Claims {
    pub sub: String,
    pub role: String,
}

/// A manga as the client shows it.
#[derive(Clone, Debug, PartialEq, Eq)]
pub struct Manga {
    pub id: i32,
    pub title: String,
    pub author: Vec<String>,
    pub genre: Vec<String>,
    pub status: Option<String>,
    pub description: Option<String>,
    pub thumbnail_url: String,
    pub is_favorite: bool,
}

/// A chapter of a manga as the client shows it; `read` is the last page read,
/// counted from zero, and `uploaded` the upload date and time as the server
/// writes it, `<date>T<time>`.
#[derive(Clone, Debug, PartialEq, Eq)]
pub struct Chapter {
    pub id: i32,
    pub vol: Option<String>,
    pub no: Option<String>,
    pub title: Option<String>,
    pub read: Option<i32>,
    pub uploaded: String,
}

/// The server's answer to a request for a manga.
#[derive(Clone, Debug, PartialEq, Eq)]
pub struct GetMangaResponse {
    pub manga: Manga,
}

/// The server's answer to a request for a manga's chapters.
#[derive(Clone, Debug, PartialEq, Eq)]
pub struct GetChaptersResponse {
    pub chapters: Vec<Chapter>,
}

/// The server's answer to adding or removing a favorite.
#[derive(Clone, Debug, PartialEq, Eq)]
pub struct AddFavoritesResponse {
    pub status: String,
}

/// The text of an optional string.
pub open spec fn opt_text(o: Option<String>) -> Option<Seq<char>> {
    match o {
        Some(s) => Some(s@),
        None => None,
    }
}

/// A copy of an optional string.
pub fn copy_opt_string(o: &Option<String>) -> (r: Option<String>)
    ensures
        r == *o,
{
    match o {
        Some(s) => Some(s.clone()),
        None => None,
    }
}

/// Whether two optional strings hold the same text.
pub fn same_opt_text(a: &Option<String>, b: &Option<String>) -> (r: bool)
    ensures
        r == (opt_text(*a) == opt_text(*b)),
{
    match (a, b) {
        (Some(x), Some(y)) => *x == *y,
        (None, None) => true,
        _ => false,
    }
}

impl User {
    /// A copy of the account.
    pub fn duplicate(&self) -> (r: User)
        ensures
            r == *self,
    {
        User {
            username: self.username.clone(),
            password: copy_opt_string(&self.password),
            role: self.role.clone(),
            telegram_chat_id: self.telegram_chat_id,
        }
    }
}

impl Manga {
    /// The manga shown before the server has answered: no id, empty texts and
    /// lists, nothing optional given, not a favorite.
    pub fn empty() -> (m: Manga)
        ensures
            m.id == 0,
            m.title@ == Seq::<char>::empty(),
            m.author@ == Seq::<String>::empty(),
            m.genre@ == Seq::<String>::empty(),
            m.status is None,
            m.description is None,
            m.thumbnail_url@ == Seq::<char>::empty(),
            !m.is_favorite,
    {
        Manga {
            id: 0,
            title: String::new(),
            author: Vec::new(),
            genre: Vec::new(),
            status: None,
            description: None,
            thumbnail_url: String::new(),
            is_favorite: false,
        }
    }
}

} // verus!
