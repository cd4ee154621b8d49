//! The settings page: reader preferences, the signed-in account, and the
//! administration of accounts.
use vstd::prelude::*;
use crate::app::BrowseRoute;
use crate::fetch::{body_on_success, is_success, is_success_code};
use crate::model::{
    BackgroundColor, Claims, PageRendering, ReadingDirection, SettingParams, User, opt_text,
    same_opt_text,
};
use crate::route::{chars_of, has_prefix, occurs_at, occurs_at_exec};

verus! {

/// The sub-pages of the settings page.
#[derive(Clone, Copy, Debug, PartialEq, Eq, Structural)]
pub enum SettingRoute {
    Account,
    Admin,
    Reading,
    Misc,
    Home,
}

/// The path that leads to each sub-page, below the settings page's own path.
pub open spec fn setting_route_path(r: SettingRoute) -> Seq<char> {
    match r {
        SettingRoute::Account => "/account"@,
        SettingRoute::Admin => "/admin"@,
        SettingRoute::Reading => "/reading"@,
        SettingRoute::Misc => "/misc"@,
        SettingRoute::Home => "/"@,
    }
}

/// The sub-page a path leads to: the first of `/account`, `/admin`, `/reading` and
/// `/misc` that the path begins with; else the overview, when the path is `/` exactly.
pub open spec fn setting_route_of(s: Seq<char>) -> Option<SettingRoute> {
    if has_prefix(s, "/account"@) {
        Some(SettingRoute::Account)
    } else if has_prefix(s, "/admin"@) {
        Some(SettingRoute::Admin)
    } else if has_prefix(s, "/reading"@) {
        Some(SettingRoute::Reading)
    } else if has_prefix(s, "/misc"@) {
        Some(SettingRoute::Misc)
    } else if s =~= "/"@ {
        Some(SettingRoute::Home)
    } else {
        None
    }
}

impl SettingRoute {
    /// The path of this sub-page.
    pub fn to_path(&self) -> (p: String)
        ensures
            p@ == setting_route_path(*self),
    {
        match self {
            SettingRoute::Account => String::from_str("/account"),
            SettingRoute::Admin => String::from_str("/admin"),
            SettingRoute::Reading => String::from_str("/reading"),
            SettingRoute::Misc => String::from_str("/misc"),
            SettingRoute::Home => String::from_str("/"),
        }
    }

    /// The sub-page that `path` leads to, if any.
    pub fn from_path(path: &str) -> (r: Option<SettingRoute>)
        ensures
            r == setting_route_of(path@),
    {
        proof {
            reveal_strlit("/");
        }
        let s = chars_of(path);
        if occurs_at_exec(&s, 0, "/account") {
            Some(SettingRoute::Account)
        } else if occurs_at_exec(&s, 0, "/admin") {
            Some(SettingRoute::Admin)
        } else if occurs_at_exec(&s, 0, "/reading") {
            Some(SettingRoute::Reading)
        } else if occurs_at_exec(&s, 0, "/misc") {
            Some(SettingRoute::Misc)
        } else if s.len() == 1 && occurs_at_exec(&s, 0, "/") {
            assert(s@.subrange(0, 1) =~= s@);
            Some(SettingRoute::Home)
        } else {
            proof {
                reveal_strlit("/");
                if s@ =~= "/"@ {
                    assert(occurs_at(s@, 0, "/"@)) by {
                        assert(s@.subrange(0, s@.len() as int) =~= s@);
                    }
                }
            }
            None
        }
    }
}

/// Each sub-page is found again from its own path.
pub proof fn lemma_setting_route_round_trip(r: SettingRoute)
    ensures
        setting_route_of(setting_route_path(r)) == Some(r),
{
    reveal_strlit("/account");
    reveal_strlit("/admin");
    reveal_strlit("/reading");
    reveal_strlit("/misc");
    reveal_strlit("/");
    let p = setting_route_path(r);
    match r {
        SettingRoute::Account => {
            assert(p.subrange(0, 8) =~= "/account"@);
        },
        SettingRoute::Admin => {
            assert(p.subrange(0, 6) =~= "/admin"@);
        },
        SettingRoute::Reading => {
            assert(p.subrange(0, 8)[1] != "/account"@[1]);
            assert(p.subrange(0, 6)[1] != "/admin"@[1]);
            assert(p.subrange(0, 8) =~= "/reading"@);
        },
        SettingRoute::Misc => {
            assert(p.subrange(0, 5) =~= "/misc"@);
        },
        SettingRoute::Home => {},
    }
}

/// An account in the administration table, with whether it is being edited and
/// whether it is not yet stored on the server.
#[derive(Clone, Debug, PartialEq, Eq)]
pub struct UserRow {
    pub user: User,
    pub is_edit: bool,
    pub is_new: bool,
}

/// The server's list of accounts.
#[derive(Clone, Debug, PartialEq, Eq)]
pub struct UserListResponse {
    pub users: Vec<User>,
}

/// What the settings page is opened with.
#[derive(Clone, Copy, Debug, PartialEq, Eq, Structural)]
pub struct Props {
    pub setting_page: SettingRoute,
}

/// What a `change` event of a form field carried: a text field's value, the value
/// of the option chosen in a select field, or files.
#[derive(Clone, Debug, PartialEq, Eq)]
pub enum ChangeData {
    Value(String),
    Select(String),
    Files,
}

/// The events of the settings page.
#[derive(Clone, Debug, PartialEq, Eq)]
pub enum Msg {
    SetReadingDirection(ReadingDirection),
    SetBackgroundColor(BackgroundColor),
    SetPageRendering(PageRendering),
    Authorized(Claims),
    UserListReady(Vec<User>),
    NewUser,
    EditUser(usize),
    UsernameChange(usize, String),
    RoleChange(usize, ChangeData),
    ChangePassword,
    PasswordChange(String),
    ConfirmPasswordChange(String),
    SubmitPassword,
    PasswordChangedReady,
    SaveUser(usize),
    SaveUserSuccess(usize),
    ClearCache,
    DarkMode(String),
    VersionFetched(String),
    Noop,
}

/// What the settings page asks of the browser and the server. Every request
/// that needs it carries the session token as its `Authorization` header.
#[derive(Clone, Debug, PartialEq, Eq)]
pub enum SettingsEffect {
    /// Store the reader settings in the browser.
    SaveSettings(SettingParams),
    /// `GET /api/validate`: the claims of the token.
    ValidateToken { token: String },
    /// `GET /api/user`: the list of accounts.
    FetchUsers { token: String },
    /// `GET /api/version`: the server's version.
    FetchVersion,
    /// `PUT /api/user/role` with the account as JSON; answers for table row `index`.
    ModifyUserRole { index: usize, user: User, token: String },
    /// `POST /api/register` with the account as JSON; answers for table row `index`.
    RegisterUser { index: usize, user: User, token: String },
    /// `PUT /api/user/password` with the new password as plain text.
    ChangePassword { password: String, token: String },
    /// Delete the browser cache of that name.
    DeleteCache { name: String },
    /// Reload the page.
    ReloadPage,
    /// Add (`true`) or remove (`false`) the class `dark` on the document element.
    SetDarkClass(bool),
}

/// The state of the settings page.
pub struct Settings {
    pub settings: SettingParams,
    pub token: String,
    pub is_admin: bool,
    pub users: Vec<UserRow>,
    pub me_username: String,
    pub me_role: String,
    pub me_password: Option<String>,
    pub me_confirm_password: Option<String>,
    pub change_password: bool,
    pub setting_page: SettingRoute,
    pub backend_version: String,
}

/// The state of the settings page, with the account table as a sequence.
pub struct SettingsView {
    pub settings: SettingParams,
    pub token: String,
    pub is_admin: bool,
    pub users: Seq<UserRow>,
    pub me_username: String,
    pub me_role: String,
    pub me_password: Option<String>,
    pub me_confirm_password: Option<String>,
    pub change_password: bool,
    pub setting_page: SettingRoute,
    pub backend_version: String,
}

impl View for Settings {
    type V = SettingsView;

    open spec fn view(&self) -> SettingsView {
        SettingsView {
            settings: self.settings,
            token: self.token,
            is_admin: self.is_admin,
            users: self.users@,
            me_username: self.me_username,
            me_role: self.me_role,
            me_password: self.me_password,
            me_confirm_password: self.me_confirm_password,
            change_password: self.change_password,
            setting_page: self.setting_page,
            backend_version: self.backend_version,
        }
    }
}

/// The row that "New User" adds: an account named `New user` with role `READER`,
/// no password and no chat id, being edited and not yet stored.
pub open spec fn is_fresh_user_row(row: UserRow) -> bool {
    &&& row.user.username@ == "New user"@
    &&& row.user.password is None
    &&& row.user.role@ == "READER"@
    &&& row.user.telegram_chat_id is None
    &&& row.is_edit
    &&& row.is_new
}

/// The table row of an account as the server lists it: shown, not edited.
pub open spec fn listed_row(u: User) -> UserRow {
    UserRow { user: u, is_edit: false, is_new: false }
}

/// Whether the settings page can take `msg` without failing: a message about a
/// table row names an existing row, and a password is submitted only when one
/// was typed or the two fields differ.
pub open spec fn can_take(s: SettingsView, msg: Msg) -> bool {
    match msg {
        Msg::EditUser(i) => i < s.users.len(),
        Msg::UsernameChange(i, _) => i < s.users.len(),
        Msg::RoleChange(i, data) => data is Select ==> i < s.users.len(),
        Msg::SaveUser(i) => i < s.users.len(),
        Msg::SaveUserSuccess(i) => i < s.users.len(),
        Msg::SubmitPassword => !(s.me_password is None && s.me_confirm_password is None),
        _ => true,
    }
}

/// `new` is `s` with other reader settings, and those settings are stored.
pub open spec fn saves_settings(
    s: SettingsView,
    new: SettingsView,
    settings: SettingParams,
    effects: Seq<SettingsEffect>,
) -> bool {
    &&& new == SettingsView { settings, ..s }
    &&& effects == seq![SettingsEffect::SaveSettings(settings)]
}

/// What taking `msg` in state `s` leads to: the state `new`, the requests
/// `effects`, in order, and whether the page is drawn again (`render`).
pub open spec fn settings_step(
    s: SettingsView,
    msg: Msg,
    new: SettingsView,
    render: bool,
    effects: Seq<SettingsEffect>,
) -> bool {
    &&& render == !(msg is Noop)
    &&& match msg {
        Msg::SetReadingDirection(v) => saves_settings(
            s,
            new,
            SettingParams { reading_direction: v, ..s.settings },
            effects,
        ),
        Msg::SetBackgroundColor(v) => saves_settings(
            s,
            new,
            SettingParams { background_color: v, ..s.settings },
            effects,
        ),
        Msg::SetPageRendering(v) => saves_settings(
            s,
            new,
            SettingParams { page_rendering: v, ..s.settings },
            effects,
        ),
        Msg::Authorized(claim) => {
            let admin = claim.role@ == "ADMIN"@;
            &&& new == SettingsView {
                is_admin: admin,
                me_username: claim.sub,
                me_role: claim.role,
                ..s
            }
            &&& effects == if admin {
                seq![SettingsEffect::FetchUsers { token: s.token }]
            } else {
                seq![SettingsEffect::FetchVersion]
            }
        },
        Msg::UserListReady(users) => {
            &&& new == SettingsView { users: users@.map_values(|u: User| listed_row(u)), ..s }
            &&& effects == seq![SettingsEffect::FetchVersion]
        },
        Msg::NewUser => {
            &&& new == SettingsView { users: new.users, ..s }
            &&& new.users.len() == s.users.len() + 1
            &&& new.users.drop_last() =~= s.users
            &&& is_fresh_user_row(new.users.last())
            &&& effects.len() == 0
        },
        Msg::EditUser(i) => {
            &&& new == SettingsView {
                users: s.users.update(i as int, UserRow { is_edit: true, ..s.users[i as int] }),
                ..s
            }
            &&& effects.len() == 0
        },
        Msg::UsernameChange(i, name) => {
            let row = s.users[i as int];
            &&& new == SettingsView {
                users: s.users.update(
                    i as int,
                    UserRow { user: User { username: name, ..row.user }, ..row },
                ),
                ..s
            }
            &&& effects.len() == 0
        },
        Msg::RoleChange(i, data) => {
            &&& new == match data {
                ChangeData::Select(role) => {
                    let row = s.users[i as int];
                    SettingsView {
                        users: s.users.update(
                            i as int,
                            UserRow { user: User { role, ..row.user }, ..row },
                        ),
                        ..s
                    }
                },
                _ => s,
            }
            &&& effects.len() == 0
        },
        Msg::ChangePassword => {
            &&& new == SettingsView { change_password: !s.change_password, ..s }
            &&& effects.len() == 0
        },
        Msg::PasswordChange(p) => {
            &&& new == SettingsView { me_password: Some(p), ..s }
            &&& effects.len() == 0
        },
        Msg::ConfirmPasswordChange(p) => {
            &&& new == SettingsView { me_confirm_password: Some(p), ..s }
            &&& effects.len() == 0
        },
        Msg::SubmitPassword => {
            &&& new == s
            &&& effects == if opt_text(s.me_password) == opt_text(s.me_confirm_password) {
                seq![
                    SettingsEffect::ChangePassword {
                        password: s.me_password->0,
                        token: s.token,
                    },
                ]
            } else {
                Seq::<SettingsEffect>::empty()
            }
        },
        Msg::PasswordChangedReady => {
            &&& new == SettingsView {
                me_password: None,
                me_confirm_password: None,
                change_password: false,
                ..s
            }
            &&& effects.len() == 0
        },
        Msg::SaveUser(i) => {
            let row = s.users[i as int];
            &&& new == s
            &&& effects == if row.is_new {
                seq![SettingsEffect::RegisterUser { index: i, user: row.user, token: s.token }]
            } else {
                seq![SettingsEffect::ModifyUserRole { index: i, user: row.user, token: s.token }]
            }
        },
        Msg::SaveUserSuccess(i) => {
            &&& new == SettingsView {
                users: s.users.update(
                    i as int,
                    UserRow { is_edit: false, is_new: false, ..s.users[i as int] },
                ),
                ..s
            }
            &&& effects.len() == 0
        },
        Msg::ClearCache => {
            &&& new == s
            &&& effects.len() == 2
            &&& effects[0] matches SettingsEffect::DeleteCache { name } && name@ == "tanoshi"@
            &&& effects[1] == SettingsEffect::ReloadPage
        },
        Msg::DarkMode(value) => {
            let dark = value@ == "false"@;
            let settings = SettingParams { dark_mode: dark, ..s.settings };
            &&& new == SettingsView { settings, ..s }
            &&& effects =~= seq![
                SettingsEffect::SetDarkClass(dark),
                SettingsEffect::SaveSettings(settings),
            ]
        },
        Msg::VersionFetched(v) => {
            &&& new == SettingsView { backend_version: v, ..s }
            &&& effects.len() == 0
        },
        Msg::Noop => {
            &&& new == s
            &&& effects.len() == 0
        },
    }
}

impl Settings {
    /// The settings page as it opens: the stored reader settings, the stored
    /// session token (empty when there is none), nobody signed in yet, no
    /// accounts listed, the password form closed.
    pub fn create(props: Props, settings: SettingParams, token: Option<String>) -> (s: Settings)
        ensures
            s.settings == settings,
            s.token@ == (match token {
                Some(t) => t@,
                None => Seq::<char>::empty(),
            }),
            !s.is_admin,
            s.users@.len() == 0,
            s.me_username@.len() == 0,
            s.me_role@.len() == 0,
            s.me_password is None,
            s.me_confirm_password is None,
            !s.change_password,
            s.setting_page == props.setting_page,
            s.backend_version@.len() == 0,
    {
        let token = match token {
            Some(t) => t,
            None => String::new(),
        };
        Settings {
            settings,
            token,
            is_admin: false,
            users: Vec::new(),
            me_username: String::new(),
            me_role: String::new(),
            me_password: None,
            me_confirm_password: None,
            change_password: false,
            setting_page: props.setting_page,
            backend_version: String::new(),
        }
    }

    /// Takes `msg`: returns whether to draw the page again and what to ask of
    /// the browser and the server, in that order.
    pub fn update(&mut self, msg: Msg) -> (r: (bool, Vec<SettingsEffect>))
        requires
            can_take(old(self)@, msg),
        ensures
            settings_step(old(self)@, msg, final(self)@, r.0, r.1@),
    {
        let mut effects: Vec<SettingsEffect> = Vec::new();
        match msg {
            Msg::SetReadingDirection(value) => {
                self.settings.reading_direction = value;
                effects.push(SettingsEffect::SaveSettings(self.settings));
            },
            Msg::SetBackgroundColor(value) => {
                self.settings.background_color = value;
                effects.push(SettingsEffect::SaveSettings(self.settings));
            },
            Msg::SetPageRendering(value) => {
                self.settings.page_rendering = value;
                effects.push(SettingsEffect::SaveSettings(self.settings));
            },
            Msg::Authorized(claim) => {
                let admin = String::from_str("ADMIN");
                self.is_admin = claim.role == admin;
                self.me_username = claim.sub;
                self.me_role = claim.role;
                if self.is_admin {
                    effects.push(SettingsEffect::FetchUsers { token: self.token.clone() });
                } else {
                    effects.push(SettingsEffect::FetchVersion);
                }
            },
            Msg::UserListReady(users) => {
                let mut rows: Vec<UserRow> = Vec::new();
                let mut k: usize = 0;
                while k < users.len()
                    invariant
                        k <= users.len(),
                        rows@ =~= users@.take(k as int).map_values(|u: User| listed_row(u)),
                    decreases users.len() - k,
                {
                    rows.push(UserRow { user: users[k].duplicate(), is_edit: false, is_new: false });
                    k = k + 1;
                }
                assert(users@.take(users.len() as int) =~= users@);
                self.users = rows;
                effects.push(SettingsEffect::FetchVersion);
            },
            Msg::NewUser => {
                self.users.push(
                    UserRow {
                        user: User {
                            username: String::from_str("New user"),
                            password: None,
                            role: String::from_str("READER"),
                            telegram_chat_id: None,
                        },
                        is_edit: true,
                        is_new: true,
                    },
                );
            },
            Msg::EditUser(i) => {
                self.users[i].is_edit = true;
            },
            Msg::UsernameChange(i, username) => {
                self.users[i].user.username = username;
            },
            Msg::RoleChange(i, e) => match e {
                ChangeData::Select(value) => {
                    self.users[i].user.role = value;
                },
                _ => {},
            },
            Msg::ChangePassword => {
                self.change_password = !self.change_password;
            },
            Msg::PasswordChange(value) => {
                self.me_password = Some(value);
            },
            Msg::ConfirmPasswordChange(value) => {
                self.me_confirm_password = Some(value);
            },
            Msg::SubmitPassword => {
                if same_opt_text(&self.me_password, &self.me_confirm_password) {
                    let password = match &self.me_password {
                        Some(p) => p.clone(),
                        None => vstd::pervasive::unreached(),
                    };
                    effects.push(
                        SettingsEffect::ChangePassword { password, token: self.token.clone() },
                    );
                }
            },
            Msg::PasswordChangedReady => {
                self.me_password = None;
                self.me_confirm_password = None;
                self.change_password = false;
            },
            Msg::SaveUser(i) => {
                let user = self.users[i].user.duplicate();
                if self.users[i].is_new {
                    effects.push(
                        SettingsEffect::RegisterUser { index: i, user, token: self.token.clone() },
                    );
                } else {
                    effects.push(
                        SettingsEffect::ModifyUserRole { index: i, user, token: self.token.clone() },
                    );
                }
            },
            Msg::SaveUserSuccess(i) => {
                self.users[i].is_edit = false;
                self.users[i].is_new = false;
                assert(self.users@ =~= old(self).users@.update(
                    i as int,
                    UserRow { is_edit: false, is_new: false, ..old(self).users@[i as int] },
                ));
            },
            Msg::ClearCache => {
                effects.push(SettingsEffect::DeleteCache { name: String::from_str("tanoshi") });
                effects.push(SettingsEffect::ReloadPage);
            },
            Msg::DarkMode(value) => {
                let off = String::from_str("false");
                let dark = value == off;
                assert(dark == (value@ == "false"@));
                self.settings.dark_mode = dark;
                effects.push(SettingsEffect::SetDarkClass(dark));
                effects.push(SettingsEffect::SaveSettings(self.settings));
            },
            Msg::VersionFetched(version) => {
                self.backend_version = version;
            },
            Msg::Noop => {
                return (false, effects);
            },
        }
        (true, effects)
    }
}


/// The state after new props: the sub-page they name, and whether it differs
/// from the one shown (then the page is drawn again).
pub open spec fn settings_change(s: SettingsView, props: Props) -> (SettingsView, bool) {
    (SettingsView { setting_page: props.setting_page, ..s }, s.setting_page != props.setting_page)
}

impl Settings {
    /// Takes new props; returns whether to draw the page again.
    pub fn change(&mut self, props: Props) -> (r: bool)
        ensures
            (final(self)@, r) == settings_change(old(self)@, props),
    {
        if self.setting_page != props.setting_page {
            self.setting_page = props.setting_page;
            true
        } else {
            false
        }
    }

    /// After the page is drawn: the first time, the session token is checked.
    pub fn rendered(&self, first_render: bool) -> (e: Option<SettingsEffect>)
        ensures
            e == if first_render {
                Some(SettingsEffect::ValidateToken { token: self.token })
            } else {
                None::<SettingsEffect>
            },
    {
        if first_render {
            Some(SettingsEffect::ValidateToken { token: self.token.clone() })
        } else {
            None
        }
    }
}

/// The answer to `ValidateToken`: the claims, when the status is a success and
/// the body held claims; else nothing.
pub fn validate_token_msg(status: u16, claims: Option<Claims>) -> (m: Msg)
    ensures
        m == (match claims {
            Some(c) => if is_success_code(status) {
                Msg::Authorized(c)
            } else {
                Msg::Noop
            },
            None => Msg::Noop,
        }),
{
    match body_on_success(status, claims) {
        Some(c) => Msg::Authorized(c),
        None => Msg::Noop,
    }
}

/// The answer to `FetchUsers`: the accounts, when the status is a success and the
/// body held a list; else nothing.
pub fn user_list_msg(status: u16, body: Option<UserListResponse>) -> (m: Msg)
    ensures
        m == (match body {
            Some(b) => if is_success_code(status) {
                Msg::UserListReady(b.users)
            } else {
                Msg::Noop
            },
            None => Msg::Noop,
        }),
{
    match body_on_success(status, body) {
        Some(b) => Msg::UserListReady(b.users),
        None => Msg::Noop,
    }
}

/// The answer to `ModifyUserRole` or `RegisterUser` for row `index`: stored, when
/// the status is a success and the body could be read; else nothing.
pub fn save_user_msg(status: u16, body_read: bool, index: usize) -> (m: Msg)
    ensures
        m == if body_read && is_success_code(status) {
            Msg::SaveUserSuccess(index)
        } else {
            Msg::Noop
        },
{
    if body_read && is_success(status) {
        Msg::SaveUserSuccess(index)
    } else {
        Msg::Noop
    }
}

/// The answer to `ChangePassword`: changed, when the status is a success and the
/// body could be read; else nothing.
pub fn password_changed_msg(status: u16, body_read: bool) -> (m: Msg)
    ensures
        m == if body_read && is_success_code(status) {
            Msg::PasswordChangedReady
        } else {
            Msg::Noop
        },
{
    if body_read && is_success(status) {
        Msg::PasswordChangedReady
    } else {
        Msg::Noop
    }
}

/// The answer to `FetchVersion`: on a success status the body's text, or the empty
/// text when the body could not be read; on any other status nothing.
pub fn version_msg(status: u16, body: Option<String>) -> (m: Msg)
    ensures
        is_success_code(status) ==> (m matches Msg::VersionFetched(v) && v@ == (match body {
            Some(b) => b@,
            None => Seq::<char>::empty(),
        })),
        !is_success_code(status) ==> m is Noop,
{
    if is_success(status) {
        match body {
            Some(b) => Msg::VersionFetched(b),
            None => Msg::VersionFetched(String::new()),
        }
    } else {
        Msg::Noop
    }
}

/// What a row of the administration table shows: the name, as text or as a
/// field to type in (only while a new account is edited); the role, as text or
/// as a choice between `READER` and `ADMIN` (while edited), with the current
/// one chosen; and the message its button sends, edit or save.
#[derive(Clone, Debug, PartialEq, Eq)]
pub struct AdminRowView {
    pub username: String,
    pub username_editable: bool,
    pub role: String,
    pub role_editable: bool,
    pub reader_selected: bool,
    pub admin_selected: bool,
    pub button: Msg,
}

/// How `row`, at position `i` of the table, is shown.
pub open spec fn admin_row_view(row: UserRow, i: usize, v: AdminRowView) -> bool {
    &&& v.username == row.user.username
    &&& v.username_editable == (row.is_edit && row.is_new)
    &&& v.role == row.user.role
    &&& v.role_editable == row.is_edit
    &&& v.reader_selected == (row.user.role@ == "READER"@)
    &&& v.admin_selected == (row.user.role@ == "ADMIN"@)
    &&& v.button == if row.is_edit {
        Msg::SaveUser(i)
    } else {
        Msg::EditUser(i)
    }
}

/// The password form of the account page: the two typed passwords (empty when
/// none was typed) and whether they differ, which the page warns about.
#[derive(Clone, Debug, PartialEq, Eq)]
pub struct PasswordFormView {
    pub password: String,
    pub confirm_password: String,
    pub mismatch: bool,
}

/// What the account page shows: name and role, the password form while it is
/// open, and the label of the button that opens or closes it.
#[derive(Clone, Debug, PartialEq, Eq)]
pub struct AccountView {
    pub username: String,
    pub role: String,
    pub password_form: Option<PasswordFormView>,
    pub toggle_label: String,
}

/// Which choice of each reader setting is highlighted: the current one.
#[derive(Clone, Copy, Debug, PartialEq, Eq, Structural)]
pub struct ReadingView {
    pub right_to_left: bool,
    pub left_to_right: bool,
    pub white: bool,
    pub black: bool,
    pub single_page: bool,
    pub double_page: bool,
    pub long_strip: bool,
}

/// The text of an optional string, or the empty text.
pub open spec fn text_or_empty(o: Option<String>) -> Seq<char> {
    match o {
        Some(s) => s@,
        None => Seq::<char>::empty(),
    }
}

/// A copy of the text of an optional string, or the empty text.
fn string_or_empty(o: &Option<String>) -> (r: String)
    ensures
        r@ == text_or_empty(*o),
{
    match o {
        Some(s) => s.clone(),
        None => String::new(),
    }
}

impl Settings {
    /// The rows of the administration table, in order.
    pub fn admin_rows(&self) -> (rows: Vec<AdminRowView>)
        ensures
            rows@.len() == self.users@.len(),
            forall|i: int|
                0 <= i < rows@.len() ==> admin_row_view(
                    #[trigger] self.users@[i],
                    i as usize,
                    rows@[i],
                ),
    {
        let mut rows: Vec<AdminRowView> = Vec::new();
        let mut i: usize = 0;
        let reader = String::from_str("READER");
        let admin = String::from_str("ADMIN");
        while i < self.users.len()
            invariant
                i <= self.users@.len(),
                rows@.len() == i,
                reader@ == "READER"@,
                admin@ == "ADMIN"@,
                forall|j: int|
                    0 <= j < i ==> admin_row_view(#[trigger] self.users@[j], j as usize, rows@[j]),
            decreases self.users@.len() - i,
        {
            let row = &self.users[i];
            let button = if row.is_edit {
                Msg::SaveUser(i)
            } else {
                Msg::EditUser(i)
            };
            rows.push(
                AdminRowView {
                    username: row.user.username.clone(),
                    username_editable: row.is_edit && row.is_new,
                    role: row.user.role.clone(),
                    role_editable: row.is_edit,
                    reader_selected: row.user.role == reader,
                    admin_selected: row.user.role == admin,
                    button,
                },
            );
            i = i + 1;
        }
        rows
    }

    /// The account page.
    pub fn account_view(&self) -> (v: AccountView)
        ensures
            v.username == self.me_username,
            v.role == self.me_role,
            self.change_password <==> v.password_form is Some,
            v.password_form matches Some(f) ==> {
                &&& f.password@ == text_or_empty(self.me_password)
                &&& f.confirm_password@ == text_or_empty(self.me_confirm_password)
                &&& f.mismatch == (opt_text(self.me_password) != opt_text(
                    self.me_confirm_password,
                ))
            },
            v.toggle_label@ == if self.change_password {
                "Cancel"@
            } else {
                "Change Password"@
            },
    {
        let password_form = if self.change_password {
            Some(
                PasswordFormView {
                    password: string_or_empty(&self.me_password),
                    confirm_password: string_or_empty(&self.me_confirm_password),
                    mismatch: !same_opt_text(&self.me_password, &self.me_confirm_password),
                },
            )
        } else {
            None
        };
        let toggle_label = if self.change_password {
            String::from_str("Cancel")
        } else {
            String::from_str("Change Password")
        };
        AccountView {
            username: self.me_username.clone(),
            role: self.me_role.clone(),
            password_form,
            toggle_label,
        }
    }

    /// The reading page.
    pub fn reading_view(&self) -> (v: ReadingView)
        ensures
            v.right_to_left == (self.settings.reading_direction == ReadingDirection::RightToLeft),
            v.left_to_right == (self.settings.reading_direction == ReadingDirection::LeftToRight),
            v.white == (self.settings.background_color == BackgroundColor::White),
            v.black == (self.settings.background_color == BackgroundColor::Black),
            v.single_page == (self.settings.page_rendering == PageRendering::SinglePage),
            v.double_page == (self.settings.page_rendering == PageRendering::DoublePage),
            v.long_strip == (self.settings.page_rendering == PageRendering::LongStrip),
    {
        ReadingView {
            right_to_left: self.settings.reading_direction == ReadingDirection::RightToLeft,
            left_to_right: self.settings.reading_direction == ReadingDirection::LeftToRight,
            white: self.settings.background_color == BackgroundColor::White,
            black: self.settings.background_color == BackgroundColor::Black,
            single_page: self.settings.page_rendering == PageRendering::SinglePage,
            double_page: self.settings.page_rendering == PageRendering::DoublePage,
            long_strip: self.settings.page_rendering == PageRendering::LongStrip,
        }
    }
}

/// The links of the settings overview, in order: Account, Admin, Reading and Misc,
/// each to its sub-page.
pub fn home_links() -> (links: Vec<(String, BrowseRoute)>)
    ensures
        links@.len() == 4,
        links@[0].0@ == "Account"@ && links@[0].1 == BrowseRoute::Settings(SettingRoute::Account),
        links@[1].0@ == "Admin"@ && links@[1].1 == BrowseRoute::Settings(SettingRoute::Admin),
        links@[2].0@ == "Reading"@ && links@[2].1 == BrowseRoute::Settings(SettingRoute::Reading),
        links@[3].0@ == "Misc"@ && links@[3].1 == BrowseRoute::Settings(SettingRoute::Misc),
{
    let mut links: Vec<(String, BrowseRoute)> = Vec::new();
    links.push((String::from_str("Account"), BrowseRoute::Settings(SettingRoute::Account)));
    links.push((String::from_str("Admin"), BrowseRoute::Settings(SettingRoute::Admin)));
    links.push((String::from_str("Reading"), BrowseRoute::Settings(SettingRoute::Reading)));
    links.push((String::from_str("Misc"), BrowseRoute::Settings(SettingRoute::Misc)));
    links
}

/// Opening and then closing the password form (or the reverse) leaves the page
/// as it was, and neither step asks anything of the server.
pub proof fn lemma_password_form_toggle_twice(
    s: SettingsView,
    s1: SettingsView,
    s2: SettingsView,
    r1: bool,
    r2: bool,
    e1: Seq<SettingsEffect>,
    e2: Seq<SettingsEffect>,
)
    requires
        settings_step(s, Msg::ChangePassword, s1, r1, e1),
        settings_step(s1, Msg::ChangePassword, s2, r2, e2),
    ensures
        s2 == s,
        e1.len() == 0 && e2.len() == 0,
{
}

/// Whatever the message, the reader settings that the page holds afterwards are
/// the ones it stores: a message that changes them ends by saving exactly them,
/// and every save it asks for carries them.
pub proof fn lemma_settings_changes_are_saved(
    s: SettingsView,
    msg: Msg,
    new: SettingsView,
    render: bool,
    effects: Seq<SettingsEffect>,
)
    requires
        settings_step(s, msg, new, render, effects),
    ensures
        new.settings != s.settings ==> effects.len() > 0 && effects.last()
            == SettingsEffect::SaveSettings(new.settings),
        forall|k: int|
            0 <= k < effects.len() ==> (#[trigger] effects[k] matches SettingsEffect::SaveSettings(p)
                ==> p == new.settings),
{
    match msg {
        Msg::ClearCache => {
            assert(!(effects[0] is SaveSettings));
        },
        _ => {},
    }
}

/// The account table changes length only when a row is added (one more) or the
/// server's list arrives (then it has that list's length).
pub proof fn lemma_row_count(
    s: SettingsView,
    msg: Msg,
    new: SettingsView,
    render: bool,
    effects: Seq<SettingsEffect>,
)
    requires
        can_take(s, msg),
        settings_step(s, msg, new, render, effects),
    ensures
        new.users.len() == match msg {
            Msg::NewUser => s.users.len() + 1,
            Msg::UserListReady(users) => users@.len(),
            _ => s.users.len(),
        },
{
    match msg {
        Msg::UserListReady(users) => {
            assert(new.users.len() == users@.map_values(|u: User| listed_row(u)).len());
        },
        Msg::RoleChange(i, data) => {
            if data is Select {
                assert(new.users.len() == s.users.len());
            }
        },
        _ => {},
    }
}

/// Saving row `i` sends that row's account, to be registered when the row is new
/// and updated otherwise; when the server confirms, the row holds the same
/// account, is no longer edited nor new, and the other rows are untouched.
pub proof fn lemma_save_user_round_trip(
    s: SettingsView,
    i: usize,
    s1: SettingsView,
    s2: SettingsView,
    r1: bool,
    r2: bool,
    e1: Seq<SettingsEffect>,
    e2: Seq<SettingsEffect>,
)
    requires
        i < s.users.len(),
        settings_step(s, Msg::SaveUser(i), s1, r1, e1),
        settings_step(s1, Msg::SaveUserSuccess(i), s2, r2, e2),
    ensures
        e1.len() == 1,
        s.users[i as int].is_new ==> e1[0] == (SettingsEffect::RegisterUser {
            index: i,
            user: s.users[i as int].user,
            token: s.token,
        }),
        !s.users[i as int].is_new ==> e1[0] == (SettingsEffect::ModifyUserRole {
            index: i,
            user: s.users[i as int].user,
            token: s.token,
        }),
        s2.users.len() == s.users.len(),
        s2.users[i as int] == (UserRow { user: s.users[i as int].user, is_edit: false, is_new: false }),
        forall|j: int| 0 <= j < s.users.len() && j != i ==> s2.users[j] == s.users[j],
{
}

/// A password typed twice alike is sent as it was typed; once the server has
/// changed it, the form is closed and both fields are cleared.
pub proof fn lemma_password_change_round_trip(
    s: SettingsView,
    s1: SettingsView,
    s2: SettingsView,
    r1: bool,
    r2: bool,
    e1: Seq<SettingsEffect>,
    e2: Seq<SettingsEffect>,
)
    requires
        s.me_password is Some,
        opt_text(s.me_password) == opt_text(s.me_confirm_password),
        settings_step(s, Msg::SubmitPassword, s1, r1, e1),
        settings_step(s1, Msg::PasswordChangedReady, s2, r2, e2),
    ensures
        e1 == seq![
            (SettingsEffect::ChangePassword { password: s.me_password->0, token: s.token }),
        ],
        s2.me_password is None,
        s2.me_confirm_password is None,
        !s2.change_password,
        s2.users == s.users,
        s2.settings == s.settings,
{
}

/// After the dark-mode switch, the class on the page and the stored setting
/// agree with the page's own state.
pub proof fn lemma_dark_mode_consistent(
    s: SettingsView,
    value: String,
    new: SettingsView,
    render: bool,
    effects: Seq<SettingsEffect>,
)
    requires
        settings_step(s, Msg::DarkMode(value), new, render, effects),
    ensures
        effects.len() == 2,
        effects[0] == SettingsEffect::SetDarkClass(new.settings.dark_mode),
        effects[1] == SettingsEffect::SaveSettings(new.settings),
        new.settings.dark_mode == (value@ == "false"@),
{
}

/// New props with the sub-page already shown change nothing and draw nothing:
/// taking the same props twice draws at most once.
pub proof fn lemma_change_idempotent(s: SettingsView, props: Props)
    ensures
        settings_change(settings_change(s, props).0, props) == (settings_change(s, props).0, false),
{
}

/// The reader-setting messages apply the chosen value: afterwards the page's
/// reader settings hold it, the other reader settings and the rest of the page
/// are as before, and exactly those settings are stored.
pub proof fn lemma_reader_choice_applied(
    s: SettingsView,
    msg: Msg,
    new: SettingsView,
    render: bool,
    effects: Seq<SettingsEffect>,
)
    requires
        settings_step(s, msg, new, render, effects),
    ensures
        msg matches Msg::SetReadingDirection(v) ==> {
            &&& new.settings.reading_direction == v
            &&& new.settings.background_color == s.settings.background_color
            &&& new.settings.page_rendering == s.settings.page_rendering
            &&& new.settings.dark_mode == s.settings.dark_mode
        },
        msg matches Msg::SetBackgroundColor(v) ==> {
            &&& new.settings.background_color == v
            &&& new.settings.reading_direction == s.settings.reading_direction
            &&& new.settings.page_rendering == s.settings.page_rendering
            &&& new.settings.dark_mode == s.settings.dark_mode
        },
        msg matches Msg::SetPageRendering(v) ==> {
            &&& new.settings.page_rendering == v
            &&& new.settings.reading_direction == s.settings.reading_direction
            &&& new.settings.background_color == s.settings.background_color
            &&& new.settings.dark_mode == s.settings.dark_mode
        },
        (msg is SetReadingDirection || msg is SetBackgroundColor || msg is SetPageRendering) ==> {
            &&& render
            &&& effects.len() == 1
            &&& effects[0] == SettingsEffect::SaveSettings(new.settings)
            &&& new.users == s.users
            &&& new.token == s.token
            &&& new.is_admin == s.is_admin
            &&& new.me_username == s.me_username
            &&& new.me_role == s.me_role
            &&& new.me_password == s.me_password
            &&& new.me_confirm_password == s.me_confirm_password
            &&& new.change_password == s.change_password
            &&& new.setting_page == s.setting_page
            &&& new.backend_version == s.backend_version
        },
{
}

/// New props always leave the page on the sub-page they name; the page is drawn
/// again exactly when that sub-page differs from the one shown, and nothing else
/// of the page changes.
pub proof fn lemma_change_shows_named_page(s: SettingsView, props: Props)
    ensures
        settings_change(s, props).0.setting_page == props.setting_page,
        settings_change(s, props).1 <==> s.setting_page != props.setting_page,
        settings_change(s, props).0.settings == s.settings,
        settings_change(s, props).0.users == s.users,
        settings_change(s, props).0.token == s.token,
        settings_change(s, props).0.is_admin == s.is_admin,
        settings_change(s, props).0.me_username == s.me_username,
        settings_change(s, props).0.me_role == s.me_role,
        settings_change(s, props).0.me_password == s.me_password,
        settings_change(s, props).0.me_confirm_password == s.me_confirm_password,
        settings_change(s, props).0.change_password == s.change_password,
        settings_change(s, props).0.backend_version == s.backend_version,
{
}

} // verus!
