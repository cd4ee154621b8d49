use tanoshi::app::settings::{
    home_links, password_changed_msg, save_user_msg, user_list_msg, validate_token_msg,
    version_msg, ChangeData, Msg, Props, SettingRoute, Settings, SettingsEffect, UserListResponse,
    UserRow,
};
use tanoshi::app::BrowseRoute;
use tanoshi::model::{
    BackgroundColor, Claims, PageRendering, ReadingDirection, SettingParams, User,
};

fn params() -> SettingParams {
    SettingParams {
        reading_direction: ReadingDirection::RightToLeft,
        background_color: BackgroundColor::White,
        page_rendering: PageRendering::SinglePage,
        dark_mode: false,
    }
}

fn page() -> Settings {
    Settings::create(
        Props { setting_page: SettingRoute::Account },
        params(),
        Some("token-1".to_string()),
    )
}

fn user(name: &str, role: &str) -> User {
    User { username: name.to_string(), password: None, role: role.to_string(), telegram_chat_id: None }
}

#[test]
fn created_page() {
    let s = page();
    assert_eq!(s.token, "token-1");
    assert!(!s.is_admin && s.users.is_empty() && !s.change_password);
    assert_eq!(s.setting_page, SettingRoute::Account);
    let t = Settings::create(Props { setting_page: SettingRoute::Home }, params(), None);
    assert_eq!(t.token, "");
    assert_eq!(t.rendered(true), Some(SettingsEffect::ValidateToken { token: "".to_string() }));
    assert_eq!(t.rendered(false), None);
}

#[test]
fn reader_settings_are_saved() {
    let mut s = page();
    let (render, effects) = s.update(Msg::SetReadingDirection(ReadingDirection::LeftToRight));
    assert!(render);
    assert_eq!(s.settings.reading_direction, ReadingDirection::LeftToRight);
    assert_eq!(effects, vec![SettingsEffect::SaveSettings(s.settings)]);
    let (_, effects) = s.update(Msg::SetBackgroundColor(BackgroundColor::Black));
    assert_eq!(effects, vec![SettingsEffect::SaveSettings(s.settings)]);
    let (_, effects) = s.update(Msg::SetPageRendering(PageRendering::LongStrip));
    assert_eq!(s.settings.page_rendering, PageRendering::LongStrip);
    assert_eq!(effects, vec![SettingsEffect::SaveSettings(s.settings)]);
}

#[test]
fn admin_lists_users_reader_fetches_version() {
    let mut s = page();
    let (_, e) = s.update(Msg::Authorized(Claims { sub: "ann".to_string(), role: "ADMIN".to_string() }));
    assert!(s.is_admin);
    assert_eq!(s.me_username, "ann");
    assert_eq!(e, vec![SettingsEffect::FetchUsers { token: "token-1".to_string() }]);
    let mut t = page();
    let (_, e) = t.update(Msg::Authorized(Claims { sub: "bob".to_string(), role: "READER".to_string() }));
    assert!(!t.is_admin);
    assert_eq!(t.me_role, "READER");
    assert_eq!(e, vec![SettingsEffect::FetchVersion]);
}

#[test]
fn user_list_and_new_user() {
    let mut s = page();
    let (_, e) = s.update(Msg::UserListReady(vec![user("ann", "ADMIN"), user("bob", "READER")]));
    assert_eq!(e, vec![SettingsEffect::FetchVersion]);
    assert_eq!(s.users.len(), 2);
    assert_eq!(s.users[1], UserRow { user: user("bob", "READER"), is_edit: false, is_new: false });
    let (render, e) = s.update(Msg::NewUser);
    assert!(render && e.is_empty());
    assert_eq!(s.users.len(), 3);
    assert_eq!(s.users[2], UserRow { user: user("New user", "READER"), is_edit: true, is_new: true });
}

#[test]
fn editing_a_row() {
    let mut s = page();
    s.update(Msg::UserListReady(vec![user("ann", "ADMIN"), user("bob", "READER")]));
    s.update(Msg::EditUser(1));
    assert!(s.users[1].is_edit && !s.users[0].is_edit);
    s.update(Msg::UsernameChange(1, "robert".to_string()));
    s.update(Msg::RoleChange(1, ChangeData::Select("ADMIN".to_string())));
    s.update(Msg::RoleChange(1, ChangeData::Value("READER".to_string())));
    assert_eq!(s.users[1].user, user("robert", "ADMIN"));
    let (_, e) = s.update(Msg::SaveUser(1));
    assert_eq!(
        e,
        vec![SettingsEffect::ModifyUserRole { index: 1, user: user("robert", "ADMIN"), token: "token-1".to_string() }]
    );
    s.update(Msg::SaveUserSuccess(1));
    assert_eq!(s.users[1], UserRow { user: user("robert", "ADMIN"), is_edit: false, is_new: false });
}

#[test]
fn saving_a_new_row_registers_it() {
    let mut s = page();
    s.update(Msg::NewUser);
    let (_, e) = s.update(Msg::SaveUser(0));
    assert_eq!(
        e,
        vec![SettingsEffect::RegisterUser { index: 0, user: user("New user", "READER"), token: "token-1".to_string() }]
    );
    s.update(save_user_msg(201, true, 0));
    assert!(!s.users[0].is_edit && !s.users[0].is_new);
}

#[test]
fn password_form_toggles_back() {
    let mut s = page();
    s.update(Msg::ChangePassword);
    assert!(s.change_password);
    s.update(Msg::ChangePassword);
    assert!(!s.change_password);
}

#[test]
fn matching_passwords_are_sent_then_cleared() {
    let mut s = page();
    s.update(Msg::ChangePassword);
    s.update(Msg::PasswordChange("secret".to_string()));
    s.update(Msg::ConfirmPasswordChange("secret".to_string()));
    let (_, e) = s.update(Msg::SubmitPassword);
    assert_eq!(
        e,
        vec![SettingsEffect::ChangePassword { password: "secret".to_string(), token: "token-1".to_string() }]
    );
    s.update(password_changed_msg(200, true));
    assert_eq!(s.me_password, None);
    assert_eq!(s.me_confirm_password, None);
    assert!(!s.change_password);
}

#[test]
fn differing_passwords_are_not_sent() {
    let mut s = page();
    s.update(Msg::PasswordChange("secret".to_string()));
    s.update(Msg::ConfirmPasswordChange("secrets".to_string()));
    let (render, e) = s.update(Msg::SubmitPassword);
    assert!(render);
    assert!(e.is_empty());
    let mut t = page();
    t.update(Msg::PasswordChange("only".to_string()));
    let (_, e) = t.update(Msg::SubmitPassword);
    assert!(e.is_empty());
}

#[test]
fn dark_mode_switch() {
    let mut s = page();
    let (_, e) = s.update(Msg::DarkMode("false".to_string()));
    assert!(s.settings.dark_mode);
    assert_eq!(e, vec![SettingsEffect::SetDarkClass(true), SettingsEffect::SaveSettings(s.settings)]);
    let (_, e) = s.update(Msg::DarkMode("true".to_string()));
    assert!(!s.settings.dark_mode);
    assert_eq!(e, vec![SettingsEffect::SetDarkClass(false), SettingsEffect::SaveSettings(s.settings)]);
}

#[test]
fn clear_cache_and_version() {
    let mut s = page();
    let (_, e) = s.update(Msg::ClearCache);
    assert_eq!(e, vec![SettingsEffect::DeleteCache { name: "tanoshi".to_string() }, SettingsEffect::ReloadPage]);
    s.update(Msg::VersionFetched("0.20.0".to_string()));
    assert_eq!(s.backend_version, "0.20.0");
}

#[test]
fn noop_changes_nothing() {
    let mut s = page();
    let (render, e) = s.update(Msg::Noop);
    assert!(!render && e.is_empty());
    assert_eq!(s.token, "token-1");
}

#[test]
fn change_of_page() {
    let mut s = page();
    assert!(s.change(Props { setting_page: SettingRoute::Admin }));
    assert_eq!(s.setting_page, SettingRoute::Admin);
    assert!(!s.change(Props { setting_page: SettingRoute::Admin }));
}

#[test]
fn settings_answers_become_messages() {
    let claims = Claims { sub: "ann".to_string(), role: "ADMIN".to_string() };
    assert_eq!(validate_token_msg(200, Some(claims.clone())), Msg::Authorized(claims.clone()));
    assert_eq!(validate_token_msg(401, Some(claims)), Msg::Noop);
    assert_eq!(validate_token_msg(200, None), Msg::Noop);
    let list = UserListResponse { users: vec![user("ann", "ADMIN")] };
    assert_eq!(user_list_msg(200, Some(list)), Msg::UserListReady(vec![user("ann", "ADMIN")]));
    assert_eq!(user_list_msg(500, Some(UserListResponse { users: vec![] })), Msg::Noop);
    assert_eq!(save_user_msg(200, true, 3), Msg::SaveUserSuccess(3));
    assert_eq!(save_user_msg(200, false, 3), Msg::Noop);
    assert_eq!(save_user_msg(400, true, 3), Msg::Noop);
    assert_eq!(password_changed_msg(204, true), Msg::PasswordChangedReady);
    assert_eq!(password_changed_msg(403, true), Msg::Noop);
    assert_eq!(version_msg(200, Some("1.2".to_string())), Msg::VersionFetched("1.2".to_string()));
    assert_eq!(version_msg(200, None), Msg::VersionFetched("".to_string()));
    assert_eq!(version_msg(502, Some("1.2".to_string())), Msg::Noop);
}

#[test]
fn admin_table_rows() {
    let mut s = page();
    s.update(Msg::UserListReady(vec![user("ann", "ADMIN"), user("bob", "READER")]));
    s.update(Msg::NewUser);
    s.update(Msg::EditUser(1));
    let rows = s.admin_rows();
    assert_eq!(rows.len(), 3);
    assert!(!rows[0].username_editable && !rows[0].role_editable);
    assert!(rows[0].admin_selected && !rows[0].reader_selected);
    assert_eq!(rows[0].button, Msg::EditUser(0));
    assert!(!rows[1].username_editable && rows[1].role_editable);
    assert_eq!(rows[1].button, Msg::SaveUser(1));
    assert!(rows[2].username_editable && rows[2].role_editable && rows[2].reader_selected);
    assert_eq!(rows[2].username, "New user");
}

#[test]
fn account_page() {
    let mut s = page();
    s.update(Msg::Authorized(Claims { sub: "bob".to_string(), role: "READER".to_string() }));
    let v = s.account_view();
    assert_eq!(v.username, "bob");
    assert_eq!(v.password_form, None);
    assert_eq!(v.toggle_label, "Change Password");
    s.update(Msg::ChangePassword);
    s.update(Msg::PasswordChange("a".to_string()));
    let v = s.account_view();
    assert_eq!(v.toggle_label, "Cancel");
    let form = v.password_form.unwrap();
    assert_eq!(form.password, "a");
    assert_eq!(form.confirm_password, "");
    assert!(form.mismatch);
    s.update(Msg::ConfirmPasswordChange("a".to_string()));
    assert!(!s.account_view().password_form.unwrap().mismatch);
}

#[test]
fn reading_page_highlights_current_choice() {
    let s = page();
    let v = s.reading_view();
    assert!(v.right_to_left && !v.left_to_right);
    assert!(v.white && !v.black);
    assert!(v.single_page && !v.double_page && !v.long_strip);
}

#[test]
fn overview_links() {
    let links = home_links();
    assert_eq!(
        links,
        vec![
            ("Account".to_string(), BrowseRoute::Settings(SettingRoute::Account)),
            ("Admin".to_string(), BrowseRoute::Settings(SettingRoute::Admin)),
            ("Reading".to_string(), BrowseRoute::Settings(SettingRoute::Reading)),
            ("Misc".to_string(), BrowseRoute::Settings(SettingRoute::Misc)),
        ]
    );
}
