//! What a Frappe site answers, held as plain values: the login reply, the logged-in
//! user, the `frappe.boot` object of the desk page, and the session that a login
//! leaves in the client.
//!
//! Maps of the site's JSON are held as lists of `(key, value)` pairs.
use crate::text::{opt_view, texts_view};
use vstd::prelude::*;

verus! {

/// The reply of the login endpoint.
pub struct LoginApiResponse {
    pub message: LoginApiMessage,
}

/// The payload of the login reply.
pub struct LoginApiMessage {
    pub sid: String,
    pub full_name: Option<String>,
}

pub struct LoginApiMessageView {
    pub sid: Seq<char>,
    pub full_name: Option<Seq<char>>,
}

impl View for LoginApiMessage {
    type V = LoginApiMessageView;

    open spec fn view(&self) -> LoginApiMessageView {
        LoginApiMessageView { sid: self.sid@, full_name: opt_view(self.full_name) }
    }
}

/// The reply of the `get_logged_user` endpoint.
pub struct UserInfo {
    pub message: UserInfoMessage,
}

/// The payload of the `get_logged_user` reply.
pub struct UserInfoMessage {
    pub name: String,
    pub email: Option<String>,
    pub roles: Vec<String>,
}

/// What the client keeps of a live session. In token mode the session id is the
/// marker `token-mode` and there is no CSRF token.
pub struct SessionInfo {
    pub sid: String,
    pub csrf_token: String,
    pub full_name: Option<String>,
    pub sitename: String,
    pub roles: Vec<String>,
}

pub struct SessionInfoView {
    pub sid: Seq<char>,
    pub csrf_token: Seq<char>,
    pub full_name: Option<Seq<char>>,
    pub sitename: Seq<char>,
    pub roles: Seq<Seq<char>>,
}

impl View for SessionInfo {
    type V = SessionInfoView;

    open spec fn view(&self) -> SessionInfoView {
        SessionInfoView {
            sid: self.sid@,
            csrf_token: self.csrf_token@,
            full_name: opt_view(self.full_name),
            sitename: self.sitename@,
            roles: texts_view(self.roles@),
        }
    }
}

/// The `frappe.boot` object of the desk page.
pub struct FrappeBoot {
    pub user: BootUser,
    pub sitename: String,
    pub csrf_token: String,
    pub sysdefaults: SysDefaults,
    pub app_logo_url: Option<String>,
    pub home_page: Option<String>,
    pub allow_modules: Vec<String>,
    pub can_select: Vec<String>,
    pub can_create: Vec<String>,
    pub can_write: Vec<String>,
    pub can_read: Vec<String>,
    pub can_submit: Vec<String>,
    pub can_cancel: Vec<String>,
    pub can_delete: Vec<String>,
    pub can_get_report: Vec<String>,
    pub all_reports: Vec<(String, ReportMeta)>,
    pub module_wise_workspaces: Vec<(String, Vec<String>)>,
    pub dashboards: Vec<DashboardMeta>,
    pub single_types: Vec<String>,
    pub calendars: Vec<String>,
    pub treeviews: Vec<String>,
    pub module_app: Vec<(String, String)>,
    pub app_data: Vec<AppData>,
    pub user_info: Vec<(String, BootUserInfo)>,
    pub sidebar_pages: SidebarPages,
    pub navbar_settings: Option<NavbarSettings>,
    pub versions: Vec<(String, String)>,
    pub lang_dict: Vec<(String, String)>,
    pub lang: Option<String>,
    pub timezone_info: Option<serde_json::Value>,
    pub page_info: Vec<(String, PageInfo)>,
    pub frequently_visited_links: Vec<FrequentLink>,
    pub developer_mode: bool,
    pub read_only: bool,
    pub socketio_port: Option<u16>,
    pub desk_settings: Vec<(String, serde_json::Value)>,
    pub desk_theme: Option<String>,
}

/// One entry of the boot object's `user_info` map.
pub struct BootUserInfo {
    pub fullname: String,
    pub image: Option<String>,
    pub name: String,
    pub email: String,
    pub time_zone: Option<String>,
}

/// The workspace sidebar.
pub struct SidebarPages {
    pub workspace_setup_completed: Option<i32>,
    pub pages: Vec<SidebarPage>,
    pub has_access: bool,
    pub has_create_access: bool,
}

/// One workspace of the sidebar; `page_type` is the JSON member `type`.
pub struct SidebarPage {
    pub name: String,
    pub title: String,
    pub for_user: Option<String>,
    pub parent_page: Option<String>,
    pub content: Option<String>,
    pub public: Option<i32>,
    pub module: Option<String>,
    pub icon: Option<String>,
    pub indicator_color: Option<String>,
    pub is_hidden: Option<i32>,
    pub app: Option<String>,
    pub page_type: Option<String>,
    pub link_type: Option<String>,
    pub link_to: Option<String>,
    pub external_link: Option<String>,
    pub label: Option<String>,
}

/// The navbar's two dropdowns.
pub struct NavbarSettings {
    pub settings_dropdown: Vec<NavbarItem>,
    pub help_dropdown: Vec<NavbarItem>,
}

pub struct NavbarItem {
    pub item_label: String,
    pub item_type: String,
    pub action: Option<String>,
    pub route: Option<String>,
    pub hidden: Option<i32>,
    pub is_standard: Option<i32>,
}

pub struct PageInfo {
    pub title: Option<String>,
    pub modified: Option<String>,
}

pub struct FrequentLink {
    pub route: String,
    pub count: i32,
}

pub struct ReportMeta {
    pub modified: String,
    pub title: String,
    pub ref_doctype: String,
    pub report_type: String,
}

pub struct DashboardMeta {
    pub name: String,
}

/// One installed application.
pub struct AppData {
    pub app_name: String,
    pub app_title: String,
    pub app_route: String,
    pub app_logo_url: serde_json::Value,
    pub modules: Vec<String>,
    pub workspaces: Vec<String>,
}

/// The logged-in user as the boot object describes it.
pub struct BootUser {
    pub name: String,
    pub email: String,
    pub full_name: String,
    pub roles: Vec<String>,
    pub allow_modules: Vec<String>,
    pub user_type: String,
    pub permissions: Vec<(String, Vec<String>)>,
    pub can_select: Vec<String>,
    pub can_create: Vec<String>,
    pub can_write: Vec<String>,
    pub can_read: Vec<String>,
    pub can_submit: Vec<String>,
    pub can_cancel: Vec<String>,
    pub can_delete: Vec<String>,
    pub can_get_report: Vec<String>,
    pub all_reports: Vec<(String, ReportMeta)>,
}

/// The site's system defaults.
pub struct SysDefaults {
    pub default_app: Option<String>,
    pub time_zone: Option<String>,
}

} // verus!
