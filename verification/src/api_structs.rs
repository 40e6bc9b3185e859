//! Request and response shapes of the person-facing client API. The
//! handlers behind them live with the HTTP layer; the shapes are kept here
//! so the core and its callers agree on them.

use vstd::prelude::*;

verus! {

pub struct Login {
    pub username_or_email: String,
    pub password: String,
}

pub struct Register {
    pub username: String,
    pub email: Option<String>,
    pub password: String,
    pub password_verify: String,
    pub show_nsfw: bool,
    pub captcha_uuid: Option<String>,
    pub captcha_answer: Option<String>,
}

pub struct GetCaptcha {}

pub struct GetCaptchaResponse {
    pub ok: Option<CaptchaResponse>,
}

pub struct CaptchaResponse {
    pub png: String,
    pub wav: Option<String>,
    pub uuid: String,
}

pub struct SaveUserSettings {
    pub show_nsfw: Option<bool>,
    pub theme: Option<String>,
    pub default_sort_type: Option<i16>,
    pub default_listing_type: Option<i16>,
    pub lang: Option<String>,
    pub avatar: Option<String>,
    pub banner: Option<String>,
    pub preferred_username: Option<String>,
    pub email: Option<String>,
    pub bio: Option<String>,
    pub matrix_user_id: Option<String>,
    pub new_password: Option<String>,
    pub new_password_verify: Option<String>,
    pub old_password: Option<String>,
    pub show_avatars: Option<bool>,
    pub send_notifications_to_email: Option<bool>,
    pub auth: String,
}

pub struct LoginResponse {
    pub jwt: String,
}

pub struct GetPersonDetails {
    pub person_id: Option<i32>,
    pub username: Option<String>,
    pub sort: String,
    pub page: Option<i64>,
    pub limit: Option<i64>,
    pub community_id: Option<i32>,
    pub saved_only: bool,
    pub auth: Option<String>,
}

pub struct MarkAllAsRead {
    pub auth: String,
}

pub struct AddAdmin {
    pub local_user_id: i32,
    pub added: bool,
    pub auth: String,
}

pub struct BanPerson {
    pub person_id: i32,
    pub ban: bool,
    pub remove_data: bool,
    pub reason: Option<String>,
    pub expires: Option<i64>,
    pub auth: String,
}

pub struct GetReplies {
    pub sort: String,
    pub page: Option<i64>,
    pub limit: Option<i64>,
    pub unread_only: bool,
    pub auth: String,
}

pub struct GetPersonMentions {
    pub sort: String,
    pub page: Option<i64>,
    pub limit: Option<i64>,
    pub unread_only: bool,
    pub auth: String,
}

pub struct MarkPersonMentionAsRead {
    pub person_mention_id: i32,
    pub read: bool,
    pub auth: String,
}

pub struct DeleteAccount {
    pub password: String,
    pub auth: String,
}

pub struct PasswordReset {
    pub email: String,
}

pub struct PasswordResetResponse {}

pub struct PasswordChange {
    pub token: String,
    pub password: String,
    pub password_verify: String,
}

pub struct CreatePrivateMessage {
    pub content: String,
    pub recipient_id: i32,
    pub auth: String,
}

pub struct EditPrivateMessage {
    pub private_message_id: i32,
    pub content: String,
    pub auth: String,
}

pub struct DeletePrivateMessage {
    pub private_message_id: i32,
    pub deleted: bool,
    pub auth: String,
}

pub struct MarkPrivateMessageAsRead {
    pub private_message_id: i32,
    pub read: bool,
    pub auth: String,
}

pub struct GetPrivateMessages {
    pub unread_only: bool,
    pub page: Option<i64>,
    pub limit: Option<i64>,
    pub auth: String,
}

pub struct GetReportCount {
    pub community: Option<i32>,
    pub auth: String,
}

pub struct GetReportCountResponse {
    pub community: Option<i32>,
    pub comment_reports: i64,
    pub post_reports: i64,
}

impl GetReportCountResponse {
    /// The combined number of open reports, when it fits the counter.
    pub fn total_reports(&self) -> (r: Option<i64>)
        ensures
            r is Some ==> r.unwrap() == self.comment_reports + self.post_reports,
            (r is Some) == (i64::MIN <= self.comment_reports + self.post_reports <= i64::MAX),
    {
        self.comment_reports.checked_add(self.post_reports)
    }
}

} // verus!
