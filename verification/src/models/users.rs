use vstd::prelude::*;
use vstd::string::*;
use crate::record::clone_text;
use crate::requests::oauth::GoogleUserInfo;

verus! {

/// The name under which Google is recorded as the identity provider.
pub const GOOGLE_PROVIDER: &'static str = "google";

/// A row of the `users` table. Times are in microseconds since the Unix
/// epoch.
#[derive(Debug)]
pub struct User {
    pub id: i32,
    pub oauth_provider: String,
    pub oauth_user_id: String,
    pub email: Option<String>,
    pub username: Option<String>,
    pub avatar_url: Option<String>,
    pub created_at: i64,
}

/// What is inserted into the `users` table.
#[derive(Debug)]
pub struct NewUser {
    pub oauth_provider: String,
    pub oauth_user_id: String,
    pub email: Option<String>,
    pub username: Option<String>,
    pub avatar_url: Option<String>,
}

/// What a `NewUser` is, as plain mathematical values.
pub struct NewUserView {
    pub oauth_provider: Seq<char>,
    pub oauth_user_id: Seq<char>,
    pub email: Option<Seq<char>>,
    pub username: Option<Seq<char>>,
    pub avatar_url: Option<Seq<char>>,
}

impl View for NewUser {
    type V = NewUserView;

    open spec fn view(&self) -> NewUserView {
        NewUserView {
            oauth_provider: self.oauth_provider@,
            oauth_user_id: self.oauth_user_id@,
            email: self.email.deep_view(),
            username: self.username.deep_view(),
            avatar_url: self.avatar_url.deep_view(),
        }
    }
}

/// The user to insert for someone Google has vouched for.
pub open spec fn google_user(info: GoogleUserInfo) -> NewUserView {
    NewUserView {
        oauth_provider: GOOGLE_PROVIDER@,
        oauth_user_id: info.sub@,
        email: info.email.deep_view(),
        username: info.name.deep_view(),
        avatar_url: info.picture.deep_view(),
    }
}

impl NewUser {
    /// The user to insert for someone Google has vouched for.
    pub fn from_google(info: &GoogleUserInfo) -> (user: NewUser)
        ensures
            user@ == google_user(*info),
    {
        NewUser {
            oauth_provider: String::from_str(GOOGLE_PROVIDER),
            oauth_user_id: info.sub.clone(),
            email: clone_text(&info.email),
            username: clone_text(&info.name),
            avatar_url: clone_text(&info.picture),
        }
    }
}

} // verus!
