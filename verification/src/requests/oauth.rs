use vstd::prelude::*;

verus! {

/// The query of the request with which the identity provider sends the user
/// back: an authorization code, or the reason there is none.
#[derive(Debug)]
pub struct OAuthCallbackQuery {
    pub code: Option<String>,
    pub error: Option<String>,
}

/// What Google tells of a user.
#[derive(Debug)]
pub struct GoogleUserInfo {
    pub sub: String,
    pub email: Option<String>,
    pub name: Option<String>,
    pub picture: Option<String>,
}

} // verus!
