use vstd::prelude::*;
use vstd::string::*;
use crate::models::users::google_user;
use crate::models::users::NewUser;
use crate::models::users::NewUserView;
use crate::models::users::GOOGLE_PROVIDER;
use crate::requests::oauth::GoogleUserInfo;
use crate::requests::oauth::OAuthCallbackQuery;
use crate::text::decimal;
use crate::text::decimal_text;

verus! {

// The sign-in with Google, seen from the callback: the provider sends the
// user back with a code, the code is exchanged for a token, the token for the
// user's data, the user is looked up or inserted, and a session is issued.
// Every one of these steps is done by the caller; what follows decides which
// step comes next.

/// Where the user is sent after a sign-in that succeeded.
pub const SUCCESS_LOCATION: &'static str = "/auth-success";

/// Where the user is sent with the provider's error, which is put behind it.
pub const ERROR_LOCATION_PREFIX: &'static str = "/auth-error?error=";

/// Where the user is sent after a callback that made no sense.
pub const INVALID_REQUEST_LOCATION: &'static str = "/auth-error?error=invalid_request";

/// The message for a code that the provider did not take.
pub const TOKEN_EXCHANGE_FAILED: &'static str = "Token exchange failed";

/// The message for user data that could not be fetched.
pub const USER_INFO_UNREACHABLE: &'static str = "Failed to fetch user info";

/// The message for user data that could not be read.
pub const USER_INFO_UNREADABLE: &'static str = "Failed to parse user info";

/// The message for a lookup that the database failed.
pub const DATABASE_ERROR: &'static str = "Database error";

/// The message for a user that could not be inserted.
pub const INSERT_FAILED: &'static str = "Failed to insert user";

/// The message for a session token that could not be made.
pub const SESSION_FAILED: &'static str = "JWT creation failed";

/// The message for an event that does not answer the step asked for.
pub const OUT_OF_TURN: &'static str = "Unexpected sign-in event";

/// Where a sign-in stands.
#[derive(Debug)]
pub enum CallbackState {
    /// The code is being exchanged for a token.
    AwaitingToken,
    /// The user's data is being fetched.
    AwaitingUserInfo,
    /// The user is being looked up.
    AwaitingLookup { info: GoogleUserInfo },
    /// The user is being inserted.
    AwaitingInsert,
    /// The session token is being made.
    AwaitingSession,
    Finished,
}

/// What the caller reports of the step it was asked to do.
#[derive(Debug)]
pub enum CallbackEvent {
    TokenGranted { access_token: String },
    TokenRefused,
    UserInfoFetched(GoogleUserInfo),
    UserInfoUnreachable,
    UserInfoUnreadable,
    UserFound { id: i32 },
    UserMissing,
    LookupFailed,
    UserInserted { id: i32 },
    InsertFailed,
    SessionIssued { token: String },
    SessionFailed,
}

/// What the caller is to do next.
#[derive(Debug)]
pub enum CallbackAction {
    ExchangeCode { code: String },
    FetchUserInfo { access_token: String },
    FindUser { provider: String, oauth_user_id: String },
    InsertUser(NewUser),
    /// Make a session token for the user with this identity.
    IssueSession { user_id: String },
    /// Answer with a redirect, and with the session cookie where there is one.
    Redirect { location: String, session: Option<String> },
    /// Answer with an internal error.
    Fail { message: String },
}

/// What a `CallbackAction` is, as plain mathematical values.
pub enum CallbackActionView {
    ExchangeCode { code: Seq<char> },
    FetchUserInfo { access_token: Seq<char> },
    FindUser { provider: Seq<char>, oauth_user_id: Seq<char> },
    InsertUser(NewUserView),
    IssueSession { user_id: Seq<char> },
    Redirect { location: Seq<char>, session: Option<Seq<char>> },
    Fail { message: Seq<char> },
}

impl View for CallbackAction {
    type V = CallbackActionView;

    open spec fn view(&self) -> CallbackActionView {
        match self {
            CallbackAction::ExchangeCode { code } => CallbackActionView::ExchangeCode { code: code@ },
            CallbackAction::FetchUserInfo { access_token } => CallbackActionView::FetchUserInfo {
                access_token: access_token@,
            },
            CallbackAction::FindUser { provider, oauth_user_id } => CallbackActionView::FindUser {
                provider: provider@,
                oauth_user_id: oauth_user_id@,
            },
            CallbackAction::InsertUser(user) => CallbackActionView::InsertUser(user@),
            CallbackAction::IssueSession { user_id } => CallbackActionView::IssueSession {
                user_id: user_id@,
            },
            CallbackAction::Redirect { location, session } => CallbackActionView::Redirect {
                location: location@,
                session: session.deep_view(),
            },
            CallbackAction::Fail { message } => CallbackActionView::Fail { message: message@ },
        }
    }
}

/// The end of a sign-in with an internal error.
pub open spec fn callback_failed(message: Seq<char>) -> (CallbackState, CallbackActionView) {
    (CallbackState::Finished, CallbackActionView::Fail { message })
}

/// How a callback opens. A code and no error starts the exchange; an error
/// and no code sends the user to the error page with it; anything else is an
/// invalid request.
pub open spec fn callback_opening(query: OAuthCallbackQuery) -> (CallbackState, CallbackActionView) {
    match (query.code, query.error) {
        (Some(code), None) => (
            CallbackState::AwaitingToken,
            CallbackActionView::ExchangeCode { code: code@ },
        ),
        (None, Some(error)) => (
            CallbackState::Finished,
            CallbackActionView::Redirect {
                location: ERROR_LOCATION_PREFIX@ + error@,
                session: None,
            },
        ),
        _ => (
            CallbackState::Finished,
            CallbackActionView::Redirect { location: INVALID_REQUEST_LOCATION@, session: None },
        ),
    }
}

/// How a sign-in goes on. A user who is known gets a session for the number
/// in the table; one who is not is inserted first. Every failure ends the
/// sign-in with an internal error that names the step.
pub open spec fn callback_transition(state: CallbackState, event: CallbackEvent) -> (
    CallbackState,
    CallbackActionView,
) {
    match state {
        CallbackState::AwaitingToken => match event {
            CallbackEvent::TokenGranted { access_token } => (
                CallbackState::AwaitingUserInfo,
                CallbackActionView::FetchUserInfo { access_token: access_token@ },
            ),
            CallbackEvent::TokenRefused => callback_failed(TOKEN_EXCHANGE_FAILED@),
            _ => callback_failed(OUT_OF_TURN@),
        },
        CallbackState::AwaitingUserInfo => match event {
            CallbackEvent::UserInfoFetched(info) => (
                CallbackState::AwaitingLookup { info },
                CallbackActionView::FindUser {
                    provider: GOOGLE_PROVIDER@,
                    oauth_user_id: info.sub@,
                },
            ),
            CallbackEvent::UserInfoUnreachable => callback_failed(USER_INFO_UNREACHABLE@),
            CallbackEvent::UserInfoUnreadable => callback_failed(USER_INFO_UNREADABLE@),
            _ => callback_failed(OUT_OF_TURN@),
        },
        CallbackState::AwaitingLookup { info } => match event {
            CallbackEvent::UserFound { id } => (
                CallbackState::AwaitingSession,
                CallbackActionView::IssueSession { user_id: decimal(id as int) },
            ),
            CallbackEvent::UserMissing => (
                CallbackState::AwaitingInsert,
                CallbackActionView::InsertUser(google_user(info)),
            ),
            CallbackEvent::LookupFailed => callback_failed(DATABASE_ERROR@),
            _ => callback_failed(OUT_OF_TURN@),
        },
        CallbackState::AwaitingInsert => match event {
            CallbackEvent::UserInserted { id } => (
                CallbackState::AwaitingSession,
                CallbackActionView::IssueSession { user_id: decimal(id as int) },
            ),
            CallbackEvent::InsertFailed => callback_failed(INSERT_FAILED@),
            _ => callback_failed(OUT_OF_TURN@),
        },
        CallbackState::AwaitingSession => match event {
            CallbackEvent::SessionIssued { token } => (
                CallbackState::Finished,
                CallbackActionView::Redirect {
                    location: SUCCESS_LOCATION@,
                    session: Some(token@),
                },
            ),
            CallbackEvent::SessionFailed => callback_failed(SESSION_FAILED@),
            _ => callback_failed(OUT_OF_TURN@),
        },
        CallbackState::Finished => callback_failed(OUT_OF_TURN@),
    }
}

fn fail(message: &str) -> (next: (CallbackState, CallbackAction))
    ensures
        (next.0, next.1@) == callback_failed(message@),
{
    (CallbackState::Finished, CallbackAction::Fail { message: String::from_str(message) })
}

/// Opens the handling of a callback.
pub fn callback_begin(query: OAuthCallbackQuery) -> (next: (CallbackState, CallbackAction))
    ensures
        (next.0, next.1@) == callback_opening(query),
{
    match (query.code, query.error) {
        (Some(code), None) => (CallbackState::AwaitingToken, CallbackAction::ExchangeCode { code }),
        (None, Some(error)) => {
            let mut location = String::from_str(ERROR_LOCATION_PREFIX);
            location.append(error.as_str());
            (CallbackState::Finished, CallbackAction::Redirect { location, session: None })
        },
        _ => (
            CallbackState::Finished,
            CallbackAction::Redirect {
                location: String::from_str(INVALID_REQUEST_LOCATION),
                session: None,
            },
        ),
    }
}

/// Takes a sign-in one step on.
pub fn callback_step(state: CallbackState, event: CallbackEvent) -> (next: (
    CallbackState,
    CallbackAction,
))
    ensures
        (next.0, next.1@) == callback_transition(state, event),
{
    match state {
        CallbackState::AwaitingToken => match event {
            CallbackEvent::TokenGranted { access_token } => (
                CallbackState::AwaitingUserInfo,
                CallbackAction::FetchUserInfo { access_token },
            ),
            CallbackEvent::TokenRefused => fail(TOKEN_EXCHANGE_FAILED),
            _ => fail(OUT_OF_TURN),
        },
        CallbackState::AwaitingUserInfo => match event {
            CallbackEvent::UserInfoFetched(info) => {
                let oauth_user_id = info.sub.clone();
                (
                    CallbackState::AwaitingLookup { info },
                    CallbackAction::FindUser {
                        provider: String::from_str(GOOGLE_PROVIDER),
                        oauth_user_id,
                    },
                )
            },
            CallbackEvent::UserInfoUnreachable => fail(USER_INFO_UNREACHABLE),
            CallbackEvent::UserInfoUnreadable => fail(USER_INFO_UNREADABLE),
            _ => fail(OUT_OF_TURN),
        },
        CallbackState::AwaitingLookup { info } => match event {
            CallbackEvent::UserFound { id } => (
                CallbackState::AwaitingSession,
                CallbackAction::IssueSession { user_id: decimal_text(id) },
            ),
            CallbackEvent::UserMissing => (
                CallbackState::AwaitingInsert,
                CallbackAction::InsertUser(NewUser::from_google(&info)),
            ),
            CallbackEvent::LookupFailed => fail(DATABASE_ERROR),
            _ => fail(OUT_OF_TURN),
        },
        CallbackState::AwaitingInsert => match event {
            CallbackEvent::UserInserted { id } => (
                CallbackState::AwaitingSession,
                CallbackAction::IssueSession { user_id: decimal_text(id) },
            ),
            CallbackEvent::InsertFailed => fail(INSERT_FAILED),
            _ => fail(OUT_OF_TURN),
        },
        CallbackState::AwaitingSession => match event {
            CallbackEvent::SessionIssued { token } => (
                CallbackState::Finished,
                CallbackAction::Redirect {
                    location: String::from_str(SUCCESS_LOCATION),
                    session: Some(token),
                },
            ),
            CallbackEvent::SessionFailed => fail(SESSION_FAILED),
            _ => fail(OUT_OF_TURN),
        },
        CallbackState::Finished => fail(OUT_OF_TURN),
    }
}

/// The greeting of the protected route.
pub open spec fn greeting(user_id: Seq<char>) -> Seq<char> {
    "Hello, user_id: "@ + user_id
}

/// The greeting of the protected route for an authenticated user.
pub fn greet(user_id: &str) -> (text: String)
    ensures
        text@ == greeting(user_id@),
{
    let mut text = String::from_str("Hello, user_id: ");
    text.append(user_id);
    text
}

} // verus!
