//! Decisions of the password and session endpoints, and the start of an
//! OIDC sign-in.

use vstd::prelude::*;

use crate::api::{concat, error_view, ApiError, ApiErrorKind};
use crate::user::{User, UserBaseView, UserView};

verus! {

/// Registration is refused when the server disables it.
pub fn check_registration(disable_registration: bool) -> (r: Result<(), ApiError>)
    ensures
        disable_registration ==> (r matches Err(e) && e@ == error_view(
            ApiErrorKind::Forbidden,
            "User registration is disabled"@,
        )),
        !disable_registration ==> r is Ok,
{
    if disable_registration {
        Err(ApiError::forbidden("User registration is disabled"))
    } else {
        Ok(())
    }
}

/// The answer when the session store cannot save.
pub fn session_save_failed(reason: &str) -> (r: ApiError)
    ensures
        r@ == error_view(ApiErrorKind::Internal, "Failed to save session: "@ + reason@),
{
    let message = concat("Failed to save session: ", reason);
    ApiError::internal_error(message.as_str())
}

/// The answer when the session store cannot be read.
pub fn session_read_failed(reason: &str) -> (r: ApiError)
    ensures
        r@ == error_view(ApiErrorKind::Internal, "Failed to read session: "@ + reason@),
{
    let message = concat("Failed to read session: ", reason);
    ApiError::internal_error(message.as_str())
}

/// The answer when the session cannot be deleted.
pub fn session_delete_failed(reason: &str) -> (r: ApiError)
    ensures
        r@ == error_view(ApiErrorKind::Internal, "Failed to delete session: "@ + reason@),
{
    let message = concat("Failed to delete session: ", reason);
    ApiError::internal_error(message.as_str())
}

/// The answer when unlinking an OIDC identity fails.
pub fn unlink_failed(reason: &str) -> (r: ApiError)
    ensures
        r@ == error_view(ApiErrorKind::Internal, "Failed to unlink OIDC: "@ + reason@),
{
    let message = concat("Failed to unlink OIDC: ", reason);
    ApiError::internal_error(message.as_str())
}

/// The user signed in to the session, or the answer that nobody is.
pub fn require_signed_in(session_user: Option<u128>) -> (r: Result<u128, ApiError>)
    ensures
        session_user matches Some(id) ==> r == Ok::<u128, ApiError>(id),
        session_user is None ==> (r matches Err(e) && e@ == error_view(
            ApiErrorKind::Unauthorized,
            "Not authenticated"@,
        )),
{
    match session_user {
        Some(id) => Ok(id),
        None => Err(ApiError::unauthorized("Not authenticated")),
    }
}

/// The user that a lookup found, or the answer that there is none.
pub fn require_user(found: Option<User>) -> (r: Result<User, ApiError>)
    ensures
        found matches Some(u) ==> r == Ok::<User, ApiError>(u),
        found is None ==> (r matches Err(e) && e@ == error_view(ApiErrorKind::NotFound, "User not found"@)),
{
    match found {
        Some(u) => Ok(u),
        None => Err(ApiError::not_found("User not found")),
    }
}

/// A user after changing the password and the email address, each only
/// when a new one is given; the password arrives hashed.
pub open spec fn with_credentials(
    user: UserView,
    password_hash: Option<Seq<char>>,
    email: Option<Seq<char>>,
) -> UserView {
    let with_password = match password_hash {
        Some(h) => UserView { base: UserBaseView { password_hash: Some(h), ..user.base }, ..user },
        None => user,
    };
    match email {
        Some(e) => UserView { base: UserBaseView { email: e, ..with_password.base }, ..with_password },
        None => with_password,
    }
}

/// Changes a user's password and email address, each only when given.
pub fn update_credentials(user: &mut User, password_hash: Option<String>, email: Option<String>)
    ensures
        final(user)@ == with_credentials(
            old(user)@,
            crate::entity::opt_text(password_hash),
            crate::entity::opt_text(email),
        ),
        email matches Some(e) ==> final(user)@.base.email == e@,
        email is None ==> final(user)@.base.email == old(user)@.base.email,
        password_hash matches Some(h) ==> final(user)@.base.password_hash == Some(h@),
        password_hash is None ==> final(user)@.base.password_hash == old(user)@.base.password_hash,
{
    match password_hash {
        Some(h) => user.set_password(h),
        None => {},
    }
    match email {
        Some(e) => {
            user.base.email = e;
        },
        None => {},
    }
}

/// Where the start of an OIDC sign-in stands.
#[derive(Debug)]
pub enum AuthorizeStage {
    AwaitAuthUrl,
    AwaitPendingSaved { auth_url: String },
    AwaitLinkingSaved { auth_url: String },
    AwaitReturnUrlSaved { auth_url: String },
    Finished,
}

pub ghost enum AuthorizeStageView {
    AwaitAuthUrl,
    AwaitPendingSaved { auth_url: Seq<char> },
    AwaitLinkingSaved { auth_url: Seq<char> },
    AwaitReturnUrlSaved { auth_url: Seq<char> },
    Finished,
}

impl View for AuthorizeStage {
    type V = AuthorizeStageView;

    open spec fn view(&self) -> AuthorizeStageView {
        match self {
            AuthorizeStage::AwaitAuthUrl => AuthorizeStageView::AwaitAuthUrl,
            AuthorizeStage::AwaitPendingSaved { auth_url } => AuthorizeStageView::AwaitPendingSaved {
                auth_url: auth_url@,
            },
            AuthorizeStage::AwaitLinkingSaved { auth_url } => AuthorizeStageView::AwaitLinkingSaved {
                auth_url: auth_url@,
            },
            AuthorizeStage::AwaitReturnUrlSaved { auth_url } => AuthorizeStageView::AwaitReturnUrlSaved {
                auth_url: auth_url@,
            },
            AuthorizeStage::Finished => AuthorizeStageView::Finished,
        }
    }
}

/// What came of the last action.
#[derive(Debug)]
pub enum AuthorizeEvent {
    /// The provider's authorization URL, with a pending authentication that
    /// the caller keeps, or why it could not be generated.
    AuthUrl(Result<String, String>),
    /// Whether the session accepted the last value stored in it.
    Saved(Result<(), String>),
}

/// What the caller does next.
#[derive(Debug)]
pub enum AuthorizeAction {
    GenerateAuthUrl,
    SavePendingAuth,
    SaveLinkingFlag { linking: bool },
    SaveReturnUrl { return_url: String },
    /// Redirect to the URL, or fail with the error.
    Respond { result: Result<String, ApiError> },
}

/// The request's parameters and whether OIDC is configured.
#[derive(Debug)]
pub struct AuthorizeRequest {
    pub oidc_configured: bool,
    pub link: Option<bool>,
    pub return_url: Option<String>,
}

/// The first step: fail at once when OIDC is not configured.
pub fn authorize_start(request: &AuthorizeRequest) -> (r: (AuthorizeStage, AuthorizeAction))
    ensures
        request.oidc_configured ==> r.0@ == AuthorizeStageView::AwaitAuthUrl && r.1
            is GenerateAuthUrl,
        !request.oidc_configured ==> r.0@ == AuthorizeStageView::Finished && (r.1 matches AuthorizeAction::Respond {
            result: Err(e),
        } && e@ == error_view(ApiErrorKind::Internal, "OIDC not configured"@)),
{
    if request.oidc_configured {
        (AuthorizeStage::AwaitAuthUrl, AuthorizeAction::GenerateAuthUrl)
    } else {
        (
            AuthorizeStage::Finished,
            AuthorizeAction::Respond { result: Err(ApiError::internal_error("OIDC not configured")) },
        )
    }
}

/// Which event each stage waits for.
pub open spec fn authorize_expects(stage: AuthorizeStageView, event: AuthorizeEvent) -> bool {
    match stage {
        AuthorizeStageView::AwaitAuthUrl => event is AuthUrl,
        AuthorizeStageView::AwaitPendingSaved { .. } => event is Saved,
        AuthorizeStageView::AwaitLinkingSaved { .. } => event is Saved,
        AuthorizeStageView::AwaitReturnUrlSaved { .. } => event is Saved,
        AuthorizeStageView::Finished => false,
    }
}

/// One step after the start: generate the provider's URL, store the
/// pending authentication, the linking flag (false unless asked) and the
/// return URL, which is required, then redirect to the provider. Every
/// failure to store ends the flow with the session error.
pub fn authorize_step(stage: AuthorizeStage, event: AuthorizeEvent, request: &AuthorizeRequest) -> (r: (
    AuthorizeStage,
    AuthorizeAction,
))
    requires
        authorize_expects(stage@, event),
    ensures
        match (stage@, event) {
            (AuthorizeStageView::AwaitAuthUrl, AuthorizeEvent::AuthUrl(Err(e))) => r.0@
                == AuthorizeStageView::Finished && (r.1 matches AuthorizeAction::Respond {
                result: Err(err),
            } && err@ == error_view(ApiErrorKind::Internal, "Failed to generate auth URL: "@ + e@)),
            (AuthorizeStageView::AwaitAuthUrl, AuthorizeEvent::AuthUrl(Ok(url))) => r.0@
                == (AuthorizeStageView::AwaitPendingSaved { auth_url: url@ }) && r.1 is SavePendingAuth,
            (AuthorizeStageView::AwaitPendingSaved { auth_url }, AuthorizeEvent::Saved(Ok(_))) => r.0@
                == (AuthorizeStageView::AwaitLinkingSaved { auth_url }) && (r.1 matches AuthorizeAction::SaveLinkingFlag {
                linking,
            } && linking == match request.link {
                Some(b) => b,
                None => false,
            }),
            (AuthorizeStageView::AwaitLinkingSaved { auth_url }, AuthorizeEvent::Saved(Ok(_))) => match request.return_url {
                Some(u) => r.0@ == (AuthorizeStageView::AwaitReturnUrlSaved { auth_url }) && (r.1 matches AuthorizeAction::SaveReturnUrl {
                    return_url,
                } && return_url@ == u@),
                None => r.0@ == AuthorizeStageView::Finished && (r.1 matches AuthorizeAction::Respond {
                    result: Err(err),
                } && err@ == error_view(ApiErrorKind::BadRequest, "return_url parameter is required"@)),
            },
            (AuthorizeStageView::AwaitReturnUrlSaved { auth_url }, AuthorizeEvent::Saved(Ok(_))) => r.0@
                == AuthorizeStageView::Finished && (r.1 matches AuthorizeAction::Respond { result: Ok(url) }
                && url@ == auth_url),
            (
                AuthorizeStageView::AwaitPendingSaved { .. },
                AuthorizeEvent::Saved(Err(e)),
            )
            | (AuthorizeStageView::AwaitLinkingSaved { .. }, AuthorizeEvent::Saved(Err(e)))
            | (AuthorizeStageView::AwaitReturnUrlSaved { .. }, AuthorizeEvent::Saved(Err(e))) => r.0@
                == AuthorizeStageView::Finished && (r.1 matches AuthorizeAction::Respond {
                result: Err(err),
            } && err@ == error_view(ApiErrorKind::Internal, "Failed to save session: "@ + e@)),
            _ => false,
        },
{
    match (stage, event) {
        (AuthorizeStage::AwaitAuthUrl, AuthorizeEvent::AuthUrl(Err(e))) => {
            let message = concat("Failed to generate auth URL: ", e.as_str());
            (
                AuthorizeStage::Finished,
                AuthorizeAction::Respond { result: Err(ApiError::internal_error(message.as_str())) },
            )
        },
        (AuthorizeStage::AwaitAuthUrl, AuthorizeEvent::AuthUrl(Ok(auth_url))) => (
            AuthorizeStage::AwaitPendingSaved { auth_url },
            AuthorizeAction::SavePendingAuth,
        ),
        (AuthorizeStage::AwaitPendingSaved { auth_url }, AuthorizeEvent::Saved(Ok(_))) => {
            let linking = match request.link {
                Some(b) => b,
                None => false,
            };
            (AuthorizeStage::AwaitLinkingSaved { auth_url }, AuthorizeAction::SaveLinkingFlag { linking })
        },
        (AuthorizeStage::AwaitLinkingSaved { auth_url }, AuthorizeEvent::Saved(Ok(_))) => {
            match &request.return_url {
                Some(u) => (
                    AuthorizeStage::AwaitReturnUrlSaved { auth_url },
                    AuthorizeAction::SaveReturnUrl { return_url: u.clone() },
                ),
                None => (
                    AuthorizeStage::Finished,
                    AuthorizeAction::Respond {
                        result: Err(ApiError::bad_request("return_url parameter is required")),
                    },
                ),
            }
        },
        (AuthorizeStage::AwaitReturnUrlSaved { auth_url }, AuthorizeEvent::Saved(Ok(_))) => (
            AuthorizeStage::Finished,
            AuthorizeAction::Respond { result: Ok(auth_url) },
        ),
        (AuthorizeStage::AwaitPendingSaved { .. }, AuthorizeEvent::Saved(Err(e)))
        | (AuthorizeStage::AwaitLinkingSaved { .. }, AuthorizeEvent::Saved(Err(e)))
        | (AuthorizeStage::AwaitReturnUrlSaved { .. }, AuthorizeEvent::Saved(Err(e))) => (
            AuthorizeStage::Finished,
            AuthorizeAction::Respond { result: Err(session_save_failed(e.as_str())) },
        ),
        (s, _) => (s, AuthorizeAction::GenerateAuthUrl),
    }
}

} // verus!
