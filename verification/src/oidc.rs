//! The OIDC sign-in callback, as a state machine: the caller performs each
//! action (session reads and writes, the code exchange, user storage) and
//! feeds back what came of it; the machine decides the next step and the
//! redirect that ends the flow.

use vstd::prelude::*;

use crate::api::concat;
use crate::entity::opt_text;
use crate::ids::now_nanos;
use crate::user::{user_views, User, UserBaseView, UserView};
use crate::web::{append_query_pair, parse_url, parsed_url, percent_encoded, url_encode, with_query_pair};
use vstd::string::StringSliceAdditionalSpecFns;
use vstd::utf8::encode_utf8;

verus! {

/// What the identity provider reports of the signed-in person.
#[derive(Debug)]
pub struct UserInfo {
    pub subject: String,
    pub email: Option<String>,
}

pub ghost struct UserInfoView {
    pub subject: Seq<char>,
    pub email: Option<Seq<char>>,
}

impl View for UserInfo {
    type V = UserInfoView;

    open spec fn view(&self) -> UserInfoView {
        UserInfoView { subject: self.subject@, email: opt_text(self.email) }
    }
}

/// Where the browser is sent at the end of the flow.
#[derive(Debug)]
pub enum Location {
    /// The error page, with a message.
    ErrorPage { message: String },
    /// The return URL with `?error=` and a message appended as text.
    ReturnWithError { return_url: String, message: String },
    /// The return URL, parsed, with these query pairs appended in order.
    ReturnWithPairs { return_url: String, pairs: Vec<(String, String)> },
    /// The return URL as it was stored.
    Return { return_url: String },
}

pub ghost enum LocationView {
    ErrorPage { message: Seq<char> },
    ReturnWithError { return_url: Seq<char>, message: Seq<char> },
    ReturnWithPairs { return_url: Seq<char>, pairs: Seq<(Seq<char>, Seq<char>)> },
    Return { return_url: Seq<char> },
}

pub open spec fn pair_views(pairs: Seq<(String, String)>) -> Seq<(Seq<char>, Seq<char>)> {
    pairs.map_values(|p: (String, String)| (p.0@, p.1@))
}

impl View for Location {
    type V = LocationView;

    open spec fn view(&self) -> LocationView {
        match self {
            Location::ErrorPage { message } => LocationView::ErrorPage { message: message@ },
            Location::ReturnWithError { return_url, message } => LocationView::ReturnWithError {
                return_url: return_url@,
                message: message@,
            },
            Location::ReturnWithPairs { return_url, pairs } => LocationView::ReturnWithPairs {
                return_url: return_url@,
                pairs: pair_views(pairs@),
            },
            Location::Return { return_url } => LocationView::Return { return_url: return_url@ },
        }
    }
}

/// The redirect that ends the flow; `success` tells a completed sign-in or
/// link from a failed one.
#[derive(Debug)]
pub struct Redirect {
    pub success: bool,
    pub location: Location,
}

pub ghost struct RedirectView {
    pub success: bool,
    pub location: LocationView,
}

impl View for Redirect {
    type V = RedirectView;

    open spec fn view(&self) -> RedirectView {
        RedirectView { success: self.success, location: self.location@ }
    }
}

/// The serialization of the URL serialized as `url` after the pairs are
/// appended to its query, one after the other, in order.
pub open spec fn with_query_pairs(url: Seq<char>, pairs: Seq<(Seq<char>, Seq<char>)>) -> Seq<char>
    decreases pairs.len(),
{
    if pairs.len() == 0 {
        url
    } else {
        let last = pairs.last();
        with_query_pair(with_query_pairs(url, pairs.drop_last()), last.0, last.1)
    }
}

/// The text of a location: the error page and the return URL with an error
/// are built as text; pairs are appended to the parsed return URL, which
/// must parse.
pub open spec fn location_text(l: LocationView) -> Option<Seq<char>> {
    match l {
        LocationView::ErrorPage { message } => Some(
            "/error?message="@ + percent_encoded(encode_utf8(message)),
        ),
        LocationView::ReturnWithError { return_url, message } => Some(
            return_url + "?error="@ + percent_encoded(encode_utf8(message)),
        ),
        LocationView::Return { return_url } => Some(return_url),
        LocationView::ReturnWithPairs { return_url, pairs } => match parsed_url(return_url) {
            Some(base) => Some(with_query_pairs(base, pairs)),
            None => None,
        },
    }
}

impl Location {
    /// The URL to redirect to. `None` only for a return URL with pairs that
    /// does not parse, which the callback never produces.
    pub fn render(&self) -> (r: Option<String>)
        ensures
            r is Some <==> location_text(self@) is Some,
            r matches Some(s) ==> location_text(self@) == Some(s@),
    {
        match self {
            Location::ErrorPage { message } => {
                let encoded = url_encode(message.as_str());
                Some(concat("/error?message=", encoded.as_str()))
            },
            Location::ReturnWithError { return_url, message } => {
                let encoded = url_encode(message.as_str());
                let head = concat(return_url.as_str(), "?error=");
                Some(concat(head.as_str(), encoded.as_str()))
            },
            Location::ReturnWithPairs { return_url, pairs } => {
                match parse_url(return_url.as_str()) {
                    Some(base) => {
                        let ghost views = pair_views(pairs@);
                        let mut url = base;
                        for i in 0..pairs.len()
                            invariant
                                views == pair_views(pairs@),
                                parsed_url(url@) == Some(url@),
                                url@ == with_query_pairs(base@, views.take(i as int)),
                        {
                            assert(views.take(i + 1).drop_last() =~= views.take(i as int));
                            url = append_query_pair(url.as_str(), pairs[i].0.as_str(), pairs[i].1.as_str());
                        }
                        assert(views.take(pairs.len() as int) =~= views);
                        Some(url)
                    },
                    None => None,
                }
            },
            Location::Return { return_url } => Some(return_url.clone()),
        }
    }
}

/// Settings of the server and the request that the flow depends on.
#[derive(Debug)]
pub struct CallbackContext {
    /// Whether an OIDC client is configured.
    pub oidc_configured: bool,
    /// The `state` query parameter that the provider sent back.
    pub state_param: String,
    /// The configured name of the OIDC provider.
    pub provider_name: Option<String>,
}

pub ghost struct ContextView {
    pub oidc_configured: bool,
    pub state_param: Seq<char>,
    pub provider_name: Option<Seq<char>>,
}

impl View for CallbackContext {
    type V = ContextView;

    open spec fn view(&self) -> ContextView {
        ContextView {
            oidc_configured: self.oidc_configured,
            state_param: self.state_param@,
            provider_name: opt_text(self.provider_name),
        }
    }
}

/// Where the flow stands.
#[derive(Debug)]
pub enum CallbackStage {
    AwaitReturnUrl,
    AwaitPendingAuth { return_url: String },
    AwaitExchange { return_url: String },
    AwaitLinkingFlag { return_url: String, info: UserInfo },
    AwaitSessionUser { return_url: String, info: UserInfo },
    AwaitLinkedOwner { return_url: String, info: UserInfo, user_id: u128 },
    AwaitLink { return_url: String },
    AwaitCleanup { redirect: Redirect },
    AwaitLoginLookup { return_url: String, info: UserInfo },
    AwaitUsers { return_url: String, info: UserInfo },
    AwaitUserWrite { return_url: String },
    AwaitSessionSave { return_url: String },
    Finished,
}

pub ghost enum StageView {
    AwaitReturnUrl,
    AwaitPendingAuth { return_url: Seq<char> },
    AwaitExchange { return_url: Seq<char> },
    AwaitLinkingFlag { return_url: Seq<char>, info: UserInfoView },
    AwaitSessionUser { return_url: Seq<char>, info: UserInfoView },
    AwaitLinkedOwner { return_url: Seq<char>, info: UserInfoView, user_id: u128 },
    AwaitLink { return_url: Seq<char> },
    AwaitCleanup { redirect: RedirectView },
    AwaitLoginLookup { return_url: Seq<char>, info: UserInfoView },
    AwaitUsers { return_url: Seq<char>, info: UserInfoView },
    AwaitUserWrite { return_url: Seq<char> },
    AwaitSessionSave { return_url: Seq<char> },
    Finished,
}

impl View for CallbackStage {
    type V = StageView;

    open spec fn view(&self) -> StageView {
        match self {
            CallbackStage::AwaitReturnUrl => StageView::AwaitReturnUrl,
            CallbackStage::AwaitPendingAuth { return_url } => StageView::AwaitPendingAuth { return_url: return_url@ },
            CallbackStage::AwaitExchange { return_url } => StageView::AwaitExchange { return_url: return_url@ },
            CallbackStage::AwaitLinkingFlag { return_url, info } => StageView::AwaitLinkingFlag {
                return_url: return_url@,
                info: info@,
            },
            CallbackStage::AwaitSessionUser { return_url, info } => StageView::AwaitSessionUser {
                return_url: return_url@,
                info: info@,
            },
            CallbackStage::AwaitLinkedOwner { return_url, info, user_id } => StageView::AwaitLinkedOwner {
                return_url: return_url@,
                info: info@,
                user_id: *user_id,
            },
            CallbackStage::AwaitLink { return_url } => StageView::AwaitLink { return_url: return_url@ },
            CallbackStage::AwaitCleanup { redirect } => StageView::AwaitCleanup { redirect: redirect@ },
            CallbackStage::AwaitLoginLookup { return_url, info } => StageView::AwaitLoginLookup {
                return_url: return_url@,
                info: info@,
            },
            CallbackStage::AwaitUsers { return_url, info } => StageView::AwaitUsers {
                return_url: return_url@,
                info: info@,
            },
            CallbackStage::AwaitUserWrite { return_url } => StageView::AwaitUserWrite { return_url: return_url@ },
            CallbackStage::AwaitSessionSave { return_url } => StageView::AwaitSessionSave { return_url: return_url@ },
            CallbackStage::Finished => StageView::Finished,
        }
    }
}

/// What came of the last action.
#[derive(Debug)]
pub enum CallbackEvent {
    /// The return URL stored in the session, if it could be read.
    ReturnUrl(Option<String>),
    /// The CSRF token of the pending authentication stored in the session,
    /// if there is one.
    PendingAuth(Option<String>),
    /// The outcome of exchanging the authorization code.
    Exchanged(Result<UserInfo, String>),
    /// Whether the flow links an account rather than signing in.
    LinkingFlag(bool),
    /// The user signed in to the session, if any.
    SessionUser(Option<u128>),
    /// The user that the OIDC subject is linked to, if any.
    UserBySubject(Result<Option<u128>, String>),
    /// The outcome of linking the OIDC identity to the session's user.
    Linked(Result<(), String>),
    /// The outcome of storing the user in the session.
    SessionSaved(Result<(), String>),
    /// All users.
    Users(Result<Vec<User>, String>),
    /// The outcome of writing a user account: its identifier.
    UserWritten(Result<u128, String>),
    /// The pending authentication was removed from the session.
    Cleared,
}

pub ghost enum EventView {
    ReturnUrl(Option<Seq<char>>),
    PendingAuth(Option<Seq<char>>),
    Exchanged(Result<UserInfoView, Seq<char>>),
    LinkingFlag(bool),
    SessionUser(Option<u128>),
    UserBySubject(Result<Option<u128>, Seq<char>>),
    Linked(Result<(), Seq<char>>),
    SessionSaved(Result<(), Seq<char>>),
    Users(Result<Seq<UserView>, Seq<char>>),
    UserWritten(Result<u128, Seq<char>>),
    Cleared,
}

impl View for CallbackEvent {
    type V = EventView;

    open spec fn view(&self) -> EventView {
        match self {
            CallbackEvent::ReturnUrl(u) => EventView::ReturnUrl(opt_text(*u)),
            CallbackEvent::PendingAuth(t) => EventView::PendingAuth(opt_text(*t)),
            CallbackEvent::Exchanged(r) => EventView::Exchanged(
                match r {
                    Ok(i) => Ok(i@),
                    Err(e) => Err(e@),
                },
            ),
            CallbackEvent::LinkingFlag(b) => EventView::LinkingFlag(*b),
            CallbackEvent::SessionUser(u) => EventView::SessionUser(*u),
            CallbackEvent::UserBySubject(r) => EventView::UserBySubject(
                match r {
                    Ok(o) => Ok(*o),
                    Err(e) => Err(e@),
                },
            ),
            CallbackEvent::Linked(r) => EventView::Linked(
                match r {
                    Ok(_) => Ok(()),
                    Err(e) => Err(e@),
                },
            ),
            CallbackEvent::SessionSaved(r) => EventView::SessionSaved(
                match r {
                    Ok(_) => Ok(()),
                    Err(e) => Err(e@),
                },
            ),
            CallbackEvent::Users(r) => EventView::Users(
                match r {
                    Ok(u) => Ok(user_views(u@)),
                    Err(e) => Err(e@),
                },
            ),
            CallbackEvent::UserWritten(r) => EventView::UserWritten(
                match r {
                    Ok(id) => Ok(*id),
                    Err(e) => Err(e@),
                },
            ),
            CallbackEvent::Cleared => EventView::Cleared,
        }
    }
}

/// What the caller does next.
#[derive(Debug)]
pub enum CallbackAction {
    ReadReturnUrl,
    ReadPendingAuth,
    /// Exchange the authorization code, with the pending authentication.
    ExchangeCode,
    ReadLinkingFlag,
    ReadSessionUser,
    FindUserBySubject { subject: String },
    LinkAccount { user_id: u128, subject: String, provider: Option<String> },
    SaveSessionUser { user_id: u128 },
    ListUsers,
    UpdateUser { user: User },
    CreateUser { email: String, subject: String, provider: Option<String> },
    /// Remove the pending authentication, the linking flag and the return
    /// URL from the session.
    ClearPendingAuth,
    Respond { redirect: Redirect },
}

pub ghost enum ActionView {
    ReadReturnUrl,
    ReadPendingAuth,
    ExchangeCode,
    ReadLinkingFlag,
    ReadSessionUser,
    FindUserBySubject { subject: Seq<char> },
    LinkAccount { user_id: u128, subject: Seq<char>, provider: Option<Seq<char>> },
    SaveSessionUser { user_id: u128 },
    ListUsers,
    UpdateUser { user: UserView },
    CreateUser { email: Seq<char>, subject: Seq<char>, provider: Option<Seq<char>> },
    ClearPendingAuth,
    Respond { redirect: RedirectView },
}

impl View for CallbackAction {
    type V = ActionView;

    open spec fn view(&self) -> ActionView {
        match self {
            CallbackAction::ReadReturnUrl => ActionView::ReadReturnUrl,
            CallbackAction::ReadPendingAuth => ActionView::ReadPendingAuth,
            CallbackAction::ExchangeCode => ActionView::ExchangeCode,
            CallbackAction::ReadLinkingFlag => ActionView::ReadLinkingFlag,
            CallbackAction::ReadSessionUser => ActionView::ReadSessionUser,
            CallbackAction::FindUserBySubject { subject } => ActionView::FindUserBySubject { subject: subject@ },
            CallbackAction::LinkAccount { user_id, subject, provider } => ActionView::LinkAccount {
                user_id: *user_id,
                subject: subject@,
                provider: opt_text(*provider),
            },
            CallbackAction::SaveSessionUser { user_id } => ActionView::SaveSessionUser { user_id: *user_id },
            CallbackAction::ListUsers => ActionView::ListUsers,
            CallbackAction::UpdateUser { user } => ActionView::UpdateUser { user: user@ },
            CallbackAction::CreateUser { email, subject, provider } => ActionView::CreateUser {
                email: email@,
                subject: subject@,
                provider: opt_text(*provider),
            },
            CallbackAction::ClearPendingAuth => ActionView::ClearPendingAuth,
            CallbackAction::Respond { redirect } => ActionView::Respond { redirect: redirect@ },
        }
    }
}


/// The number of bytes that the UTF-8 encoding of `c` takes.
pub open spec fn utf8_width(c: char) -> nat {
    let v = c as u32;
    if v < 0x80 {
        1
    } else if v < 0x800 {
        2
    } else if v < 0x10000 {
        3
    } else {
        4
    }
}

/// The number of bytes that the UTF-8 encoding of `s` takes.
pub open spec fn utf8_len(s: Seq<char>) -> nat
    decreases s.len(),
{
    if s.len() == 0 {
        0
    } else {
        utf8_len(s.drop_last()) + utf8_width(s.last())
    }
}

/// Whether the first `n` bytes of the UTF-8 encoding of `s` end on a
/// character boundary, that is, whether `&s[..n]` is defined.
pub open spec fn has_byte_prefix(s: Seq<char>, n: nat) -> bool {
    exists|k: int| 0 <= k <= s.len() && #[trigger] utf8_len(s.take(k)) == n
}

/// The characters that the first `n` bytes of `s` encode.
pub open spec fn byte_prefix(s: Seq<char>, n: nat) -> Seq<char> {
    s.take(choose|k: int| 0 <= k <= s.len() && #[trigger] utf8_len(s.take(k)) == n)
}

proof fn utf8_len_step(s: Seq<char>, j: int)
    requires
        0 <= j < s.len(),
    ensures
        utf8_len(s.take(j + 1)) == utf8_len(s.take(j)) + utf8_width(s[j]),
{
    assert(s.take(j + 1).drop_last() =~= s.take(j));
}

proof fn utf8_len_increases(s: Seq<char>, j: int, k: int)
    requires
        0 <= j < k <= s.len(),
    ensures
        utf8_len(s.take(j)) < utf8_len(s.take(k)),
    decreases k - j,
{
    utf8_len_step(s, k - 1);
    if j < k - 1 {
        utf8_len_increases(s, j, k - 1);
    }
}

/// Whether `email_address::EmailAddress::from_str` accepts a text.
pub uninterp spec fn email_valid(s: Seq<char>) -> bool;

/// Checks an email address with `email_address::EmailAddress::is_valid`.
///
/// Trusted: the result is named `email_valid(s@)`; the grammar of
/// addresses is not restated.
#[verifier::external_body]
pub(crate) fn is_valid_email(s: &str) -> (r: bool)
    ensures
        r == email_valid(s@),
{
    email_address::EmailAddress::is_valid(s)
}

/// Appends a character to a string with `String::push`.
#[verifier::external_body]
fn push_char(s: &mut String, c: char)
    ensures
        final(s)@ == old(s)@.push(c),
{
    s.push(c);
}

/// The characters that the first `n` bytes of `s` encode, as `&s[..n]`.
#[verifier::spinoff_prover]
pub fn byte_prefix_of(s: &str, n: usize) -> (r: String)
    requires
        has_byte_prefix(s@, n as nat),
    ensures
        r@ == byte_prefix(s@, n as nat),
{
    let chars = crate::text::chars_of(s);
    let len = chars.len();
    let ghost k = choose|k: int| 0 <= k <= s@.len() && #[trigger] utf8_len(s@.take(k)) == n;
    let mut out = String::new();
    let mut i: usize = 0;
    let mut bytes: usize = 0;
    while bytes < n
        invariant
            chars@ == s@,
            len == chars@.len(),
            0 <= k <= s@.len(),
            utf8_len(s@.take(k)) == n,
            i <= k,
            bytes == utf8_len(s@.take(i as int)),
            out@ == s@.take(i as int),
        decreases k - i,
    {
        proof {
            if i == k {
                assert(false);
            }
            utf8_len_step(s@, i as int);
            if i + 1 < k {
                utf8_len_increases(s@, i + 1, k);
            }
        }
        let c = chars[i];
        let v = c as u32;
        let w: usize = if v < 0x80 {
            1
        } else if v < 0x800 {
            2
        } else if v < 0x10000 {
            3
        } else {
            4
        };
        push_char(&mut out, c);
        assert(out@ =~= s@.take(i + 1));
        bytes = bytes + w;
        assert(i < len);
        i = i + 1;
    }
    proof {
        if i < k {
            utf8_len_increases(s@, i as int, k);
        }
    }
    out
}

/// The address given to an account when the provider supplies none that
/// is valid: `user` and the first eight bytes of the subject, at
/// `example.com`.
pub open spec fn fallback_email(subject: Seq<char>) -> Seq<char> {
    "user"@ + byte_prefix(subject, 8) + "@example.com"@
}

/// The address of a new account: the one the provider supplies if it is a
/// valid address, else the fallback.
pub open spec fn chosen_email(info: UserInfoView) -> Seq<char> {
    let fallback = fallback_email(info.subject);
    let candidate = match info.email {
        Some(e) => e,
        None => fallback,
    };
    if email_valid(candidate) {
        candidate
    } else {
        fallback
    }
}

/// An account that can be claimed by the first OIDC sign-in: it has neither
/// a password nor an OIDC identity.
pub open spec fn is_seed(u: UserView) -> bool {
    u.base.password_hash is None && u.base.oidc_subject is None
}

pub open spec fn is_first_seed(users: Seq<UserView>, i: int) -> bool {
    &&& 0 <= i < users.len()
    &&& is_seed(users[i])
    &&& forall|j: int| 0 <= j < i ==> !is_seed(#[trigger] users[j])
}

/// The seed account after it is claimed by the identity `subject`.
pub open spec fn claimed(
    seed: UserView,
    email: Seq<char>,
    subject: Seq<char>,
    provider: Option<Seq<char>>,
    now: i128,
) -> UserView {
    UserView {
        base: UserBaseView {
            email,
            oidc_subject: Some(subject),
            oidc_provider: provider,
            oidc_linked_at: Some(now),
            ..seed.base
        },
        ..seed
    }
}

pub open spec fn modal_pair() -> (Seq<char>, Seq<char>) {
    ("auth_modal"@, "true"@)
}

/// The return URL of a linking flow: with `auth_modal=true`, and the error
/// if there is one.
pub open spec fn link_location(return_url: Seq<char>, error: Option<Seq<char>>) -> LocationView {
    LocationView::ReturnWithPairs {
        return_url,
        pairs: match error {
            None => seq![modal_pair()],
            Some(m) => seq![modal_pair(), ("error"@, m)],
        },
    }
}

pub open spec fn finish(success: bool, location: LocationView) -> (StageView, ActionView) {
    (StageView::Finished, ActionView::Respond { redirect: RedirectView { success, location } })
}

pub open spec fn fail_to_return(return_url: Seq<char>, message: Seq<char>) -> (StageView, ActionView) {
    finish(false, LocationView::ReturnWithError { return_url, message })
}

/// Clears the pending authentication, then answers with this redirect.
pub open spec fn clean_then(success: bool, location: LocationView) -> (StageView, ActionView) {
    (
        StageView::AwaitCleanup { redirect: RedirectView { success, location } },
        ActionView::ClearPendingAuth,
    )
}

/// Which event each stage waits for.
pub open spec fn expects(stage: StageView, event: EventView) -> bool {
    match stage {
        StageView::AwaitReturnUrl => event is ReturnUrl,
        StageView::AwaitPendingAuth { .. } => event is PendingAuth,
        StageView::AwaitExchange { .. } => event is Exchanged,
        StageView::AwaitLinkingFlag { .. } => event is LinkingFlag,
        StageView::AwaitSessionUser { .. } => event is SessionUser,
        StageView::AwaitLinkedOwner { .. } => event is UserBySubject,
        StageView::AwaitLink { .. } => event is Linked,
        StageView::AwaitCleanup { .. } => event is Cleared,
        StageView::AwaitLoginLookup { .. } => event is UserBySubject,
        StageView::AwaitUsers { .. } => event is Users,
        StageView::AwaitUserWrite { .. } => event is UserWritten,
        StageView::AwaitSessionSave { .. } => event is SessionSaved,
        StageView::Finished => false,
    }
}

/// The inputs on which a step is defined: the event is the one the stage
/// waits for, and a new account's fallback address can be formed.
pub open spec fn step_allowed(stage: StageView, event: EventView) -> bool {
    &&& expects(stage, event)
    &&& (stage matches StageView::AwaitUsers { info, .. } ==> (event matches EventView::Users(Ok(_))
        ==> has_byte_prefix(info.subject, 8)))
}

/// The next stage and action of the callback flow; `now` is the time at
/// which an account is linked.
pub open spec fn next(stage: StageView, event: EventView, ctx: ContextView, now: i128) -> (StageView, ActionView) {
    match stage {
        StageView::AwaitReturnUrl => match event {
            EventView::ReturnUrl(None) => finish(
                false,
                LocationView::ErrorPage {
                    message: "Session error: Unable to determine return URL. Please try logging in again."@,
                },
            ),
            EventView::ReturnUrl(Some(u)) => if !ctx.oidc_configured {
                fail_to_return(u, "OIDC is not configured on this server"@)
            } else {
                (StageView::AwaitPendingAuth { return_url: u }, ActionView::ReadPendingAuth)
            },
            _ => (stage, ActionView::ReadReturnUrl),
        },
        StageView::AwaitPendingAuth { return_url } => match event {
            EventView::PendingAuth(None) => fail_to_return(
                return_url,
                "No pending authentication found. Please try again."@,
            ),
            EventView::PendingAuth(Some(token)) => if token != ctx.state_param {
                fail_to_return(return_url, "Invalid security token. Please try again."@)
            } else {
                (StageView::AwaitExchange { return_url }, ActionView::ExchangeCode)
            },
            _ => (stage, ActionView::ReadPendingAuth),
        },
        StageView::AwaitExchange { return_url } => match event {
            EventView::Exchanged(Err(e)) => fail_to_return(
                return_url,
                "Failed to authenticate with OIDC provider. Please try again. Error: "@ + e,
            ),
            EventView::Exchanged(Ok(info)) => (
                StageView::AwaitLinkingFlag { return_url, info },
                ActionView::ReadLinkingFlag,
            ),
            _ => (stage, ActionView::ExchangeCode),
        },
        StageView::AwaitLinkingFlag { return_url, info } => match event {
            EventView::LinkingFlag(linking) => if parsed_url(return_url) is None {
                finish(false, LocationView::ErrorPage { message: "Invalid return URL"@ })
            } else if linking {
                (StageView::AwaitSessionUser { return_url, info }, ActionView::ReadSessionUser)
            } else {
                (
                    StageView::AwaitLoginLookup { return_url, info },
                    ActionView::FindUserBySubject { subject: info.subject },
                )
            },
            _ => (stage, ActionView::ReadLinkingFlag),
        },
        StageView::AwaitSessionUser { return_url, info } => match event {
            EventView::SessionUser(None) => finish(
                false,
                link_location(return_url, Some("You must be logged in to link an OIDC account."@)),
            ),
            EventView::SessionUser(Some(user_id)) => (
                StageView::AwaitLinkedOwner { return_url, info, user_id },
                ActionView::FindUserBySubject { subject: info.subject },
            ),
            _ => (stage, ActionView::ReadSessionUser),
        },
        StageView::AwaitLinkedOwner { return_url, info, user_id } => match event {
            EventView::UserBySubject(Ok(Some(owner))) => if owner != user_id {
                clean_then(
                    false,
                    link_location(
                        return_url,
                        Some(
                            "This OIDC account is already linked to another user. Please unlink it first or use a different account."@,
                        ),
                    ),
                )
            } else {
                clean_then(true, link_location(return_url, None))
            },
            EventView::UserBySubject(_) => (
                StageView::AwaitLink { return_url },
                ActionView::LinkAccount { user_id, subject: info.subject, provider: ctx.provider_name },
            ),
            _ => (stage, ActionView::FindUserBySubject { subject: info.subject }),
        },
        StageView::AwaitLink { return_url } => match event {
            EventView::Linked(Err(e)) => clean_then(
                false,
                link_location(
                    return_url,
                    Some("Failed to link OIDC account. Please try again. Error: "@ + e),
                ),
            ),
            EventView::Linked(Ok(_)) => clean_then(true, link_location(return_url, None)),
            _ => (stage, ActionView::ClearPendingAuth),
        },
        StageView::AwaitCleanup { redirect } => (
            StageView::Finished,
            ActionView::Respond { redirect },
        ),
        StageView::AwaitLoginLookup { return_url, info } => match event {
            EventView::UserBySubject(Err(e)) => fail_to_return(
                return_url,
                "Failed to process authentication. Please try again. Error: "@ + e,
            ),
            EventView::UserBySubject(Ok(Some(user_id))) => (
                StageView::AwaitSessionSave { return_url },
                ActionView::SaveSessionUser { user_id },
            ),
            EventView::UserBySubject(Ok(None)) => (
                StageView::AwaitUsers { return_url, info },
                ActionView::ListUsers,
            ),
            _ => (stage, ActionView::FindUserBySubject { subject: info.subject }),
        },
        StageView::AwaitUsers { return_url, info } => match event {
            EventView::Users(Err(e)) => fail_to_return(
                return_url,
                "Failed to process authentication. Please try again. Error: "@ + e,
            ),
            EventView::Users(Ok(users)) => {
                let email = chosen_email(info);
                if exists|i: int| is_first_seed(users, i) {
                    let i = choose|i: int| is_first_seed(users, i);
                    (
                        StageView::AwaitUserWrite { return_url },
                        ActionView::UpdateUser {
                            user: claimed(users[i], email, info.subject, ctx.provider_name, now),
                        },
                    )
                } else {
                    (
                        StageView::AwaitUserWrite { return_url },
                        ActionView::CreateUser {
                            email,
                            subject: info.subject,
                            provider: ctx.provider_name,
                        },
                    )
                }
            },
            _ => (stage, ActionView::ListUsers),
        },
        StageView::AwaitUserWrite { return_url } => match event {
            EventView::UserWritten(Err(e)) => fail_to_return(
                return_url,
                "Failed to create user account. Please try again. Error: "@ + e,
            ),
            EventView::UserWritten(Ok(user_id)) => (
                StageView::AwaitSessionSave { return_url },
                ActionView::SaveSessionUser { user_id },
            ),
            _ => (stage, ActionView::ListUsers),
        },
        StageView::AwaitSessionSave { return_url } => match event {
            EventView::SessionSaved(Err(e)) => fail_to_return(
                return_url,
                "Failed to create session. Please try again. Error: "@ + e,
            ),
            EventView::SessionSaved(Ok(_)) => clean_then(true, LocationView::Return { return_url }),
            _ => (stage, ActionView::ClearPendingAuth),
        },
        StageView::Finished => (stage, ActionView::ClearPendingAuth),
    }
}


fn text(s: &str) -> (r: String)
    ensures
        r@ == s@,
{
    String::from_str(s)
}

fn fail_redirect(location: Location) -> (r: (CallbackStage, CallbackAction))
    ensures
        (r.0@, r.1@) == finish(false, location@),
{
    (CallbackStage::Finished, CallbackAction::Respond { redirect: Redirect { success: false, location } })
}

fn fail_to_return_exec(return_url: String, message: String) -> (r: (CallbackStage, CallbackAction))
    ensures
        (r.0@, r.1@) == fail_to_return(return_url@, message@),
{
    fail_redirect(Location::ReturnWithError { return_url, message })
}

fn clean_then_exec(success: bool, location: Location) -> (r: (CallbackStage, CallbackAction))
    ensures
        (r.0@, r.1@) == clean_then(success, location@),
{
    (
        CallbackStage::AwaitCleanup { redirect: Redirect { success, location } },
        CallbackAction::ClearPendingAuth,
    )
}

fn link_location_exec(return_url: String, error: Option<String>) -> (r: Location)
    ensures
        r@ == link_location(return_url@, opt_text(error)),
{
    let mut pairs: Vec<(String, String)> = Vec::new();
    pairs.push((text("auth_modal"), text("true")));
    match error {
        Some(m) => {
            pairs.push((text("error"), m));
        },
        None => {},
    }
    let r = Location::ReturnWithPairs { return_url, pairs };
    assert(r@ == link_location(return_url@, opt_text(error))) by {
        match r@ {
            LocationView::ReturnWithPairs { pairs: ps, .. } => {
                assert(ps =~= link_location(return_url@, opt_text(error))->pairs);
            },
            _ => {},
        }
    }
    r
}

/// The first account that can be claimed as the seed, if there is one.
pub fn first_seed(users: &Vec<User>) -> (r: Option<usize>)
    ensures
        r matches Some(i) ==> is_first_seed(user_views(users@), i as int),
        r is None ==> !exists|i: int| is_first_seed(user_views(users@), i),
{
    let ghost views = user_views(users@);
    let mut i: usize = 0;
    while i < users.len()
        invariant
            i <= users@.len(),
            views == user_views(users@),
            forall|j: int| 0 <= j < i ==> !is_seed(#[trigger] views[j]),
        decreases users@.len() - i,
    {
        if users[i].base.password_hash.is_none() && users[i].base.oidc_subject.is_none() {
            assert(is_seed(views[i as int]));
            return Some(i);
        }
        i = i + 1;
    }
    None
}

/// The address that a new account gets; see `chosen_email`.
pub fn choose_email(info: &UserInfo) -> (r: String)
    requires
        has_byte_prefix(info.subject@, 8),
    ensures
        r@ == chosen_email(info@),
{
    let prefix = byte_prefix_of(info.subject.as_str(), 8);
    let head = concat("user", prefix.as_str());
    let fallback = concat(head.as_str(), "@example.com");
    let candidate = match &info.email {
        Some(e) => e.clone(),
        None => fallback.clone(),
    };
    if is_valid_email(candidate.as_str()) {
        candidate
    } else {
        fallback
    }
}

/// The first stage of the flow and its action.
pub fn start() -> (r: (CallbackStage, CallbackAction))
    ensures
        r.0@ == StageView::AwaitReturnUrl,
        r.1@ == ActionView::ReadReturnUrl,
{
    (CallbackStage::AwaitReturnUrl, CallbackAction::ReadReturnUrl)
}

/// One step of the flow, with `now` the time at which an account is
/// claimed.
pub fn step_at(stage: CallbackStage, event: CallbackEvent, ctx: &CallbackContext, now: i128) -> (r: (
    CallbackStage,
    CallbackAction,
))
    requires
        step_allowed(stage@, event@),
    ensures
        (r.0@, r.1@) == next(stage@, event@, ctx@, now),
{
    match stage {
        CallbackStage::AwaitReturnUrl => match event {
            CallbackEvent::ReturnUrl(None) => fail_redirect(
                Location::ErrorPage {
                    message: text(
                        "Session error: Unable to determine return URL. Please try logging in again.",
                    ),
                },
            ),
            CallbackEvent::ReturnUrl(Some(u)) => {
                if !ctx.oidc_configured {
                    fail_to_return_exec(u, text("OIDC is not configured on this server"))
                } else {
                    (CallbackStage::AwaitPendingAuth { return_url: u }, CallbackAction::ReadPendingAuth)
                }
            },
            _ => (CallbackStage::AwaitReturnUrl, CallbackAction::ReadReturnUrl),
        },
        CallbackStage::AwaitPendingAuth { return_url } => match event {
            CallbackEvent::PendingAuth(None) => fail_to_return_exec(
                return_url,
                text("No pending authentication found. Please try again."),
            ),
            CallbackEvent::PendingAuth(Some(token)) => {
                if token != ctx.state_param {
                    fail_to_return_exec(return_url, text("Invalid security token. Please try again."))
                } else {
                    (CallbackStage::AwaitExchange { return_url }, CallbackAction::ExchangeCode)
                }
            },
            _ => (CallbackStage::AwaitPendingAuth { return_url }, CallbackAction::ReadPendingAuth),
        },
        CallbackStage::AwaitExchange { return_url } => match event {
            CallbackEvent::Exchanged(Err(e)) => fail_to_return_exec(
                return_url,
                concat(
                    "Failed to authenticate with OIDC provider. Please try again. Error: ",
                    e.as_str(),
                ),
            ),
            CallbackEvent::Exchanged(Ok(info)) => (
                CallbackStage::AwaitLinkingFlag { return_url, info },
                CallbackAction::ReadLinkingFlag,
            ),
            _ => (CallbackStage::AwaitExchange { return_url }, CallbackAction::ExchangeCode),
        },
        CallbackStage::AwaitLinkingFlag { return_url, info } => match event {
            CallbackEvent::LinkingFlag(linking) => {
                let parsed = parse_url(return_url.as_str());
                if parsed.is_none() {
                    fail_redirect(Location::ErrorPage { message: text("Invalid return URL") })
                } else if linking {
                    (CallbackStage::AwaitSessionUser { return_url, info }, CallbackAction::ReadSessionUser)
                } else {
                    let subject = info.subject.clone();
                    (
                        CallbackStage::AwaitLoginLookup { return_url, info },
                        CallbackAction::FindUserBySubject { subject },
                    )
                }
            },
            _ => (CallbackStage::AwaitLinkingFlag { return_url, info }, CallbackAction::ReadLinkingFlag),
        },
        CallbackStage::AwaitSessionUser { return_url, info } => match event {
            CallbackEvent::SessionUser(None) => fail_redirect(
                link_location_exec(
                    return_url,
                    Some(text("You must be logged in to link an OIDC account.")),
                ),
            ),
            CallbackEvent::SessionUser(Some(user_id)) => {
                let subject = info.subject.clone();
                (
                    CallbackStage::AwaitLinkedOwner { return_url, info, user_id },
                    CallbackAction::FindUserBySubject { subject },
                )
            },
            _ => (CallbackStage::AwaitSessionUser { return_url, info }, CallbackAction::ReadSessionUser),
        },
        CallbackStage::AwaitLinkedOwner { return_url, info, user_id } => match event {
            CallbackEvent::UserBySubject(Ok(Some(owner))) => {
                if owner != user_id {
                    clean_then_exec(
                        false,
                        link_location_exec(
                            return_url,
                            Some(
                                text(
                                    "This OIDC account is already linked to another user. Please unlink it first or use a different account.",
                                ),
                            ),
                        ),
                    )
                } else {
                    clean_then_exec(true, link_location_exec(return_url, None))
                }
            },
            CallbackEvent::UserBySubject(_) => {
                let provider = crate::entity::clone_opt_string(&ctx.provider_name);
                (
                    CallbackStage::AwaitLink { return_url },
                    CallbackAction::LinkAccount { user_id, subject: info.subject, provider },
                )
            },
            _ => {
                let subject = info.subject.clone();
                (
                    CallbackStage::AwaitLinkedOwner { return_url, info, user_id },
                    CallbackAction::FindUserBySubject { subject },
                )
            },
        },
        CallbackStage::AwaitLink { return_url } => match event {
            CallbackEvent::Linked(Err(e)) => clean_then_exec(
                false,
                link_location_exec(
                    return_url,
                    Some(concat("Failed to link OIDC account. Please try again. Error: ", e.as_str())),
                ),
            ),
            CallbackEvent::Linked(Ok(_)) => clean_then_exec(true, link_location_exec(return_url, None)),
            _ => (CallbackStage::AwaitLink { return_url }, CallbackAction::ClearPendingAuth),
        },
        CallbackStage::AwaitCleanup { redirect } => (
            CallbackStage::Finished,
            CallbackAction::Respond { redirect },
        ),
        CallbackStage::AwaitLoginLookup { return_url, info } => match event {
            CallbackEvent::UserBySubject(Err(e)) => fail_to_return_exec(
                return_url,
                concat("Failed to process authentication. Please try again. Error: ", e.as_str()),
            ),
            CallbackEvent::UserBySubject(Ok(Some(user_id))) => (
                CallbackStage::AwaitSessionSave { return_url },
                CallbackAction::SaveSessionUser { user_id },
            ),
            CallbackEvent::UserBySubject(Ok(None)) => (
                CallbackStage::AwaitUsers { return_url, info },
                CallbackAction::ListUsers,
            ),
            _ => {
                let subject = info.subject.clone();
                (
                    CallbackStage::AwaitLoginLookup { return_url, info },
                    CallbackAction::FindUserBySubject { subject },
                )
            },
        },
        CallbackStage::AwaitUsers { return_url, info } => match event {
            CallbackEvent::Users(Err(e)) => fail_to_return_exec(
                return_url,
                concat("Failed to process authentication. Please try again. Error: ", e.as_str()),
            ),
            CallbackEvent::Users(Ok(users)) => {
                let email = choose_email(&info);
                let provider = crate::entity::clone_opt_string(&ctx.provider_name);
                match first_seed(&users) {
                    Some(i) => {
                        let ghost views = user_views(users@);
                        proof {
                            assert forall|j: int| is_first_seed(views, j) implies j == i by {
                                if j < i {
                                    assert(!is_seed(views[j]));
                                }
                                if j > i {
                                    assert(!is_seed(views[i as int]));
                                }
                            }
                        }
                        let mut user = users[i].clone();
                        user.base.email = email;
                        user.base.oidc_subject = Some(info.subject);
                        user.base.oidc_provider = provider;
                        user.base.oidc_linked_at = Some(now);
                        (CallbackStage::AwaitUserWrite { return_url }, CallbackAction::UpdateUser { user })
                    },
                    None => (
                        CallbackStage::AwaitUserWrite { return_url },
                        CallbackAction::CreateUser { email, subject: info.subject, provider },
                    ),
                }
            },
            _ => (CallbackStage::AwaitUsers { return_url, info }, CallbackAction::ListUsers),
        },
        CallbackStage::AwaitUserWrite { return_url } => match event {
            CallbackEvent::UserWritten(Err(e)) => fail_to_return_exec(
                return_url,
                concat("Failed to create user account. Please try again. Error: ", e.as_str()),
            ),
            CallbackEvent::UserWritten(Ok(user_id)) => (
                CallbackStage::AwaitSessionSave { return_url },
                CallbackAction::SaveSessionUser { user_id },
            ),
            _ => (CallbackStage::AwaitUserWrite { return_url }, CallbackAction::ListUsers),
        },
        CallbackStage::AwaitSessionSave { return_url } => match event {
            CallbackEvent::SessionSaved(Err(e)) => fail_to_return_exec(
                return_url,
                concat("Failed to create session. Please try again. Error: ", e.as_str()),
            ),
            CallbackEvent::SessionSaved(Ok(_)) => clean_then_exec(true, Location::Return { return_url }),
            _ => (CallbackStage::AwaitSessionSave { return_url }, CallbackAction::ClearPendingAuth),
        },
        CallbackStage::Finished => (CallbackStage::Finished, CallbackAction::ClearPendingAuth),
    }
}

/// One step of the flow; an account claimed in this step is linked now.
pub fn step(stage: CallbackStage, event: CallbackEvent, ctx: &CallbackContext) -> (r: (
    CallbackStage,
    CallbackAction,
))
    requires
        step_allowed(stage@, event@),
    ensures
        exists|now: i128| #[trigger] next(stage@, event@, ctx@, now) == (r.0@, r.1@),
{
    let now = now_nanos();
    let ghost sv = stage@;
    let ghost ev = event@;
    let r = step_at(stage, event, ctx, now);
    assert(next(sv, ev, ctx@, now) == (r.0@, r.1@));
    r
}
} // verus!
