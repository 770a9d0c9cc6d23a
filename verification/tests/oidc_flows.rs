use netvisor::oidc::{
    byte_prefix_of, choose_email, start, step_at, CallbackAction, CallbackContext, CallbackEvent,
    CallbackStage, Location, Redirect, UserInfo,
};
use netvisor::user::{User, UserBase};

fn ctx() -> CallbackContext {
    CallbackContext {
        oidc_configured: true,
        state_param: "csrf-1".to_string(),
        provider_name: Some("Authentik".to_string()),
    }
}

fn info(subject: &str, email: Option<&str>) -> UserInfo {
    UserInfo { subject: subject.to_string(), email: email.map(|e| e.to_string()) }
}

fn user(id: u128, password: bool, oidc: bool) -> User {
    User {
        id,
        created_at: 1,
        updated_at: 1,
        base: UserBase {
            email: format!("u{}@x.org", id),
            password_hash: if password { Some("hash".to_string()) } else { None },
            oidc_subject: if oidc { Some("other".to_string()) } else { None },
            oidc_provider: None,
            oidc_linked_at: None,
        },
    }
}

fn run(events: Vec<CallbackEvent>, c: &CallbackContext) -> (CallbackStage, CallbackAction) {
    let (mut stage, mut action) = start();
    for event in events {
        let (s, a) = step_at(stage, event, c, 1000);
        stage = s;
        action = a;
    }
    (stage, action)
}

fn redirect_of(action: CallbackAction) -> Redirect {
    match action {
        CallbackAction::Respond { redirect } => redirect,
        other => panic!("expected a response, got {:?}", other),
    }
}

fn prefix_events(linking: bool) -> Vec<CallbackEvent> {
    vec![
        CallbackEvent::ReturnUrl(Some("https://app.example/done".to_string())),
        CallbackEvent::PendingAuth(Some("csrf-1".to_string())),
        CallbackEvent::Exchanged(Ok(info("subject-123456789", Some("a@b.org")))),
        CallbackEvent::LinkingFlag(linking),
    ]
}

#[test]
fn missing_return_url_goes_to_the_error_page() {
    let (stage, action) = run(vec![CallbackEvent::ReturnUrl(None)], &ctx());
    assert!(matches!(stage, CallbackStage::Finished));
    let r = redirect_of(action);
    assert!(!r.success);
    assert_eq!(
        r.location.render().unwrap(),
        "/error?message=Session%20error%3A%20Unable%20to%20determine%20return%20URL.%20Please%20try%20logging%20in%20again."
    );
}

#[test]
fn unconfigured_oidc_is_reported_to_the_return_url() {
    let mut c = ctx();
    c.oidc_configured = false;
    let (_, action) = run(vec![CallbackEvent::ReturnUrl(Some("https://a.b/x".to_string()))], &c);
    let r = redirect_of(action);
    assert_eq!(
        r.location.render().unwrap(),
        "https://a.b/x?error=OIDC%20is%20not%20configured%20on%20this%20server"
    );
}

#[test]
fn mismatched_csrf_is_refused_concretely() {
    let events = vec![
        CallbackEvent::ReturnUrl(Some("https://a.b/x".to_string())),
        CallbackEvent::PendingAuth(Some("forged".to_string())),
    ];
    let (stage, action) = run(events, &ctx());
    assert!(matches!(stage, CallbackStage::Finished));
    let r = redirect_of(action);
    assert!(!r.success);
    assert!(matches!(&r.location, Location::ReturnWithError { message, .. } if message == "Invalid security token. Please try again."));
}

#[test]
fn missing_pending_auth_and_failed_exchange() {
    let (_, action) = run(
        vec![CallbackEvent::ReturnUrl(Some("https://a.b/x".to_string())), CallbackEvent::PendingAuth(None)],
        &ctx(),
    );
    assert!(matches!(&redirect_of(action).location, Location::ReturnWithError { message, .. } if message == "No pending authentication found. Please try again."));
    let (_, action) = run(
        vec![
            CallbackEvent::ReturnUrl(Some("https://a.b/x".to_string())),
            CallbackEvent::PendingAuth(Some("csrf-1".to_string())),
            CallbackEvent::Exchanged(Err("bad code".to_string())),
        ],
        &ctx(),
    );
    assert!(matches!(&redirect_of(action).location, Location::ReturnWithError { message, .. } if message == "Failed to authenticate with OIDC provider. Please try again. Error: bad code"));
}

#[test]
fn unparsable_return_url_goes_to_the_error_page() {
    let events = vec![
        CallbackEvent::ReturnUrl(Some("not a url".to_string())),
        CallbackEvent::PendingAuth(Some("csrf-1".to_string())),
        CallbackEvent::Exchanged(Ok(info("subject-1", None))),
        CallbackEvent::LinkingFlag(false),
    ];
    let (_, action) = run(events, &ctx());
    assert_eq!(redirect_of(action).location.render().unwrap(), "/error?message=Invalid%20return%20URL");
}

#[test]
fn known_identity_signs_in_after_cleanup() {
    let mut events = prefix_events(false);
    events.push(CallbackEvent::UserBySubject(Ok(Some(77))));
    let (stage, action) = run(events, &ctx());
    assert!(matches!(action, CallbackAction::SaveSessionUser { user_id: 77 }));
    let (stage, action) = step_at(stage, CallbackEvent::SessionSaved(Ok(())), &ctx(), 0);
    assert!(matches!(action, CallbackAction::ClearPendingAuth));
    let (stage, action) = step_at(stage, CallbackEvent::Cleared, &ctx(), 0);
    assert!(matches!(stage, CallbackStage::Finished));
    let r = redirect_of(action);
    assert!(r.success);
    assert_eq!(r.location.render().unwrap(), "https://app.example/done");
}

#[test]
fn failed_lookup_and_session_save_are_reported() {
    let mut events = prefix_events(false);
    events.push(CallbackEvent::UserBySubject(Err("db down".to_string())));
    let (_, action) = run(events, &ctx());
    assert!(matches!(&redirect_of(action).location, Location::ReturnWithError { message, .. } if message == "Failed to process authentication. Please try again. Error: db down"));
    let mut events = prefix_events(false);
    events.push(CallbackEvent::UserBySubject(Ok(Some(1))));
    events.push(CallbackEvent::SessionSaved(Err("full".to_string())));
    let (_, action) = run(events, &ctx());
    assert!(matches!(&redirect_of(action).location, Location::ReturnWithError { message, .. } if message == "Failed to create session. Please try again. Error: full"));
}

#[test]
fn first_sign_in_claims_the_seed_concretely() {
    let mut events = prefix_events(false);
    events.push(CallbackEvent::UserBySubject(Ok(None)));
    events.push(CallbackEvent::Users(Ok(vec![user(1, true, false), user(2, false, false), user(3, false, false)])));
    let (stage, action) = run(events, &ctx());
    match action {
        CallbackAction::UpdateUser { user } => {
            assert_eq!(user.id, 2);
            assert_eq!(user.base.email, "a@b.org");
            assert_eq!(user.base.oidc_subject.as_deref(), Some("subject-123456789"));
            assert_eq!(user.base.oidc_provider.as_deref(), Some("Authentik"));
            assert_eq!(user.base.oidc_linked_at, Some(1000));
        },
        other => panic!("unexpected {:?}", other),
    }
    let (_, action) = step_at(stage, CallbackEvent::UserWritten(Err("conflict".to_string())), &ctx(), 0);
    assert!(matches!(&redirect_of(action).location, Location::ReturnWithError { message, .. } if message == "Failed to create user account. Please try again. Error: conflict"));
}

#[test]
fn without_seed_a_new_account_is_created() {
    let mut events = prefix_events(false);
    events.push(CallbackEvent::UserBySubject(Ok(None)));
    events.push(CallbackEvent::Users(Ok(vec![user(1, true, false), user(2, false, true)])));
    let (stage, action) = run(events, &ctx());
    match action {
        CallbackAction::CreateUser { email, subject, provider } => {
            assert_eq!(email, "a@b.org");
            assert_eq!(subject, "subject-123456789");
            assert_eq!(provider.as_deref(), Some("Authentik"));
        },
        other => panic!("unexpected {:?}", other),
    }
    let (_, action) = step_at(stage, CallbackEvent::UserWritten(Ok(5)), &ctx(), 0);
    assert!(matches!(action, CallbackAction::SaveSessionUser { user_id: 5 }));
}

#[test]
fn invalid_or_missing_email_falls_back() {
    assert_eq!(choose_email(&info("abcdefghijk", Some("not-an-email"))), "userabcdefgh@example.com");
    assert_eq!(choose_email(&info("12345678", None)), "user12345678@example.com");
    assert_eq!(choose_email(&info("12345678", Some("x@y.org"))), "x@y.org");
}

#[test]
fn fallback_prefix_counts_bytes() {
    assert_eq!(byte_prefix_of("abcdefghij", 8), "abcdefgh");
    assert_eq!(byte_prefix_of("ééééé", 8), "éééé");
    assert_eq!(byte_prefix_of("abc", 3), "abc");
}

#[test]
fn linking_requires_a_signed_in_user() {
    let mut events = prefix_events(true);
    events.push(CallbackEvent::SessionUser(None));
    let (_, action) = run(events, &ctx());
    let r = redirect_of(action);
    assert!(!r.success);
    assert_eq!(
        r.location.render().unwrap(),
        "https://app.example/done?auth_modal=true&error=You+must+be+logged+in+to+link+an+OIDC+account."
    );
}

#[test]
fn linking_never_takes_over_concretely() {
    let mut events = prefix_events(true);
    events.push(CallbackEvent::SessionUser(Some(10)));
    events.push(CallbackEvent::UserBySubject(Ok(Some(11))));
    let (stage, action) = run(events, &ctx());
    assert!(matches!(action, CallbackAction::ClearPendingAuth));
    let (_, action) = step_at(stage, CallbackEvent::Cleared, &ctx(), 0);
    let r = redirect_of(action);
    assert!(!r.success);
    match &r.location {
        Location::ReturnWithPairs { pairs, .. } => {
            assert_eq!(pairs.len(), 2);
            assert_eq!(pairs[0], ("auth_modal".to_string(), "true".to_string()));
            assert_eq!(pairs[1].0, "error");
        },
        other => panic!("unexpected {:?}", other),
    }
}

#[test]
fn linking_an_unlinked_identity() {
    let mut events = prefix_events(true);
    events.push(CallbackEvent::SessionUser(Some(10)));
    events.push(CallbackEvent::UserBySubject(Ok(None)));
    let (stage, action) = run(events, &ctx());
    match action {
        CallbackAction::LinkAccount { user_id, subject, provider } => {
            assert_eq!(user_id, 10);
            assert_eq!(subject, "subject-123456789");
            assert_eq!(provider.as_deref(), Some("Authentik"));
        },
        other => panic!("unexpected {:?}", other),
    }
    let (stage, action) = step_at(stage, CallbackEvent::Linked(Ok(())), &ctx(), 0);
    assert!(matches!(action, CallbackAction::ClearPendingAuth));
    let (_, action) = step_at(stage, CallbackEvent::Cleared, &ctx(), 0);
    let r = redirect_of(action);
    assert!(r.success);
    assert_eq!(r.location.render().unwrap(), "https://app.example/done?auth_modal=true");
}

#[test]
fn relinking_ones_own_identity_succeeds_and_link_errors_are_reported() {
    let mut events = prefix_events(true);
    events.push(CallbackEvent::SessionUser(Some(10)));
    events.push(CallbackEvent::UserBySubject(Ok(Some(10))));
    let (stage, _) = run(events, &ctx());
    let (_, action) = step_at(stage, CallbackEvent::Cleared, &ctx(), 0);
    assert!(redirect_of(action).success);
    let mut events = prefix_events(true);
    events.push(CallbackEvent::SessionUser(Some(10)));
    events.push(CallbackEvent::UserBySubject(Err("x".to_string())));
    events.push(CallbackEvent::Linked(Err("taken".to_string())));
    events.push(CallbackEvent::Cleared);
    let (_, action) = run(events, &ctx());
    match redirect_of(action).location {
        Location::ReturnWithPairs { pairs, .. } => {
            assert_eq!(pairs[1].1, "Failed to link OIDC account. Please try again. Error: taken");
        },
        other => panic!("unexpected {:?}", other),
    }
}

#[test]
fn pairs_go_into_the_query_before_the_fragment() {
    let pairs = vec![
        ("auth_modal".to_string(), "true".to_string()),
        ("error".to_string(), "a b&c*é".to_string()),
    ];
    let render = |url: &str| {
        netvisor::oidc::Location::ReturnWithPairs { return_url: url.to_string(), pairs: pairs.clone() }
            .render()
    };
    assert_eq!(
        render("https://a.example/x?y=1#top").unwrap(),
        "https://a.example/x?y=1&auth_modal=true&error=a+b%26c*%C3%A9#top"
    );
    assert_eq!(render("https://a.example/?#f").unwrap(), "https://a.example/?auth_modal=true&error=a+b%26c*%C3%A9#f");
    assert_eq!(render("https://a.example").unwrap(), "https://a.example/?auth_modal=true&error=a+b%26c*%C3%A9");
    assert_eq!(render("not a url"), None);
}
