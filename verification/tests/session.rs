use token_monitor::api::{ApiError, LoginResponse, Request};
use token_monitor::auth::{AuthError, RefreshTokenUpdate};
use token_monitor::session::{
    logged_in, logout_answer, CommandError, FetchEvent, FetchFlow, FetchStep, LoginEvent,
    LoginFlow, LoginStep,
};
use token_monitor::api::Resource;

fn tokens(access: &str, refresh: Option<&str>) -> LoginResponse {
    LoginResponse {
        access_token: access.to_string(),
        refresh_token: refresh.map(|r| r.to_string()),
        expires_in: None,
        token_type: None,
        user: None,
    }
}

/// Drives a fetch with the given answers and returns all its steps.
fn drive(may_refresh: bool, events: Vec<FetchEvent<u32>>) -> Vec<FetchStep<u32>> {
    let (mut flow, first) = FetchFlow::start::<u32>(Resource::DashboardStats, may_refresh);
    let mut steps = vec![first];
    for e in events {
        assert!(flow.accepts(&e));
        let (next, step) = flow.step(e);
        flow = next;
        steps.push(step);
    }
    steps
}

fn refreshes(steps: &[FetchStep<u32>]) -> usize {
    steps.iter().filter(|s| matches!(s, FetchStep::Refresh(_))).count()
}

#[test]
fn fetch_without_401_returns_the_data() {
    let steps = drive(
        true,
        vec![
            FetchEvent::AccessToken(Ok("old".to_string())),
            FetchEvent::BaseUrl("https://h".to_string()),
            FetchEvent::Fetched(Ok(42)),
        ],
    );
    assert!(matches!(steps[0], FetchStep::ReadAccessToken));
    assert!(matches!(steps[1], FetchStep::ReadBaseUrl));
    match &steps[2] {
        FetchStep::Send(Request::GetWithBearer { url, token }) => {
            assert_eq!(url, "https://h/api/v1/usage/dashboard/stats?timezone=Asia/Shanghai");
            assert_eq!(token, "old");
        }
        other => panic!("unexpected {:?}", other),
    }
    assert!(matches!(steps[3], FetchStep::Finish(Ok(42))));
}

#[test]
fn fetch_refreshes_once_on_401_and_retries_with_new_token() {
    let steps = drive(
        true,
        vec![
            FetchEvent::AccessToken(Ok("old".to_string())),
            FetchEvent::BaseUrl("https://h".to_string()),
            FetchEvent::Fetched(Err(ApiError::Unauthorized)),
            FetchEvent::RefreshToken(Some("rt".to_string())),
            FetchEvent::Refreshed(Ok(tokens("new", Some("rt2")))),
            FetchEvent::TokensStored(Ok(())),
            FetchEvent::Fetched(Ok(7)),
        ],
    );
    assert!(matches!(steps[3], FetchStep::ReadRefreshToken));
    match &steps[4] {
        FetchStep::Refresh(Request::PostJson { url, body }) => {
            assert_eq!(url, "https://h/api/v1/auth/refresh");
            assert_eq!(body, "{\"refresh_token\":\"rt\"}");
        }
        other => panic!("unexpected {:?}", other),
    }
    match &steps[5] {
        FetchStep::StoreTokens { access_token, refresh_token } => {
            assert_eq!(access_token, "new");
            assert_eq!(refresh_token, &RefreshTokenUpdate::Replace("rt2".to_string()));
        }
        other => panic!("unexpected {:?}", other),
    }
    match &steps[6] {
        FetchStep::Send(Request::GetWithBearer { token, .. }) => assert_eq!(token, "new"),
        other => panic!("unexpected {:?}", other),
    }
    assert!(matches!(steps[7], FetchStep::Finish(Ok(7))));
    assert_eq!(refreshes(&steps), 1);
}

#[test]
fn second_401_after_refresh_is_final() {
    let steps = drive(
        true,
        vec![
            FetchEvent::AccessToken(Ok("old".to_string())),
            FetchEvent::BaseUrl("https://h".to_string()),
            FetchEvent::Fetched(Err(ApiError::Unauthorized)),
            FetchEvent::RefreshToken(Some("rt".to_string())),
            FetchEvent::Refreshed(Ok(tokens("new", None))),
            FetchEvent::TokensStored(Ok(())),
            FetchEvent::Fetched(Err(ApiError::Unauthorized)),
        ],
    );
    assert!(matches!(steps[7], FetchStep::Finish(Err(CommandError::Api(ApiError::Unauthorized)))));
    assert_eq!(refreshes(&steps), 1);
}

#[test]
fn missing_access_token_is_not_logged_in() {
    let steps = drive(true, vec![FetchEvent::AccessToken(Err(AuthError::NotFound))]);
    assert!(matches!(steps[1], FetchStep::Finish(Err(CommandError::NotLoggedIn))));
}

#[test]
fn unauthorized_without_refresh_token_is_not_logged_in() {
    let steps = drive(
        true,
        vec![
            FetchEvent::AccessToken(Ok("old".to_string())),
            FetchEvent::BaseUrl("https://h".to_string()),
            FetchEvent::Fetched(Err(ApiError::Unauthorized)),
            FetchEvent::RefreshToken(None),
        ],
    );
    assert!(matches!(steps[4], FetchStep::Finish(Err(CommandError::NotLoggedIn))));
}

#[test]
fn failed_refresh_is_reported() {
    let steps = drive(
        true,
        vec![
            FetchEvent::AccessToken(Ok("old".to_string())),
            FetchEvent::BaseUrl("https://h".to_string()),
            FetchEvent::Fetched(Err(ApiError::Unauthorized)),
            FetchEvent::RefreshToken(Some("rt".to_string())),
            FetchEvent::Refreshed(Err(ApiError::Unauthorized)),
        ],
    );
    assert!(matches!(steps[5], FetchStep::Finish(Err(CommandError::Api(ApiError::Unauthorized)))));
}

#[test]
fn failed_token_store_is_reported() {
    let steps = drive(
        true,
        vec![
            FetchEvent::AccessToken(Ok("old".to_string())),
            FetchEvent::BaseUrl("https://h".to_string()),
            FetchEvent::Fetched(Err(ApiError::Unauthorized)),
            FetchEvent::RefreshToken(Some("rt".to_string())),
            FetchEvent::Refreshed(Ok(tokens("new", None))),
            FetchEvent::TokensStored(Err(AuthError::Keyring("denied".to_string()))),
        ],
    );
    match &steps[6] {
        FetchStep::Finish(Err(e)) => assert_eq!(e.message(), "auth: keyring error: denied"),
        other => panic!("unexpected {:?}", other),
    }
}

#[test]
fn other_api_failures_are_not_retried() {
    let steps = drive(
        true,
        vec![
            FetchEvent::AccessToken(Ok("old".to_string())),
            FetchEvent::BaseUrl("https://h".to_string()),
            FetchEvent::Fetched(Err(ApiError::Status(500, "oops".to_string()))),
        ],
    );
    assert!(matches!(
        &steps[3],
        FetchStep::Finish(Err(CommandError::Api(ApiError::Status(500, _))))
    ));
    assert_eq!(refreshes(&steps), 0);
}

#[test]
fn fetch_without_refresh_reports_401() {
    let steps = drive(
        false,
        vec![
            FetchEvent::AccessToken(Ok("old".to_string())),
            FetchEvent::BaseUrl("https://h".to_string()),
            FetchEvent::Fetched(Err(ApiError::Unauthorized)),
        ],
    );
    assert!(matches!(steps[3], FetchStep::Finish(Err(CommandError::Api(ApiError::Unauthorized)))));
    assert_eq!(refreshes(&steps), 0);
}

#[test]
fn finished_fetch_waits_for_nothing() {
    let (flow, _) = FetchFlow::start::<u32>(Resource::UserInfo, false);
    let (flow, _) = flow.step(FetchEvent::<u32>::AccessToken(Err(AuthError::NotFound)));
    assert!(!flow.accepts(&FetchEvent::<u32>::BaseUrl("x".to_string())));
    assert!(!flow.accepts(&FetchEvent::<u32>::Fetched(Ok(1))));
}

#[test]
fn password_login_stores_base_url_and_tokens() {
    let (flow, step) =
        LoginFlow::with_password("me@x.io".to_string(), "pw".to_string(), "  https://h  ");
    match step {
        LoginStep::SaveBaseUrl(b) => assert_eq!(b, "https://h"),
        other => panic!("unexpected {:?}", other),
    }
    let (flow, step) = flow.step(LoginEvent::BaseUrlSaved(Ok(())));
    match step {
        LoginStep::Send(Request::PostJson { url, body }) => {
            assert_eq!(url, "https://h/api/v1/auth/login");
            assert_eq!(body, "{\"email\":\"me@x.io\",\"password\":\"pw\"}");
        }
        other => panic!("unexpected {:?}", other),
    }
    let (flow, step) = flow.step(LoginEvent::SignedIn(Ok(tokens("a", Some("r")))));
    match step {
        LoginStep::SaveTokens { access_token, refresh_token } => {
            assert_eq!(access_token, "a");
            assert_eq!(refresh_token, RefreshTokenUpdate::Replace("r".to_string()));
        }
        other => panic!("unexpected {:?}", other),
    }
    let (flow, step) = flow.step(LoginEvent::TokensSaved(Ok(())));
    assert!(matches!(step, LoginStep::Finish(Ok(true))));
    assert!(!flow.accepts(&LoginEvent::TokensSaved(Ok(()))));
}

#[test]
fn blank_base_url_logs_in_against_default() {
    let (_, step) = LoginFlow::with_password("e".to_string(), "p".to_string(), "");
    match step {
        LoginStep::SaveBaseUrl(b) => assert_eq!(b, "https://fufei.mossx.ai"),
        other => panic!("unexpected {:?}", other),
    }
}

#[test]
fn refused_password_login_is_reported() {
    let (flow, _) = LoginFlow::with_password("e".to_string(), "p".to_string(), "https://h");
    let (flow, _) = flow.step(LoginEvent::BaseUrlSaved(Ok(())));
    let (_, step) = flow.step(LoginEvent::SignedIn(Err(ApiError::Api {
        code: 40001,
        message: "wrong".to_string(),
    })));
    match step {
        LoginStep::Finish(Err(e)) => assert_eq!(e.message(), "api error (40001): wrong"),
        other => panic!("unexpected {:?}", other),
    }
}

#[test]
fn base_url_store_failure_stops_login() {
    let (flow, _) = LoginFlow::with_password("e".to_string(), "p".to_string(), "https://h");
    let (_, step) = flow.step(LoginEvent::BaseUrlSaved(Err(AuthError::Keyring("no".to_string()))));
    assert!(matches!(step, LoginStep::Finish(Err(CommandError::Auth(AuthError::Keyring(_))))));
}

#[test]
fn token_login_checks_stats_and_removes_refresh_token() {
    let (flow, _) = LoginFlow::with_token("Bearer tok-1", " https://h ");
    let (flow, step) = flow.step(LoginEvent::BaseUrlSaved(Ok(())));
    match step {
        LoginStep::Send(Request::GetWithBearer { url, token }) => {
            assert_eq!(url, "https://h/api/v1/usage/dashboard/stats?timezone=Asia/Shanghai");
            assert_eq!(token, "tok-1");
        }
        other => panic!("unexpected {:?}", other),
    }
    let (flow, step) = flow.step(LoginEvent::TokenChecked(Ok(())));
    match step {
        LoginStep::SaveTokens { access_token, refresh_token } => {
            assert_eq!(access_token, "tok-1");
            assert_eq!(refresh_token, RefreshTokenUpdate::Remove);
        }
        other => panic!("unexpected {:?}", other),
    }
    let (_, step) = flow.step(LoginEvent::TokensSaved(Ok(())));
    assert!(matches!(step, LoginStep::Finish(Ok(true))));
}

#[test]
fn rejected_token_is_unauthorized() {
    let (flow, _) = LoginFlow::with_token("bad", "https://h");
    let (flow, _) = flow.step(LoginEvent::BaseUrlSaved(Ok(())));
    let (_, step) = flow.step(LoginEvent::TokenChecked(Err(ApiError::Unauthorized)));
    match step {
        LoginStep::Finish(Err(e)) => assert_eq!(e.message(), "unauthorized (401)"),
        other => panic!("unexpected {:?}", other),
    }
}

#[test]
fn command_error_messages() {
    assert_eq!(CommandError::NotLoggedIn.message(), "not logged in");
    assert_eq!(CommandError::Auth(AuthError::NotFound).message(), "auth: no stored token");
    assert_eq!(
        CommandError::Api(ApiError::Status(418, "teapot".to_string())).message(),
        "unexpected status 418: teapot"
    );
    assert_eq!(
        CommandError::Api(ApiError::Network("dns".to_string())).message(),
        "network error: dns"
    );
}

#[test]
fn logged_in_means_a_token_is_stored() {
    assert!(logged_in(&Ok("t".to_string())));
    assert!(!logged_in(&Err(AuthError::NotFound)));
    assert!(!logged_in(&Err(AuthError::Keyring("x".to_string()))));
}

#[test]
fn logout_answers() {
    assert_eq!(logout_answer(Ok(())), Ok(true));
    assert_eq!(
        logout_answer(Err(AuthError::Keyring("x".to_string()))),
        Err(CommandError::Auth(AuthError::Keyring("x".to_string())))
    );
}

#[test]
fn refresh_without_new_refresh_token_keeps_the_stored_one() {
    let steps = drive(
        true,
        vec![
            FetchEvent::AccessToken(Ok("old".to_string())),
            FetchEvent::BaseUrl("https://h".to_string()),
            FetchEvent::Fetched(Err(ApiError::Unauthorized)),
            FetchEvent::RefreshToken(Some("rt".to_string())),
            FetchEvent::Refreshed(Ok(tokens("new", None))),
        ],
    );
    match &steps[5] {
        FetchStep::StoreTokens { access_token, refresh_token } => {
            assert_eq!(access_token, "new");
            assert_eq!(refresh_token, &RefreshTokenUpdate::Keep);
        }
        other => panic!("unexpected {:?}", other),
    }
}

#[test]
fn a_fetch_sends_at_most_two_requests() {
    let steps = drive(
        true,
        vec![
            FetchEvent::AccessToken(Ok("old".to_string())),
            FetchEvent::BaseUrl("https://h".to_string()),
            FetchEvent::Fetched(Err(ApiError::Unauthorized)),
            FetchEvent::RefreshToken(Some("rt".to_string())),
            FetchEvent::Refreshed(Ok(tokens("new", None))),
            FetchEvent::TokensStored(Ok(())),
            FetchEvent::Fetched(Err(ApiError::Unauthorized)),
        ],
    );
    let sends = steps.iter().filter(|s| matches!(s, FetchStep::Send(_))).count();
    assert_eq!(sends, 2);
}

#[test]
fn only_user_info_fetches_without_refresh() {
    let (f, _) = FetchFlow::for_command::<u32>(Resource::DashboardStats);
    assert!(f.may_refresh);
    let (f, _) = FetchFlow::for_command::<u32>(Resource::Subscriptions);
    assert!(f.may_refresh);
    let (f, _) = FetchFlow::for_command::<u32>(Resource::UserInfo);
    assert!(!f.may_refresh);
}
