use token_monitor::api::{
    login_request, read_login_reply, read_reply, refresh_request, resource_request, ApiError,
    ErrorBody, LoginResponse, Request, Resource,
};

fn tokens(access: &str, refresh: Option<&str>) -> LoginResponse {
    LoginResponse {
        access_token: access.to_string(),
        refresh_token: refresh.map(|r| r.to_string()),
        expires_in: Some(3600),
        token_type: Some("Bearer".to_string()),
        user: None,
    }
}

#[test]
fn api_error_messages() {
    assert_eq!(ApiError::Network("timed out".to_string()).message(), "network error: timed out");
    assert_eq!(ApiError::Unauthorized.message(), "unauthorized (401)");
    assert_eq!(
        ApiError::Api { code: -3, message: "bad password".to_string() }.message(),
        "api error (-3): bad password"
    );
    assert_eq!(
        ApiError::Api { code: 1004, message: "locked".to_string() }.message(),
        "api error (1004): locked"
    );
    assert_eq!(ApiError::Status(503, "down".to_string()).message(), "unexpected status 503: down");
}

#[test]
fn login_request_posts_credentials_as_json() {
    let r = login_request("https://h.example", "me@x.io", "p\"w\\d");
    assert_eq!(
        r,
        Request::PostJson {
            url: "https://h.example/api/v1/auth/login".to_string(),
            body: "{\"email\":\"me@x.io\",\"password\":\"p\\\"w\\\\d\"}".to_string(),
        }
    );
}

#[test]
fn login_body_is_the_json_object_of_the_credentials() {
    let r = login_request("b", "e\nf", "pw");
    match r {
        Request::PostJson { body, .. } => {
            let v: serde_json::Value = serde_json::from_str(&body).unwrap();
            let expected: serde_json::Value =
                serde_json::from_str("{\"password\":\"pw\",\"email\":\"e\\nf\"}").unwrap();
            assert_eq!(v, expected);
        }
        _ => panic!("login is a POST"),
    }
}

#[test]
fn refresh_request_posts_the_refresh_token() {
    assert_eq!(
        refresh_request("https://h", "rt-1"),
        Request::PostJson {
            url: "https://h/api/v1/auth/refresh".to_string(),
            body: "{\"refresh_token\":\"rt-1\"}".to_string(),
        }
    );
}

#[test]
fn resource_requests_carry_the_bearer_token() {
    assert_eq!(
        resource_request("https://h", Resource::DashboardStats, "tok"),
        Request::GetWithBearer {
            url: "https://h/api/v1/usage/dashboard/stats?timezone=Asia/Shanghai".to_string(),
            token: "tok".to_string(),
        }
    );
    assert_eq!(
        resource_request("https://h", Resource::UserInfo, "tok"),
        Request::GetWithBearer {
            url: "https://h/api/v1/auth/me?timezone=Asia/Shanghai".to_string(),
            token: "tok".to_string(),
        }
    );
    assert_eq!(
        resource_request("https://h", Resource::Subscriptions, "tok"),
        Request::GetWithBearer {
            url: "https://h/api/v1/subscriptions/active?timezone=Asia/Shanghai".to_string(),
            token: "tok".to_string(),
        }
    );
}

#[test]
fn reply_ok_gives_the_data() {
    assert_eq!(read_reply(200, "{}".to_string(), Ok::<u32, String>(7)), Ok(7));
}

#[test]
fn reply_with_unreadable_body_is_bad_json() {
    assert_eq!(
        read_reply::<u32>(200, "<html>".to_string(), Err("expected value at line 1".to_string())),
        Err(ApiError::Status(200, "bad json: expected value at line 1".to_string()))
    );
}

#[test]
fn reply_401_is_unauthorized() {
    assert_eq!(read_reply::<u32>(401, "nope".to_string(), Ok(1)), Err(ApiError::Unauthorized));
}

#[test]
fn reply_other_status_keeps_the_text() {
    assert_eq!(
        read_reply::<u32>(502, "bad gateway".to_string(), Err(String::new())),
        Err(ApiError::Status(502, "bad gateway".to_string()))
    );
    assert_eq!(
        read_reply::<u32>(204, String::new(), Ok(1)),
        Err(ApiError::Status(204, String::new()))
    );
}

#[test]
fn login_reply_ok_gives_the_tokens() {
    let r = read_login_reply(200, String::new(), Ok(tokens("a", Some("r"))), None).unwrap();
    assert_eq!(r.access_token, "a");
    assert_eq!(r.refresh_token.as_deref(), Some("r"));
}

#[test]
fn login_reply_401_is_unauthorized() {
    let body = ErrorBody { code: Some(9), message: "x".to_string() };
    assert!(matches!(
        read_login_reply(401, "x".to_string(), Err(String::new()), Some(body)),
        Err(ApiError::Unauthorized)
    ));
}

#[test]
fn login_refusal_uses_the_error_body() {
    let body = ErrorBody { code: Some(40001), message: "invalid credentials".to_string() };
    assert_eq!(
        read_login_reply(400, "{...}".to_string(), Err(String::new()), Some(body)).unwrap_err(),
        ApiError::Api { code: 40001, message: "invalid credentials".to_string() }
    );
}

#[test]
fn login_refusal_without_integer_code_uses_the_status() {
    let body = ErrorBody { code: None, message: "slow down".to_string() };
    assert_eq!(
        read_login_reply(429, "{...}".to_string(), Err(String::new()), Some(body)).unwrap_err(),
        ApiError::Api { code: 429, message: "slow down".to_string() }
    );
}

#[test]
fn login_refusal_without_error_body_uses_status_and_text() {
    assert_eq!(
        read_login_reply(500, "internal".to_string(), Err(String::new()), None).unwrap_err(),
        ApiError::Api { code: 500, message: "internal".to_string() }
    );
}

#[test]
fn login_reply_with_unreadable_body_is_bad_json() {
    assert_eq!(
        read_login_reply(200, "x".to_string(), Err("missing field `data`".to_string()), None)
            .unwrap_err(),
        ApiError::Status(200, "bad json: missing field `data`".to_string())
    );
}

#[test]
fn request_bodies_escape_control_characters() {
    assert_eq!(
        refresh_request("h", "a\u{1}b\u{8}\u{c}\r\t\u{1f}\u{7f}é"),
        Request::PostJson {
            url: "h/api/v1/auth/refresh".to_string(),
            body: "{\"refresh_token\":\"a\\u0001b\\b\\f\\r\\t\\u001f\u{7f}é\"}".to_string(),
        }
    );
}
