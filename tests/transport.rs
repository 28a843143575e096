use onedrive_manager::auth::{AuthError, Authdata};
use onedrive_manager::transport::{
    ApiAction, ApiError, ApiEvent, HttpResponse, OneDriveApi, RequestPhase,
};

fn fresh_pair() -> Authdata {
    Authdata {
        token_type: "bearer".to_string(),
        expires_in: 3600,
        scope: "s".to_string(),
        access_token: "new-access".to_string(),
        refresh_token: "new-refresh".to_string(),
        user_id: "u".to_string(),
    }
}

struct Run {
    result: Result<HttpResponse, ApiError>,
    sends: Vec<(String, String)>,
    refreshes: usize,
}

/// Drives one request against scripted responses; every refresh succeeds.
fn drive(api: &mut OneDriveApi, url: &str, mut responses: Vec<HttpResponse>) -> Run {
    responses.reverse();
    let (mut req, mut action) = api.get(url);
    let mut sends = Vec::new();
    let mut refreshes = 0;
    loop {
        let event = match action {
            ApiAction::Send { url, bearer } => {
                sends.push((url, bearer));
                ApiEvent::Response(responses.pop().expect("no scripted response left"))
            }
            ApiAction::Refresh { .. } => {
                refreshes += 1;
                ApiEvent::Refreshed(fresh_pair())
            }
            ApiAction::Finish(result) => {
                assert!(req.is_finished());
                return Run { result, sends, refreshes };
            }
        };
        assert!(req.accepts(&event));
        action = req.step(api, event);
    }
}

fn response(status: u16, body: &str) -> HttpResponse {
    HttpResponse { status, body: body.to_string() }
}

fn session() -> OneDriveApi {
    OneDriveApi::new("cid", "ruri", "old-access", "old-refresh")
}

#[test]
fn unauthorized_then_ok_refreshes_once_and_returns_body() {
    let mut api = session();
    let run = drive(&mut api, "https://x/me", vec![response(401, "expired"), response(200, "profile")]);
    assert_eq!(run.sends.len(), 2);
    assert_eq!(run.refreshes, 1);
    assert_eq!(run.result.unwrap().body, "profile");
    assert_eq!(run.sends[0].1, "old-access");
    assert_eq!(run.sends[1], ("https://x/me".to_string(), "new-access".to_string()));
    assert_eq!(api.access_token, "new-access");
    assert_eq!(api.refresh_token, "new-refresh");
}

#[test]
fn unauthorized_twice_returns_second_failure() {
    let mut api = session();
    let run = drive(&mut api, "https://x/me", vec![response(401, "first"), response(401, "second")]);
    assert_eq!(run.sends.len(), 2);
    assert_eq!(run.refreshes, 1);
    match run.result {
        Err(ApiError::Status { status, body }) => {
            assert_eq!(status, 401);
            assert_eq!(body, "second");
        }
        other => panic!("unexpected {:?}", other),
    }
}

#[test]
fn server_error_fails_at_once_without_refresh() {
    let mut api = session();
    let run = drive(&mut api, "https://x/me", vec![response(500, "boom")]);
    assert_eq!(run.sends.len(), 1);
    assert_eq!(run.refreshes, 0);
    assert!(matches!(run.result, Err(ApiError::Status { status: 500, .. })));
    assert_eq!(api.access_token, "old-access");
}

#[test]
fn success_at_first_try() {
    let mut api = session();
    let run = drive(&mut api, "https://x/me", vec![response(204, "")]);
    assert_eq!(run.sends.len(), 1);
    assert_eq!(run.refreshes, 0);
    assert_eq!(run.result.unwrap().status, 204);
}

#[test]
fn retry_failure_with_other_status_is_surfaced() {
    let mut api = session();
    let run = drive(&mut api, "https://x/me", vec![response(401, "a"), response(403, "forbidden")]);
    assert_eq!(run.sends.len(), 2);
    assert!(matches!(run.result, Err(ApiError::Status { status: 403, .. })));
}

#[test]
fn refresh_form_uses_stored_refresh_token() {
    let mut api = session();
    let (mut req, _) = api.get("https://x/me");
    let action = req.step(&mut api, ApiEvent::Response(response(401, "")));
    assert_eq!(req.phase(), RequestPhase::Refreshing);
    assert_eq!(req.refreshes(), 1);
    match action {
        ApiAction::Refresh { form } => {
            assert_eq!(form[2], ("refresh_token".to_string(), "old-refresh".to_string()));
            assert_eq!(form[3], ("grant_type".to_string(), "refresh_token".to_string()));
        }
        other => panic!("unexpected {:?}", other),
    }
}

#[test]
fn refresh_failure_ends_request() {
    let mut api = session();
    let (mut req, _) = api.get("https://x/me");
    req.step(&mut api, ApiEvent::Response(response(401, "")));
    let failure = AuthError::TokenRefreshFailed { status: 400, body: "invalid_grant".to_string() };
    let action = req.step(&mut api, ApiEvent::RefreshFailed(failure));
    assert_eq!(req.phase(), RequestPhase::Failed);
    assert_eq!(req.sends(), 1);
    assert!(matches!(action, ApiAction::Finish(Err(ApiError::Refresh(AuthError::TokenRefreshFailed { status: 400, .. })))));
    assert_eq!(api.refresh_token, "old-refresh");
}

#[test]
fn send_failure_ends_request() {
    let mut api = session();
    let (mut req, _) = api.get("https://x/me");
    let action = req.step(&mut api, ApiEvent::SendFailed("timeout".to_string()));
    assert!(matches!(action, ApiAction::Finish(Err(ApiError::Transport(ref m))) if m == "timeout"));
    assert!(req.is_finished());
}

#[test]
fn finished_request_accepts_nothing() {
    let mut api = session();
    let (mut req, _) = api.get("https://x/me");
    req.step(&mut api, ApiEvent::Response(response(200, "")));
    assert!(!req.accepts(&ApiEvent::Response(response(200, ""))));
    assert!(!req.accepts(&ApiEvent::Refreshed(fresh_pair())));
}

#[test]
fn refreshing_request_waits_for_refresh_only() {
    let mut api = session();
    let (mut req, _) = api.get("https://x/me");
    req.step(&mut api, ApiEvent::Response(response(401, "")));
    assert!(!req.accepts(&ApiEvent::Response(response(200, ""))));
    assert!(req.accepts(&ApiEvent::Refreshed(fresh_pair())));
}
