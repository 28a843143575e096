use onedrive_manager::auth::Authdata;
use onedrive_manager::configfile::{config_file, config_file_in, config_folder_in, join_path, Configuration};
use onedrive_manager::transport::{ApiEvent, HttpResponse, OneDriveApi};

fn auth(access: &str, refresh: &str) -> Authdata {
    Authdata {
        token_type: "bearer".to_string(),
        expires_in: 60,
        scope: "s".to_string(),
        access_token: access.to_string(),
        refresh_token: refresh.to_string(),
        user_id: "u".to_string(),
    }
}

#[test]
fn config_paths_under_home() {
    assert_eq!(config_folder_in("/home/ann"), "/home/ann/.onedrive_manager");
    assert_eq!(config_file_in("/home/ann"), "/home/ann/.onedrive_manager/config.yml");
    assert_eq!(config_file_in("/home/ann/"), "/home/ann/.onedrive_manager/config.yml");
    assert_eq!(join_path("", "x"), "x");
}

#[test]
fn config_file_is_under_some_home() {
    if let Some(path) = config_file() {
        assert!(path.ends_with("/.onedrive_manager/config.yml") || path == ".onedrive_manager/config.yml");
    }
}

#[test]
fn configuration_from_token_pair() {
    let c = Configuration::from_auth(&auth("abcd", "1234"));
    assert_eq!(c.auth_token, "abcd");
    assert_eq!(c.refresh_token, "1234");
}

#[test]
fn configuration_takes_whole_refreshed_pair() {
    let mut c = Configuration { auth_token: "old".to_string(), refresh_token: "old-r".to_string() };
    c.apply_refresh(&auth("new", "new-r"));
    assert_eq!(c.auth_token, "new");
    assert_eq!(c.refresh_token, "new-r");
}

#[test]
fn session_snapshot_round_trip() {
    let saved = Configuration { auth_token: "abcdABCD".to_string(), refresh_token: "1234".to_string() };
    let mut api = OneDriveApi::new("cid", "ruri", &saved.auth_token, &saved.refresh_token);
    let back = Configuration::from_session(&api);
    assert_eq!(back.auth_token, saved.auth_token);
    assert_eq!(back.refresh_token, saved.refresh_token);

    let (mut req, _) = api.get("https://x");
    req.step(&mut api, ApiEvent::Response(HttpResponse { status: 401, body: String::new() }));
    req.step(&mut api, ApiEvent::Refreshed(auth("A2", "R2")));
    let after = Configuration::from_session(&api);
    assert_eq!(after.auth_token, "A2");
    assert_eq!(after.refresh_token, "R2");
}
