use onedrive_manager::drive::{Drive, FileSystemInfo};
use onedrive_manager::onedrive::{OneDrive, ONEDRIVE_API_URL};
use onedrive_manager::transport::{ApiAction, OneDriveApi, RequestPhase};
use onedrive_manager::user::User;

fn user(url: &str) -> User {
    User {
        context: "ctx".to_string(),
        business_phones: vec!["555".to_string()],
        display_name: "Ann".to_string(),
        given_name: "Ann".to_string(),
        id: "1".to_string(),
        job_title: None,
        mail: Some("ann@example.com".to_string()),
        mobile_phone: None,
        offline_location: None,
        preferred_language: None,
        surname: "Lee".to_string(),
        user_principal_name: "ann".to_string(),
        url: url.to_string(),
    }
}

fn drive(url: &str) -> Drive {
    Drive {
        context: "ctx".to_string(),
        c_tag: "c".to_string(),
        created_by: serde_json::Value::Null,
        created_date_time: "2020".to_string(),
        e_tag: "e".to_string(),
        file_system_info: FileSystemInfo {
            created_date_time: "2020".to_string(),
            last_modified_date_time: "2021".to_string(),
        },
        folder: serde_json::Value::Null,
        id: "root".to_string(),
        last_modified_by: serde_json::Value::Null,
        last_modified_date_time: "2021".to_string(),
        name: "root".to_string(),
        parent_reference: serde_json::Value::Null,
        root: serde_json::Value::Null,
        size: 42,
        web_url: "https://w".to_string(),
        url: url.to_string(),
    }
}

fn sent(action: ApiAction) -> (String, String) {
    match action {
        ApiAction::Send { url, bearer } => (url, bearer),
        other => panic!("unexpected {:?}", other),
    }
}

#[test]
fn me_requests_profile_with_access_token() {
    let od = OneDrive::new("cid", "ruri", "tok", "ref");
    let (req, action) = od.me();
    assert_eq!(req.phase(), RequestPhase::Sending);
    assert_eq!(req.url(), &format!("{}/me", ONEDRIVE_API_URL));
    assert_eq!(sent(action), ("https://graph.microsoft.com/v1.0/me".to_string(), "tok".to_string()));
}

#[test]
fn user_new_keeps_body_and_sets_url() {
    let u = User::new(user(""), "https://graph.microsoft.com/v1.0/me");
    assert_eq!(u.url, "https://graph.microsoft.com/v1.0/me");
    assert_eq!(u.display_name, "Ann");
    assert_eq!(u.mail, Some("ann@example.com".to_string()));
}

#[test]
fn user_root_appends_drive_root() {
    let api = OneDriveApi::new("cid", "ruri", "tok", "ref");
    let u = user("https://g/me");
    let (req, action) = u.root(&api);
    assert_eq!(req.url(), "https://g/me/drive/root");
    assert_eq!(sent(action), ("https://g/me/drive/root".to_string(), "tok".to_string()));
    let root = u.root_from(drive("ignored"));
    assert_eq!(root.url, "https://g/me/drive/root");
    assert_eq!(root.size, 42);
}

#[test]
fn drive_children_appends_children() {
    let api = OneDriveApi::new("cid", "ruri", "tok", "ref");
    let d = Drive::new(drive(""), "https://g/me/drive/root");
    assert_eq!(d.name, "root");
    let (req, action) = d.children(&api);
    assert_eq!(req.sends(), 1);
    assert_eq!(sent(action), ("https://g/me/drive/root/children".to_string(), "tok".to_string()));
}
