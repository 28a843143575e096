//! The persisted token pair and where it is kept.
use crate::auth::Authdata;
use crate::transport::OneDriveApi;
use vstd::prelude::*;

verus! {

/// Name of the folder, under the home folder, that holds the configuration.
pub const CONFIG_FOLDER_NAME: &'static str = ".onedrive_manager";

/// Name of the configuration file inside that folder.
pub const CONFIG_FILE_NAME: &'static str = "config.yml";

/// The token pair as it is kept between runs.
#[derive(Debug, Clone)]
pub struct Configuration {
    /// Access token for the resource API; renewed with `refresh_token`.
    pub auth_token: String,
    /// Token that renews the access token.
    pub refresh_token: String,
}

impl Configuration {
    /// The pair that the token endpoint returned.
    pub fn from_auth(auth: &Authdata) -> (r: Configuration)
        ensures
            r.auth_token == auth.access_token,
            r.refresh_token == auth.refresh_token,
    {
        Configuration { auth_token: auth.access_token.clone(), refresh_token: auth.refresh_token.clone() }
    }

    /// The pair that `api` holds now, to be saved after a refresh.
    pub fn from_session(api: &OneDriveApi) -> (r: Configuration)
        ensures
            r.auth_token == api.access_token,
            r.refresh_token == api.refresh_token,
    {
        Configuration { auth_token: api.access_token.clone(), refresh_token: api.refresh_token.clone() }
    }

    /// Replaces both tokens with the pair that a refresh returned.
    pub fn apply_refresh(&mut self, auth: &Authdata)
        ensures
            final(self).auth_token == auth.access_token,
            final(self).refresh_token == auth.refresh_token,
    {
        self.auth_token = auth.access_token.clone();
        self.refresh_token = auth.refresh_token.clone();
    }
}

/// `name` appended to the path `base`, with one `/` between them.
pub open spec fn path_join(base: Seq<char>, name: Seq<char>) -> Seq<char> {
    if base.len() == 0 {
        name
    } else if base.last() == '/' {
        base + name
    } else {
        base + "/"@ + name
    }
}

/// Path of the configuration file under the home folder `home`.
pub open spec fn config_path(home: Seq<char>) -> Seq<char> {
    path_join(path_join(home, CONFIG_FOLDER_NAME@), CONFIG_FILE_NAME@)
}

/// Appends the relative path `name` to `base`.
pub fn join_path(base: &str, name: &str) -> (r: String)
    ensures
        r@ == path_join(base@, name@),
{
    let mut out = String::from_str(base);
    let n = base.unicode_len();
    if n > 0 && base.get_char(n - 1) != '/' {
        out.append("/");
    }
    out.append(name);
    out
}

/// Folder of the configuration under the home folder `home`.
pub fn config_folder_in(home: &str) -> (r: String)
    ensures
        r@ == path_join(home@, CONFIG_FOLDER_NAME@),
{
    join_path(home, CONFIG_FOLDER_NAME)
}

/// Path of the configuration file under the home folder `home`.
pub fn config_file_in(home: &str) -> (r: String)
    ensures
        r@ == config_path(home@),
{
    let folder = config_folder_in(home);
    join_path(folder.as_str(), CONFIG_FILE_NAME)
}

/// Relies on dirs::home_dir, for the current user's home folder; `None` also
/// where its path is not valid Unicode.
#[verifier::external_body]
fn home_dir() -> (r: Option<String>) {
    dirs::home_dir().and_then(|p| p.to_str().map(|s| s.to_string()))
}

/// Path of the configuration file under the current user's home folder, or
/// `None` when there is no home folder.
pub fn config_file() -> (r: Option<String>)
    ensures
        r is Some ==> exists|home: Seq<char>| r->Some_0@ == config_path(home),
{
    match home_dir() {
        Some(home) => Some(config_file_in(home.as_str())),
        None => None,
    }
}

} // verus!
