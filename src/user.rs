//! The signed-in user's profile.
use crate::drive::Drive;
use crate::transport::{ApiAction, AuthenticatedRequest, OneDriveApi, RequestPhase};
use vstd::prelude::*;

verus! {

/// Profile of a OneDrive user, as the service returned it, with the URL it
/// came from.
#[derive(Debug, Clone)]
pub struct User {
    pub context: String,
    pub business_phones: Vec<String>,
    pub display_name: String,
    pub given_name: String,
    pub id: String,
    pub job_title: Option<String>,
    pub mail: Option<String>,
    pub mobile_phone: Option<String>,
    pub offline_location: Option<String>,
    pub preferred_language: Option<String>,
    pub surname: String,
    pub user_principal_name: String,
    /// URL of the endpoint that returned this profile.
    pub url: String,
}

impl User {
    /// The profile in `body`, as returned by the endpoint at `url`.
    pub fn new(body: User, url: &str) -> (r: User)
        ensures
            r.url@ == url@,
            r == (User { url: r.url, ..body }),
    {
        User { url: String::from_str(url), ..body }
    }

    /// Starts the authenticated request for the root folder of this user's
    /// drive: the profile's URL followed by `/drive/root`.
    pub fn root(&self, api: &OneDriveApi) -> (r: (AuthenticatedRequest, ApiAction))
        ensures
            r.0.wf(),
            r.0.spec_phase() == RequestPhase::Sending,
            r.0.spec_url()@ == self.url@ + "/drive/root"@,
            r.1 is Send,
            r.1->url@ == self.url@ + "/drive/root"@,
            r.1->bearer == api.access_token,
    {
        let mut url = self.url.clone();
        url.append("/drive/root");
        api.get(url.as_str())
    }

    /// The root folder, from the body of the answer to `root`.
    pub fn root_from(&self, body: Drive) -> (r: Drive)
        ensures
            r.url@ == self.url@ + "/drive/root"@,
            r == (Drive { url: r.url, ..body }),
    {
        let mut url = self.url.clone();
        url.append("/drive/root");
        Drive::new(body, url.as_str())
    }
}

} // verus!
