//! The session-wide entry point, and the error body of the resource API.
use crate::transport::{ApiAction, AuthenticatedRequest, OneDriveApi, RequestPhase};
use vstd::prelude::*;

verus! {

/// Base URL of the resource API.
pub const ONEDRIVE_API_URL: &'static str = "https://graph.microsoft.com/v1.0";

/// Entry point of all OneDrive operations. It owns the one token session;
/// the entities reached from it borrow that session for their own requests.
#[derive(Debug)]
pub struct OneDrive {
    pub api: OneDriveApi,
}

/// Request details of an error answer.
#[derive(Debug, Clone)]
pub struct InnerError {
    pub date: String,
    pub request_id: String,
    pub client_request_id: String,
}

/// What went wrong, as the service describes it.
#[derive(Debug, Clone)]
pub struct ErrorDetail {
    pub message: String,
    pub code: String,
    pub inner_error: InnerError,
}

/// Body of an error answer of the resource API.
#[derive(Debug, Clone)]
pub struct ErrorResponse {
    pub error: ErrorDetail,
}

impl OneDrive {
    /// A client for `client_id` that starts from the given token pair.
    pub fn new(client_id: &str, redirect_uri: &str, access_token: &str, refresh_token: &str) -> (r:
        Self)
        ensures
            r.api.client_id@ == client_id@,
            r.api.redirect_uri@ == redirect_uri@,
            r.api.access_token@ == access_token@,
            r.api.refresh_token@ == refresh_token@,
    {
        OneDrive { api: OneDriveApi::new(client_id, redirect_uri, access_token, refresh_token) }
    }

    /// Starts the authenticated request for the signed-in user's profile.
    pub fn me(&self) -> (r: (AuthenticatedRequest, ApiAction))
        ensures
            r.0.wf(),
            r.0.spec_phase() == RequestPhase::Sending,
            r.0.spec_url()@ == ONEDRIVE_API_URL@ + "/me"@,
            r.1 is Send,
            r.1->url@ == ONEDRIVE_API_URL@ + "/me"@,
            r.1->bearer == self.api.access_token,
    {
        let mut url = String::from_str(ONEDRIVE_API_URL);
        url.append("/me");
        self.api.get(url.as_str())
    }
}

} // verus!
