//! Drives and folders.
use crate::transport::{ApiAction, AuthenticatedRequest, OneDriveApi, RequestPhase};
use vstd::prelude::*;

verus! {

/// Dates that the client's file system keeps for an item.
#[derive(Debug, Clone)]
pub struct FileSystemInfo {
    pub created_date_time: String,
    pub last_modified_date_time: String,
}

/// A drive folder, as the service returned it, with the URL it came from.
#[derive(Debug)]
pub struct Drive {
    pub context: String,
    pub c_tag: String,
    pub created_by: serde_json::Value,
    pub created_date_time: String,
    pub e_tag: String,
    pub file_system_info: FileSystemInfo,
    pub folder: serde_json::Value,
    pub id: String,
    pub last_modified_by: serde_json::Value,
    pub last_modified_date_time: String,
    pub name: String,
    pub parent_reference: serde_json::Value,
    pub root: serde_json::Value,
    pub size: usize,
    pub web_url: String,
    /// URL of the endpoint that returned this folder.
    pub url: String,
}

impl Drive {
    /// The folder in `body`, as returned by the endpoint at `url`.
    pub fn new(body: Drive, url: &str) -> (r: Drive)
        ensures
            r.url@ == url@,
            r == (Drive { url: r.url, ..body }),
    {
        Drive { url: String::from_str(url), ..body }
    }

    /// Starts the authenticated request for the first page of this folder's
    /// children: the folder's URL followed by `/children`.
    pub fn children(&self, api: &OneDriveApi) -> (r: (AuthenticatedRequest, ApiAction))
        ensures
            r.0.wf(),
            r.0.spec_phase() == RequestPhase::Sending,
            r.0.spec_url()@ == self.url@ + "/children"@,
            r.1 is Send,
            r.1->url@ == self.url@ + "/children"@,
            r.1->bearer == api.access_token,
    {
        let mut url = self.url.clone();
        url.append("/children");
        api.get(url.as_str())
    }
}

} // verus!
