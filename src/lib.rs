//! Authenticated access to a OneDrive account: the OAuth2 code flow, a request
//! state machine that refreshes an expired token once and retries, a lazy
//! cursor over paged listings, and the entities that the service returns.
pub mod auth;
pub mod transport;
pub mod driveitem;
pub mod drive;
pub mod onedrive;
pub mod user;
pub mod configfile;
