//! Authenticated requests against the resource API. The live token pair is
//! held by `OneDriveApi`; each call runs `AuthenticatedRequest`, a small state
//! machine that, on "unauthorized", refreshes the pair once and retries once.
//! The caller performs each action it hands out and feeds back what happened.
use crate::auth::{is_success, pair_views, token_form, token_request_form, AuthError, Authdata, TokenGrant};
use vstd::prelude::*;

verus! {

/// HTTP status of an expired or rejected bearer token.
pub const UNAUTHORIZED: u16 = 401;

/// The token session: the live token pair and the client it was issued to.
#[derive(Debug)]
pub struct OneDriveApi {
    pub access_token: String,
    pub refresh_token: String,
    pub redirect_uri: String,
    pub client_id: String,
}

impl OneDriveApi {
    /// A session for `client_id` that starts from the given token pair.
    pub fn new(client_id: &str, redirect_uri: &str, access_token: &str, refresh_token: &str) -> (r:
        Self)
        ensures
            r.client_id@ == client_id@,
            r.redirect_uri@ == redirect_uri@,
            r.access_token@ == access_token@,
            r.refresh_token@ == refresh_token@,
    {
        OneDriveApi {
            access_token: String::from_str(access_token),
            refresh_token: String::from_str(refresh_token),
            redirect_uri: String::from_str(redirect_uri),
            client_id: String::from_str(client_id),
        }
    }

    /// The form that asks the token endpoint for a new pair in exchange for
    /// this session's refresh token.
    pub fn refresh_form(&self) -> (r: Vec<(String, String)>)
        ensures
            pair_views(r@) == token_form(
                self.client_id@,
                self.redirect_uri@,
                TokenGrant::RefreshToken(self.refresh_token),
            ),
    {
        token_request_form(
            self.client_id.as_str(),
            self.redirect_uri.as_str(),
            &TokenGrant::RefreshToken(self.refresh_token.clone()),
        )
    }

    /// Replaces the token pair, both tokens at once, with the one that the
    /// token endpoint returned.
    pub fn refresh_auth_data(&mut self, data: Authdata)
        ensures
            final(self).access_token == data.access_token,
            final(self).refresh_token == data.refresh_token,
            final(self).client_id == old(self).client_id,
            final(self).redirect_uri == old(self).redirect_uri,
    {
        self.access_token = data.access_token;
        self.refresh_token = data.refresh_token;
    }
}

/// An HTTP response: its status and its body.
#[derive(Debug, Clone)]
pub struct HttpResponse {
    pub status: u16,
    pub body: String,
}

/// Why an authenticated request failed.
#[derive(Debug, Clone)]
pub enum ApiError {
    /// The service answered with a status outside the success range.
    Status { status: u16, body: String },
    /// The request could not be sent or no answer came back.
    Transport(String),
    /// The token pair could not be refreshed after "unauthorized".
    Refresh(AuthError),
    /// The body of a response did not have the expected shape.
    MalformedResponse(String),
}

/// Where a request stands.
#[derive(Debug, Clone, Copy, PartialEq, Eq, Structural)]
pub enum RequestPhase {
    /// The first attempt is on its way.
    Sending,
    /// The first attempt was unauthorized; a new token pair is on its way.
    Refreshing,
    /// The single retry, with the new access token, is on its way.
    Retrying,
    /// A response in the success range was handed back.
    Done,
    /// The request failed; the error was handed back.
    Failed,
}

/// What happened after the last action was performed.
#[derive(Debug)]
pub enum ApiEvent {
    /// A `Send` was answered.
    Response(HttpResponse),
    /// A `Send` could not be completed.
    SendFailed(String),
    /// A `Refresh` gave a new token pair.
    Refreshed(Authdata),
    /// A `Refresh` was refused.
    RefreshFailed(AuthError),
}

/// What the caller is to do next.
#[derive(Debug)]
pub enum ApiAction {
    /// Send a GET request to `url` with `bearer` as the bearer credential.
    Send { url: String, bearer: String },
    /// Post `form` to the token endpoint to refresh the token pair.
    Refresh { form: Vec<(String, String)> },
    /// The request is over, with this result.
    Finish(Result<HttpResponse, ApiError>),
}

/// One authenticated GET request in progress.
#[derive(Debug)]
pub struct AuthenticatedRequest {
    url: String,
    phase: RequestPhase,
    sends: u8,
    refreshes: u8,
}

/// The events that a request in `phase` waits for.
pub open spec fn phase_accepts(phase: RequestPhase, event: ApiEvent) -> bool {
    match phase {
        RequestPhase::Sending | RequestPhase::Retrying => event is Response || event is SendFailed,
        RequestPhase::Refreshing => event is Refreshed || event is RefreshFailed,
        _ => false,
    }
}

/// The phase that `event` leads to from `phase`.
pub open spec fn phase_after(phase: RequestPhase, event: ApiEvent) -> RequestPhase {
    match event {
        ApiEvent::Response(resp) => if is_success(resp.status) {
            RequestPhase::Done
        } else if resp.status == UNAUTHORIZED && phase == RequestPhase::Sending {
            RequestPhase::Refreshing
        } else {
            RequestPhase::Failed
        },
        ApiEvent::SendFailed(_) => RequestPhase::Failed,
        ApiEvent::Refreshed(_) => RequestPhase::Retrying,
        ApiEvent::RefreshFailed(_) => RequestPhase::Failed,
    }
}

/// Each of `events` is one that the request waits for in the phase that the
/// ones before it led to from `phase`.
pub open spec fn accepted_run(phase: RequestPhase, events: Seq<ApiEvent>) -> bool
    decreases events.len(),
{
    events.len() == 0 || (phase_accepts(phase, events[0]) && accepted_run(
        phase_after(phase, events[0]),
        events.drop_first(),
    ))
}

/// How many of `events` are a new token pair.
pub open spec fn refresh_count(events: Seq<ApiEvent>) -> nat
    decreases events.len(),
{
    if events.len() == 0 {
        0
    } else {
        (if events[0] is Refreshed { 1nat } else { 0nat }) + refresh_count(events.drop_first())
    }
}

/// A request never loops: from its first send, whatever the answers, it
/// takes at most three events (send, refresh, retry) before it is over, and
/// at most one of them is a refreshed token pair, so it sends at most twice.
pub proof fn lemma_request_ends_within_budget(events: Seq<ApiEvent>)
    requires
        accepted_run(RequestPhase::Sending, events),
    ensures
        events.len() <= 3,
        refresh_count(events) <= 1,
{
    if events.len() > 0 {
        let p1 = phase_after(RequestPhase::Sending, events[0]);
        let rest1 = events.drop_first();
        assert(!(events[0] is Refreshed));
        assert(refresh_count(events) == refresh_count(rest1));
        assert(accepted_run(p1, rest1));
        if rest1.len() > 0 {
            assert(phase_accepts(p1, rest1[0]));
            assert(p1 == RequestPhase::Refreshing);
            let p2 = phase_after(p1, rest1[0]);
            let rest2 = rest1.drop_first();
            assert(refresh_count(rest1) <= 1 + refresh_count(rest2));
            assert(accepted_run(p2, rest2));
            if rest2.len() > 0 {
                assert(phase_accepts(p2, rest2[0]));
                assert(p2 == RequestPhase::Retrying);
                let p3 = phase_after(p2, rest2[0]);
                let rest3 = rest2.drop_first();
                assert(!(rest2[0] is Refreshed));
                assert(p3 == RequestPhase::Done || p3 == RequestPhase::Failed);
                assert(accepted_run(p3, rest3));
                if rest3.len() > 0 {
                    assert(!phase_accepts(p3, rest3[0]));
                }
                assert(rest3.len() == 0);
                assert(refresh_count(rest3) == 0);
                assert(refresh_count(rest2) == 0);
            } else {
                assert(refresh_count(rest2) == 0);
            }
        } else {
            assert(refresh_count(rest1) == 0);
        }
    }
}

impl AuthenticatedRequest {
    pub closed spec fn spec_url(&self) -> String {
        self.url
    }

    pub closed spec fn spec_phase(&self) -> RequestPhase {
        self.phase
    }

    pub closed spec fn spec_sends(&self) -> u8 {
        self.sends
    }

    pub closed spec fn spec_refreshes(&self) -> u8 {
        self.refreshes
    }

    /// The retry budget: one send, then at most one refresh and one more send.
    pub open spec fn wf(&self) -> bool {
        &&& 1 <= self.spec_sends() <= 2
        &&& self.spec_refreshes() <= 1
        &&& self.spec_phase() == RequestPhase::Sending ==> self.spec_sends() == 1 && self.spec_refreshes() == 0
        &&& self.spec_phase() == RequestPhase::Refreshing ==> self.spec_sends() == 1 && self.spec_refreshes() == 1
        &&& self.spec_phase() == RequestPhase::Retrying ==> self.spec_sends() == 2 && self.spec_refreshes() == 1
    }

    /// The URL that the request fetches.
    pub fn url(&self) -> (r: &String)
        ensures
            r == self.spec_url(),
    {
        &self.url
    }

    /// Where the request stands.
    pub fn phase(&self) -> (r: RequestPhase)
        ensures
            r == self.spec_phase(),
    {
        self.phase
    }

    /// How many `Send` actions the request has handed out.
    pub fn sends(&self) -> (r: u8)
        ensures
            r == self.spec_sends(),
    {
        self.sends
    }

    /// How many `Refresh` actions the request has handed out.
    pub fn refreshes(&self) -> (r: u8)
        ensures
            r == self.spec_refreshes(),
    {
        self.refreshes
    }

    /// Whether the request is waiting for `event`.
    pub fn accepts(&self, event: &ApiEvent) -> (r: bool)
        ensures
            r == phase_accepts(self.spec_phase(), *event),
    {
        match self.phase {
            RequestPhase::Sending | RequestPhase::Retrying => match event {
                ApiEvent::Response(_) | ApiEvent::SendFailed(_) => true,
                _ => false,
            },
            RequestPhase::Refreshing => match event {
                ApiEvent::Refreshed(_) | ApiEvent::RefreshFailed(_) => true,
                _ => false,
            },
            _ => false,
        }
    }

    /// Whether the request is over.
    pub fn is_finished(&self) -> (r: bool)
        ensures
            r == (self.spec_phase() == RequestPhase::Done || self.spec_phase() == RequestPhase::Failed),
    {
        self.phase == RequestPhase::Done || self.phase == RequestPhase::Failed
    }

    /// Advances the request by what happened to its last action, and says
    /// what to do next.
    ///
    /// A success response ends the request with that response. An
    /// "unauthorized" answer to the first attempt asks for a refresh; once the
    /// new pair is in `api`, the request is sent once more with its access
    /// token. Any other failure, and any failure of the retry (another
    /// "unauthorized" included), ends the request with that failure.
    pub fn step(&mut self, api: &mut OneDriveApi, event: ApiEvent) -> (r: ApiAction)
        requires
            old(self).wf(),
            phase_accepts(old(self).spec_phase(), event),
        ensures
            final(self).wf(),
            final(self).spec_url() == old(self).spec_url(),
            final(self).spec_phase() == phase_after(old(self).spec_phase(), event),
            r is Send ==> final(self).spec_sends() == old(self).spec_sends() + 1,
            !(r is Send) ==> final(self).spec_sends() == old(self).spec_sends(),
            r is Refresh ==> final(self).spec_refreshes() == old(self).spec_refreshes() + 1,
            !(r is Refresh) ==> final(self).spec_refreshes() == old(self).spec_refreshes(),
            !(event is Refreshed) ==> *final(api) == *old(api),
            match event {
                ApiEvent::Response(resp) => if is_success(resp.status) {
                    &&& final(self).spec_phase() == RequestPhase::Done
                    &&& r == ApiAction::Finish(Ok(resp))
                } else if resp.status == UNAUTHORIZED && old(self).spec_phase() == RequestPhase::Sending {
                    &&& final(self).spec_phase() == RequestPhase::Refreshing
                    &&& r is Refresh
                    &&& pair_views(r->form@) == token_form(
                        old(api).client_id@,
                        old(api).redirect_uri@,
                        TokenGrant::RefreshToken(old(api).refresh_token),
                    )
                } else {
                    &&& final(self).spec_phase() == RequestPhase::Failed
                    &&& r == ApiAction::Finish(
                        Err((ApiError::Status { status: resp.status, body: resp.body })),
                    )
                },
                ApiEvent::SendFailed(msg) => {
                    &&& final(self).spec_phase() == RequestPhase::Failed
                    &&& r == ApiAction::Finish(Err(ApiError::Transport(msg)))
                },
                ApiEvent::Refreshed(data) => {
                    &&& final(api).access_token == data.access_token
                    &&& final(api).refresh_token == data.refresh_token
                    &&& final(api).client_id == old(api).client_id
                    &&& final(api).redirect_uri == old(api).redirect_uri
                    &&& final(self).spec_phase() == RequestPhase::Retrying
                    &&& r == (ApiAction::Send { url: old(self).spec_url(), bearer: data.access_token })
                },
                ApiEvent::RefreshFailed(e) => {
                    &&& final(self).spec_phase() == RequestPhase::Failed
                    &&& r == ApiAction::Finish(Err(ApiError::Refresh(e)))
                },
            },
    {
        match event {
            ApiEvent::Response(resp) => {
                if 200 <= resp.status && resp.status <= 299 {
                    self.phase = RequestPhase::Done;
                    ApiAction::Finish(Ok(resp))
                } else if resp.status == UNAUTHORIZED && self.phase == RequestPhase::Sending {
                    self.phase = RequestPhase::Refreshing;
                    self.refreshes = 1;
                    ApiAction::Refresh { form: api.refresh_form() }
                } else {
                    self.phase = RequestPhase::Failed;
                    ApiAction::Finish(Err(ApiError::Status { status: resp.status, body: resp.body }))
                }
            },
            ApiEvent::SendFailed(msg) => {
                self.phase = RequestPhase::Failed;
                ApiAction::Finish(Err(ApiError::Transport(msg)))
            },
            ApiEvent::Refreshed(data) => {
                let bearer = data.access_token.clone();
                api.refresh_auth_data(data);
                self.phase = RequestPhase::Retrying;
                self.sends = 2;
                ApiAction::Send { url: self.url.clone(), bearer }
            },
            ApiEvent::RefreshFailed(e) => {
                self.phase = RequestPhase::Failed;
                ApiAction::Finish(Err(ApiError::Refresh(e)))
            },
        }
    }
}

impl OneDriveApi {
    /// Starts an authenticated GET of `url`: the first action sends it with
    /// the current access token.
    pub fn get(&self, url: &str) -> (r: (AuthenticatedRequest, ApiAction))
        ensures
            r.0.wf(),
            r.0.spec_url()@ == url@,
            r.0.spec_phase() == RequestPhase::Sending,
            r.0.spec_sends() == 1,
            r.0.spec_refreshes() == 0,
            r.1 is Send,
            r.1->url@ == url@,
            r.1->bearer == self.access_token,
    {
        let req = AuthenticatedRequest {
            url: String::from_str(url),
            phase: RequestPhase::Sending,
            sends: 1,
            refreshes: 0,
        };
        (req, ApiAction::Send { url: String::from_str(url), bearer: self.access_token.clone() })
    }
}

} // verus!
