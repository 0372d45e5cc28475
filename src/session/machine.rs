use crate::error::{ErrorKind, RobinhoodError, MARKER, TRANSPORT_PREFIX};
use crate::json::opt_view;
use crate::session::challenge::{
    challenge_response_headers, Challenge, ChallengeType, ChallengeView,
    CHALLENGE_RESPONSE_HEADER,
};
use crate::session::oauth::{
    challenge_view, login_request, mfa_request, refresh_request, response_of_text,
    LoginRequestView, OAuthLoginRequest, OAuthRefreshRequest, OAuthResponse, RefreshRequestView,
    ResponseView, CLIENT_ID, EXPIRATION_TIME, PASSWORD_GRANT, REFRESH_GRANT, SCOPE,
};
use vstd::prelude::*;

verus! {

/// Where a session's authentication flow stands.
#[derive(Clone, Copy, Debug, PartialEq, Eq, Structural)]
pub enum SessionState {
    /// A login request is built and about to be sent.
    Initiated,
    /// The server issued a challenge; the login is resent with its header.
    AwaitingChallengeResponse,
    /// The server asks for an MFA code.
    AwaitingMfa,
    /// Tokens are held.
    Authenticated,
    /// A refresh request is out.
    Refreshing,
    /// Terminal.
    Failed,
}

/// The state a login response leads to: tokens first, then a challenge,
/// then an MFA prompt; anything else fails.
pub open spec fn login_outcome(r: ResponseView) -> SessionState {
    if r.access_token is Some {
        SessionState::Authenticated
    } else if r.challenge is Some {
        SessionState::AwaitingChallengeResponse
    } else if r.mfa_required {
        SessionState::AwaitingMfa
    } else {
        SessionState::Failed
    }
}

/// The states in which a login response is awaited.
pub open spec fn awaits_login_response(s: SessionState) -> bool {
    s == SessionState::Initiated || s == SessionState::AwaitingChallengeResponse
}

/// A session as plain values; a failure as its error's kind and message.
pub struct SessionView {
    pub state: SessionState,
    pub login: LoginRequestView,
    pub challenge: Option<ChallengeView>,
    pub access_token: Option<Seq<char>>,
    pub refresh_token: Option<Seq<char>>,
    pub expires_in: i64,
    pub failure: Option<(ErrorKind, Seq<char>)>,
}

/// The kind and message of an optional error.
pub open spec fn failure_view(f: Option<RobinhoodError>) -> Option<(ErrorKind, Seq<char>)> {
    match f {
        Some(e) => Some((e.kind(), e.text())),
        None => None,
    }
}

/// The session after the server rejected it with `detail`.
pub open spec fn rejected(s: SessionView, detail: Seq<char>) -> SessionView {
    SessionView {
        state: SessionState::Failed,
        failure: Some((ErrorKind::AuthenticationFailed, MARKER@ + detail)),
        ..s
    }
}

/// The session after it took new tokens from `r`.
pub open spec fn authenticated(s: SessionView, r: ResponseView) -> SessionView {
    SessionView {
        state: SessionState::Authenticated,
        access_token: r.access_token,
        refresh_token: r.refresh_token,
        expires_in: r.expires_in,
        challenge: None,
        ..s
    }
}

/// The session after a login response `r`.
pub open spec fn after_login(s: SessionView, r: ResponseView) -> SessionView {
    match login_outcome(r) {
        SessionState::Authenticated => authenticated(s, r),
        SessionState::AwaitingChallengeResponse => SessionView {
            state: SessionState::AwaitingChallengeResponse,
            challenge: r.challenge,
            ..s
        },
        SessionState::AwaitingMfa => SessionView { state: SessionState::AwaitingMfa, ..s },
        _ => rejected(s, r.detail),
    }
}

/// The session after a refresh response `r`: new tokens, or failure.
pub open spec fn after_refresh(s: SessionView, r: ResponseView) -> SessionView {
    if r.access_token is Some {
        authenticated(s, r)
    } else {
        rejected(s, r.detail)
    }
}

/// One authentication flow. Not reentrant: each call checks that the
/// current state allows it and leaves the session unchanged when it does
/// not. The fields are private, so only these calls move it.
#[derive(Debug)]
pub struct Session {
    state: SessionState,
    /// The login request that is sent, and resent after a challenge.
    login: OAuthLoginRequest,
    /// The challenge being answered, while one is.
    challenge: Option<Challenge>,
    access_token: Option<String>,
    refresh_token: Option<String>,
    expires_in: i64,
    /// Why the flow failed, once it has.
    failure: Option<RobinhoodError>,
}

impl View for Session {
    type V = SessionView;

    closed spec fn view(&self) -> SessionView {
        SessionView {
            state: self.state,
            login: self.login@,
            challenge: challenge_view(self.challenge),
            access_token: opt_view(self.access_token),
            refresh_token: opt_view(self.refresh_token),
            expires_in: self.expires_in,
            failure: failure_view(self.failure),
        }
    }
}

/// The error for a call that the current state does not allow.
fn invalid(what: &str) -> (r: RobinhoodError)
    ensures
        r.kind() == ErrorKind::InvalidTransition,
        r.is_marked(),
{
    RobinhoodError::with_kind(ErrorKind::InvalidTransition, what)
}

impl Session {
    /// A session about to send `login`.
    pub fn new(login: OAuthLoginRequest) -> (r: Session)
        ensures
            r@ == (SessionView {
                state: SessionState::Initiated,
                login: login@,
                challenge: None,
                access_token: None,
                refresh_token: None,
                expires_in: 0,
                failure: None,
            }),
    {
        Session {
            state: SessionState::Initiated,
            login,
            challenge: None,
            access_token: None,
            refresh_token: None,
            expires_in: 0,
            failure: None,
        }
    }

    /// A session for these credentials, with a fresh login request.
    pub fn start(
        username: &str,
        password: &str,
        challenge_type: ChallengeType,
        device_token: &str,
    ) -> (r: Session)
        ensures
            r@ == (SessionView {
                state: SessionState::Initiated,
                login: LoginRequestView {
                    challenge_type,
                    client_id: CLIENT_ID@,
                    device_token: device_token@,
                    expires_in: EXPIRATION_TIME,
                    grant_type: PASSWORD_GRANT@,
                    mfa_code: None,
                    password: password@,
                    scope: SCOPE@,
                    username: username@,
                },
                challenge: None,
                access_token: None,
                refresh_token: None,
                expires_in: 0,
                failure: None,
            }),
    {
        Session::new(login_request(username, password, challenge_type, device_token))
    }

    pub fn state(&self) -> (r: SessionState)
        ensures
            r == self@.state,
    {
        self.state
    }

    /// The login request to send.
    pub fn login(&self) -> (r: &OAuthLoginRequest)
        ensures
            r@ == self@.login,
    {
        &self.login
    }

    pub fn challenge(&self) -> (r: &Option<Challenge>)
        ensures
            challenge_view(*r) == self@.challenge,
    {
        &self.challenge
    }

    pub fn access_token(&self) -> (r: &Option<String>)
        ensures
            opt_view(*r) == self@.access_token,
    {
        &self.access_token
    }

    pub fn refresh_token(&self) -> (r: &Option<String>)
        ensures
            opt_view(*r) == self@.refresh_token,
    {
        &self.refresh_token
    }

    /// Lifetime of the access token, in seconds.
    pub fn expires_in(&self) -> (r: i64)
        ensures
            r == self@.expires_in,
    {
        self.expires_in
    }

    pub fn failure(&self) -> (r: &Option<RobinhoodError>)
        ensures
            failure_view(*r) == self@.failure,
    {
        &self.failure
    }

    /// The header to send with the resent login while a challenge is being
    /// answered: its name, and the challenge's id.
    pub fn challenge_header(&self) -> (r: Option<(String, String)>)
        ensures
            r is Some <==> (self@.state == SessionState::AwaitingChallengeResponse
                && self@.challenge is Some),
            r is Some ==> r->Some_0.0@ == CHALLENGE_RESPONSE_HEADER@ && r->Some_0.1@
                == self@.challenge->Some_0.id,
    {
        match (&self.state, &self.challenge) {
            (SessionState::AwaitingChallengeResponse, Some(c)) => Some(challenge_response_headers(c)),
            _ => None,
        }
    }

    /// Takes the server's answer to the login request.
    pub fn on_login_response(&mut self, response: OAuthResponse) -> (r: Result<SessionState, RobinhoodError>)
        ensures
            !awaits_login_response(old(self)@.state) ==> r is Err && r->Err_0.kind()
                == ErrorKind::InvalidTransition && r->Err_0.is_marked() && *final(self) == *old(self),
            awaits_login_response(old(self)@.state) ==> r == Ok::<SessionState, RobinhoodError>(
                login_outcome(response@),
            ) && final(self)@ == after_login(old(self)@, response@),
    {
        if !(self.state == SessionState::Initiated || self.state == SessionState::AwaitingChallengeResponse) {
            return Err(invalid("no login response is awaited"));
        }
        match response.access_token {
            Some(access) => {
                self.state = SessionState::Authenticated;
                self.access_token = Some(access);
                self.refresh_token = response.refresh_token;
                self.expires_in = response.expires_in;
                self.challenge = None;
            },
            None => match response.challenge {
                Some(c) => {
                    self.state = SessionState::AwaitingChallengeResponse;
                    self.challenge = Some(c);
                },
                None => if response.mfa_required {
                    self.state = SessionState::AwaitingMfa;
                } else {
                    self.state = SessionState::Failed;
                    self.failure = Some(
                        RobinhoodError::with_kind(ErrorKind::AuthenticationFailed, response.detail.as_str()),
                    );
                },
            },
        }
        Ok(self.state)
    }

    /// Takes the text of the server's answer to the login request; text that
    /// is no response fails the session.
    pub fn on_login_text(&mut self, text: &str) -> (r: Result<SessionState, RobinhoodError>)
        ensures
            !awaits_login_response(old(self)@.state) ==> r is Err && r->Err_0.kind()
                == ErrorKind::InvalidTransition && r->Err_0.is_marked() && *final(self) == *old(self),
            awaits_login_response(old(self)@.state) && response_of_text(text@) is Some ==> r
                == Ok::<SessionState, RobinhoodError>(login_outcome(response_of_text(text@)->Some_0))
                && final(self)@ == after_login(old(self)@, response_of_text(text@)->Some_0),
            awaits_login_response(old(self)@.state) && response_of_text(text@) is None ==> r is Err
                && r->Err_0.kind() == ErrorKind::Deserialization && r->Err_0.is_marked()
                && final(self)@ == (SessionView {
                state: SessionState::Failed,
                failure: Some((ErrorKind::Deserialization, r->Err_0.text())),
                ..old(self)@
            }),
    {
        if !(self.state == SessionState::Initiated || self.state == SessionState::AwaitingChallengeResponse) {
            return Err(invalid("no login response is awaited"));
        }
        match OAuthResponse::from_json_text(text) {
            Ok(response) => self.on_login_response(response),
            Err(e) => {
                self.state = SessionState::Failed;
                self.failure = Some(e.duplicate());
                Err(e)
            },
        }
    }

    /// Folds the MFA code into the login request, which is then sent again.
    pub fn provide_mfa(&mut self, code: String) -> (r: Result<(), RobinhoodError>)
        ensures
            old(self)@.state != SessionState::AwaitingMfa ==> r is Err && r->Err_0.kind()
                == ErrorKind::InvalidTransition && r->Err_0.is_marked() && *final(self) == *old(self),
            old(self)@.state == SessionState::AwaitingMfa ==> r is Ok && final(self)@ == (SessionView {
                state: SessionState::Initiated,
                login: LoginRequestView { mfa_code: Some(code@), ..old(self)@.login },
                ..old(self)@
            }),
    {
        if self.state != SessionState::AwaitingMfa {
            return Err(invalid("no MFA code is awaited"));
        }
        // A stand-in that holds the slot while the request is rebuilt.
        let mut current = login_request("", "", self.login.challenge_type, "");
        core::mem::swap(&mut current, &mut self.login);
        self.login = mfa_request(code, current);
        self.state = SessionState::Initiated;
        Ok(())
    }

    /// Starts a refresh with the held refresh token.
    pub fn begin_refresh(&mut self) -> (r: Result<OAuthRefreshRequest, RobinhoodError>)
        ensures
            !(old(self)@.state == SessionState::Authenticated && old(self)@.refresh_token is Some)
                ==> r is Err && r->Err_0.kind() == ErrorKind::InvalidTransition
                && r->Err_0.is_marked() && *final(self) == *old(self),
            old(self)@.state == SessionState::Authenticated && old(self)@.refresh_token is Some
                ==> r is Ok && final(self)@ == (SessionView {
                state: SessionState::Refreshing,
                ..old(self)@
            }) && r->Ok_0@ == (RefreshRequestView {
                client_id: CLIENT_ID@,
                expires_in: EXPIRATION_TIME,
                grant_type: REFRESH_GRANT@,
                refresh_token: old(self)@.refresh_token->Some_0,
                scope: SCOPE@,
            }),
    {
        if self.state != SessionState::Authenticated {
            return Err(invalid("no tokens to refresh"));
        }
        match &self.refresh_token {
            Some(t) => {
                let req = refresh_request(t.as_str());
                self.state = SessionState::Refreshing;
                Ok(req)
            },
            None => Err(invalid("no refresh token")),
        }
    }

    /// Takes the server's answer to the refresh request; anything but new
    /// tokens ends the session.
    pub fn on_refresh_response(&mut self, response: OAuthResponse) -> (r: Result<SessionState, RobinhoodError>)
        ensures
            old(self)@.state != SessionState::Refreshing ==> r is Err && r->Err_0.kind()
                == ErrorKind::InvalidTransition && r->Err_0.is_marked() && *final(self) == *old(self),
            old(self)@.state == SessionState::Refreshing ==> r == Ok::<SessionState, RobinhoodError>(
                after_refresh(old(self)@, response@).state,
            ) && final(self)@ == after_refresh(old(self)@, response@),
    {
        if self.state != SessionState::Refreshing {
            return Err(invalid("no refresh response is awaited"));
        }
        match response.access_token {
            Some(access) => {
                self.state = SessionState::Authenticated;
                self.access_token = Some(access);
                self.refresh_token = response.refresh_token;
                self.expires_in = response.expires_in;
                self.challenge = None;
            },
            None => {
                self.state = SessionState::Failed;
                self.failure = Some(
                    RobinhoodError::with_kind(ErrorKind::AuthenticationFailed, response.detail.as_str()),
                );
            },
        }
        Ok(self.state)
    }

    /// Takes the text of the server's answer to the refresh request; text
    /// that is no response fails the session.
    pub fn on_refresh_text(&mut self, text: &str) -> (r: Result<SessionState, RobinhoodError>)
        ensures
            old(self)@.state != SessionState::Refreshing ==> r is Err && r->Err_0.kind()
                == ErrorKind::InvalidTransition && r->Err_0.is_marked() && *final(self) == *old(self),
            old(self)@.state == SessionState::Refreshing && response_of_text(text@) is Some ==> r
                == Ok::<SessionState, RobinhoodError>(
                after_refresh(old(self)@, response_of_text(text@)->Some_0).state,
            ) && final(self)@ == after_refresh(old(self)@, response_of_text(text@)->Some_0),
            old(self)@.state == SessionState::Refreshing && response_of_text(text@) is None ==> r is Err
                && r->Err_0.kind() == ErrorKind::Deserialization && r->Err_0.is_marked()
                && final(self)@ == (SessionView {
                state: SessionState::Failed,
                failure: Some((ErrorKind::Deserialization, r->Err_0.text())),
                ..old(self)@
            }),
    {
        if self.state != SessionState::Refreshing {
            return Err(invalid("no refresh response is awaited"));
        }
        match OAuthResponse::from_json_text(text) {
            Ok(response) => self.on_refresh_response(response),
            Err(e) => {
                self.state = SessionState::Failed;
                self.failure = Some(e.duplicate());
                Err(e)
            },
        }
    }

    /// The transport failed: the session fails, and the error to hand on.
    pub fn on_transport_failure(&mut self, cause: &str) -> (r: RobinhoodError)
        ensures
            r.kind() == ErrorKind::Transport,
            r.text() == MARKER@ + TRANSPORT_PREFIX@ + cause@,
            r.is_marked(),
            final(self)@ == (SessionView {
                state: SessionState::Failed,
                failure: Some((ErrorKind::Transport, r.text())),
                ..old(self)@
            }),
    {
        self.state = SessionState::Failed;
        let r = RobinhoodError::transport(cause);
        self.failure = Some(r.duplicate());
        r
    }
}

} // verus!
