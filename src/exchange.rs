//! The OpenID Connect authorization-code exchange: the authorization request,
//! the steps of a provider callback, the session it materializes, and logout.
use vstd::prelude::*;
use rand::rngs::StdRng;
use crate::error::{resp_err, ApiError, UNAUTHORIZED};
use crate::principal::{is_principal_of, User, UserInfo};
use crate::secrets::{is_secret_text, new_secret, SECRET_LEN};
use crate::states::PendingStates;
use crate::sessions::{apply_op, Session, SessionTable, TableOp};

verus! {

/// Why a login callback or a logout was refused. Each answers with 401.
#[derive(Clone, Copy, Debug, PartialEq, Eq, Structural)]
pub enum AuthError {
    /// The callback's state value was not pending, the provider's token or
    /// user-info exchange failed, or the identity token did not validate.
    AuthFailed,
    /// The provider's token response held no identity token.
    MissingIdentityToken,
    /// The request presented no session.
    NotAuthenticated,
}

impl AuthError {
    /// The message of the error body.
    pub open spec fn message(self) -> Seq<char> {
        match self {
            AuthError::AuthFailed => "auth server did not complete token handoff"@,
            AuthError::MissingIdentityToken => "id token was not found in response"@,
            AuthError::NotAuthenticated => "not currently authenticated"@,
        }
    }

    /// The message of the error body.
    pub fn message_text(&self) -> (r: &'static str)
        ensures
            r@ == self.message(),
    {
        match self {
            AuthError::AuthFailed => "auth server did not complete token handoff",
            AuthError::MissingIdentityToken => "id token was not found in response",
            AuthError::NotAuthenticated => "not currently authenticated",
        }
    }

    /// The response to a request refused with this error: 401 and its message.
    pub fn response(&self) -> (r: (u16, ApiError))
        ensures
            r.0 == UNAUTHORIZED,
            r.1.err@ == self.message(),
    {
        resp_err(UNAUTHORIZED, self.message_text())
    }
}

/// Query of the provider's callback.
#[derive(Clone, Debug)]
pub struct LoginRequest {
    pub code: String,
    pub state: Option<String>,
}

/// What the authorization redirect to the provider carries.
#[derive(Clone, Debug)]
pub struct AuthorizationRequest {
    pub scope: String,
    pub state: String,
}

/// Starts a login: the scopes `openid email profile` and a fresh,
/// unguessable state value, recorded as pending.
pub fn login(rng: &mut StdRng, pending: &mut PendingStates) -> (r: AuthorizationRequest)
    ensures
        r.scope@ == "openid email profile"@,
        is_secret_text(r.state@, SECRET_LEN as nat),
        final(pending).states() == old(pending).states().insert(r.state@),
{
    let state = new_secret(rng);
    pending.issue(state.clone());
    AuthorizationRequest { scope: "openid email profile".to_string(), state }
}

/// Name of the cookie that carries the session identifier.
pub const SESSION_COOKIE: &'static str = "sess";

/// A cookie for the client to store, or to drop when logging out.
#[derive(Clone, Debug)]
pub struct SessionCookie {
    pub name: String,
    pub value: String,
    pub path: String,
    pub http_only: bool,
}

/// `c` is the HTTP-only, root-path `sess` cookie holding `id`.
pub open spec fn is_session_cookie(c: SessionCookie, id: Seq<char>) -> bool {
    &&& c.name@ == "sess"@
    &&& c.value@ == id
    &&& c.path@ == "/"@
    &&& c.http_only
}

/// The session cookie for identifier `id`.
pub fn session_cookie(id: String) -> (r: SessionCookie)
    ensures
        is_session_cookie(r, id@),
{
    SessionCookie { name: "sess".to_string(), value: id, path: "/".to_string(), http_only: true }
}

/// How the exchange with the provider ended.
#[derive(Clone, Debug)]
pub enum ExchangeOutcome {
    /// The state value was not pending, a provider call failed, or the
    /// identity token did not validate.
    Failed,
    /// The token response held no identity token.
    MissingIdToken,
    /// Tokens and user-info were obtained and the identity token is valid.
    Completed { access_token: String, id_token: String, userinfo: UserInfo },
}

/// How long the broker waits for one answer of the identity provider; a call
/// that takes longer counts as failed.
pub const PROVIDER_TIMEOUT_SECS: u64 = 10;

/// Where the exchange of one login callback stands: each state but the last
/// names the provider call to make next.
#[derive(Clone, Debug)]
pub enum Exchange {
    /// Exchange the authorization code for tokens.
    RequestToken { code: String },
    /// Validate the identity token (signature, issuer, audience).
    ValidateIdToken { access_token: String, id_token: String },
    /// Fetch the user-info with the access token.
    FetchUserInfo { access_token: String, id_token: String },
    Finished(ExchangeOutcome),
}

/// What the provider call that an exchange state names came back with.
#[derive(Clone, Debug)]
pub enum ProviderEvent {
    Failed,
    Tokens { access_token: String, id_token: Option<String> },
    IdTokenValid,
    UserInfo(UserInfo),
}

/// The first state of the exchange for a callback. A callback whose state
/// value was issued and not yet redeemed goes on to the token request and
/// redeems it; one without a state value, or with one that is unknown or
/// already redeemed, ends the exchange as failed.
pub fn begin(req: &LoginRequest, pending: &mut PendingStates) -> (r: Exchange)
    ensures
        (req.state is Some && old(pending).states().contains(req.state->0@)) ==> r == (
        Exchange::RequestToken { code: req.code }),
        !(req.state is Some && old(pending).states().contains(req.state->0@)) ==> r
            == Exchange::Finished(ExchangeOutcome::Failed),
        req.state is Some ==> final(pending).states() == old(pending).states().remove(
            req.state->0@,
        ),
        req.state is None ==> final(pending).states() == old(pending).states(),
{
    match &req.state {
        Some(state) => {
            if pending.redeem(state.as_str()) {
                Exchange::RequestToken { code: req.code.clone() }
            } else {
                Exchange::Finished(ExchangeOutcome::Failed)
            }
        },
        None => Exchange::Finished(ExchangeOutcome::Failed),
    }
}

/// `event` is the kind of answer that the call `state` names can give:
/// tokens to a token request, a valid identity token to a validation, and
/// user-info to a user-info request.
pub open spec fn answers(state: Exchange, event: ProviderEvent) -> bool {
    ||| (state is RequestToken && event is Tokens)
    ||| (state is ValidateIdToken && event is IdTokenValid)
    ||| (state is FetchUserInfo && event is UserInfo)
}

/// Moves the exchange on by the answer to the call that `state` names. Tokens
/// with an identity token lead to its validation, tokens without one end the
/// exchange with `MissingIdToken`; a valid identity token leads to the
/// user-info request, and user-info completes the exchange. A failure or an
/// answer of another kind ends it with `Failed`, and a finished exchange stays
/// as it is.
pub fn advance(state: Exchange, event: ProviderEvent) -> (r: Exchange)
    ensures
        state is Finished ==> r == state,
        !(state is Finished) && !answers(state, event) ==> r == Exchange::Finished(
            ExchangeOutcome::Failed,
        ),
        state is RequestToken ==> (event matches ProviderEvent::Tokens { access_token, id_token }
            ==> r == match id_token {
            Some(t) => Exchange::ValidateIdToken { access_token, id_token: t },
            None => Exchange::Finished(ExchangeOutcome::MissingIdToken),
        }),
        state matches Exchange::ValidateIdToken { access_token, id_token } ==> (
        event is IdTokenValid ==> r == (Exchange::FetchUserInfo { access_token, id_token })),
        state matches Exchange::FetchUserInfo { access_token, id_token } ==> (
        event matches ProviderEvent::UserInfo(userinfo) ==> r == Exchange::Finished(
            ExchangeOutcome::Completed { access_token, id_token, userinfo },
        )),
{
    match state {
        Exchange::RequestToken { .. } => match event {
            ProviderEvent::Tokens { access_token, id_token } => match id_token {
                Some(t) => Exchange::ValidateIdToken { access_token, id_token: t },
                None => Exchange::Finished(ExchangeOutcome::MissingIdToken),
            },
            _ => Exchange::Finished(ExchangeOutcome::Failed),
        },
        Exchange::ValidateIdToken { access_token, id_token } => match event {
            ProviderEvent::IdTokenValid => Exchange::FetchUserInfo { access_token, id_token },
            _ => Exchange::Finished(ExchangeOutcome::Failed),
        },
        Exchange::FetchUserInfo { access_token, id_token } => match event {
            ProviderEvent::UserInfo(userinfo) => Exchange::Finished(
                ExchangeOutcome::Completed { access_token, id_token, userinfo },
            ),
            _ => Exchange::Finished(ExchangeOutcome::Failed),
        },
        Exchange::Finished(outcome) => Exchange::Finished(outcome),
    }
}

/// `s` is the session that a login with these tokens and user-info creates.
pub open spec fn is_session_of(
    s: Session,
    access_token: String,
    id_token: String,
    userinfo: UserInfo,
) -> bool {
    &&& s.access_token == access_token
    &&& s.id_token == id_token
    &&& s.userinfo == userinfo
    &&& is_principal_of(s.user, userinfo)
}

/// Stores the session of a completed login under `id` and returns the cookie
/// that carries it. An identifier that is live already keeps its session: the
/// attempt fails with `AuthFailed` and stores nothing.
pub fn open_session(
    table: &mut SessionTable,
    id: String,
    access_token: String,
    id_token: String,
    userinfo: UserInfo,
) -> (r: Result<SessionCookie, AuthError>)
    ensures
        r is Ok <==> !old(table).entries().contains_key(id@),
        r is Ok ==> is_session_cookie(r->Ok_0, id@),
        r is Ok ==> final(table).entries() == old(table).entries().insert(
            id@,
            final(table).entries()[id@],
        ),
        r is Ok ==> is_session_of(final(table).entries()[id@], access_token, id_token, userinfo),
        r is Ok ==> final(table).entries() == apply_op(
            old(table).entries(),
            TableOp::Put(id@, final(table).entries()[id@]),
        ),
        r is Err ==> r->Err_0 == AuthError::AuthFailed,
        r is Err ==> final(table).entries() == old(table).entries(),
{
    let user = User::from_userinfo(&userinfo);
    let session = Session { user, access_token, id_token, userinfo };
    let ghost stored = session;
    if table.put(id.clone(), session) {
        assert(table.entries()[id@] == stored);
        Ok(session_cookie(id))
    } else {
        Err(AuthError::AuthFailed)
    }
}

/// Finishes a login callback. A failed exchange is refused with `AuthFailed`,
/// one without identity token with `MissingIdentityToken`, and neither touches
/// the table. A completed one opens a session under a fresh unguessable
/// identifier (see `open_session`); it succeeds whenever no live identifier
/// has the shape of a drawn one, and otherwise fails only if the draw hit a
/// live identifier.
pub fn authenticate(
    table: &mut SessionTable,
    rng: &mut StdRng,
    outcome: ExchangeOutcome,
) -> (r: Result<SessionCookie, AuthError>)
    ensures
        (outcome is Completed && forall|k: Seq<char>| #[trigger]
            old(table).entries().contains_key(k) ==> !is_secret_text(k, SECRET_LEN as nat))
            ==> r is Ok,
        match outcome {
            ExchangeOutcome::Failed => {
                &&& r == Err::<SessionCookie, AuthError>(AuthError::AuthFailed)
                &&& final(table).entries() == old(table).entries()
            },
            ExchangeOutcome::MissingIdToken => {
                &&& r == Err::<SessionCookie, AuthError>(AuthError::MissingIdentityToken)
                &&& final(table).entries() == old(table).entries()
            },
            ExchangeOutcome::Completed { access_token, id_token, userinfo } => match r {
                Ok(c) => {
                    &&& is_session_cookie(c, c.value@)
                    &&& is_secret_text(c.value@, SECRET_LEN as nat)
                    &&& !old(table).entries().contains_key(c.value@)
                    &&& final(table).entries() == old(table).entries().insert(
                        c.value@,
                        final(table).entries()[c.value@],
                    )
                    &&& is_session_of(
                        final(table).entries()[c.value@],
                        access_token,
                        id_token,
                        userinfo,
                    )
                    &&& final(table).entries() == apply_op(
                        old(table).entries(),
                        TableOp::Put(c.value@, final(table).entries()[c.value@]),
                    )
                },
                Err(e) => {
                    &&& e == AuthError::AuthFailed
                    &&& final(table).entries() == old(table).entries()
                },
            },
        },
{
    match outcome {
        ExchangeOutcome::Failed => Err(AuthError::AuthFailed),
        ExchangeOutcome::MissingIdToken => Err(AuthError::MissingIdentityToken),
        ExchangeOutcome::Completed { access_token, id_token, userinfo } => {
            let id = new_secret(rng);
            open_session(table, id, access_token, id_token, userinfo)
        },
    }
}

/// The text of a presented cookie, if any.
pub open spec fn cookie_text(cookie: Option<String>) -> Option<Seq<char>> {
    match cookie {
        Some(c) => Some(c@),
        None => None,
    }
}

/// A logout goes ahead when the presented cookie is non-empty and names a
/// live session of `m`.
pub open spec fn logout_accepts(m: Map<Seq<char>, Session>, cookie: Option<Seq<char>>) -> bool {
    cookie is Some && cookie->0.len() > 0 && m.contains_key(cookie->0)
}

/// The sessions after a logout that presented `cookie`.
pub open spec fn logout_entries(
    m: Map<Seq<char>, Session>,
    cookie: Option<Seq<char>>,
) -> Map<Seq<char>, Session> {
    if logout_accepts(m, cookie) {
        m.remove(cookie->0)
    } else {
        m
    }
}

/// Logs out the session that `cookie` names: the session is removed and the
/// cookie to clear is returned. Without a cookie, with an empty one, or with
/// one that names no live session, it is refused with `NotAuthenticated` and
/// the table is left as it is.
pub fn logout(table: &mut SessionTable, cookie: Option<String>) -> (r: Result<
    SessionCookie,
    AuthError,
>)
    ensures
        r is Ok <==> logout_accepts(old(table).entries(), cookie_text(cookie)),
        r is Err ==> r->Err_0 == AuthError::NotAuthenticated,
        r is Err ==> final(table).entries() == old(table).entries(),
        r is Ok ==> is_session_cookie(r->Ok_0, cookie_text(cookie)->0),
        r is Ok ==> final(table).entries() == apply_op(
            old(table).entries(),
            TableOp::Remove(cookie_text(cookie)->0),
        ),
        final(table).entries() == logout_entries(old(table).entries(), cookie_text(cookie)),
{
    match cookie {
        Some(id) => {
            if id.as_str().is_empty() || !table.contains(id.as_str()) {
                Err(AuthError::NotAuthenticated)
            } else {
                table.remove(id.as_str());
                Ok(session_cookie(id))
            }
        },
        None => Err(AuthError::NotAuthenticated),
    }
}

/// Logging out twice with the same identifier: the first call is accepted and
/// removes the session; the second, whether it presents the now-absent
/// identifier again or no cookie at all, is refused as not authenticated and
/// leaves the table as it is.
pub proof fn lemma_logout_twice(m: Map<Seq<char>, Session>, id: Seq<char>)
    requires
        id.len() > 0,
        m.contains_key(id),
    ensures
        logout_accepts(m, Some(id)),
        !logout_entries(m, Some(id)).contains_key(id),
        !logout_accepts(logout_entries(m, Some(id)), Some(id)),
        logout_entries(logout_entries(m, Some(id)), Some(id)) == logout_entries(m, Some(id)),
        !logout_accepts(logout_entries(m, Some(id)), None),
        logout_entries(logout_entries(m, Some(id)), None) == logout_entries(m, Some(id)),
{
}

} // verus!
