use vstd::prelude::*;
use crate::error::{AuthError, FetchError};
use crate::utils::{join_texts, joined, texts_view};
use crate::form::{
    encode_form, first_value, form_decoded, form_text, pairs_view, query_value,
    split_target, target_path, target_query,
};

verus! {

/// The identity provider's consent page.
pub const AUTHORIZE_ENDPOINT: &'static str = "https://accounts.spotify.com/authorize";

/// The identity provider's token endpoint.
pub const TOKEN_ENDPOINT: &'static str = "https://accounts.spotify.com/api/token";

/// The path on which the redirect listener expects the provider's callback.
pub const CALLBACK_PATH: &'static str = "/callback";

/// Number of characters of an anti-forgery token.
pub const STATE_TOKEN_LEN: usize = 16;

/// The client's registration with the identity provider and the scopes it asks for.
#[derive(Debug, Clone)]
pub struct SpotifyOAuth {
    pub client_id: String,
    pub client_secret: String,
    pub redirect_uri: String,
    pub scopes: Vec<String>,
}

/// The persisted credential.
#[derive(Debug, Clone, PartialEq, Eq)]
pub struct CredentialRecord {
    pub access_token: String,
    pub token_type: String,
    pub expires_in: u64,
    pub refresh_token: Option<String>,
}

/// What the token endpoint answered; fields it left out are `None`.
#[derive(Debug, Clone, PartialEq, Eq)]
pub struct TokenReply {
    pub access_token: String,
    pub token_type: Option<String>,
    pub expires_in: Option<u64>,
    pub refresh_token: Option<String>,
}

/// `a`, or `b` where `a` is absent.
pub open spec fn present_or<T>(a: Option<T>, b: T) -> T {
    match a {
        Some(x) => x,
        None => b,
    }
}

/// The record after a successful refresh: each field of the reply where it
/// is present, else the field of the prior record.
pub open spec fn merged(prior: CredentialRecord, reply: TokenReply) -> CredentialRecord {
    CredentialRecord {
        access_token: reply.access_token,
        token_type: present_or(reply.token_type, prior.token_type),
        expires_in: present_or(reply.expires_in, prior.expires_in),
        refresh_token: if reply.refresh_token is Some {
            reply.refresh_token
        } else {
            prior.refresh_token
        },
    }
}

/// Merges a refresh reply into the prior record, field by field.
pub fn merge_refresh(prior: CredentialRecord, reply: TokenReply) -> (r: CredentialRecord)
    ensures
        r == merged(prior, reply),
{
    let token_type = match reply.token_type {
        Some(t) => t,
        None => prior.token_type,
    };
    let expires_in = match reply.expires_in {
        Some(e) => e,
        None => prior.expires_in,
    };
    let refresh_token = match reply.refresh_token {
        Some(t) => Some(t),
        None => prior.refresh_token,
    };
    CredentialRecord { access_token: reply.access_token, token_type, expires_in, refresh_token }
}

/// A code exchange's reply makes a record when it names the token type and lifetime.
pub open spec fn reply_is_complete(reply: TokenReply) -> bool {
    reply.token_type is Some && reply.expires_in is Some
}

pub open spec fn record_of(reply: TokenReply) -> CredentialRecord
    recommends
        reply_is_complete(reply),
{
    CredentialRecord {
        access_token: reply.access_token,
        token_type: reply.token_type->Some_0,
        expires_in: reply.expires_in->Some_0,
        refresh_token: reply.refresh_token,
    }
}

/// The record that a code exchange's reply makes, if it is complete.
pub fn record_from_reply(reply: TokenReply) -> (r: Option<CredentialRecord>)
    ensures
        r is Some <==> reply_is_complete(reply),
        r is Some ==> r->Some_0 == record_of(reply),
{
    match (reply.token_type, reply.expires_in) {
        (Some(token_type), Some(expires_in)) => Some(
            CredentialRecord {
                access_token: reply.access_token,
                token_type,
                expires_in,
                refresh_token: reply.refresh_token,
            },
        ),
        _ => None,
    }
}

pub open spec fn is_alphanumeric(c: char) -> bool {
    ('0' <= c && c <= '9') || ('A' <= c && c <= 'Z') || ('a' <= c && c <= 'z')
}

/// A fresh anti-forgery token: `STATE_TOKEN_LEN` characters out of `A-Z`, `a-z`, `0-9`.
pub open spec fn is_state_token(s: Seq<char>) -> bool {
    &&& s.len() == STATE_TOKEN_LEN
    &&& forall|i: int| 0 <= i < s.len() ==> is_alphanumeric(#[trigger] s[i])
}

/// Relies on rand's `Alphanumeric` distribution through
/// `DistString::sample_string` with `thread_rng`: `len` characters, each one
/// of `A-Z`, `a-z`, `0-9`.
#[verifier::external_body]
fn random_alphanumeric(len: usize) -> (r: String)
    ensures
        r@.len() == len,
        forall|i: int| 0 <= i < r@.len() ==> is_alphanumeric(#[trigger] r@[i]),
{
    rand::distributions::DistString::sample_string(
        &rand::distributions::Alphanumeric,
        &mut rand::thread_rng(),
        len,
    )
}

/// Draws a fresh anti-forgery token.
pub fn new_state_token() -> (r: String)
    ensures
        is_state_token(r@),
{
    random_alphanumeric(STATE_TOKEN_LEN)
}

/// The query pairs of the consent page's address.
pub open spec fn authorize_pairs(c: SpotifyOAuth, state: Seq<char>) -> Seq<(Seq<char>, Seq<char>)> {
    seq![
        ("response_type"@, "code"@),
        ("client_id"@, c.client_id@),
        ("scope"@, joined(texts_view(c.scopes@), " "@)),
        ("redirect_uri"@, c.redirect_uri@),
        ("state"@, state),
    ]
}

/// The address of the consent page for one authorization attempt.
pub open spec fn authorize_text(c: SpotifyOAuth, state: Seq<char>) -> Seq<char> {
    AUTHORIZE_ENDPOINT@ + seq!['?'] + form_text(authorize_pairs(c, state))
}

/// The form of a token refresh.
pub open spec fn refresh_pairs(c: SpotifyOAuth, refresh_token: Seq<char>) -> Seq<
    (Seq<char>, Seq<char>),
> {
    seq![
        ("grant_type"@, "refresh_token"@),
        ("refresh_token"@, refresh_token),
        ("client_id"@, c.client_id@),
        ("client_secret"@, c.client_secret@),
    ]
}

/// The form of an authorization code exchange.
pub open spec fn exchange_pairs(c: SpotifyOAuth, code: Seq<char>) -> Seq<(Seq<char>, Seq<char>)> {
    seq![
        ("grant_type"@, "authorization_code"@),
        ("code"@, code),
        ("redirect_uri"@, c.redirect_uri@),
        ("client_id"@, c.client_id@),
        ("client_secret"@, c.client_secret@),
    ]
}

fn pair(k: &str, v: &String) -> (r: (String, String))
    ensures
        r.0@ == k@,
        r.1@ == v@,
{
    (String::from_str(k), v.clone())
}

impl SpotifyOAuth {
    pub fn new(
        client_id: String,
        client_secret: String,
        redirect_uri: String,
        scopes: Vec<String>,
    ) -> (r: Self)
        ensures
            r.client_id == client_id,
            r.client_secret == client_secret,
            r.redirect_uri == redirect_uri,
            r.scopes == scopes,
    {
        SpotifyOAuth { client_id, client_secret, redirect_uri, scopes }
    }

    /// The consent page's address for an attempt with anti-forgery token `state`.
    pub fn authorize_url(&self, state: &String) -> (r: String)
        ensures
            r@ == authorize_text(*self, state@),
    {
        let mut pairs: Vec<(String, String)> = Vec::new();
        pairs.push(pair("response_type", &String::from_str("code")));
        pairs.push(pair("client_id", &self.client_id));
        pairs.push(pair("scope", &join_texts(&self.scopes, " ")));
        pairs.push(pair("redirect_uri", &self.redirect_uri));
        pairs.push(pair("state", state));
        let query = encode_form(&pairs);
        let mut url = String::from_str(AUTHORIZE_ENDPOINT);
        proof { reveal_strlit("?"); }
        url.append("?");
        url.append(query.as_str());
        assert(pairs_view(pairs@) =~= authorize_pairs(*self, state@));
        assert(url@ =~= authorize_text(*self, state@));
        url
    }

    /// The form that asks the token endpoint to refresh a credential.
    pub fn refresh_form(&self, refresh_token: &String) -> (r: Vec<(String, String)>)
        ensures
            pairs_view(r@) == refresh_pairs(*self, refresh_token@),
    {
        let mut pairs: Vec<(String, String)> = Vec::new();
        pairs.push(pair("grant_type", &String::from_str("refresh_token")));
        pairs.push(pair("refresh_token", refresh_token));
        pairs.push(pair("client_id", &self.client_id));
        pairs.push(pair("client_secret", &self.client_secret));
        assert(pairs_view(pairs@) =~= refresh_pairs(*self, refresh_token@));
        pairs
    }

    /// The form that exchanges an authorization code for a credential.
    pub fn exchange_form(&self, code: &String) -> (r: Vec<(String, String)>)
        ensures
            pairs_view(r@) == exchange_pairs(*self, code@),
    {
        let mut pairs: Vec<(String, String)> = Vec::new();
        pairs.push(pair("grant_type", &String::from_str("authorization_code")));
        pairs.push(pair("code", code));
        pairs.push(pair("redirect_uri", &self.redirect_uri));
        pairs.push(pair("client_id", &self.client_id));
        pairs.push(pair("client_secret", &self.client_secret));
        assert(pairs_view(pairs@) =~= exchange_pairs(*self, code@));
        pairs
    }
}

/// What the redirect listener makes of a request target during an attempt
/// whose anti-forgery token is `expected`: nothing when the path is not the
/// callback path; else the code, once the `state` parameter matches.
pub open spec fn callback_result(t: Seq<char>, expected: Seq<char>) -> Option<
    Result<Seq<char>, AuthError>,
> {
    if target_path(t) != CALLBACK_PATH@ {
        None
    } else {
        let pairs = form_decoded(target_query(t));
        if first_value(pairs, "state"@) != Some(expected) {
            Some(Err(AuthError::StateMismatch))
        } else {
            match first_value(pairs, "code"@) {
                Some(code) => Some(Ok(code)),
                None => Some(Err(AuthError::AuthorizationAborted)),
            }
        }
    }
}

pub open spec fn callback_view(r: Option<Result<String, AuthError>>) -> Option<
    Result<Seq<char>, AuthError>,
> {
    match r {
        None => None,
        Some(Ok(code)) => Some(Ok(code@)),
        Some(Err(e)) => Some(Err(e)),
    }
}

/// Reads the authorization code from a request that reached the redirect listener.
pub fn read_callback(target: &str, expected: &String) -> (r: Option<Result<String, AuthError>>)
    ensures
        callback_view(r) == callback_result(target@, expected@),
{
    let (path, query) = split_target(target);
    if !(path == String::from_str(CALLBACK_PATH)) {
        return None;
    }
    let state = query_value(query.as_str(), &String::from_str("state"));
    let state_matches = match &state {
        Some(s) => *s == *expected,
        None => false,
    };
    if !state_matches {
        return Some(Err(AuthError::StateMismatch));
    }
    match query_value(query.as_str(), &String::from_str("code")) {
        Some(code) => Some(Ok(code)),
        None => Some(Err(AuthError::AuthorizationAborted)),
    }
}

/// Where an attempt to obtain a credential stands.
#[derive(Debug)]
pub enum AuthPhase {
    /// Waiting for the stored record, if any.
    Start,
    /// A refresh of the stored record was asked for.
    Refreshing { prior: CredentialRecord },
    /// The consent page was opened; the listener waits for the callback.
    AwaitingCallback { state: String },
    /// The authorization code is being exchanged.
    Exchanging,
    /// The new record is being written.
    Persisting { access_token: String },
    /// The access token was handed out.
    Done,
    /// The attempt failed.
    Failed,
}

/// What happened outside since the last step.
#[derive(Debug)]
pub enum AuthEvent {
    /// The credential store was read: the record, or none.
    StoreLoaded(Option<CredentialRecord>),
    /// The token endpoint answered a refresh.
    RefreshReplied(Result<TokenReply, FetchError>),
    /// A request reached the redirect listener, with this target.
    RequestArrived(String),
    /// The redirect listener stopped without a further request.
    ListenerClosed,
    /// The token endpoint answered a code exchange.
    ExchangeReplied(Result<TokenReply, FetchError>),
    /// The record was written, or the write failed.
    Persisted(bool),
}

/// What the caller is to do next.
#[derive(Debug)]
pub enum AuthAction {
    /// Post this form to the token endpoint, then report `RefreshReplied`.
    Refresh { form: Vec<(String, String)> },
    /// Open this address in the browser (best effort), listen for the
    /// callback and report each `RequestArrived`.
    Authorize { url: String },
    /// Answer nothing useful to this request and keep listening.
    KeepListening,
    /// Confirm to the browser, stop listening, post this form to the token
    /// endpoint, then report `ExchangeReplied`.
    Exchange { form: Vec<(String, String)> },
    /// Write this record to the store, then report `Persisted`.
    Persist(CredentialRecord),
    /// The valid access token.
    Finish(String),
    /// The attempt failed.
    Fail(AuthError),
    /// The event does not belong to this phase; nothing to do.
    Ignore,
}

/// A full authorization begins: a fresh anti-forgery token, and the consent page for it.
pub open spec fn starts_authorization(c: SpotifyOAuth, q: AuthPhase, a: AuthAction) -> bool {
    match q {
        AuthPhase::AwaitingCallback { state } => {
            &&& is_state_token(state@)
            &&& match a {
                AuthAction::Authorize { url } => url@ == authorize_text(c, state@),
                _ => false,
            }
        },
        _ => false,
    }
}

pub open spec fn is_refresh_action(a: AuthAction, pairs: Seq<(Seq<char>, Seq<char>)>) -> bool {
    match a {
        AuthAction::Refresh { form } => pairs_view(form@) == pairs,
        _ => false,
    }
}

pub open spec fn is_exchange_action(a: AuthAction, pairs: Seq<(Seq<char>, Seq<char>)>) -> bool {
    match a {
        AuthAction::Exchange { form } => pairs_view(form@) == pairs,
        _ => false,
    }
}

pub open spec fn stays(p: AuthPhase, q: AuthPhase, a: AuthAction) -> bool {
    q == p && a == AuthAction::Ignore
}

pub open spec fn fails_with(q: AuthPhase, a: AuthAction, err: AuthError) -> bool {
    q == AuthPhase::Failed && a == AuthAction::Fail(err)
}

/// One step of the credential lifecycle, from phase `p` and event `e` to
/// phase `q` and action `a`.
pub open spec fn advances(c: SpotifyOAuth, p: AuthPhase, e: AuthEvent, q: AuthPhase, a: AuthAction) -> bool {
    match p {
        AuthPhase::Start => match e {
            AuthEvent::StoreLoaded(Some(rec)) => match rec.refresh_token {
                Some(rt) => q == (AuthPhase::Refreshing { prior: rec }) && is_refresh_action(
                    a,
                    refresh_pairs(c, rt@),
                ),
                None => starts_authorization(c, q, a),
            },
            AuthEvent::StoreLoaded(None) => starts_authorization(c, q, a),
            _ => stays(p, q, a),
        },
        AuthPhase::Refreshing { prior } => match e {
            AuthEvent::RefreshReplied(Ok(reply)) => {
                &&& q == (AuthPhase::Persisting { access_token: reply.access_token })
                &&& a == AuthAction::Persist(merged(prior, reply))
            },
            AuthEvent::RefreshReplied(Err(_)) => starts_authorization(c, q, a),
            _ => stays(p, q, a),
        },
        AuthPhase::AwaitingCallback { state } => match e {
            AuthEvent::RequestArrived(t) => match callback_result(t@, state@) {
                None => q == p && a == AuthAction::KeepListening,
                Some(Ok(code)) => q == AuthPhase::Exchanging && is_exchange_action(
                    a,
                    exchange_pairs(c, code),
                ),
                Some(Err(err)) => fails_with(q, a, err),
            },
            AuthEvent::ListenerClosed => fails_with(q, a, AuthError::AuthorizationAborted),
            _ => stays(p, q, a),
        },
        AuthPhase::Exchanging => match e {
            AuthEvent::ExchangeReplied(Ok(reply)) => if reply_is_complete(reply) {
                &&& q == (AuthPhase::Persisting { access_token: reply.access_token })
                &&& a == AuthAction::Persist(record_of(reply))
            } else {
                fails_with(q, a, AuthError::ExchangeFailed(FetchError::Transport))
            },
            AuthEvent::ExchangeReplied(Err(f)) => fails_with(q, a, AuthError::ExchangeFailed(f)),
            _ => stays(p, q, a),
        },
        AuthPhase::Persisting { access_token } => match e {
            AuthEvent::Persisted(true) => q == AuthPhase::Done && a == AuthAction::Finish(
                access_token,
            ),
            AuthEvent::Persisted(false) => fails_with(q, a, AuthError::CredentialPersist),
            _ => stays(p, q, a),
        },
        AuthPhase::Done => stays(p, q, a),
        AuthPhase::Failed => stays(p, q, a),
    }
}

/// Obtaining a valid credential: the client's registration and the phase reached.
#[derive(Debug)]
pub struct AuthFlow {
    pub config: SpotifyOAuth,
    pub phase: AuthPhase,
}

impl AuthFlow {
    pub fn new(config: SpotifyOAuth) -> (r: Self)
        ensures
            r.config == config,
            r.phase == AuthPhase::Start,
    {
        AuthFlow { config, phase: AuthPhase::Start }
    }

    fn begin_authorization(config: &SpotifyOAuth) -> (r: (AuthPhase, AuthAction))
        ensures
            starts_authorization(*config, r.0, r.1),
    {
        let state = new_state_token();
        let url = config.authorize_url(&state);
        (AuthPhase::AwaitingCallback { state }, AuthAction::Authorize { url })
    }

    fn step(config: &SpotifyOAuth, phase: AuthPhase, event: AuthEvent) -> (r: (AuthPhase, AuthAction))
        ensures
            advances(*config, phase, event, r.0, r.1),
    {
        match phase {
            AuthPhase::Start => match event {
                AuthEvent::StoreLoaded(Some(rec)) => match &rec.refresh_token {
                    Some(rt) => {
                        let form = config.refresh_form(rt);
                        (AuthPhase::Refreshing { prior: rec }, AuthAction::Refresh { form })
                    },
                    None => Self::begin_authorization(config),
                },
                AuthEvent::StoreLoaded(None) => Self::begin_authorization(config),
                _ => (AuthPhase::Start, AuthAction::Ignore),
            },
            AuthPhase::Refreshing { prior } => match event {
                AuthEvent::RefreshReplied(Ok(reply)) => {
                    let access_token = reply.access_token.clone();
                    let record = merge_refresh(prior, reply);
                    (AuthPhase::Persisting { access_token }, AuthAction::Persist(record))
                },
                AuthEvent::RefreshReplied(Err(_)) => Self::begin_authorization(config),
                _ => (AuthPhase::Refreshing { prior }, AuthAction::Ignore),
            },
            AuthPhase::AwaitingCallback { state } => match event {
                AuthEvent::RequestArrived(t) => match read_callback(t.as_str(), &state) {
                    None => (AuthPhase::AwaitingCallback { state }, AuthAction::KeepListening),
                    Some(Ok(code)) => {
                        let form = config.exchange_form(&code);
                        (AuthPhase::Exchanging, AuthAction::Exchange { form })
                    },
                    Some(Err(err)) => (AuthPhase::Failed, AuthAction::Fail(err)),
                },
                AuthEvent::ListenerClosed => (
                    AuthPhase::Failed,
                    AuthAction::Fail(AuthError::AuthorizationAborted),
                ),
                _ => (AuthPhase::AwaitingCallback { state }, AuthAction::Ignore),
            },
            AuthPhase::Exchanging => match event {
                AuthEvent::ExchangeReplied(Ok(reply)) => {
                    let access_token = reply.access_token.clone();
                    match record_from_reply(reply) {
                        Some(record) => (
                            AuthPhase::Persisting { access_token },
                            AuthAction::Persist(record),
                        ),
                        None => (
                            AuthPhase::Failed,
                            AuthAction::Fail(AuthError::ExchangeFailed(FetchError::Transport)),
                        ),
                    }
                },
                AuthEvent::ExchangeReplied(Err(f)) => (
                    AuthPhase::Failed,
                    AuthAction::Fail(AuthError::ExchangeFailed(f)),
                ),
                _ => (AuthPhase::Exchanging, AuthAction::Ignore),
            },
            AuthPhase::Persisting { access_token } => match event {
                AuthEvent::Persisted(true) => (AuthPhase::Done, AuthAction::Finish(access_token)),
                AuthEvent::Persisted(false) => (
                    AuthPhase::Failed,
                    AuthAction::Fail(AuthError::CredentialPersist),
                ),
                _ => (AuthPhase::Persisting { access_token }, AuthAction::Ignore),
            },
            AuthPhase::Done => (AuthPhase::Done, AuthAction::Ignore),
            AuthPhase::Failed => (AuthPhase::Failed, AuthAction::Ignore),
        }
    }

    /// Takes one event and says what to do next.
    pub fn advance(&mut self, event: AuthEvent) -> (r: AuthAction)
        ensures
            final(self).config == old(self).config,
            advances(old(self).config, old(self).phase, event, final(self).phase, r),
    {
        let mut phase = AuthPhase::Failed;
        std::mem::swap(&mut self.phase, &mut phase);
        let (next, action) = Self::step(&self.config, phase, event);
        self.phase = next;
        action
    }
}

/// A refresh whose reply leaves out the refresh token writes a record that
/// keeps the refresh token of the stored record.
pub proof fn lemma_refresh_keeps_refresh_token(
    c: SpotifyOAuth,
    stored: CredentialRecord,
    reply: TokenReply,
    q1: AuthPhase,
    a1: AuthAction,
    q2: AuthPhase,
    a2: AuthAction,
)
    requires
        stored.refresh_token is Some,
        reply.refresh_token is None,
        advances(c, AuthPhase::Start, AuthEvent::StoreLoaded(Some(stored)), q1, a1),
        advances(c, q1, AuthEvent::RefreshReplied(Ok(reply)), q2, a2),
    ensures
        a1 is Refresh,
        a2 is Persist,
        a2->Persist_0.refresh_token == stored.refresh_token,
        a2->Persist_0.access_token == reply.access_token,
{
}

/// During a full authorization, a callback whose `state` parameter is not
/// the attempt's anti-forgery token ends the attempt with `StateMismatch`.
pub proof fn lemma_foreign_state_rejected(
    c: SpotifyOAuth,
    state: String,
    target: String,
    q: AuthPhase,
    a: AuthAction,
)
    requires
        target_path(target@) == CALLBACK_PATH@,
        first_value(form_decoded(target_query(target@)), "state"@) != Some(state@),
        advances(c, AuthPhase::AwaitingCallback { state }, AuthEvent::RequestArrived(target), q, a),
    ensures
        q == AuthPhase::Failed,
        a == AuthAction::Fail(AuthError::StateMismatch),
{
}

} // verus!
