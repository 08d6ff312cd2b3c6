//! The linking protocol: one attempt runs `Initiated -> AwaitingCallback ->
//! Exchanging -> Fetching -> Completed`, with a failure anywhere rejecting
//! the attempt. Every outside call — token exchange, profile fetch — is a
//! suspension point driven by the caller; this module holds the decisions
//! between those points, each a pure function of what came back. There is no
//! retry: a failed exchange or fetch terminates the attempt and the user
//! restarts from `Initiated`.

use vstd::prelude::*;

use crate::challenge::Challenge;
use crate::error::Error;
use crate::rating_range::RatingRange;
use crate::roles::{evaluate, evaluate_revoked, granted_roles, revoked_roles};
use crate::store::{ChallengeStore, LinkStore};

verus! {

/// The query parameters the external platform sends to the callback: the
/// opaque authorization code and the state token from the redirect.
pub struct CallbackParams {
    pub code: String,
    pub state: u64,
}

/// What the external platform's token endpoint answered for a code
/// exchange. Any transport or protocol-level failure is `Failed`.
pub enum TokenResponse {
    Token(String),
    Failed,
}

/// What the external platform's profile endpoint answered for an account
/// fetch. Any transport or protocol-level failure is `Failed`.
pub enum AccountResponse {
    Account { username: String, rating: i16 },
    Failed,
}

/// The role-set diff a completed attempt hands to the chat platform: grant
/// every role in `granted`, remove every configured role in `revoked`.
pub struct RoleUpdate {
    pub granted: Vec<u64>,
    pub revoked: Vec<u64>,
}

/// How a callback ends: a confirmation naming the linked external username,
/// or a rejection with the error to render.
pub enum CallbackOutcome {
    Linked { username: String, roles: RoleUpdate },
    Rejected(Error),
}

/// `Initiated`: the user requests a link. The caller supplies `state` and
/// `code_verifier` freshly drawn from a cryptographic randomness source; the
/// challenge is filed for the later callback, and the caller embeds `state`
/// and a value derived from `code_verifier` in the authorization redirect.
pub fn initiate(store: &mut ChallengeStore, requester_id: u64, state: u64, code_verifier: Vec<u8>)
    requires
        old(store).wf(),
    ensures
        final(store).wf(),
        final(store)@ == old(store)@.insert(
            state,
            (Challenge { state, requester_id, code_verifier }),
        ),
{
    let c = Challenge::new(state, requester_id, code_verifier);
    store.create_challenge(c);
}

/// `Exchanging`: the token endpoint's answer either carries the access
/// token onward or rejects the attempt with `ExternalService`.
pub fn exchange_step(response: TokenResponse) -> (r: Result<String, Error>)
    ensures
        match response {
            TokenResponse::Token(t) => r == Ok::<String, Error>(t),
            TokenResponse::Failed => r == Err::<String, Error>(Error::ExternalService),
        },
{
    match response {
        TokenResponse::Token(t) => Ok(t),
        TokenResponse::Failed => Err(Error::ExternalService),
    }
}

/// `Fetching`: the profile endpoint's answer either yields the external
/// username and current rating or rejects the attempt with
/// `ExternalService`.
pub fn fetch_step(response: AccountResponse) -> (r: Result<(String, i16), Error>)
    ensures
        match response {
            AccountResponse::Account { username, rating } => r == Ok::<(String, i16), Error>(
                (username, rating),
            ),
            AccountResponse::Failed => r == Err::<(String, i16), Error>(Error::ExternalService),
        },
{
    match response {
        AccountResponse::Account { username, rating } => Ok((username, rating)),
        AccountResponse::Failed => Err(Error::ExternalService),
    }
}

/// `Completed`: persist the link for the requester — overwriting any prior
/// record — and evaluate the configured ranges against the fresh rating.
pub fn complete_link(
    links: &mut LinkStore,
    requester_id: u64,
    username: String,
    rating: i16,
    ranges: &Vec<RatingRange>,
) -> (roles: RoleUpdate)
    ensures
        final(links)@ == old(links)@.insert(requester_id, username),
        roles.granted@ == granted_roles(ranges@, rating as int),
        roles.revoked@ == revoked_roles(ranges@, rating as int),
{
    links.upsert(requester_id, username);
    let granted = evaluate(rating, ranges);
    let revoked = evaluate_revoked(rating, ranges);
    RoleUpdate { granted, revoked }
}

/// The whole callback, from state-token lookup to role evaluation. The two
/// responses are whatever the external platform answered for this attempt;
/// everything downstream of them is decided here. The challenge is consumed
/// whatever happens later, so a retried or replayed callback finds nothing;
/// the link is touched only on full success.
pub fn handle_callback(
    store: &mut ChallengeStore,
    links: &mut LinkStore,
    params: &CallbackParams,
    token: TokenResponse,
    account: AccountResponse,
    ranges: &Vec<RatingRange>,
) -> (out: CallbackOutcome)
    requires
        old(store).wf(),
    ensures
        final(store).wf(),
        final(store)@ == old(store)@.remove(params.state),
        !old(store)@.contains_key(params.state) ==> {
            &&& out matches CallbackOutcome::Rejected(e) && e == Error::ChallengeNotFound
            &&& final(links)@ == old(links)@
        },
        old(store)@.contains_key(params.state) && token is Failed ==> {
            &&& out matches CallbackOutcome::Rejected(e) && e == Error::ExternalService
            &&& final(links)@ == old(links)@
        },
        old(store)@.contains_key(params.state) && token is Token && account is Failed ==> {
            &&& out matches CallbackOutcome::Rejected(e) && e == Error::ExternalService
            &&& final(links)@ == old(links)@
        },
        account matches AccountResponse::Account { username, rating } ==> ((old(
            store,
        )@.contains_key(params.state) && token is Token) ==> {
            &&& final(links)@ == old(links)@.insert(
                old(store)@[params.state].requester_id,
                username,
            )
            &&& out matches CallbackOutcome::Linked { username: linked, roles } && linked
                == username && roles.granted@ == granted_roles(ranges@, rating as int)
                && roles.revoked@ == revoked_roles(ranges@, rating as int)
        }),
{
    let challenge = match store.consume_challenge(params.state) {
        Ok(c) => c,
        Err(e) => {
            return CallbackOutcome::Rejected(e);
        },
    };
    match exchange_step(token) {
        Ok(_) => {},
        Err(e) => {
            return CallbackOutcome::Rejected(e);
        },
    }
    let (username, rating) = match fetch_step(account) {
        Ok(profile) => profile,
        Err(e) => {
            return CallbackOutcome::Rejected(e);
        },
    };
    let linked = username.clone();
    let roles = complete_link(links, challenge.requester_id, username, rating, ranges);
    CallbackOutcome::Linked { username: linked, roles }
}

} // verus!
