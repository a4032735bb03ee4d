//! The transport-facing contract: the operations a transport layer invokes
//! after decoding a request. Each resolves or issues bearer credentials and
//! delegates to the identity and journal services; the transport maps the
//! result to its externally visible shape.

use vstd::prelude::*;
use vstd::string::StringExecFns;
use crate::errors::ServiceError;
use crate::identity::{
    bcrypt_hash_shape, register, spec_authenticate, authenticate, verify_outcome,
};
use crate::journal::{create_entry, create_entry_post, entry_result_view, list_entries};
use crate::store::{
    AccountView, JournalEntry, Store, email_taken, entries_of, entries_view, spec_add_account,
};
use crate::token::{SessionView, TokenIssuer, spec_resolve};

verus! {

/// What a successful registration or login hands back: a bearer credential
/// and the account it acts for.
#[derive(Debug)]
pub struct AuthResponse {
    pub token: String,
    pub user_id: u64,
}

/// Registers an account and issues a credential for it. A taken email is the
/// `Conflict` outcome — and `Conflict` comes only from a taken email — and a
/// hashing fault on a fresh one is `Internal`, both leaving store and issuer
/// unchanged; otherwise exactly one account carrying the email is added, the
/// password verifies against its stored bcrypt-shaped hash, and the returned
/// credential is recorded for and resolves to the new account.
pub fn register_request(
    store: &mut Store,
    issuer: &mut TokenIssuer,
    email: String,
    password: &str,
) -> (r: Result<AuthResponse, ServiceError>)
    requires
        old(store)@.wf(),
        old(store)@.next_account_id < u64::MAX,
    ensures
        final(store)@.wf(),
        r matches Err(e) ==> (e == ServiceError::Conflict || e == ServiceError::Internal)
            && final(store)@ == old(store)@ && final(issuer)@ == old(issuer)@,
        email_taken(old(store)@, email@) <==> r == Err::<AuthResponse, ServiceError>(
            ServiceError::Conflict,
        ),
        r matches Ok(resp) ==> {
            &&& !email_taken(old(store)@, email@)
            &&& exists|a: AccountView|
                {
                    &&& a.email == email@
                    &&& a.id == resp.user_id
                    &&& a.id == old(store)@.next_account_id
                    &&& verify_outcome(password@, a.hashed_password) == Some(true)
                    &&& bcrypt_hash_shape(a.hashed_password)
                    &&& final(store)@ == spec_add_account(old(store)@, a)
                }
            &&& final(issuer)@ == old(issuer)@.push(
                SessionView { token: resp.token@, account_id: resp.user_id },
            )
            &&& spec_resolve(final(issuer)@, resp.token@) == Some(resp.user_id)
        },
{
    let account = match register(store, email, password) {
        Ok(a) => a,
        Err(e) => {
            return Err(e);
        },
    };
    let token = issuer.issue(account.id);
    Ok(AuthResponse { token, user_id: account.id })
}

/// Authenticates an account and issues a credential for it. The outcome
/// follows `spec_authenticate` on the store's contents; only on success is a
/// session recorded, and the returned credential resolves to the account.
pub fn login_request(store: &Store, issuer: &mut TokenIssuer, email: &String, password: &str) -> (r:
    Result<AuthResponse, ServiceError>)
    requires
        store@.wf(),
    ensures
        match spec_authenticate(store@, email@, password@) {
            Ok(a) => r matches Ok(resp) && resp.user_id == a.id && final(issuer)@ == old(
                issuer,
            )@.push(SessionView { token: resp.token@, account_id: a.id }) && spec_resolve(
                final(issuer)@,
                resp.token@,
            ) == Some(a.id),
            Err(e) => r == Err::<AuthResponse, ServiceError>(e) && final(issuer)@ == old(issuer)@,
        },
{
    let account = match authenticate(store, email, password) {
        Ok(a) => a,
        Err(e) => {
            return Err(e);
        },
    };
    let token = issuer.issue(account.id);
    Ok(AuthResponse { token, user_id: account.id })
}

/// Creates a journal entry for the account a presented credential acts for.
/// An unknown credential is `Unauthorized` and changes nothing; otherwise
/// the entry-creation relation holds between the old and new store for the
/// resolved account.
pub fn create_entry_request(
    store: &mut Store,
    issuer: &TokenIssuer,
    credential: &String,
    text: String,
    mood_score: Option<i32>,
) -> (r: Result<JournalEntry, ServiceError>)
    requires
        old(store)@.wf(),
        old(store)@.next_entry_id < u64::MAX,
    ensures
        final(store)@.wf(),
        match spec_resolve(issuer@, credential@) {
            None => r == Err::<JournalEntry, ServiceError>(ServiceError::Unauthorized)
                && final(store)@ == old(store)@,
            Some(uid) => exists|now: i64|
                create_entry_post(
                    old(store)@,
                    final(store)@,
                    entry_result_view(r),
                    uid,
                    text@,
                    mood_score,
                    now,
                ),
        },
{
    let account_id = match issuer.resolve(credential) {
        Ok(id) => id,
        Err(e) => {
            return Err(e);
        },
    };
    create_entry(store, account_id, text, mood_score)
}

/// Lists the journal entries of the account a presented credential acts
/// for, in creation-time ascending order. An unknown credential is
/// `Unauthorized`.
pub fn get_entries_request(store: &Store, issuer: &TokenIssuer, credential: &String) -> (r: Result<
    Vec<JournalEntry>,
    ServiceError,
>)
    ensures
        match spec_resolve(issuer@, credential@) {
            None => r == Err::<Vec<JournalEntry>, ServiceError>(ServiceError::Unauthorized),
            Some(uid) => r matches Ok(v) && entries_view(v@) == entries_of(store@, uid),
        },
{
    let account_id = match issuer.resolve(credential) {
        Ok(id) => id,
        Err(e) => {
            return Err(e);
        },
    };
    Ok(list_entries(store, account_id))
}

/// The health probe's body.
pub fn health_check() -> (r: String)
    ensures
        r@ == "MindMosaic API is running!"@,
{
    String::from_str("MindMosaic API is running!")
}

} // verus!
