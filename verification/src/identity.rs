//! Account creation and password verification. Passwords are never stored:
//! registration keeps a salted bcrypt hash, and authentication compares a
//! candidate password against that hash through the hashing primitive, in
//! constant time with respect to the candidate.

use vstd::prelude::*;
use crate::errors::ServiceError;
use crate::store::{
    Account, AccountView, Store, StoreView, account_for_email, email_taken, now_millis,
    spec_add_account,
};

verus! {

/// What `bcrypt::verify` decides for a candidate password and a stored hash
/// string: `Some(b)` when it returns a verdict `b`, `None` when it rejects
/// the hash as malformed. The verdict is a function of the two arguments
/// alone: the salt and cost are read back out of the hash string and the
/// comparison is recomputed from them.
pub uninterp spec fn verify_outcome(password: Seq<char>, hash: Seq<char>) -> Option<bool>;

/// The shape of every hash string this library stores: the documented
/// 60-character bcrypt form, opening with the version-2b prefix and the
/// fixed work factor. In particular, no password of another length or
/// opening can coincide with its own stored hash.
pub open spec fn bcrypt_hash_shape(h: Seq<char>) -> bool {
    h.len() == 60 && h.take(7) == "$2b$12$"@
}

/// The error type of the bcrypt primitive.
#[verifier::external_type_specification]
#[verifier::external_body]
pub struct ExBcryptError(bcrypt::BcryptError);

/// Salted, cost-parameterized hash of a password.
///
/// Relies on `bcrypt::hash` with `bcrypt::DEFAULT_COST`: the cost is within
/// the allowed range, so the call fails only if the machine's randomness
/// source does; on success the returned hash string is the documented
/// 60-character form `"$2b$12$"` followed by the salt and digest, and
/// `bcrypt::verify` recomputes exactly that hash from the same password, so
/// the verdict on the pair is positive.
#[verifier::external_body]
fn hash_password(password: &str) -> (r: Result<String, bcrypt::BcryptError>)
    ensures
        r matches Ok(h) ==> verify_outcome(password@, h@) == Some(true) && bcrypt_hash_shape(h@),
{
    bcrypt::hash(password.as_bytes(), bcrypt::DEFAULT_COST)
}

/// Constant-time comparison of a candidate password against a stored hash.
///
/// Relies on `bcrypt::verify`: it parses the cost and salt back out of the
/// hash string, recomputes the hash of the candidate with them, and compares
/// in constant time; it errs exactly when the hash string cannot be parsed
/// that way. The whole outcome depends on the two arguments alone.
#[verifier::external_body]
fn verify_password(password: &str, hash: &str) -> (r: Result<bool, bcrypt::BcryptError>)
    ensures
        r matches Ok(b) ==> verify_outcome(password@, hash@) == Some(b),
        r is Err ==> verify_outcome(password@, hash@) is None,
{
    bcrypt::verify(password.as_bytes(), hash)
}

/// The mathematical value of a register or authenticate result.
pub open spec fn account_result_view(r: Result<Account, ServiceError>) -> Result<
    AccountView,
    ServiceError,
> {
    match r {
        Ok(a) => Ok(a@),
        Err(e) => Err(e),
    }
}

/// The register relation: how the store after a registration and the result
/// relate to the store before it. A taken email is the `Conflict` outcome;
/// otherwise either a fault of the hashing primitive surfaces as `Internal`,
/// or exactly one account is added, carrying the email, a stored hash in
/// bcrypt's 60-character form that the password verifies against (and so is
/// never the plaintext password of another length or opening), the
/// store-generated identifier, and `now` as its creation time.
pub open spec fn register_post(
    pre: StoreView,
    post: StoreView,
    r: Result<AccountView, ServiceError>,
    email: Seq<char>,
    password: Seq<char>,
    now: i64,
) -> bool {
    if email_taken(pre, email) {
        r == Err::<AccountView, ServiceError>(ServiceError::Conflict) && post == pre
    } else {
        match r {
            Ok(a) => {
                &&& a.email == email
                &&& a.id == pre.next_account_id
                &&& a.created_at == now
                &&& verify_outcome(password, a.hashed_password) == Some(true)
                &&& bcrypt_hash_shape(a.hashed_password)
                &&& post == spec_add_account(pre, a)
            },
            Err(e) => e == ServiceError::Internal && post == pre,
        }
    }
}

/// Registers a new account: refuses a taken email with `Conflict`, otherwise
/// hashes the password and persists a new account, timestamped `now`.
pub fn register_at(store: &mut Store, email: String, password: &str, now: i64) -> (r: Result<
    Account,
    ServiceError,
>)
    requires
        old(store)@.wf(),
        old(store)@.next_account_id < u64::MAX,
    ensures
        final(store)@.wf(),
        register_post(old(store)@, final(store)@, account_result_view(r), email@, password@, now),
{
    if store.find_user_by_email(&email).is_some() {
        return Err(ServiceError::Conflict);
    }
    let hashed_password = match hash_password(password) {
        Ok(h) => h,
        Err(_) => {
            return Err(ServiceError::Internal);
        },
    };
    store.create_user(email, hashed_password, now)
}

/// Registers a new account, timestamped with the current time.
pub fn register(store: &mut Store, email: String, password: &str) -> (r: Result<
    Account,
    ServiceError,
>)
    requires
        old(store)@.wf(),
        old(store)@.next_account_id < u64::MAX,
    ensures
        final(store)@.wf(),
        exists|now: i64|
            register_post(
                old(store)@,
                final(store)@,
                account_result_view(r),
                email@,
                password@,
                now,
            ),
{
    let now = now_millis();
    let r = register_at(store, email, password, now);
    proof {
        assert(register_post(
            old(store)@,
            store@,
            account_result_view(r),
            email@,
            password@,
            now,
        ));
    }
    r
}

/// The authenticate relation: the outcome as a function of the store, the
/// email and the candidate password. An unknown email is `NotFound`; for a
/// known one the hashing primitive's verdict on the stored hash decides
/// between the account, `Unauthorized`, and (for an unreadable hash)
/// `Internal`.
pub open spec fn spec_authenticate(s: StoreView, email: Seq<char>, password: Seq<char>) -> Result<
    AccountView,
    ServiceError,
> {
    if !email_taken(s, email) {
        Err(ServiceError::NotFound)
    } else {
        let a = account_for_email(s, email);
        match verify_outcome(password, a.hashed_password) {
            Some(true) => Ok(a),
            Some(false) => Err(ServiceError::Unauthorized),
            None => Err(ServiceError::Internal),
        }
    }
}

/// Verifies a candidate password for the account with the given email. Reads
/// the store and changes nothing; the outcome is a function of the store's
/// contents and the two arguments, so repeating the call repeats the
/// outcome.
pub fn authenticate(store: &Store, email: &String, password: &str) -> (r: Result<
    Account,
    ServiceError,
>)
    requires
        store@.wf(),
    ensures
        account_result_view(r) == spec_authenticate(store@, email@, password@),
{
    let account = match store.find_user_by_email(email) {
        Some(a) => a,
        None => {
            return Err(ServiceError::NotFound);
        },
    };
    match verify_password(password, account.hashed_password.as_str()) {
        Ok(true) => Ok(account),
        Ok(false) => Err(ServiceError::Unauthorized),
        Err(_) => Err(ServiceError::Internal),
    }
}

} // verus!
