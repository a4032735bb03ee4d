//! The laws of the service, stated and proved over the store model: an email
//! can be registered exactly once; registration and authentication agree on
//! the password; a created entry is listed back intact; listing is empty for
//! an account without entries and never crosses accounts.

use vstd::prelude::*;
use crate::errors::ServiceError;
use crate::identity::{register_post, spec_authenticate, verify_outcome};
use crate::journal::create_entry_post;
use crate::store::{
    AccountView, EntryView, StoreView, account_for_email, email_taken, entries_of,
    lemma_owned_by_push, owned_by,
};

verus! {

/// Once an email is taken it stays taken under any operation: operations
/// only ever append accounts.
pub proof fn lemma_email_taken_monotonic(pre: StoreView, post: StoreView, email: Seq<char>)
    requires
        email_taken(pre, email),
        pre.accounts.is_prefix_of(post.accounts),
    ensures
        email_taken(post, email),
{
    let i = choose|i: int| 0 <= i < pre.accounts.len() && pre.accounts[i].email == email;
    assert(post.accounts[i] == pre.accounts[i]);
}

/// Registration succeeds at most once per email: after a registration of
/// `email` succeeds, a second registration of the same email — whatever the
/// password — is the `Conflict` outcome and changes nothing.
pub proof fn lemma_register_exactly_once(
    pre: StoreView,
    post: StoreView,
    a: AccountView,
    email: Seq<char>,
    password: Seq<char>,
    now: i64,
    post2: StoreView,
    r2: Result<AccountView, ServiceError>,
    password2: Seq<char>,
    now2: i64,
)
    requires
        !email_taken(pre, email),
        register_post(pre, post, Ok(a), email, password, now),
        register_post(post, post2, r2, email, password2, now2),
    ensures
        r2 == Err::<AccountView, ServiceError>(ServiceError::Conflict),
        post2 == post,
{
    assert(post.accounts[pre.accounts.len() as int] == a);
    assert(email_taken(post, email));
}

/// After a successful registration, authenticating with the registered
/// email and password succeeds and returns the registered account.
/// Authentication reads the store and never writes it, so the call may be
/// repeated with the same outcome.
pub proof fn lemma_authenticate_after_register(
    pre: StoreView,
    post: StoreView,
    a: AccountView,
    email: Seq<char>,
    password: Seq<char>,
    now: i64,
)
    requires
        pre.wf(),
        !email_taken(pre, email),
        register_post(pre, post, Ok(a), email, password, now),
    ensures
        spec_authenticate(post, email, password) == Ok::<AccountView, ServiceError>(a),
{
    lemma_registered_account_found(pre, post, a, email, password, now);
}

/// Authenticating a known email with a candidate password the stored hash
/// rejects is the `Unauthorized` outcome, and it changes nothing: the store
/// is only read.
pub proof fn lemma_authenticate_rejected_password(s: StoreView, email: Seq<char>, wrong: Seq<char>)
    requires
        s.wf(),
        email_taken(s, email),
        verify_outcome(wrong, account_for_email(s, email).hashed_password) == Some(false),
    ensures
        spec_authenticate(s, email, wrong) == Err::<AccountView, ServiceError>(
            ServiceError::Unauthorized,
        ),
{
}

/// After a registration, the registered account is the one its email finds.
proof fn lemma_registered_account_found(
    pre: StoreView,
    post: StoreView,
    a: AccountView,
    email: Seq<char>,
    password: Seq<char>,
    now: i64,
)
    requires
        pre.wf(),
        !email_taken(pre, email),
        register_post(pre, post, Ok(a), email, password, now),
    ensures
        email_taken(post, email),
        account_for_email(post, email) == a,
{
    let n = pre.accounts.len() as int;
    assert(post.accounts[n] == a);
    assert(email_taken(post, email));
    let k = choose|k: int| 0 <= k < post.accounts.len() && post.accounts[k].email == email;
    if k < n {
        assert(post.accounts[k] == pre.accounts[k]);
        assert(email_taken(pre, email));
        assert(false);
    }
}

/// An entry created for an account is returned by a listing for that same
/// account, appended to what was listed before, with the text and mood
/// score intact, the enrichment fields absent, and a server-assigned
/// timestamp no earlier than the creation call's start time.
pub proof fn lemma_create_then_list(
    pre: StoreView,
    post: StoreView,
    e: EntryView,
    account_id: u64,
    text: Seq<char>,
    mood_score: Option<i32>,
    now: i64,
)
    requires
        create_entry_post(pre, post, Ok(e), account_id, text, mood_score, now),
    ensures
        entries_of(post, account_id) == entries_of(pre, account_id).push(e),
        e.user_id == account_id,
        e.text == text,
        e.mood_score == mood_score,
        e.timestamp >= now,
        e.sentiment is None,
        e.emotions is None,
{
    lemma_owned_by_push(pre.entries, e, account_id);
}

/// A created entry's server-assigned timestamp is no earlier than the
/// creation call's clock reading, and no earlier than any entry already in
/// the store: timestamps never decrease from one insert to the next.
pub proof fn lemma_entry_timestamp_bounds(
    pre: StoreView,
    post: StoreView,
    e: EntryView,
    account_id: u64,
    text: Seq<char>,
    mood_score: Option<i32>,
    now: i64,
)
    requires
        pre.wf(),
        create_entry_post(pre, post, Ok(e), account_id, text, mood_score, now),
    ensures
        e.timestamp >= now,
        forall|i: int| 0 <= i < pre.entries.len() ==> pre.entries[i].timestamp <= e.timestamp,
{
}

/// Listing an account that owns no entries yields the empty sequence (and
/// listing returns a plain vector: there is no error to return).
pub proof fn lemma_list_empty(s: StoreView, account_id: u64)
    requires
        forall|i: int| 0 <= i < s.entries.len() ==> s.entries[i].user_id != account_id,
    ensures
        entries_of(s, account_id) == Seq::<EntryView>::empty(),
{
    lemma_owned_by_none(s.entries, account_id);
}

/// A listing for one account never contains an entry of another account.
pub proof fn lemma_list_isolated(s: StoreView, account_id: u64)
    ensures
        forall|i: int|
            0 <= i < entries_of(s, account_id).len() ==> entries_of(s, account_id)[i].user_id
                == account_id,
{
    broadcast use vstd::seq_lib::group_filter_ensures;

}

proof fn lemma_owned_by_none(entries: Seq<EntryView>, account_id: u64)
    requires
        forall|i: int| 0 <= i < entries.len() ==> entries[i].user_id != account_id,
    ensures
        owned_by(entries, account_id) == Seq::<EntryView>::empty(),
    decreases entries.len(),
{
    reveal(Seq::filter);
    if entries.len() > 0 {
        lemma_owned_by_none(entries.drop_last(), account_id);
        assert(entries.last().user_id != account_id);
    }
}

} // verus!
