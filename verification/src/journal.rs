//! Journal entry creation and retrieval, scoped to an owning account. Input
//! validation happens here, at the service boundary, before anything is
//! persisted: the text must be non-empty and a mood score, when present,
//! must lie within the accepted range.

use vstd::prelude::*;
use crate::errors::ServiceError;
use crate::store::{
    EntryView, JournalEntry, Store, StoreView, account_exists, entries_of, entries_view,
    now_millis, spec_add_entry, spec_max_i64,
};

verus! {

/// The lowest accepted mood score.
pub const MOOD_MIN: i32 = -10;

/// The highest accepted mood score.
pub const MOOD_MAX: i32 = 10;

/// Whether the fields of a new entry are acceptable: non-empty text, and a
/// mood score (when present) within the accepted range.
pub open spec fn valid_entry_input(text: Seq<char>, mood_score: Option<i32>) -> bool {
    &&& text.len() > 0
    &&& match mood_score {
        Some(m) => MOOD_MIN <= m <= MOOD_MAX,
        None => true,
    }
}

/// The mathematical value of an entry-creation result.
pub open spec fn entry_result_view(r: Result<JournalEntry, ServiceError>) -> Result<
    EntryView,
    ServiceError,
> {
    match r {
        Ok(e) => Ok(e@),
        Err(e) => Err(e),
    }
}

/// The entry-creation relation: how the store after the call and the result
/// relate to the store before it. Malformed fields are `InvalidArgument` and
/// an unknown owner is `NotFound`, both leaving the store unchanged;
/// otherwise exactly one entry is added, owned by `account_id`, carrying the
/// text and mood score, the store-generated identifier, a timestamp no
/// earlier than `now` or any earlier entry's, and no enrichment fields.
pub open spec fn create_entry_post(
    pre: StoreView,
    post: StoreView,
    r: Result<EntryView, ServiceError>,
    account_id: u64,
    text: Seq<char>,
    mood_score: Option<i32>,
    now: i64,
) -> bool {
    if !valid_entry_input(text, mood_score) {
        r == Err::<EntryView, ServiceError>(ServiceError::InvalidArgument) && post == pre
    } else if !account_exists(pre, account_id) {
        r == Err::<EntryView, ServiceError>(ServiceError::NotFound) && post == pre
    } else {
        r == Ok::<EntryView, ServiceError>(
            EntryView {
                id: pre.next_entry_id,
                user_id: account_id,
                text,
                timestamp: spec_max_i64(now, pre.last_time),
                sentiment: None,
                emotions: None,
                mood_score,
            },
        ) && post == spec_add_entry(pre, r->Ok_0)
    }
}

/// Creates a journal entry owned by `account_id`, timestamped `now` (or
/// later, if the store clock is already past it).
pub fn create_entry_at(
    store: &mut Store,
    account_id: u64,
    text: String,
    mood_score: Option<i32>,
    now: i64,
) -> (r: Result<JournalEntry, ServiceError>)
    requires
        old(store)@.wf(),
        old(store)@.next_entry_id < u64::MAX,
    ensures
        final(store)@.wf(),
        create_entry_post(
            old(store)@,
            final(store)@,
            entry_result_view(r),
            account_id,
            text@,
            mood_score,
            now,
        ),
{
    if text.as_str().is_empty() {
        return Err(ServiceError::InvalidArgument);
    }
    if let Some(m) = mood_score {
        if m < MOOD_MIN || m > MOOD_MAX {
            return Err(ServiceError::InvalidArgument);
        }
    }
    if !store.account_id_exists(account_id) {
        return Err(ServiceError::NotFound);
    }
    Ok(store.create_journal_entry(account_id, text, mood_score, now))
}

/// Creates a journal entry owned by `account_id`, timestamped with the
/// current time.
pub fn create_entry(store: &mut Store, account_id: u64, text: String, mood_score: Option<i32>) -> (r:
    Result<JournalEntry, ServiceError>)
    requires
        old(store)@.wf(),
        old(store)@.next_entry_id < u64::MAX,
    ensures
        final(store)@.wf(),
        exists|now: i64|
            create_entry_post(
                old(store)@,
                final(store)@,
                entry_result_view(r),
                account_id,
                text@,
                mood_score,
                now,
            ),
{
    let now = now_millis();
    let r = create_entry_at(store, account_id, text, mood_score, now);
    proof {
        assert(create_entry_post(
            old(store)@,
            store@,
            entry_result_view(r),
            account_id,
            text@,
            mood_score,
            now,
        ));
    }
    r
}

/// Returns all entries owned by `account_id`, in creation-time ascending
/// order: an empty vector, not an error, when there are none, and never an
/// entry of another account.
pub fn list_entries(store: &Store, account_id: u64) -> (r: Vec<JournalEntry>)
    ensures
        entries_view(r@) == entries_of(store@, account_id),
{
    store.get_user_entries(account_id)
}

} // verus!
