//! The document store model: two collections, `users` and `journal_entries`,
//! held in memory. The store owns the invariants of the system: no two
//! accounts share an email, identifiers are unique and store-generated,
//! every entry's owner exists, and entry timestamps are assigned by the
//! store and never decrease from one insert to the next.

use vstd::prelude::*;
use crate::errors::ServiceError;

verus! {

/// A registered user's stored identity.
#[derive(Debug)]
pub struct Account {
    /// Store-generated unique identifier.
    pub id: u64,
    /// Unique email, case-sensitive as stored.
    pub email: String,
    /// Salted hash of the account's password.
    pub hashed_password: String,
    /// Creation time, milliseconds since the epoch.
    pub created_at: i64,
}

/// The mathematical value of an [`Account`].
#[verifier::ext_equal]
pub ghost struct AccountView {
    pub id: u64,
    pub email: Seq<char>,
    pub hashed_password: Seq<char>,
    pub created_at: i64,
}

impl View for Account {
    type V = AccountView;

    open spec fn view(&self) -> AccountView {
        AccountView {
            id: self.id,
            email: self.email@,
            hashed_password: self.hashed_password@,
            created_at: self.created_at,
        }
    }
}

impl Account {
    /// A field-for-field copy of the account.
    pub fn clone_account(&self) -> (r: Account)
        ensures
            r@ == self@,
    {
        let r = Account {
            id: self.id,
            email: self.email.clone(),
            hashed_password: self.hashed_password.clone(),
            created_at: self.created_at,
        };
        proof {
            assert(r@ =~= self@);
        }
        r
    }
}

/// A single timestamped text note owned by one account.
#[derive(Debug)]
pub struct JournalEntry {
    /// Store-generated unique identifier.
    pub id: u64,
    /// The owning account's identifier.
    pub user_id: u64,
    /// Free-text body.
    pub text: String,
    /// Server-assigned creation time, milliseconds since the epoch.
    pub timestamp: i64,
    /// Reserved for future enrichment; absent at creation.
    pub sentiment: Option<String>,
    /// Reserved for future enrichment; absent at creation.
    pub emotions: Option<Vec<String>>,
    /// Optional bounded mood score.
    pub mood_score: Option<i32>,
}

/// The mathematical value of a [`JournalEntry`].
#[verifier::ext_equal]
pub ghost struct EntryView {
    pub id: u64,
    pub user_id: u64,
    pub text: Seq<char>,
    pub timestamp: i64,
    pub sentiment: Option<Seq<char>>,
    pub emotions: Option<Seq<Seq<char>>>,
    pub mood_score: Option<i32>,
}

/// The values of a sequence of strings.
pub open spec fn strings_view(v: Seq<String>) -> Seq<Seq<char>> {
    v.map_values(|s: String| s@)
}

impl View for JournalEntry {
    type V = EntryView;

    open spec fn view(&self) -> EntryView {
        EntryView {
            id: self.id,
            user_id: self.user_id,
            text: self.text@,
            timestamp: self.timestamp,
            sentiment: match self.sentiment {
                Some(s) => Some(s@),
                None => None,
            },
            emotions: match self.emotions {
                Some(v) => Some(strings_view(v@)),
                None => None,
            },
            mood_score: self.mood_score,
        }
    }
}

/// A field-for-field copy of a vector of strings.
fn clone_strings(v: &Vec<String>) -> (r: Vec<String>)
    ensures
        strings_view(r@) == strings_view(v@),
{
    let mut r: Vec<String> = Vec::new();
    let mut i: usize = 0;
    while i < v.len()
        invariant
            i <= v.len(),
            r@.len() == i,
            forall|j: int| 0 <= j < i ==> r@[j]@ == v@[j]@,
        decreases v.len() - i,
    {
        r.push(v[i].clone());
        i += 1;
    }
    proof {
        assert(strings_view(r@) =~= strings_view(v@));
    }
    r
}

impl JournalEntry {
    /// A field-for-field copy of the entry.
    pub fn clone_entry(&self) -> (r: JournalEntry)
        ensures
            r@ == self@,
    {
        let sentiment = match &self.sentiment {
            Some(s) => Some(s.clone()),
            None => None,
        };
        let emotions = match &self.emotions {
            Some(v) => Some(clone_strings(v)),
            None => None,
        };
        let r = JournalEntry {
            id: self.id,
            user_id: self.user_id,
            text: self.text.clone(),
            timestamp: self.timestamp,
            sentiment,
            emotions,
            mood_score: self.mood_score,
        };
        proof {
            assert(r@ =~= self@);
        }
        r
    }
}

/// The mathematical value of the whole store.
#[verifier::ext_equal]
pub ghost struct StoreView {
    pub accounts: Seq<AccountView>,
    pub entries: Seq<EntryView>,
    pub next_account_id: u64,
    pub next_entry_id: u64,
    pub last_time: i64,
}

/// The larger of two timestamps.
pub open spec fn spec_max_i64(a: i64, b: i64) -> i64 {
    if a >= b {
        a
    } else {
        b
    }
}

/// Whether some account in `s` has the given email.
pub open spec fn email_taken(s: StoreView, email: Seq<char>) -> bool {
    exists|i: int| 0 <= i < s.accounts.len() && s.accounts[i].email == email
}

/// The account of `s` with the given email. Meaningful only when
/// `email_taken(s, email)` holds and `s` is well formed, in which case the
/// email pins the account down uniquely.
pub open spec fn account_for_email(s: StoreView, email: Seq<char>) -> AccountView {
    s.accounts[choose|i: int| 0 <= i < s.accounts.len() && s.accounts[i].email == email]
}

/// Whether some account in `s` has the given identifier.
pub open spec fn account_exists(s: StoreView, id: u64) -> bool {
    exists|i: int| 0 <= i < s.accounts.len() && s.accounts[i].id == id
}

/// The entries of `entries` owned by `uid`, in stored (creation) order.
pub open spec fn owned_by(entries: Seq<EntryView>, uid: u64) -> Seq<EntryView> {
    entries.filter(|e: EntryView| e.user_id == uid)
}

/// The entries of the store owned by `uid`, in stored (creation) order.
pub open spec fn entries_of(s: StoreView, uid: u64) -> Seq<EntryView> {
    owned_by(s.entries, uid)
}

/// The values of a sequence of entries.
pub open spec fn entries_view(v: Seq<JournalEntry>) -> Seq<EntryView> {
    v.map_values(|e: JournalEntry| e@)
}

/// The store after one account is inserted.
pub open spec fn spec_add_account(s: StoreView, a: AccountView) -> StoreView {
    StoreView { accounts: s.accounts.push(a), next_account_id: (s.next_account_id + 1) as u64, ..s }
}

/// The store after one entry is inserted.
pub open spec fn spec_add_entry(s: StoreView, e: EntryView) -> StoreView {
    StoreView {
        entries: s.entries.push(e),
        next_entry_id: (s.next_entry_id + 1) as u64,
        last_time: e.timestamp,
        ..s
    }
}

impl StoreView {
    /// Well-formedness of the store: unique emails, unique store-generated
    /// identifiers, every entry owned by an existing account, timestamps
    /// assigned in non-decreasing order and bounded by the store clock, and
    /// enrichment fields absent (this core never populates them).
    pub open spec fn wf(self) -> bool {
        &&& forall|i: int, j: int|
            0 <= i < j < self.accounts.len() ==> self.accounts[i].email != self.accounts[j].email
        &&& forall|i: int, j: int|
            0 <= i < j < self.accounts.len() ==> self.accounts[i].id != self.accounts[j].id
        &&& forall|i: int| 0 <= i < self.accounts.len() ==> self.accounts[i].id < self.next_account_id
        &&& forall|i: int, j: int|
            0 <= i < j < self.entries.len() ==> self.entries[i].id != self.entries[j].id
        &&& forall|i: int| 0 <= i < self.entries.len() ==> self.entries[i].id < self.next_entry_id
        &&& forall|i: int| 0 <= i < self.entries.len() ==> account_exists(self, self.entries[i].user_id)
        &&& forall|i: int, j: int|
            0 <= i <= j < self.entries.len() ==> self.entries[i].timestamp <= self.entries[j].timestamp
        &&& forall|i: int| 0 <= i < self.entries.len() ==> self.entries[i].timestamp <= self.last_time
        &&& forall|i: int| 0 <= i < self.entries.len() ==> self.entries[i].sentiment is None
        &&& forall|i: int| 0 <= i < self.entries.len() ==> self.entries[i].emotions is None
    }
}

/// The two collections of the persistence layer, with their invariants.
pub struct Store {
    pub accounts: Vec<Account>,
    pub entries: Vec<JournalEntry>,
    pub next_account_id: u64,
    pub next_entry_id: u64,
    pub last_time: i64,
}

impl View for Store {
    type V = StoreView;

    open spec fn view(&self) -> StoreView {
        StoreView {
            accounts: self.accounts@.map_values(|a: Account| a@),
            entries: self.entries@.map_values(|e: JournalEntry| e@),
            next_account_id: self.next_account_id,
            next_entry_id: self.next_entry_id,
            last_time: self.last_time,
        }
    }
}

impl Store {
    /// An empty store.
    pub fn new() -> (r: Store)
        ensures
            r@.wf(),
            r@.accounts == Seq::<AccountView>::empty(),
            r@.entries == Seq::<EntryView>::empty(),
            r@.next_account_id == 0,
            r@.next_entry_id == 0,
            r@.last_time == 0,
    {
        let r = Store {
            accounts: Vec::new(),
            entries: Vec::new(),
            next_account_id: 0,
            next_entry_id: 0,
            last_time: 0,
        };
        proof {
            assert(r@.accounts =~= Seq::<AccountView>::empty());
            assert(r@.entries =~= Seq::<EntryView>::empty());
        }
        r
    }

    /// Exact-match lookup of an account by email. Returns nothing, not an
    /// error, when the email is absent.
    pub fn find_user_by_email(&self, email: &String) -> (r: Option<Account>)
        requires
            self@.wf(),
        ensures
            match r {
                Some(a) => email_taken(self@, email@) && a@ == account_for_email(self@, email@),
                None => !email_taken(self@, email@),
            },
    {
        let mut i: usize = 0;
        while i < self.accounts.len()
            invariant
                self@.wf(),
                i <= self.accounts.len(),
                self@.accounts.len() == self.accounts.len(),
                forall|j: int| 0 <= j < i ==> self@.accounts[j].email != email@,
            decreases self.accounts.len() - i,
        {
            if self.accounts[i].email == *email {
                let found = self.accounts[i].clone_account();
                proof {
                    assert(self@.accounts[i as int] == self.accounts@[i as int]@);
                    assert(self@.accounts[i as int].email == email@);
                    assert(email_taken(self@, email@));
                    let k = choose|k: int|
                        0 <= k < self@.accounts.len() && self@.accounts[k].email == email@;
                    if k != i as int {
                        // two distinct accounts would share an email
                        assert(self@.accounts[k].email == self@.accounts[i as int].email);
                        assert(false);
                    }
                }
                return Some(found);
            }
            i += 1;
        }
        None
    }

    /// Whether an account with the given identifier exists.
    pub fn account_id_exists(&self, id: u64) -> (r: bool)
        ensures
            r == account_exists(self@, id),
    {
        let mut i: usize = 0;
        while i < self.accounts.len()
            invariant
                i <= self.accounts.len(),
                self@.accounts.len() == self.accounts.len(),
                forall|j: int| 0 <= j < i ==> self@.accounts[j].id != id,
            decreases self.accounts.len() - i,
        {
            if self.accounts[i].id == id {
                proof {
                    assert(self@.accounts[i as int].id == id);
                }
                return true;
            }
            i += 1;
        }
        false
    }

    /// Persists a new account with a store-generated identifier, enforcing
    /// email uniqueness at the store level: a duplicate email is the
    /// `Conflict` outcome and leaves the store unchanged.
    pub fn create_user(&mut self, email: String, hashed_password: String, now: i64) -> (r: Result<
        Account,
        ServiceError,
    >)
        requires
            old(self)@.wf(),
            old(self)@.next_account_id < u64::MAX,
        ensures
            final(self)@.wf(),
            email_taken(old(self)@, email@) ==> r == Err::<Account, ServiceError>(
                ServiceError::Conflict,
            ) && final(self)@ == old(self)@,
            !email_taken(old(self)@, email@) ==> (match r {
                Ok(a) => a@ == (AccountView {
                    id: old(self)@.next_account_id,
                    email: email@,
                    hashed_password: hashed_password@,
                    created_at: now,
                }) && final(self)@ == spec_add_account(old(self)@, a@),
                Err(_) => false,
            }),
    {
        if self.find_user_by_email(&email).is_some() {
            return Err(ServiceError::Conflict);
        }
        let account = Account { id: self.next_account_id, email, hashed_password, created_at: now };
        let stored = account.clone_account();
        self.accounts.push(stored);
        self.next_account_id = self.next_account_id + 1;
        proof {
            let pre = old(self)@;
            let post = self@;
            assert(post.accounts =~= pre.accounts.push(account@));
            assert(post =~= spec_add_account(pre, account@));
            let n = pre.accounts.len() as int;
            assert forall|i: int, j: int|
                0 <= i < j < post.accounts.len() implies post.accounts[i].email
                != post.accounts[j].email by {
                if j < n {
                    assert(pre.wf());
                } else {
                    assert(post.accounts[j] == account@);
                    assert(post.accounts[i] == pre.accounts[i]);
                }
            }
            assert forall|i: int, j: int|
                0 <= i < j < post.accounts.len() implies post.accounts[i].id
                != post.accounts[j].id by {
                if j < n {
                    assert(pre.wf());
                } else {
                    assert(post.accounts[i].id < pre.next_account_id);
                }
            }
            assert forall|i: int|
                0 <= i < post.entries.len() implies account_exists(post, post.entries[i].user_id) by {
                assert(account_exists(pre, pre.entries[i].user_id));
                let k = choose|k: int|
                    0 <= k < pre.accounts.len() && pre.accounts[k].id == pre.entries[i].user_id;
                assert(post.accounts[k].id == post.entries[i].user_id);
            }
        }
        Ok(account)
    }

    /// Persists a new entry owned by `user_id`. The store assigns the
    /// identifier and the timestamp; the timestamp is `now` unless the store
    /// clock is already past it, so timestamps never decrease from one
    /// insert to the next. The enrichment fields are left absent.
    pub fn create_journal_entry(
        &mut self,
        user_id: u64,
        text: String,
        mood_score: Option<i32>,
        now: i64,
    ) -> (r: JournalEntry)
        requires
            old(self)@.wf(),
            old(self)@.next_entry_id < u64::MAX,
            account_exists(old(self)@, user_id),
        ensures
            final(self)@.wf(),
            r@ == (EntryView {
                id: old(self)@.next_entry_id,
                user_id,
                text: text@,
                timestamp: spec_max_i64(now, old(self)@.last_time),
                sentiment: None,
                emotions: None,
                mood_score,
            }),
            final(self)@ == spec_add_entry(old(self)@, r@),
    {
        let ts: i64 = if now >= self.last_time {
            now
        } else {
            self.last_time
        };
        let entry = JournalEntry {
            id: self.next_entry_id,
            user_id,
            text,
            timestamp: ts,
            sentiment: None,
            emotions: None,
            mood_score,
        };
        let stored = entry.clone_entry();
        self.entries.push(stored);
        self.next_entry_id = self.next_entry_id + 1;
        self.last_time = ts;
        proof {
            let pre = old(self)@;
            let post = self@;
            assert(post.entries =~= pre.entries.push(entry@));
            assert(post =~= spec_add_entry(pre, entry@));
            let n = pre.entries.len() as int;
            assert forall|i: int, j: int|
                0 <= i < j < post.entries.len() implies post.entries[i].id
                != post.entries[j].id by {
                if j < n {
                    assert(pre.wf());
                } else {
                    assert(post.entries[i].id < pre.next_entry_id);
                }
            }
            assert forall|i: int|
                0 <= i < post.entries.len() implies account_exists(post, post.entries[i].user_id) by {
                if i < n {
                    assert(account_exists(pre, pre.entries[i].user_id));
                    let k = choose|k: int|
                        0 <= k < pre.accounts.len() && pre.accounts[k].id == pre.entries[i].user_id;
                    assert(post.accounts[k].id == post.entries[i].user_id);
                } else {
                    let k = choose|k: int|
                        0 <= k < pre.accounts.len() && pre.accounts[k].id == user_id;
                    assert(post.accounts[k].id == post.entries[i].user_id);
                }
            }
            assert forall|i: int, j: int|
                0 <= i <= j < post.entries.len() implies post.entries[i].timestamp
                <= post.entries[j].timestamp by {
                if j < n {
                    assert(pre.wf());
                } else if i < n {
                    assert(post.entries[i].timestamp <= pre.last_time);
                }
            }
        }
        entry
    }

    /// Returns all entries whose owner equals `user_id`, in creation-time
    /// ascending order, and an empty vector (not an error) when there are
    /// none.
    pub fn get_user_entries(&self, user_id: u64) -> (r: Vec<JournalEntry>)
        ensures
            entries_view(r@) == entries_of(self@, user_id),
    {
        let mut out: Vec<JournalEntry> = Vec::new();
        let mut i: usize = 0;
        proof {
            assert(entries_view(out@) =~= Seq::<EntryView>::empty());
            lemma_owned_by_empty(user_id);
            assert(self@.entries.take(0) =~= Seq::<EntryView>::empty());
        }
        while i < self.entries.len()
            invariant
                i <= self.entries.len(),
                self@.entries.len() == self.entries.len(),
                entries_view(out@) == owned_by(self@.entries.take(i as int), user_id),
            decreases self.entries.len() - i,
        {
            let ghost pre_out = out@;
            if self.entries[i].user_id == user_id {
                out.push(self.entries[i].clone_entry());
            }
            proof {
                let t = self@.entries.take(i as int);
                lemma_owned_by_push(t, self@.entries[i as int], user_id);
                assert(t.push(self@.entries[i as int]) =~= self@.entries.take(i as int + 1));
                if self@.entries[i as int].user_id == user_id {
                    assert(entries_view(out@) =~= entries_view(pre_out).push(
                        self@.entries[i as int],
                    ));
                }
            }
            i += 1;
        }
        proof {
            assert(self@.entries.take(self@.entries.len() as int) =~= self@.entries);
        }
        out
    }
}

/// Filtering an empty sequence of entries yields an empty sequence.
pub proof fn lemma_owned_by_empty(uid: u64)
    ensures
        owned_by(Seq::<EntryView>::empty(), uid) == Seq::<EntryView>::empty(),
{
    reveal(Seq::filter);
}

/// Appending one entry extends the owner's filtered sequence exactly when
/// the entry belongs to that owner.
pub proof fn lemma_owned_by_push(entries: Seq<EntryView>, e: EntryView, uid: u64)
    ensures
        owned_by(entries.push(e), uid) == (if e.user_id == uid {
            owned_by(entries, uid).push(e)
        } else {
            owned_by(entries, uid)
        }),
{
    reveal(Seq::filter);
    assert(entries.push(e).drop_last() =~= entries);
    assert(entries.push(e).last() == e);
}

/// The current time in milliseconds since the epoch.
///
/// Relies on `chrono::Utc::now` and `DateTime::timestamp_millis`; nothing is
/// promised of the value, since it depends on the machine's clock. The call
/// aborts in the environmental case of a system clock set before 1970.
#[verifier::external_body]
pub(crate) fn now_millis() -> i64 {
    chrono::Utc::now().timestamp_millis()
}

} // verus!
