//! The bearer-credential issuer. A credential is an opaque random token,
//! minted at successful registration or login; the issuer records each one
//! against the account it was issued for, and later resolves a presented
//! credential back to that account. A credential that was never recorded is
//! refused: a raw account identifier is never accepted in its place.

use vstd::prelude::*;
use crate::errors::ServiceError;

verus! {

/// One recorded credential and the account it acts for.
pub struct Session {
    pub token: String,
    pub account_id: u64,
}

/// The mathematical value of a [`Session`].
#[verifier::ext_equal]
pub ghost struct SessionView {
    pub token: Seq<char>,
    pub account_id: u64,
}

impl View for Session {
    type V = SessionView;

    open spec fn view(&self) -> SessionView {
        SessionView { token: self.token@, account_id: self.account_id }
    }
}

/// The account a credential resolves to among the sessions up to (but not
/// including) index `i`, scanning newest first so that the most recently
/// recorded credential wins.
pub open spec fn spec_resolve_upto(s: Seq<SessionView>, credential: Seq<char>, i: int) -> Option<
    u64,
>
    decreases i,
{
    if i <= 0 || i > s.len() {
        None
    } else if s[i - 1].token == credential {
        Some(s[i - 1].account_id)
    } else {
        spec_resolve_upto(s, credential, i - 1)
    }
}

/// The account a recorded credential acts for, or nothing for an unknown
/// one.
pub open spec fn spec_resolve(s: Seq<SessionView>, credential: Seq<char>) -> Option<u64> {
    spec_resolve_upto(s, credential, s.len() as int)
}

/// A freshly minted random opaque token.
///
/// Relies on `uuid::Uuid::new_v4` and its `Display` form: a random
/// version-4 UUID, rendered hyphenated as exactly 36 characters. Nothing
/// more is promised of the value, since it is drawn from the machine's
/// randomness source; the call aborts, like an allocation failure would, in
/// the environmental case that this source itself fails.
#[verifier::external_body]
fn mint_token() -> (r: String)
    ensures
        r@.len() == 36,
{
    uuid::Uuid::new_v4().to_string()
}

/// Issues and resolves bearer credentials against a recorded session table.
pub struct TokenIssuer {
    pub sessions: Vec<Session>,
}

impl View for TokenIssuer {
    type V = Seq<SessionView>;

    open spec fn view(&self) -> Seq<SessionView> {
        self.sessions@.map_values(|s: Session| s@)
    }
}

impl TokenIssuer {
    /// An issuer with no recorded sessions.
    pub fn new() -> (r: TokenIssuer)
        ensures
            r@ == Seq::<SessionView>::empty(),
    {
        let r = TokenIssuer { sessions: Vec::new() };
        proof {
            assert(r@ =~= Seq::<SessionView>::empty());
        }
        r
    }

    /// Mints a fresh random credential, records it for `account_id`, and
    /// returns it; the issuer then resolves it back to `account_id`.
    pub fn issue(&mut self, account_id: u64) -> (r: String)
        ensures
            final(self)@ == old(self)@.push(SessionView { token: r@, account_id }),
            spec_resolve(final(self)@, r@) == Some(account_id),
            r@.len() == 36,
    {
        let token = mint_token();
        let copy = token.clone();
        self.sessions.push(Session { token, account_id });
        proof {
            assert(self@ =~= old(self)@.push(SessionView { token: copy@, account_id }));
            let n = self@.len() as int;
            assert(self@[n - 1].token == copy@);
        }
        copy
    }

    /// Resolves a presented credential to the account it was issued for, or
    /// refuses it as `Unauthorized` when it is unknown. When a credential
    /// was recorded more than once, the most recent record wins.
    pub fn resolve(&self, credential: &String) -> (r: Result<u64, ServiceError>)
        ensures
            match spec_resolve(self@, credential@) {
                Some(id) => r == Ok::<u64, ServiceError>(id),
                None => r == Err::<u64, ServiceError>(ServiceError::Unauthorized),
            },
    {
        let mut i: usize = self.sessions.len();
        while i > 0
            invariant
                i <= self.sessions.len(),
                self@.len() == self.sessions.len(),
                spec_resolve(self@, credential@) == spec_resolve_upto(
                    self@,
                    credential@,
                    i as int,
                ),
            decreases i,
        {
            if self.sessions[i - 1].token == *credential {
                proof {
                    assert(self@[i as int - 1].token == credential@);
                }
                return Ok(self.sessions[i - 1].account_id);
            }
            proof {
                assert(self@[i as int - 1].token != credential@);
            }
            i = i - 1;
        }
        Err(ServiceError::Unauthorized)
    }
}

} // verus!
