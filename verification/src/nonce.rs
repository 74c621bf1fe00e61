//! Single-use nonces, one live challenge to an address.

use vstd::prelude::*;
use crate::assoc::{
    assoc_map, has_key, keys_distinct, lemma_assoc_dom, lemma_assoc_push, lemma_assoc_remove,
    lemma_assoc_value,
};
use crate::clock::{now, CHALLENGE_TTL_SECONDS};
use crate::api_error::{ApiError, ApiErrorView};
use crate::random::fresh_id;
pub use crate::random::{uuid_text, uuid_text_of};

verus! {

/// A challenge issued to an address: the nonce to sign, and until when.
#[derive(Debug, Clone, PartialEq, Eq)]
pub struct WalletChallenge {
    pub address: String,
    pub nonce: String,
    pub issued_at: u64,
    pub expires_at: u64,
}

/// A [`WalletChallenge`] as plain values.
pub struct WalletChallengeView {
    pub address: Seq<char>,
    pub nonce: Seq<char>,
    pub issued_at: u64,
    pub expires_at: u64,
}

impl View for WalletChallenge {
    type V = WalletChallengeView;

    open spec fn view(&self) -> WalletChallengeView {
        WalletChallengeView {
            address: self.address@,
            nonce: self.nonce@,
            issued_at: self.issued_at,
            expires_at: self.expires_at,
        }
    }
}

/// Why a nonce could not be consumed. Callers outside show all three alike.
#[derive(Debug, Clone, Copy, PartialEq, Eq)]
pub enum NonceError {
    /// No challenge is live for the address.
    NotFound,
    /// The challenge has passed its expiry.
    Expired,
    /// The challenge holds another nonce.
    Mismatch,
}

impl NonceError {
    /// The error that a caller outside sees: `Unauthorized`, whatever the
    /// reason, so that a failure tells nothing of the challenge.
    pub fn to_api_error(&self) -> (e: ApiError)
        ensures
            e@ == ApiErrorView::Unauthorized,
    {
        ApiError::Unauthorized
    }
}

/// The challenges of a store: a map from address to the live challenge.
pub type Challenges = Map<Seq<char>, WalletChallengeView>;

/// The challenge that is live for `address`, if any.
pub open spec fn challenge_for(challenges: Challenges, address: Seq<char>) -> Option<
    WalletChallengeView,
> {
    if challenges.dom().contains(address) {
        Some(challenges[address])
    } else {
        None
    }
}

/// The challenge that an issuance at `at` writes.
pub open spec fn issued_challenge(address: Seq<char>, nonce: Seq<char>, at: u64) -> WalletChallengeView {
    WalletChallengeView {
        address,
        nonce,
        issued_at: at,
        expires_at: (at + CHALLENGE_TTL_SECONDS) as u64,
    }
}

/// The store after an issuance: the new challenge replaces any earlier one.
pub open spec fn after_issue(challenges: Challenges, address: Seq<char>, nonce: Seq<char>, at: u64) -> Challenges {
    challenges.insert(address, issued_challenge(address, nonce, at))
}

/// Whether a presented nonce consumes the challenge found: the challenge
/// must exist, be unexpired, and hold that nonce.
pub open spec fn consume_verdict(found: Option<WalletChallengeView>, nonce: Seq<char>, at: u64) -> Result<(), NonceError> {
    match found {
        None => Err(NonceError::NotFound),
        Some(challenge) => if at > challenge.expires_at {
            Err(NonceError::Expired)
        } else if challenge.nonce != nonce {
            Err(NonceError::Mismatch)
        } else {
            Ok(())
        },
    }
}

/// The store after an attempt to consume: the challenge leaves on success,
/// and an expired one is purged; otherwise nothing changes.
pub open spec fn after_consume(challenges: Challenges, address: Seq<char>, nonce: Seq<char>, at: u64) -> Challenges {
    match consume_verdict(challenge_for(challenges, address), nonce, at) {
        Ok(()) => challenges.remove(address),
        Err(NonceError::Expired) => challenges.remove(address),
        Err(_) => challenges,
    }
}

/// The entry that a row stands for in the map.
pub open spec fn challenge_entry(row: WalletChallenge) -> (Seq<char>, WalletChallengeView) {
    (row.address@, row@)
}

/// Issues nonces and consumes each at most once.
pub struct NonceChallengeStore {
    rows: Vec<WalletChallenge>,
}

impl View for NonceChallengeStore {
    type V = Challenges;

    closed spec fn view(&self) -> Challenges {
        assoc_map(self.entries())
    }
}

impl NonceChallengeStore {
    spec fn entries(&self) -> Seq<(Seq<char>, WalletChallengeView)> {
        self.rows@.map_values(|row: WalletChallenge| challenge_entry(row))
    }

    /// At most one live challenge to an address: every constructor
    /// establishes it and every method keeps it.
    pub closed spec fn wf(&self) -> bool {
        keys_distinct(self.entries())
    }

    /// A store with no challenge in it.
    pub fn new() -> (store: Self)
        ensures
            store.wf(),
            store@ == Map::<Seq<char>, WalletChallengeView>::empty(),
    {
        let store = NonceChallengeStore { rows: Vec::new() };
        assert(store.entries() =~= Seq::empty());
        store
    }

    /// Where the row of `address` sits.
    fn position(&self, address: &String) -> (at: Option<usize>)
        ensures
            match at {
                Some(i) => i < self.rows.len() && self.rows[i as int].address@ == address@,
                None => !has_key(self.entries(), address@),
            },
    {
        let mut i: usize = 0;
        while i < self.rows.len()
            invariant
                i <= self.rows.len(),
                forall|j: int| 0 <= j < i ==> self.rows[j].address@ != address@,
            decreases self.rows.len() - i,
        {
            if self.rows[i].address == *address {
                return Some(i);
            }
            i += 1;
        }
        assert(!has_key(self.entries(), address@)) by {
            if has_key(self.entries(), address@) {
                let j = choose|j: int| 0 <= j < self.entries().len() && (#[trigger] self.entries()[j]).0 == address@;
                assert(self.rows[j].address@ == address@);
            }
        }
        None
    }

    /// The challenge that is live for `address`, if any.
    pub fn get(&self, address: &str) -> (found: Option<&WalletChallenge>)
        requires
            self.wf(),
        ensures
            match found {
                Some(challenge) => challenge_for(self@, address@) == Some(challenge@),
                None => challenge_for(self@, address@) is None,
            },
    {
        proof {
            lemma_assoc_dom(self.entries(), address@);
        }
        let key = address.to_owned();
        match self.position(&key) {
            Some(i) => {
                proof {
                    lemma_assoc_value(self.entries(), i as int);
                }
                Some(&self.rows[i])
            },
            None => None,
        }
    }

    /// The number of live challenges.
    pub fn len(&self) -> (n: usize)
        requires
            self.wf(),
        ensures
            n == self@.dom().len(),
            self@.dom().finite(),
    {
        proof {
            lemma_len(self.entries());
        }
        self.rows.len()
    }

    /// Issues `nonce` to `address` at the instant `at`, replacing any
    /// challenge that was live for the address. Returns the expiry.
    pub fn issue_at(&mut self, address: &str, nonce: String, at: u64) -> (expires_at: u64)
        requires
            old(self).wf(),
            at + CHALLENGE_TTL_SECONDS <= u64::MAX,
        ensures
            final(self).wf(),
            final(self)@ == after_issue(old(self)@, address@, nonce@, at),
            expires_at == at + CHALLENGE_TTL_SECONDS,
    {
        let key = address.to_owned();
        let ghost before = self.entries();
        match self.position(&key) {
            Some(i) => {
                proof {
                    lemma_assoc_remove(before, i as int);
                }
                self.rows.remove(i);
                assert(self.entries() =~= before.remove(i as int));
            },
            None => {},
        }
        let ghost middle = self.entries();
        let expires_at = at + CHALLENGE_TTL_SECONDS;
        let row = WalletChallenge { address: key, nonce, issued_at: at, expires_at };
        proof {
            lemma_assoc_push(middle, row.address@, row@);
        }
        self.rows.push(row);
        assert(self.entries() =~= middle.push((row.address@, row@)));
        assert(final(self)@ =~= after_issue(old(self)@, address@, nonce@, at)) by {
            lemma_assoc_dom(before, address@);
        }
        expires_at
    }

    /// Puts a challenge back as it was persisted, in place of any that is
    /// live for its address.
    pub fn restore(&mut self, challenge: WalletChallenge)
        requires
            old(self).wf(),
        ensures
            final(self).wf(),
            final(self)@ == old(self)@.insert(challenge.address@, challenge@),
    {
        let ghost before = self.entries();
        match self.position(&challenge.address) {
            Some(i) => {
                proof {
                    lemma_assoc_remove(before, i as int);
                }
                self.rows.remove(i);
                assert(self.entries() =~= before.remove(i as int));
            },
            None => {},
        }
        let ghost middle = self.entries();
        proof {
            lemma_assoc_push(middle, challenge.address@, challenge@);
        }
        self.rows.push(challenge);
        assert(self.entries() =~= middle.push((challenge.address@, challenge@)));
        assert(final(self)@ =~= old(self)@.insert(challenge.address@, challenge@)) by {
            lemma_assoc_dom(before, challenge.address@);
        }
    }

    /// Issues a fresh random nonce to `address` at the current time and
    /// returns it: the hyphenated text of a random identifier. Any nonce
    /// issued earlier to the address stops being valid.
    pub fn issue(&mut self, address: &str) -> (nonce: String)
        requires
            old(self).wf(),
        ensures
            final(self).wf(),
            exists|at: u64| at <= i64::MAX && final(self)@ == after_issue(old(self)@, address@, nonce@, at),
            exists|id: u128| nonce@ == uuid_text_of(id),
            nonce@.len() == 36,
    {
        let at = now();
        let nonce = uuid_text(fresh_id());
        self.issue_at(address, nonce.clone(), at);
        nonce
    }

    /// Consumes the nonce of `address` at the instant `at`: succeeds where a
    /// live, unexpired challenge holds exactly `nonce`, and then deletes it, so
    /// that no second attempt can succeed.
    pub fn consume_at(&mut self, address: &str, nonce: &str, at: u64) -> (r: Result<(), NonceError>)
        requires
            old(self).wf(),
        ensures
            final(self).wf(),
            r == consume_verdict(challenge_for(old(self)@, address@), nonce@, at),
            final(self)@ == after_consume(old(self)@, address@, nonce@, at),
    {
        proof {
            lemma_assoc_dom(self.entries(), address@);
        }
        let key = address.to_owned();
        let presented = nonce.to_owned();
        let ghost before = self.entries();
        match self.position(&key) {
            None => Err(NonceError::NotFound),
            Some(i) => {
                proof {
                    lemma_assoc_value(before, i as int);
                    lemma_assoc_remove(before, i as int);
                }
                if at > self.rows[i].expires_at {
                    self.rows.remove(i);
                    assert(self.entries() =~= before.remove(i as int));
                    Err(NonceError::Expired)
                } else if self.rows[i].nonce != presented {
                    Err(NonceError::Mismatch)
                } else {
                    self.rows.remove(i);
                    assert(self.entries() =~= before.remove(i as int));
                    Ok(())
                }
            },
        }
    }

    /// Consumes the nonce of `address` at the current time.
    pub fn consume(&mut self, address: &str, nonce: &str) -> (r: Result<(), NonceError>)
        requires
            old(self).wf(),
        ensures
            final(self).wf(),
            exists|at: u64|
                at <= i64::MAX && r == consume_verdict(challenge_for(old(self)@, address@), nonce@, at)
                    && final(self)@ == after_consume(old(self)@, address@, nonce@, at),
    {
        let at = now();
        self.consume_at(address, nonce, at)
    }
}

/// Issuing a second nonce to an address invalidates the first: whatever the
/// store held and whenever the two were issued, an attempt to consume the
/// first nonce after the second issuance fails, as a mismatch or as
/// expired, and the store is as if the first had never been issued.
pub proof fn law_reissue_invalidates_first(
    challenges: Challenges,
    address: Seq<char>,
    first: Seq<char>,
    second: Seq<char>,
    first_at: u64,
    second_at: u64,
    attempt_at: u64,
)
    requires
        first != second,
    ensures
        ({
            let reissued = after_issue(
                after_issue(challenges, address, first, first_at),
                address,
                second,
                second_at,
            );
            let verdict = consume_verdict(challenge_for(reissued, address), first, attempt_at);
            &&& verdict is Err
            &&& verdict != Err::<(), NonceError>(NonceError::NotFound)
            &&& reissued == after_issue(challenges, address, second, second_at)
        }),
{
    let once = after_issue(challenges, address, first, first_at);
    let reissued = after_issue(once, address, second, second_at);
    assert(reissued =~= after_issue(challenges, address, second, second_at));
}

/// A nonce is consumed at most once: after a successful consumption the
/// challenge is gone, so a second attempt with the same nonce finds nothing,
/// at whatever instant it comes. Of two attempts in a row with the same
/// nonce, at most one succeeds.
pub proof fn law_replay_rejected(
    challenges: Challenges,
    address: Seq<char>,
    nonce: Seq<char>,
    first_at: u64,
    second_at: u64,
)
    ensures
        ({
            let first = consume_verdict(challenge_for(challenges, address), nonce, first_at);
            let after = after_consume(challenges, address, nonce, first_at);
            let second = consume_verdict(challenge_for(after, address), nonce, second_at);
            &&& first is Ok ==> second == Err::<(), NonceError>(NonceError::NotFound)
            &&& first is Ok ==> !after.dom().contains(address)
            &&& !(first is Ok && second is Ok)
        }),
{
}

/// An attempt on one address leaves the challenge of every other address as
/// it was.
pub proof fn law_consume_is_local(
    challenges: Challenges,
    address: Seq<char>,
    other: Seq<char>,
    nonce: Seq<char>,
    at: u64,
)
    requires
        other != address,
    ensures
        challenge_for(after_consume(challenges, address, nonce, at), other) == challenge_for(
            challenges,
            other,
        ),
{
}

/// Under distinct keys there are as many keys as entries.
proof fn lemma_len<K, V>(s: Seq<(K, V)>)
    requires
        keys_distinct(s),
    ensures
        assoc_map(s).dom().finite(),
        assoc_map(s).dom().len() == s.len(),
    decreases s.len(),
{
    if s.len() > 0 {
        let t = s.drop_last();
        assert(keys_distinct(t)) by {
            assert forall|a: int, b: int| 0 <= a < b < t.len() implies (#[trigger] t[a]).0 != (
            #[trigger] t[b]).0 by {
                assert(s[a].0 != s[b].0);
            }
        }
        lemma_len(t);
        lemma_assoc_dom(t, s.last().0);
        if has_key(t, s.last().0) {
            let i = choose|i: int| 0 <= i < t.len() && (#[trigger] t[i]).0 == s.last().0;
            assert(s[i].0 != s[s.len() - 1].0);
        }
    }
}

} // verus!
