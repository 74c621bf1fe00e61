//! One-time passcodes, one live challenge to an identity, with bounded
//! attempts and an expiry. Only the hash of a code is ever kept.

use vstd::prelude::*;
use crate::api_error::{result_view, ApiError, ApiErrorView};
use crate::assoc::{
    assoc_map, has_key, keys_distinct, lemma_assoc_dom, lemma_assoc_push, lemma_assoc_remove,
    lemma_assoc_value,
};
use crate::clock::{now, CHALLENGE_TTL_SECONDS};
use crate::hasher::{bcrypt_verdict, is_hash_of, SecretHasher};
use crate::random::random_in;

verus! {

/// How many wrong codes a challenge survives.
pub const MAX_ATTEMPTS: u32 = 3;

/// How many digits a code has.
pub const OTP_LENGTH: usize = 6;

/// The smallest code: the first with six digits.
pub const OTP_MIN: u32 = 100000;

/// The largest code: the last with six digits.
pub const OTP_MAX: u32 = 999999;

/// A passcode challenge: the hash of the code, until when, and how many
/// wrong codes were tried.
#[derive(Debug, Clone, PartialEq, Eq)]
pub struct OtpChallenge {
    pub identity_id: u128,
    pub otp_hash: String,
    pub expires_at: u64,
    pub attempts: u32,
    pub created_at: u64,
}

/// An [`OtpChallenge`] as plain values.
pub struct OtpChallengeView {
    pub identity_id: u128,
    pub otp_hash: Seq<char>,
    pub expires_at: u64,
    pub attempts: u32,
    pub created_at: u64,
}

impl View for OtpChallenge {
    type V = OtpChallengeView;

    open spec fn view(&self) -> OtpChallengeView {
        OtpChallengeView {
            identity_id: self.identity_id,
            otp_hash: self.otp_hash@,
            expires_at: self.expires_at,
            attempts: self.attempts,
            created_at: self.created_at,
        }
    }
}

/// How a submitted code was judged.
#[derive(Debug, Clone, Copy, PartialEq, Eq)]
pub enum OtpOutcome {
    /// The code matched. The challenge is spent.
    Verified,
    /// The code did not match. One more attempt is counted.
    Invalid,
    /// The challenge had passed its expiry.
    Expired,
    /// The challenge had used up its attempts.
    AttemptsExhausted,
    /// No challenge is live for the identity.
    NoChallenge,
}

/// The text that tells a user how a code was judged. It names the reason
/// and discloses nothing of the code.
pub open spec fn outcome_message(outcome: OtpOutcome) -> Seq<char> {
    match outcome {
        OtpOutcome::Verified => "OTP verified successfully"@,
        OtpOutcome::Invalid => "Invalid OTP"@,
        OtpOutcome::Expired => "OTP has expired"@,
        OtpOutcome::AttemptsExhausted => "Too many verification attempts. Please request a new OTP."@,
        OtpOutcome::NoChallenge => "No pending OTP found"@,
    }
}

/// The HTTP status that stands for an outcome: success for a verified
/// code, and one and the same refusal for every rejection.
pub open spec fn outcome_status(outcome: OtpOutcome) -> u16 {
    match outcome {
        OtpOutcome::Verified => 200,
        _ => 401,
    }
}

impl OtpOutcome {
    /// The HTTP status of this outcome. The text beside it may name the
    /// reason; the status never does.
    pub fn status_code(&self) -> (code: u16)
        ensures
            code == outcome_status(*self),
    {
        match self {
            OtpOutcome::Verified => 200,
            _ => 401,
        }
    }

    /// The user-facing text of this outcome.
    pub fn message(&self) -> (text: String)
        ensures
            text@ == outcome_message(*self),
    {
        match self {
            OtpOutcome::Verified => "OTP verified successfully".to_owned(),
            OtpOutcome::Invalid => "Invalid OTP".to_owned(),
            OtpOutcome::Expired => "OTP has expired".to_owned(),
            OtpOutcome::AttemptsExhausted => "Too many verification attempts. Please request a new OTP.".to_owned(),
            OtpOutcome::NoChallenge => "No pending OTP found".to_owned(),
        }
    }
}

/// The challenges of a store: a map from identity to the live challenge.
pub type OtpChallenges = Map<u128, OtpChallengeView>;

/// The challenge that is live for `identity_id`, if any.
pub open spec fn otp_challenge_for(challenges: OtpChallenges, identity_id: u128) -> Option<
    OtpChallengeView,
> {
    if challenges.dom().contains(identity_id) {
        Some(challenges[identity_id])
    } else {
        None
    }
}

/// The challenge that an issuance at `at` writes: no attempt made yet.
pub open spec fn issued_otp(identity_id: u128, otp_hash: Seq<char>, at: u64) -> OtpChallengeView {
    OtpChallengeView {
        identity_id,
        otp_hash,
        expires_at: (at + CHALLENGE_TTL_SECONDS) as u64,
        attempts: 0,
        created_at: at,
    }
}

/// How a submission is judged once the hasher has compared the code with
/// the stored hash, in this order: no challenge; attempts used up; expired;
/// and only then the comparison. `matched` is the hasher's word: `None`
/// where it could not read the hash, which is an internal failure, never a
/// success.
pub open spec fn otp_step(found: Option<OtpChallengeView>, matched: Option<bool>, at: u64) -> Result<
    OtpOutcome,
    ApiErrorView,
> {
    match found {
        None => Ok(OtpOutcome::NoChallenge),
        Some(challenge) => if challenge.attempts >= MAX_ATTEMPTS {
            Ok(OtpOutcome::AttemptsExhausted)
        } else if at > challenge.expires_at {
            Ok(OtpOutcome::Expired)
        } else {
            match matched {
                Some(true) => Ok(OtpOutcome::Verified),
                Some(false) => Ok(OtpOutcome::Invalid),
                None => Err(ApiErrorView::Internal("Failed to verify secret"@)),
            }
        },
    }
}

/// The challenge after a submission was judged: gone once verified,
/// expired or exhausted; one attempt further after a wrong code; untouched
/// where the hasher failed.
pub open spec fn otp_after_step(found: Option<OtpChallengeView>, matched: Option<bool>, at: u64) -> Option<
    OtpChallengeView,
> {
    match otp_step(found, matched, at) {
        Ok(OtpOutcome::Invalid) => Some(
            OtpChallengeView { attempts: (found->0.attempts + 1) as u32, ..found->0 },
        ),
        Ok(_) => None,
        Err(_) => found,
    }
}

/// The hasher's word on a code against the challenge found.
pub open spec fn hash_verdict(found: Option<OtpChallengeView>, code: Seq<char>) -> Option<bool> {
    match found {
        Some(challenge) => bcrypt_verdict(code, challenge.otp_hash),
        None => None,
    }
}

/// How a code is judged against the challenge found.
pub open spec fn otp_verdict(found: Option<OtpChallengeView>, code: Seq<char>, at: u64) -> Result<
    OtpOutcome,
    ApiErrorView,
> {
    otp_step(found, hash_verdict(found, code), at)
}

/// The challenge after a code was judged.
pub open spec fn otp_after(found: Option<OtpChallengeView>, code: Seq<char>, at: u64) -> Option<
    OtpChallengeView,
> {
    otp_after_step(found, hash_verdict(found, code), at)
}

/// The store after a submission for `identity_id` was judged from the
/// hasher's word.
pub open spec fn after_step(
    challenges: OtpChallenges,
    identity_id: u128,
    matched: Option<bool>,
    at: u64,
) -> OtpChallenges {
    match otp_after_step(otp_challenge_for(challenges, identity_id), matched, at) {
        Some(next) => challenges.insert(identity_id, next),
        None => challenges.remove(identity_id),
    }
}

/// The store after a code was submitted for `identity_id`.
pub open spec fn after_verify(
    challenges: OtpChallenges,
    identity_id: u128,
    code: Seq<char>,
    at: u64,
) -> OtpChallenges {
    after_step(
        challenges,
        identity_id,
        hash_verdict(otp_challenge_for(challenges, identity_id), code),
        at,
    )
}

/// Whether a code is one that is drawn: a number from 100000 to 999999,
/// written in decimal.
pub open spec fn is_drawn_code(code: Seq<char>) -> bool {
    exists|n: u32| OTP_MIN <= n <= OTP_MAX && code == #[trigger] six_digits(n)
}

/// Whether a challenge is what issuing `code` to `identity_id` writes at
/// an instant that the clock can read: the hash of the code, no attempt
/// made, created at that instant and expiring five minutes later.
pub open spec fn is_fresh_challenge(
    challenge: OtpChallengeView,
    identity_id: u128,
    code: Seq<char>,
) -> bool {
    is_hash_of(code, challenge.otp_hash) && exists|at: u64|
        at <= i64::MAX && challenge == #[trigger] issued_otp(identity_id, challenge.otp_hash, at)
}

/// Whether a challenge is stale at `at`: its expiry has passed.
pub open spec fn is_stale(challenge: OtpChallengeView, at: u64) -> bool {
    challenge.expires_at < at
}

/// The store after the stale challenges were collected.
pub open spec fn after_cleanup(challenges: OtpChallenges, at: u64) -> OtpChallenges {
    Map::new(
        |id: u128| challenges.dom().contains(id) && !is_stale(challenges[id], at),
        |id: u128| challenges[id],
    )
}

/// The stale challenges of a store.
pub open spec fn stale_ids(challenges: OtpChallenges, at: u64) -> Set<u128> {
    Set::new(|id: u128| challenges.dom().contains(id) && is_stale(challenges[id], at))
}

/// Whether a text is a passcode: six decimal digits.
pub open spec fn is_otp_format(code: Seq<char>) -> bool {
    code.len() == OTP_LENGTH && forall|i: int|
        0 <= i < code.len() ==> 48 <= (#[trigger] code[i]) as u32 <= 57
}

/// The character of a decimal digit.
pub open spec fn digit_char(d: int) -> char {
    ((48 + d) as u8) as char
}

/// The six decimal digits of a number below a million, the highest first.
pub open spec fn six_digits(n: u32) -> Seq<char> {
    seq![
        digit_char(n as int / 100000 % 10),
        digit_char(n as int / 10000 % 10),
        digit_char(n as int / 1000 % 10),
        digit_char(n as int / 100 % 10),
        digit_char(n as int / 10 % 10),
        digit_char(n as int % 10),
    ]
}

/// The text of one decimal digit.
fn digit_str(d: u32) -> (s: &'static str)
    requires
        d < 10,
    ensures
        s@ == seq![digit_char(d as int)],
{
    proof {
        reveal_strlit("0");
        reveal_strlit("1");
        reveal_strlit("2");
        reveal_strlit("3");
        reveal_strlit("4");
        reveal_strlit("5");
        reveal_strlit("6");
        reveal_strlit("7");
        reveal_strlit("8");
        reveal_strlit("9");
    }
    let s = match d {
        0 => "0",
        1 => "1",
        2 => "2",
        3 => "3",
        4 => "4",
        5 => "5",
        6 => "6",
        7 => "7",
        8 => "8",
        _ => "9",
    };
    assert(s@ =~= seq![digit_char(d as int)]);
    s
}

/// Writes a number below a million as six decimal digits.
pub fn format_otp(n: u32) -> (code: String)
    requires
        n <= OTP_MAX,
    ensures
        code@ == six_digits(n),
        is_otp_format(code@),
{
    let mut code = String::new();
    code.append(digit_str(n / 100000 % 10));
    code.append(digit_str(n / 10000 % 10));
    code.append(digit_str(n / 1000 % 10));
    code.append(digit_str(n / 100 % 10));
    code.append(digit_str(n / 10 % 10));
    code.append(digit_str(n % 10));
    assert(code@ =~= six_digits(n));
    code
}

/// Draws a passcode uniformly from the six-digit numbers.
pub fn generate_otp() -> (code: String)
    ensures
        is_otp_format(code@),
        is_drawn_code(code@),
        exists|n: u32| OTP_MIN <= n <= OTP_MAX && code@ == #[trigger] six_digits(n),
{
    let n = random_in(OTP_MIN, OTP_MAX);
    format_otp(n)
}

/// Whether a submitted text has the form of a passcode.
pub fn is_valid_otp_format(code: &str) -> (valid: bool)
    ensures
        valid == is_otp_format(code@),
{
    if code.unicode_len() != OTP_LENGTH {
        return false;
    }
    let mut i: usize = 0;
    while i < OTP_LENGTH
        invariant
            i <= OTP_LENGTH,
            code@.len() == OTP_LENGTH,
            forall|j: int| 0 <= j < i ==> 48 <= (#[trigger] code@[j]) as u32 <= 57,
        decreases OTP_LENGTH - i,
    {
        let c = code.get_char(i);
        if !(c >= '0' && c <= '9') {
            return false;
        }
        i += 1;
    }
    true
}

/// Judges a submission from the hasher's word on it and gives the verdict
/// together with what the challenge becomes.
pub fn step_otp(found: Option<OtpChallenge>, matched: Option<bool>, at: u64) -> (r: (
    Result<OtpOutcome, ApiError>,
    Option<OtpChallenge>,
))
    ensures
        result_view(r.0) == otp_step(option_view(found), matched, at),
        option_view(r.1) == otp_after_step(option_view(found), matched, at),
{
    match found {
        None => (Ok(OtpOutcome::NoChallenge), None),
        Some(challenge) => {
            if challenge.attempts >= MAX_ATTEMPTS {
                (Ok(OtpOutcome::AttemptsExhausted), None)
            } else if at > challenge.expires_at {
                (Ok(OtpOutcome::Expired), None)
            } else {
                match matched {
                    Some(true) => (Ok(OtpOutcome::Verified), None),
                    Some(false) => {
                        let next = OtpChallenge {
                            identity_id: challenge.identity_id,
                            otp_hash: challenge.otp_hash,
                            expires_at: challenge.expires_at,
                            attempts: challenge.attempts + 1,
                            created_at: challenge.created_at,
                        };
                        (Ok(OtpOutcome::Invalid), Some(next))
                    },
                    None => (Err(ApiError::internal("Failed to verify secret")), Some(challenge)),
                }
            }
        },
    }
}

/// Whether a challenge is still open to a comparison at `at`: it has
/// attempts left and has not expired.
pub fn is_open(challenge: &OtpChallenge, at: u64) -> (open: bool)
    ensures
        open == (challenge.attempts < MAX_ATTEMPTS && at <= challenge.expires_at),
{
    challenge.attempts < MAX_ATTEMPTS && at <= challenge.expires_at
}

/// Judges `code` against the challenge found and gives the verdict together
/// with what the challenge becomes. The hasher is asked only where the
/// challenge is still open.
pub fn judge_otp(found: Option<OtpChallenge>, code: &str, at: u64) -> (r: (
    Result<OtpOutcome, ApiError>,
    Option<OtpChallenge>,
))
    ensures
        result_view(r.0) == otp_verdict(option_view(found), code@, at),
        option_view(r.1) == otp_after(option_view(found), code@, at),
{
    let matched = match &found {
        None => None,
        Some(challenge) => {
            if is_open(challenge, at) {
                match SecretHasher::verify(code, challenge.otp_hash.as_str()) {
                    Ok(matched) => Some(matched),
                    Err(_) => None,
                }
            } else {
                None
            }
        },
    };
    step_otp(found, matched, at)
}

/// The view of a challenge that may be absent.
pub open spec fn option_view(found: Option<OtpChallenge>) -> Option<OtpChallengeView> {
    match found {
        Some(challenge) => Some(challenge@),
        None => None,
    }
}

/// The entry that a row stands for in the map.
pub open spec fn otp_entry(row: OtpChallenge) -> (u128, OtpChallengeView) {
    (row.identity_id, row@)
}

/// Issues passcodes and verifies each at most once.
pub struct OtpChallengeStore {
    rows: Vec<OtpChallenge>,
}

impl View for OtpChallengeStore {
    type V = OtpChallenges;

    closed spec fn view(&self) -> OtpChallenges {
        assoc_map(self.entries())
    }
}

impl OtpChallengeStore {
    spec fn entries(&self) -> Seq<(u128, OtpChallengeView)> {
        self.rows@.map_values(|row: OtpChallenge| otp_entry(row))
    }

    /// At most one live challenge to an identity, and no challenge with more
    /// attempts than are allowed: every constructor establishes it and every
    /// method keeps it.
    pub closed spec fn wf(&self) -> bool {
        &&& keys_distinct(self.entries())
        &&& forall|i: int| 0 <= i < self.rows.len() ==> (#[trigger] self.rows[i]).attempts <= MAX_ATTEMPTS
    }

    /// In a well-formed store every challenge sits under its own identity
    /// and has made at most `MAX_ATTEMPTS` attempts.
    pub proof fn lemma_attempts_bounded(&self, identity_id: u128)
        requires
            self.wf(),
            self@.dom().contains(identity_id),
        ensures
            self@[identity_id].attempts <= MAX_ATTEMPTS,
            self@[identity_id].identity_id == identity_id,
    {
        lemma_assoc_dom(self.entries(), identity_id);
        let i = choose|i: int| 0 <= i < self.entries().len() && (#[trigger] self.entries()[i]).0 == identity_id;
        lemma_assoc_value(self.entries(), i);
        assert(self.rows[i].attempts <= MAX_ATTEMPTS);
    }

    /// A store with no challenge in it.
    pub fn new() -> (store: Self)
        ensures
            store.wf(),
            store@ == Map::<u128, OtpChallengeView>::empty(),
    {
        let store = OtpChallengeStore { rows: Vec::new() };
        assert(store.entries() =~= Seq::empty());
        store
    }

    /// Where the row of `identity_id` sits.
    fn position(&self, identity_id: u128) -> (at: Option<usize>)
        ensures
            match at {
                Some(i) => i < self.rows.len() && self.rows[i as int].identity_id == identity_id,
                None => !has_key(self.entries(), identity_id),
            },
    {
        let mut i: usize = 0;
        while i < self.rows.len()
            invariant
                i <= self.rows.len(),
                forall|j: int| 0 <= j < i ==> self.rows[j].identity_id != identity_id,
            decreases self.rows.len() - i,
        {
            if self.rows[i].identity_id == identity_id {
                return Some(i);
            }
            i += 1;
        }
        assert(!has_key(self.entries(), identity_id)) by {
            if has_key(self.entries(), identity_id) {
                let j = choose|j: int| 0 <= j < self.entries().len() && (#[trigger] self.entries()[j]).0 == identity_id;
                assert(self.rows[j].identity_id == identity_id);
            }
        }
        None
    }

    /// The challenge that is live for `identity_id`, if any.
    pub fn get(&self, identity_id: u128) -> (found: Option<&OtpChallenge>)
        requires
            self.wf(),
        ensures
            match found {
                Some(challenge) => otp_challenge_for(self@, identity_id) == Some(challenge@),
                None => otp_challenge_for(self@, identity_id) is None,
            },
    {
        proof {
            lemma_assoc_dom(self.entries(), identity_id);
        }
        match self.position(identity_id) {
            Some(i) => {
                proof {
                    lemma_assoc_value(self.entries(), i as int);
                }
                Some(&self.rows[i])
            },
            None => None,
        }
    }

    /// Takes the row of `identity_id` out of the store, if there is one.
    fn take(&mut self, identity_id: u128) -> (found: Option<OtpChallenge>)
        requires
            old(self).wf(),
        ensures
            final(self).wf(),
            option_view(found) == otp_challenge_for(old(self)@, identity_id),
            final(self)@ == old(self)@.remove(identity_id),
            !has_key(final(self).entries(), identity_id),
            found matches Some(c) ==> c.attempts <= MAX_ATTEMPTS && c.identity_id == identity_id,
    {
        proof {
            lemma_assoc_dom(self.entries(), identity_id);
        }
        let ghost before = self.entries();
        match self.position(identity_id) {
            Some(i) => {
                proof {
                    lemma_assoc_value(before, i as int);
                    lemma_assoc_remove(before, i as int);
                }
                let row = self.rows.remove(i);
                assert(self.entries() =~= before.remove(i as int));
                Some(row)
            },
            None => {
                assert(final(self)@ =~= old(self)@.remove(identity_id));
                None
            },
        }
    }

    /// Puts a row under a key that the store does not hold.
    fn put(&mut self, row: OtpChallenge)
        requires
            old(self).wf(),
            !has_key(old(self).entries(), row.identity_id),
            row.attempts <= MAX_ATTEMPTS,
        ensures
            final(self).wf(),
            final(self)@ == old(self)@.insert(row.identity_id, row@),
    {
        let ghost before = self.entries();
        proof {
            lemma_assoc_push(before, row.identity_id, row@);
        }
        self.rows.push(row);
        assert(self.entries() =~= before.push((row.identity_id, row@)));
    }

    /// Puts a challenge back as it was persisted, in place of any that is
    /// live for its identity. A challenge that claims more attempts than
    /// are allowed is refused, and nothing changes.
    pub fn restore(&mut self, challenge: OtpChallenge) -> (accepted: bool)
        requires
            old(self).wf(),
        ensures
            final(self).wf(),
            accepted == (challenge.attempts <= MAX_ATTEMPTS),
            final(self)@ == if accepted {
                old(self)@.insert(challenge.identity_id, challenge@)
            } else {
                old(self)@
            },
    {
        if challenge.attempts > MAX_ATTEMPTS {
            return false;
        }
        let _ = self.take(challenge.identity_id);
        self.put(challenge);
        assert(final(self)@ =~= old(self)@.insert(challenge.identity_id, challenge@));
        true
    }

    /// Stores the hash of a code for `identity_id` at the instant `at`: the
    /// new challenge replaces any earlier one and starts with no attempt
    /// made. Returns the expiry.
    pub fn issue_with(&mut self, identity_id: u128, otp_hash: String, at: u64) -> (expires_at: u64)
        requires
            old(self).wf(),
            at + CHALLENGE_TTL_SECONDS <= u64::MAX,
        ensures
            final(self).wf(),
            final(self)@ == old(self)@.insert(identity_id, issued_otp(identity_id, otp_hash@, at)),
            expires_at == at + CHALLENGE_TTL_SECONDS,
    {
        let _ = self.take(identity_id);
        let expires_at = at + CHALLENGE_TTL_SECONDS;
        self.put(OtpChallenge { identity_id, otp_hash, expires_at, attempts: 0, created_at: at });
        assert(final(self)@ =~= old(self)@.insert(
            identity_id,
            issued_otp(identity_id, otp_hash@, at),
        ));
        expires_at
    }

    /// Hashes `code` and stores the hash for `identity_id` at the instant
    /// `at`. Where the hasher fails nothing changes and the error is
    /// `Internal`; otherwise the stored hash is one that `code` verifies
    /// against, and the result is the expiry.
    pub fn issue_at(&mut self, identity_id: u128, code: &str, at: u64) -> (r: Result<u64, ApiError>)
        requires
            old(self).wf(),
            at + CHALLENGE_TTL_SECONDS <= u64::MAX,
        ensures
            final(self).wf(),
            match r {
                Ok(expires_at) => expires_at == at + CHALLENGE_TTL_SECONDS && exists|hash: Seq<char>|
                    #![trigger issued_otp(identity_id, hash, at)]
                    is_hash_of(code@, hash) && final(self)@ == old(self)@.insert(
                        identity_id,
                        issued_otp(identity_id, hash, at),
                    ),
                Err(e) => e@ == ApiErrorView::Internal("Failed to hash secret"@) && final(self)@
                    == old(self)@,
            },
    {
        match SecretHasher::hash(code) {
            Err(e) => Err(e),
            Ok(hash) => {
                let ghost h = hash@;
                let expires_at = self.issue_with(identity_id, hash, at);
                assert(final(self)@ == old(self)@.insert(identity_id, issued_otp(identity_id, h, at)));
                Ok(expires_at)
            },
        }
    }

    /// Draws a fresh code, a number from 100000 to 999999, stores its hash
    /// for `identity_id` at the current time with no attempt made, and
    /// returns the code with its expiry, five minutes on. The code goes to
    /// the identity out of band; only its hash stays here, and the hash is
    /// not the code.
    pub fn issue(&mut self, identity_id: u128) -> (r: Result<(String, u64), ApiError>)
        requires
            old(self).wf(),
        ensures
            final(self).wf(),
            match r {
                Ok((code, expires_at)) => ({
                    let found = otp_challenge_for(final(self)@, identity_id);
                    &&& is_otp_format(code@)
                    &&& is_drawn_code(code@)
                    &&& found is Some
                    &&& is_fresh_challenge(found->0, identity_id, code@)
                    &&& found->0.attempts == 0
                    &&& found->0.expires_at == expires_at
                    &&& found->0.otp_hash != code@
                    &&& bcrypt_verdict(code@, found->0.otp_hash) == Some(true)
                    &&& final(self)@ == old(self)@.insert(identity_id, found->0)
                }),
                Err(e) => e@ == ApiErrorView::Internal("Failed to hash secret"@) && final(self)@
                    == old(self)@,
            },
    {
        let at = now();
        let code = generate_otp();
        match self.issue_at(identity_id, code.as_str(), at) {
            Ok(expires_at) => {
                proof {
                    lemma_issued_is_fresh(old(self)@, final(self)@, identity_id, code@, at);
                }
                Ok((code, expires_at))
            },
            Err(e) => Err(e),
        }
    }

    /// Judges `code` for `identity_id` at the instant `at` and advances the
    /// challenge in the same step: deleted once verified, expired or
    /// exhausted; one attempt further after a wrong code; untouched where
    /// the hasher failed.
    pub fn verify_at(&mut self, identity_id: u128, code: &str, at: u64) -> (r: Result<
        OtpOutcome,
        ApiError,
    >)
        requires
            old(self).wf(),
        ensures
            final(self).wf(),
            match r {
                Ok(outcome) => otp_verdict(otp_challenge_for(old(self)@, identity_id), code@, at)
                    == Ok::<OtpOutcome, ApiErrorView>(outcome),
                Err(e) => otp_verdict(otp_challenge_for(old(self)@, identity_id), code@, at)
                    == Err::<OtpOutcome, ApiErrorView>(e@),
            },
            final(self)@ == after_verify(old(self)@, identity_id, code@, at),
    {
        let found = self.take(identity_id);
        let (verdict, next) = judge_otp(found, code, at);
        match next {
            Some(row) => {
                self.put(row);
            },
            None => {},
        }
        assert(final(self)@ =~= after_verify(old(self)@, identity_id, code@, at));
        verdict
    }

    /// Judges `code` for `identity_id` at the current time.
    pub fn verify(&mut self, identity_id: u128, code: &str) -> (r: Result<OtpOutcome, ApiError>)
        requires
            old(self).wf(),
        ensures
            final(self).wf(),
            exists|at: u64|
                at <= i64::MAX && final(self)@ == #[trigger] after_verify(old(self)@, identity_id, code@, at) && (match r {
                    Ok(outcome) => otp_verdict(
                        otp_challenge_for(old(self)@, identity_id),
                        code@,
                        at,
                    ) == Ok::<OtpOutcome, ApiErrorView>(outcome),
                    Err(e) => otp_verdict(otp_challenge_for(old(self)@, identity_id), code@, at)
                        == Err::<OtpOutcome, ApiErrorView>(e@),
                }),
    {
        let at = now();
        self.verify_at(identity_id, code, at)
    }

    /// Deletes every challenge whose expiry has passed at `at` and returns
    /// how many were deleted. Every other challenge stays as it was.
    pub fn cleanup_expired_at(&mut self, at: u64) -> (count: u64)
        requires
            old(self).wf(),
        ensures
            final(self).wf(),
            final(self)@ == after_cleanup(old(self)@, at),
            old(self)@.dom().finite(),
            count == stale_ids(old(self)@, at).len(),
    {
        let ghost start = self@;
        proof {
            lemma_finite(self.entries());
            lemma_partition(start, at);
        }
        let mut removed: u64 = 0;
        let mut i: usize = 0;
        while i < self.rows.len()
            invariant
                self.wf(),
                i <= self.rows.len(),
                forall|j: int| 0 <= j < i ==> !is_stale((#[trigger] self.rows[j])@, at),
                after_cleanup(self@, at) == after_cleanup(start, at),
                self@.dom().finite(),
                start.dom().finite(),
                self@.dom().subset_of(start.dom()),
                removed + self@.dom().len() == start.dom().len(),
                removed + self.rows.len() <= usize::MAX,
            decreases self.rows.len() - i,
        {
            if self.rows[i].expires_at < at {
                let ghost before = self.entries();
                let ghost map_before = self@;
                proof {
                    lemma_assoc_value(before, i as int);
                    lemma_assoc_remove(before, i as int);
                }
                self.rows.remove(i);
                assert(self.entries() =~= before.remove(i as int));
                assert(after_cleanup(self@, at) =~= after_cleanup(map_before, at));
                removed += 1;
            } else {
                i += 1;
            }
        }
        proof {
            assert(after_cleanup(self@, at) =~= self@) by {
                assert forall|id: u128| self@.dom().contains(id) implies !is_stale(
                    #[trigger] self@[id],
                    at,
                ) by {
                    lemma_assoc_dom(self.entries(), id);
                    let j = choose|j: int| 0 <= j < self.entries().len() && (#[trigger] self.entries()[j]).0 == id;
                    lemma_assoc_value(self.entries(), j);
                    assert(!is_stale(self.rows[j]@, at));
                }
            }
        }
        removed
    }

    /// Deletes every challenge whose expiry has passed at the current time.
    pub fn cleanup_expired(&mut self) -> (count: u64)
        requires
            old(self).wf(),
        ensures
            final(self).wf(),
            exists|at: u64|
                at <= i64::MAX && final(self)@ == #[trigger] after_cleanup(old(self)@, at) && count == stale_ids(
                    old(self)@,
                    at,
                ).len(),
    {
        let at = now();
        self.cleanup_expired_at(at)
    }
}

/// Three wrong codes exhaust a challenge. Whatever the store held, after a
/// challenge is issued each of three submissions that the hasher finds
/// wrong, made before the expiry, is judged `Invalid` and counted, so that
/// the attempts stand at 1, 2 and 3; the fourth submission is judged
/// `AttemptsExhausted` whatever the hasher says of it, the right code
/// included, and whenever it comes, and the challenge is gone afterwards.
pub proof fn law_three_wrong_codes_exhaust(
    challenges: OtpChallenges,
    identity_id: u128,
    otp_hash: Seq<char>,
    issued_at: u64,
    times: Seq<u64>,
    fourth: Option<bool>,
    fourth_at: u64,
)
    requires
        issued_at + CHALLENGE_TTL_SECONDS <= u64::MAX,
        times.len() == 3,
        forall|i: int| 0 <= i < 3 ==> (#[trigger] times[i]) <= issued_at + CHALLENGE_TTL_SECONDS,
    ensures
        ({
            let wrong = Some(false);
            let s0 = challenges.insert(identity_id, issued_otp(identity_id, otp_hash, issued_at));
            let s1 = after_step(s0, identity_id, wrong, times[0]);
            let s2 = after_step(s1, identity_id, wrong, times[1]);
            let s3 = after_step(s2, identity_id, wrong, times[2]);
            let s4 = after_step(s3, identity_id, fourth, fourth_at);
            let invalid = Ok::<OtpOutcome, ApiErrorView>(OtpOutcome::Invalid);
            &&& otp_step(otp_challenge_for(s0, identity_id), wrong, times[0]) == invalid
            &&& otp_challenge_for(s1, identity_id) matches Some(c) && c.attempts == 1
            &&& otp_step(otp_challenge_for(s1, identity_id), wrong, times[1]) == invalid
            &&& otp_challenge_for(s2, identity_id) matches Some(c) && c.attempts == 2
            &&& otp_step(otp_challenge_for(s2, identity_id), wrong, times[2]) == invalid
            &&& otp_challenge_for(s3, identity_id) matches Some(c) && c.attempts == 3
            &&& otp_step(otp_challenge_for(s3, identity_id), fourth, fourth_at) == Ok::<
                OtpOutcome,
                ApiErrorView,
            >(OtpOutcome::AttemptsExhausted)
            &&& !s4.dom().contains(identity_id)
        }),
{
    let t0 = times[0];
    let t1 = times[1];
    let t2 = times[2];
}

/// Fewer than three wrong codes do not exhaust a challenge: a code that
/// the hasher finds right, submitted before the expiry, is then still
/// `Verified`, and spends the challenge.
pub proof fn law_right_code_verifies_before_exhaustion(found: OtpChallengeView, at: u64)
    requires
        found.attempts < MAX_ATTEMPTS,
        at <= found.expires_at,
    ensures
        otp_step(Some(found), Some(true), at) == Ok::<OtpOutcome, ApiErrorView>(
            OtpOutcome::Verified,
        ),
        otp_after_step(Some(found), Some(true), at) is None,
{
}

/// A code that comes after the expiry of a challenge with attempts left is
/// rejected as `Expired`, right or wrong, and the challenge is deleted.
pub proof fn law_expired_code_rejected(found: OtpChallengeView, matched: Option<bool>, at: u64)
    requires
        found.attempts < MAX_ATTEMPTS,
        at > found.expires_at,
    ensures
        otp_step(Some(found), matched, at) == Ok::<OtpOutcome, ApiErrorView>(OtpOutcome::Expired),
        otp_after_step(Some(found), matched, at) is None,
{
}

/// A code verifies at most once: once a submission is `Verified` the
/// challenge is gone, and every later submission finds `NoChallenge`.
pub proof fn law_verified_once(
    challenges: OtpChallenges,
    identity_id: u128,
    matched: Option<bool>,
    first_at: u64,
    again: Option<bool>,
    second_at: u64,
)
    requires
        otp_step(otp_challenge_for(challenges, identity_id), matched, first_at) == Ok::<
            OtpOutcome,
            ApiErrorView,
        >(OtpOutcome::Verified),
    ensures
        otp_step(
            otp_challenge_for(after_step(challenges, identity_id, matched, first_at), identity_id),
            again,
            second_at,
        ) == Ok::<OtpOutcome, ApiErrorView>(OtpOutcome::NoChallenge),
{
}

/// A submission never touches the challenge of another identity.
pub proof fn law_step_is_local(
    challenges: OtpChallenges,
    identity_id: u128,
    other: u128,
    matched: Option<bool>,
    at: u64,
)
    requires
        other != identity_id,
    ensures
        otp_challenge_for(after_step(challenges, identity_id, matched, at), other)
            == otp_challenge_for(challenges, other),
{
}

/// The attempts of a challenge never pass the limit: a step from a
/// challenge within the limit leaves one within the limit, or none.
pub proof fn law_attempts_stay_bounded(found: OtpChallengeView, matched: Option<bool>, at: u64)
    requires
        found.attempts <= MAX_ATTEMPTS,
    ensures
        otp_after_step(Some(found), matched, at) matches Some(next) ==> next.attempts
            <= MAX_ATTEMPTS && next.attempts >= found.attempts,
{
}

/// Collecting stale challenges twice at one instant deletes nothing the
/// second time.
pub proof fn law_cleanup_idempotent(challenges: OtpChallenges, at: u64)
    ensures
        after_cleanup(after_cleanup(challenges, at), at) == after_cleanup(challenges, at),
        stale_ids(after_cleanup(challenges, at), at) == Set::<u128>::empty(),
{
    assert(after_cleanup(after_cleanup(challenges, at), at) =~= after_cleanup(challenges, at));
    assert(stale_ids(after_cleanup(challenges, at), at) =~= Set::<u128>::empty());
}

/// What an issuance at an instant that the clock can read leaves for the
/// identity is a fresh challenge.
pub(crate) proof fn lemma_issued_is_fresh(
    before: OtpChallenges,
    after: OtpChallenges,
    identity_id: u128,
    code: Seq<char>,
    at: u64,
)
    requires
        at <= i64::MAX,
        exists|hash: Seq<char>|
            #![trigger issued_otp(identity_id, hash, at)]
            is_hash_of(code, hash) && after == before.insert(
                identity_id,
                issued_otp(identity_id, hash, at),
            ),
    ensures
        otp_challenge_for(after, identity_id) matches Some(challenge) && is_fresh_challenge(
            challenge,
            identity_id,
            code,
        ) && challenge.attempts == 0 && challenge.expires_at == at + CHALLENGE_TTL_SECONDS
            && after == before.insert(identity_id, challenge) && (code.len() == OTP_LENGTH
            ==> challenge.otp_hash != code),
{
    let hash = choose|hash: Seq<char>|
        #![trigger issued_otp(identity_id, hash, at)]
        is_hash_of(code, hash) && after == before.insert(
            identity_id,
            issued_otp(identity_id, hash, at),
        );
    let challenge = issued_otp(identity_id, hash, at);
    assert(after[identity_id] == challenge);
    assert(challenge == issued_otp(identity_id, challenge.otp_hash, at));
}

/// The keys of a sequence of entries are finitely many.
proof fn lemma_finite<K, V>(s: Seq<(K, V)>)
    ensures
        assoc_map(s).dom().finite(),
    decreases s.len(),
{
    if s.len() > 0 {
        lemma_finite(s.drop_last());
    }
}

/// Collection splits a finite store into what stays and what is stale.
proof fn lemma_partition(challenges: OtpChallenges, at: u64)
    requires
        challenges.dom().finite(),
    ensures
        after_cleanup(challenges, at).dom().finite(),
        stale_ids(challenges, at).finite(),
        after_cleanup(challenges, at).dom().len() + stale_ids(challenges, at).len()
            == challenges.dom().len(),
{
    let kept = after_cleanup(challenges, at).dom();
    let stale = stale_ids(challenges, at);
    assert(kept.subset_of(challenges.dom()));
    assert(stale.subset_of(challenges.dom()));
    vstd::set_lib::lemma_len_subset(kept, challenges.dom());
    vstd::set_lib::lemma_len_subset(stale, challenges.dom());
    assert(kept.disjoint(stale));
    assert(kept.union(stale) =~= challenges.dom());
    vstd::set_lib::lemma_set_disjoint_lens(kept, stale);
}

} // verus!
