//! The directory that maps a proven credential to a stable identity.

use vstd::prelude::*;
use vstd::string::StringExecFns;
use crate::api_error::{ApiError, ApiErrorView};
use crate::assoc::{first_match, lemma_first_match_from, lemma_first_match_is_member};
use crate::clock::now;
use crate::hasher::{bcrypt_verdict, SecretHasher};
use crate::random::fresh_id;

verus! {

/// An identity: created on the first proof of a credential, stable after.
#[derive(Debug, Clone, PartialEq, Eq)]
pub struct Identity {
    pub id: u128,
    pub email: String,
    pub password_hash: String,
    pub wallet_address: Option<String>,
    pub created_at: u64,
}

/// An [`Identity`] as plain values.
pub struct IdentityView {
    pub id: u128,
    pub email: Seq<char>,
    pub password_hash: Seq<char>,
    pub wallet_address: Option<Seq<char>>,
    pub created_at: u64,
}

impl View for Identity {
    type V = IdentityView;

    open spec fn view(&self) -> IdentityView {
        IdentityView {
            id: self.id,
            email: self.email@,
            password_hash: self.password_hash@,
            wallet_address: match self.wallet_address {
                Some(a) => Some(a@),
                None => None,
            },
            created_at: self.created_at,
        }
    }
}

/// The placeholder contact of an identity that was proved by key alone.
pub open spec fn derived_email(address: Seq<char>) -> Seq<char> {
    address + "@inheritx.auth"@
}

/// The marker that stands where a password hash would: proof of key, no
/// password. It is no hash, so no password verifies against it.
pub open spec fn proof_of_key_marker() -> Seq<char> {
    "web3-auth-none"@
}

/// The identity that a first login with `address` creates.
pub open spec fn wallet_identity(address: Seq<char>, id: u128, at: u64) -> IdentityView {
    IdentityView {
        id,
        email: derived_email(address),
        password_hash: proof_of_key_marker(),
        wallet_address: Some(address),
        created_at: at,
    }
}

/// The first identity bound to `address`.
pub open spec fn identity_by_address(identities: Seq<IdentityView>, address: Seq<char>) -> Option<
    IdentityView,
> {
    first_match(identities, |i: IdentityView| i.wallet_address == Some(address))
}

/// The first identity with the contact `email`.
pub open spec fn identity_by_email(identities: Seq<IdentityView>, email: Seq<char>) -> Option<
    IdentityView,
> {
    first_match(identities, |i: IdentityView| i.email == email)
}

/// The first identity with the identifier `id`.
pub open spec fn identity_by_id(identities: Seq<IdentityView>, id: u128) -> Option<IdentityView> {
    first_match(identities, |i: IdentityView| i.id == id)
}

/// The directory after `address` was resolved: unchanged where an identity
/// was bound to it, one identity longer where none was.
pub open spec fn after_resolve(
    identities: Seq<IdentityView>,
    address: Seq<char>,
    fresh: u128,
    at: u64,
) -> Seq<IdentityView> {
    match identity_by_address(identities, address) {
        Some(_) => identities,
        None => identities.push(wallet_identity(address, fresh, at)),
    }
}

/// The identity that resolving `address` gives.
pub open spec fn resolved_identity(
    identities: Seq<IdentityView>,
    address: Seq<char>,
    fresh: u128,
    at: u64,
) -> IdentityView {
    match identity_by_address(identities, address) {
        Some(found) => found,
        None => wallet_identity(address, fresh, at),
    }
}

/// No address is bound to two identities.
pub open spec fn addresses_distinct(identities: Seq<IdentityView>) -> bool {
    forall|i: int, j: int|
        0 <= i < j < identities.len() && (#[trigger] identities[i]).wallet_address is Some
            ==> identities[i].wallet_address != (#[trigger] identities[j]).wallet_address
}

/// How a sign-in is judged once the hasher has compared the password with
/// the stored hash: an unknown contact or a wrong password is
/// `Unauthorized`; a stored hash that the hasher could not read, `None`, is
/// `Internal`.
pub open spec fn password_step(found: Option<IdentityView>, matched: Option<bool>) -> Result<
    IdentityView,
    ApiErrorView,
> {
    match found {
        None => Err(ApiErrorView::Unauthorized),
        Some(identity) => match matched {
            None => Err(ApiErrorView::Internal("Failed to verify secret"@)),
            Some(false) => Err(ApiErrorView::Unauthorized),
            Some(true) => Ok(identity),
        },
    }
}

/// How a sign-in by contact and password is judged.
pub open spec fn password_verdict(
    identities: Seq<IdentityView>,
    email: Seq<char>,
    password: Seq<char>,
) -> Result<IdentityView, ApiErrorView> {
    let found = identity_by_email(identities, email);
    password_step(
        found,
        match found {
            Some(identity) => bcrypt_verdict(password, identity.password_hash),
            None => None,
        },
    )
}

/// Judges a sign-in from the identity found and the hasher's word.
pub fn judge_password<'a>(found: Option<&'a Identity>, matched: Option<bool>) -> (r: Result<
    &'a Identity,
    ApiError,
>)
    ensures
        match r {
            Ok(identity) => found is Some && password_step(Some(found->0@), matched) == Ok::<
                IdentityView,
                ApiErrorView,
            >(identity@),
            Err(e) => password_step(
                match found {
                    Some(i) => Some(i@),
                    None => None,
                },
                matched,
            ) == Err::<IdentityView, ApiErrorView>(e@),
        },
{
    match found {
        None => Err(ApiError::Unauthorized),
        Some(identity) => match matched {
            None => Err(ApiError::internal("Failed to verify secret")),
            Some(false) => Err(ApiError::Unauthorized),
            Some(true) => Ok(identity),
        },
    }
}

/// The identities known to the system.
pub struct IdentityDirectory {
    rows: Vec<Identity>,
}

impl View for IdentityDirectory {
    type V = Seq<IdentityView>;

    closed spec fn view(&self) -> Seq<IdentityView> {
        self.rows@.map_values(|row: Identity| row@)
    }
}

impl IdentityDirectory {
    /// At most one identity to an address: every constructor establishes it
    /// and every method keeps it.
    pub open spec fn wf(&self) -> bool {
        addresses_distinct(self@)
    }

    /// A directory with no identity in it.
    pub fn new() -> (directory: Self)
        ensures
            directory.wf(),
            directory@ == Seq::<IdentityView>::empty(),
    {
        let directory = IdentityDirectory { rows: Vec::new() };
        assert(directory@ =~= Seq::empty());
        directory
    }

    /// The number of identities.
    pub fn len(&self) -> (n: usize)
        ensures
            n == self@.len(),
    {
        self.rows.len()
    }

    /// Where the first identity bound to `address` sits.
    fn position_by_address(&self, address: &String) -> (at: Option<usize>)
        ensures
            match at {
                Some(i) => i < self.rows.len() && identity_by_address(self@, address@) == Some(
                    self.rows[i as int]@,
                ) && self.rows[i as int]@.wallet_address == Some(address@),
                None => identity_by_address(self@, address@) is None,
            },
    {
        let ghost p = |i: IdentityView| i.wallet_address == Some(address@);
        let mut i: usize = 0;
        while i < self.rows.len()
            invariant
                i <= self.rows.len(),
                p == |i: IdentityView| i.wallet_address == Some(address@),
                forall|j: int| 0 <= j < i ==> !p(#[trigger] self@[j]),
            decreases self.rows.len() - i,
        {
            let hit = match &self.rows[i].wallet_address {
                Some(a) => *a == *address,
                None => false,
            };
            if hit {
                proof {
                    assert(p(self@[i as int]));
                    lemma_first_match_from(self@, p, i as int);
                }
                return Some(i);
            }
            assert(!p(self@[i as int]));
            i += 1;
        }
        proof {
            lemma_first_match_from(self@, p, i as int);
        }
        None
    }

    /// The first identity with the contact `email`.
    pub fn find_by_email(&self, email: &str) -> (found: Option<&Identity>)
        ensures
            match found {
                Some(identity) => identity_by_email(self@, email@) == Some(identity@),
                None => identity_by_email(self@, email@) is None,
            },
    {
        let key = email.to_owned();
        let ghost p = |i: IdentityView| i.email == email@;
        let mut i: usize = 0;
        while i < self.rows.len()
            invariant
                i <= self.rows.len(),
                key@ == email@,
                p == |i: IdentityView| i.email == email@,
                forall|j: int| 0 <= j < i ==> !p(#[trigger] self@[j]),
            decreases self.rows.len() - i,
        {
            if self.rows[i].email == key {
                proof {
                    assert(p(self@[i as int]));
                    lemma_first_match_from(self@, p, i as int);
                }
                return Some(&self.rows[i]);
            }
            assert(!p(self@[i as int]));
            i += 1;
        }
        proof {
            lemma_first_match_from(self@, p, i as int);
        }
        None
    }

    /// The first identity with the identifier `id`.
    pub fn find_by_id(&self, id: u128) -> (found: Option<&Identity>)
        ensures
            match found {
                Some(identity) => identity_by_id(self@, id) == Some(identity@),
                None => identity_by_id(self@, id) is None,
            },
    {
        let ghost p = |i: IdentityView| i.id == id;
        let mut i: usize = 0;
        while i < self.rows.len()
            invariant
                i <= self.rows.len(),
                p == |i: IdentityView| i.id == id,
                forall|j: int| 0 <= j < i ==> !p(#[trigger] self@[j]),
            decreases self.rows.len() - i,
        {
            if self.rows[i].id == id {
                proof {
                    assert(p(self@[i as int]));
                    lemma_first_match_from(self@, p, i as int);
                }
                return Some(&self.rows[i]);
            }
            assert(!p(self@[i as int]));
            i += 1;
        }
        proof {
            lemma_first_match_from(self@, p, i as int);
        }
        None
    }

    /// The first identity bound to `address`.
    pub fn find_by_address(&self, address: &str) -> (found: Option<&Identity>)
        ensures
            match found {
                Some(identity) => identity_by_address(self@, address@) == Some(identity@),
                None => identity_by_address(self@, address@) is None,
            },
    {
        let key = address.to_owned();
        match self.position_by_address(&key) {
            Some(i) => Some(&self.rows[i]),
            None => None,
        }
    }

    /// Adds an identity that signs in by contact and password. It is bound
    /// to no address.
    pub fn register(&mut self, id: u128, email: &str, password_hash: &str, at: u64)
        requires
            old(self).wf(),
        ensures
            final(self).wf(),
            final(self)@ == old(self)@.push(
                IdentityView {
                    id,
                    email: email@,
                    password_hash: password_hash@,
                    wallet_address: None,
                    created_at: at,
                },
            ),
    {
        let row = Identity {
            id,
            email: email.to_owned(),
            password_hash: password_hash.to_owned(),
            wallet_address: None,
            created_at: at,
        };
        let ghost before = self@;
        self.rows.push(row);
        assert(self@ =~= before.push(row@));
    }

    /// Puts an identity back as it was persisted. An identity whose
    /// address is already bound is refused, and nothing changes.
    pub fn restore(&mut self, identity: Identity) -> (accepted: bool)
        requires
            old(self).wf(),
        ensures
            final(self).wf(),
            accepted == match identity@.wallet_address {
                Some(address) => identity_by_address(old(self)@, address) is None,
                None => true,
            },
            final(self)@ == if accepted {
                old(self)@.push(identity@)
            } else {
                old(self)@
            },
    {
        let ghost before = self@;
        match &identity.wallet_address {
            Some(address) => {
                let ghost p = |i: IdentityView| i.wallet_address == Some(address@);
                if self.position_by_address(address).is_some() {
                    return false;
                }
                proof {
                    lemma_first_match_is_member(before, p);
                    assert forall|j: int| 0 <= j < before.len() implies (
                    #[trigger] before[j]).wallet_address != Some(address@) by {
                        assert(!p(before[j]));
                    }
                }
            },
            None => {},
        }
        self.rows.push(identity);
        proof {
            assert(self@ =~= before.push(identity@));
            assert(addresses_distinct(self@)) by {
                assert forall|a: int, b: int|
                    0 <= a < b < self@.len() && (
                    #[trigger] self@[a]).wallet_address is Some implies self@[a].wallet_address
                    != (#[trigger] self@[b]).wallet_address by {
                    if b < before.len() {
                        assert(before[a].wallet_address != before[b].wallet_address);
                    } else {
                        assert(self@[a] == before[a]);
                    }
                }
            }
        }
        true
    }

    /// Finds the identity bound to `address`, or creates one with the
    /// identifier `fresh`, a contact derived from the address and the marker
    /// of a proof by key. Returns the identifier and the contact.
    ///
    /// The lookup and the insertion are one step on an exclusive directory,
    /// so two first logins with one address cannot both create an identity.
    pub fn resolve_or_create_with(&mut self, address: &str, fresh: u128, at: u64) -> (r: (
        u128,
        String,
    ))
        requires
            old(self).wf(),
        ensures
            final(self).wf(),
            final(self)@ == after_resolve(old(self)@, address@, fresh, at),
            r.0 == resolved_identity(old(self)@, address@, fresh, at).id,
            r.1@ == resolved_identity(old(self)@, address@, fresh, at).email,
            identity_by_address(final(self)@, address@) == Some(
                resolved_identity(old(self)@, address@, fresh, at),
            ),
    {
        let key = address.to_owned();
        let ghost before = self@;
        let ghost p = |i: IdentityView| i.wallet_address == Some(address@);
        match self.position_by_address(&key) {
            Some(i) => (self.rows[i].id, self.rows[i].email.clone()),
            None => {
                let email = key.clone().concat("@inheritx.auth");
                let row = Identity {
                    id: fresh,
                    email: email.clone(),
                    password_hash: "web3-auth-none".to_owned(),
                    wallet_address: Some(key),
                    created_at: at,
                };
                proof {
                    lemma_first_match_is_member(before, p);
                }
                self.rows.push(row);
                proof {
                    assert(self@ =~= before.push(row@));
                    assert(row@ == wallet_identity(address@, fresh, at));
                    assert forall|j: int| 0 <= j < before.len() implies !p(
                        #[trigger] self@[j],
                    ) by {
                        assert(self@[j] == before[j]);
                    }
                    lemma_first_match_from(self@, p, before.len() as int);
                    assert(addresses_distinct(self@)) by {
                        assert forall|a: int, b: int|
                            0 <= a < b < self@.len() && (
                            #[trigger] self@[a]).wallet_address is Some implies self@[a].wallet_address
                            != (#[trigger] self@[b]).wallet_address by {
                            if b < before.len() {
                                assert(before[a].wallet_address != before[b].wallet_address);
                            } else {
                                assert(!p(before[a]));
                            }
                        }
                    }
                }
                (fresh, email)
            },
        }
    }

    /// Finds the identity bound to `address`, or creates one with a random
    /// identifier at the current time. Returns the identifier and the
    /// contact.
    pub fn resolve_or_create_by_address(&mut self, address: &str) -> (r: (u128, String))
        requires
            old(self).wf(),
        ensures
            final(self).wf(),
            exists|fresh: u128, at: u64|
                at <= i64::MAX && final(self)@ == #[trigger] after_resolve(old(self)@, address@, fresh, at) && r.0
                    == resolved_identity(old(self)@, address@, fresh, at).id && r.1@
                    == resolved_identity(old(self)@, address@, fresh, at).email,
    {
        let fresh = fresh_id();
        let at = now();
        self.resolve_or_create_with(address, fresh, at)
    }

    /// Signs an identity in by contact and password. An unknown contact and
    /// a wrong password give the same `Unauthorized`.
    pub fn sign_in(&self, email: &str, password: &str) -> (r: Result<&Identity, ApiError>)
        ensures
            match r {
                Ok(identity) => password_verdict(self@, email@, password@) == Ok::<
                    IdentityView,
                    ApiErrorView,
                >(identity@),
                Err(e) => password_verdict(self@, email@, password@) == Err::<
                    IdentityView,
                    ApiErrorView,
                >(e@),
            },
    {
        let found = self.find_by_email(email);
        let matched = match found {
            None => None,
            Some(identity) => match SecretHasher::verify(password, identity.password_hash.as_str()) {
                Ok(matched) => Some(matched),
                Err(_) => None,
            },
        };
        judge_password(found, matched)
    }

    /// Signs an identity in by contact and password and returns its
    /// identifier.
    pub fn resolve_by_email_password(&self, email: &str, password: &str) -> (r: Result<
        u128,
        ApiError,
    >)
        ensures
            match r {
                Ok(id) => password_verdict(self@, email@, password@) matches Ok(identity)
                    && identity.id == id,
                Err(e) => password_verdict(self@, email@, password@) == Err::<
                    IdentityView,
                    ApiErrorView,
                >(e@),
            },
    {
        match self.sign_in(email, password) {
            Ok(identity) => Ok(identity.id),
            Err(e) => Err(e),
        }
    }
}

/// Resolving an address is idempotent: the first resolution creates at
/// most one identity, and every later one finds that identity and creates
/// nothing, whatever fresh identifier and instant it comes with.
pub proof fn law_resolve_creates_once(
    identities: Seq<IdentityView>,
    address: Seq<char>,
    first_fresh: u128,
    first_at: u64,
    second_fresh: u128,
    second_at: u64,
)
    ensures
        ({
            let once = after_resolve(identities, address, first_fresh, first_at);
            let resolved = resolved_identity(identities, address, first_fresh, first_at);
            &&& identity_by_address(once, address) == Some(resolved)
            &&& after_resolve(once, address, second_fresh, second_at) == once
            &&& resolved_identity(once, address, second_fresh, second_at) == resolved
            &&& once.len() <= identities.len() + 1
        }),
{
    let p = |i: IdentityView| i.wallet_address == Some(address);
    let once = after_resolve(identities, address, first_fresh, first_at);
    if identity_by_address(identities, address) is None {
        lemma_first_match_is_member(identities, p);
        assert forall|j: int| 0 <= j < identities.len() implies !p(#[trigger] once[j]) by {
            assert(once[j] == identities[j]);
        }
        lemma_first_match_from(once, p, identities.len() as int);
    }
}

/// An administrator: a contact, a password hash, a role and a status.
#[derive(Debug, Clone, PartialEq, Eq)]
pub struct Admin {
    pub id: u128,
    pub email: String,
    pub password_hash: String,
    pub role: String,
    pub status: String,
}

/// An [`Admin`] as plain values.
pub struct AdminView {
    pub id: u128,
    pub email: Seq<char>,
    pub password_hash: Seq<char>,
    pub role: Seq<char>,
    pub status: Seq<char>,
}

impl View for Admin {
    type V = AdminView;

    open spec fn view(&self) -> AdminView {
        AdminView {
            id: self.id,
            email: self.email@,
            password_hash: self.password_hash@,
            role: self.role@,
            status: self.status@,
        }
    }
}

/// The first administrator with the contact `email`.
pub open spec fn admin_by_email(admins: Seq<AdminView>, email: Seq<char>) -> Option<AdminView> {
    first_match(admins, |a: AdminView| a.email == email)
}

/// The first administrator with the identifier `id`.
pub open spec fn admin_by_id(admins: Seq<AdminView>, id: u128) -> Option<AdminView> {
    first_match(admins, |a: AdminView| a.id == id)
}

/// How an administrator's sign-in is judged once the hasher has compared
/// the password, in this order: an unknown contact is `Unauthorized`; a
/// locked account is `Forbidden`, before the password is looked at; then
/// the hasher's word decides.
pub open spec fn admin_password_step(found: Option<AdminView>, matched: Option<bool>) -> Result<
    AdminView,
    ApiErrorView,
> {
    match found {
        None => Err(ApiErrorView::Unauthorized),
        Some(admin) => if admin.status == "locked"@ {
            Err(ApiErrorView::Forbidden("Account is locked"@))
        } else {
            match matched {
                None => Err(ApiErrorView::Internal("Failed to verify secret"@)),
                Some(false) => Err(ApiErrorView::Unauthorized),
                Some(true) => Ok(admin),
            }
        },
    }
}

/// How an administrator's sign-in by contact and password is judged.
pub open spec fn admin_password_verdict(
    admins: Seq<AdminView>,
    email: Seq<char>,
    password: Seq<char>,
) -> Result<AdminView, ApiErrorView> {
    let found = admin_by_email(admins, email);
    admin_password_step(
        found,
        match found {
            Some(admin) => bcrypt_verdict(password, admin.password_hash),
            None => None,
        },
    )
}

/// Judges an administrator's sign-in from the account found and the
/// hasher's word.
pub fn judge_admin_password<'a>(found: Option<&'a Admin>, matched: Option<bool>) -> (r: Result<
    &'a Admin,
    ApiError,
>)
    ensures
        match r {
            Ok(admin) => found is Some && admin_password_step(Some(found->0@), matched) == Ok::<
                AdminView,
                ApiErrorView,
            >(admin@),
            Err(e) => admin_password_step(
                match found {
                    Some(a) => Some(a@),
                    None => None,
                },
                matched,
            ) == Err::<AdminView, ApiErrorView>(e@),
        },
{
    match found {
        None => Err(ApiError::Unauthorized),
        Some(admin) => {
            let locked = "locked".to_owned();
            if admin.status == locked {
                Err(ApiError::forbidden("Account is locked"))
            } else {
                match matched {
                    None => Err(ApiError::internal("Failed to verify secret")),
                    Some(false) => Err(ApiError::Unauthorized),
                    Some(true) => Ok(admin),
                }
            }
        },
    }
}

/// The administrators known to the system.
pub struct AdminDirectory {
    rows: Vec<Admin>,
}

impl View for AdminDirectory {
    type V = Seq<AdminView>;

    closed spec fn view(&self) -> Seq<AdminView> {
        self.rows@.map_values(|row: Admin| row@)
    }
}

impl AdminDirectory {
    /// A directory with no administrator in it.
    pub fn new() -> (directory: Self)
        ensures
            directory@ == Seq::<AdminView>::empty(),
    {
        let directory = AdminDirectory { rows: Vec::new() };
        assert(directory@ =~= Seq::empty());
        directory
    }

    /// Adds an administrator.
    pub fn register(&mut self, admin: Admin)
        ensures
            final(self)@ == old(self)@.push(admin@),
    {
        let ghost before = self@;
        self.rows.push(admin);
        assert(self@ =~= before.push(admin@));
    }

    /// The first administrator with the contact `email`.
    pub fn find_by_email(&self, email: &str) -> (found: Option<&Admin>)
        ensures
            match found {
                Some(admin) => admin_by_email(self@, email@) == Some(admin@),
                None => admin_by_email(self@, email@) is None,
            },
    {
        let key = email.to_owned();
        let ghost p = |a: AdminView| a.email == email@;
        let mut i: usize = 0;
        while i < self.rows.len()
            invariant
                i <= self.rows.len(),
                key@ == email@,
                p == |a: AdminView| a.email == email@,
                forall|j: int| 0 <= j < i ==> !p(#[trigger] self@[j]),
            decreases self.rows.len() - i,
        {
            if self.rows[i].email == key {
                proof {
                    assert(p(self@[i as int]));
                    lemma_first_match_from(self@, p, i as int);
                }
                return Some(&self.rows[i]);
            }
            assert(!p(self@[i as int]));
            i += 1;
        }
        proof {
            lemma_first_match_from(self@, p, i as int);
        }
        None
    }

    /// The first administrator with the identifier `id`.
    pub fn find_by_id(&self, id: u128) -> (found: Option<&Admin>)
        ensures
            match found {
                Some(admin) => admin_by_id(self@, id) == Some(admin@),
                None => admin_by_id(self@, id) is None,
            },
    {
        let ghost p = |a: AdminView| a.id == id;
        let mut i: usize = 0;
        while i < self.rows.len()
            invariant
                i <= self.rows.len(),
                p == |a: AdminView| a.id == id,
                forall|j: int| 0 <= j < i ==> !p(#[trigger] self@[j]),
            decreases self.rows.len() - i,
        {
            if self.rows[i].id == id {
                proof {
                    assert(p(self@[i as int]));
                    lemma_first_match_from(self@, p, i as int);
                }
                return Some(&self.rows[i]);
            }
            assert(!p(self@[i as int]));
            i += 1;
        }
        proof {
            lemma_first_match_from(self@, p, i as int);
        }
        None
    }

    /// Signs an administrator in by contact and password.
    pub fn sign_in(&self, email: &str, password: &str) -> (r: Result<&Admin, ApiError>)
        ensures
            match r {
                Ok(admin) => admin_password_verdict(self@, email@, password@) == Ok::<
                    AdminView,
                    ApiErrorView,
                >(admin@),
                Err(e) => admin_password_verdict(self@, email@, password@) == Err::<
                    AdminView,
                    ApiErrorView,
                >(e@),
            },
    {
        let found = self.find_by_email(email);
        let matched = match found {
            None => None,
            Some(admin) => {
                let locked = "locked".to_owned();
                if admin.status == locked {
                    None
                } else {
                    match SecretHasher::verify(password, admin.password_hash.as_str()) {
                        Ok(matched) => Some(matched),
                        Err(_) => None,
                    }
                }
            },
        };
        judge_admin_password(found, matched)
    }
}

} // verus!
