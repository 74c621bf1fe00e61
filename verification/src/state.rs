//! The state that the authentication flows share.

use vstd::prelude::*;
use crate::identity::{AdminDirectory, IdentityDirectory};
use crate::nonce::NonceChallengeStore;
use crate::otp::OtpChallengeStore;
use crate::token::TokenIssuer;

verus! {

/// The two challenge stores, the two directories and the token issuer.
///
/// The challenge stores are the only state that the flows mutate besides
/// the creation of an identity on a first login. A flow holds the state
/// exclusively for as long as it runs.
pub struct AppState {
    pub nonces: NonceChallengeStore,
    pub otps: OtpChallengeStore,
    pub users: IdentityDirectory,
    pub admins: AdminDirectory,
    pub issuer: TokenIssuer,
}

impl AppState {
    /// Every part is well-formed.
    pub open spec fn wf(&self) -> bool {
        &&& self.nonces.wf()
        &&& self.otps.wf()
        &&& self.users.wf()
    }

    /// An empty state whose tokens are signed with `jwt_secret`.
    pub fn new(jwt_secret: &str) -> (state: Self)
        ensures
            state.wf(),
            state.nonces@ == Map::<Seq<char>, crate::nonce::WalletChallengeView>::empty(),
            state.otps@ == Map::<u128, crate::otp::OtpChallengeView>::empty(),
            state.users@ == Seq::<crate::identity::IdentityView>::empty(),
            state.admins@ == Seq::<crate::identity::AdminView>::empty(),
            state.issuer.secret() == vstd::utf8::encode_utf8(jwt_secret@),
    {
        AppState {
            nonces: NonceChallengeStore::new(),
            otps: OtpChallengeStore::new(),
            users: IdentityDirectory::new(),
            admins: AdminDirectory::new(),
            issuer: TokenIssuer::new(jwt_secret),
        }
    }
}

} // verus!
