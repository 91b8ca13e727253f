//! What the platform's sign-in takes and gives.

use vstd::prelude::*;

verus! {

/// Where the platform is, and the role to ask a write token for. `website`
/// is the platform's base address, taken as it is written: the address of
/// the token request is `website` with the path straight behind it, that of
/// an upload is `website`, a slash, and the path.
#[derive(Debug, PartialEq)]
pub struct NightscoutSecrets {
    pub website: String,
    pub permission_role: String,
}

/// What a `NightscoutSecrets` holds.
pub struct NightscoutSecretsView {
    pub website: Seq<char>,
    pub permission_role: Seq<char>,
}

impl View for NightscoutSecrets {
    type V = NightscoutSecretsView;

    open spec fn view(&self) -> NightscoutSecretsView {
        NightscoutSecretsView { website: self.website@, permission_role: self.permission_role@ }
    }
}

/// The platform's answer to a request for a token.
#[derive(Debug, PartialEq)]
pub struct NightscoutBearer {
    pub token: String,
}

impl View for NightscoutBearer {
    type V = Seq<char>;

    open spec fn view(&self) -> Seq<char> {
        self.token@
    }
}

} // verus!
