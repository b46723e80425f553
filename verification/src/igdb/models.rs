//! What the identity endpoint answers to a client-credentials exchange.

use vstd::prelude::*;

verus! {

/// A granted token and the time it stays valid.
#[derive(Debug, Clone, PartialEq)]
pub struct TwitchAuthResponse {
    /// The bearer token.
    pub access_token: String,
    /// For how many seconds, from the moment of the grant, the token is valid.
    pub expires_in: u32,
    /// The kind of token, as the endpoint names it.
    pub token_type: String,
}

/// A grant, as mathematical values.
pub struct Grant {
    pub access_token: Seq<char>,
    pub expires_in: nat,
    pub token_type: Seq<char>,
}

impl View for TwitchAuthResponse {
    type V = Grant;

    open spec fn view(&self) -> Grant {
        Grant {
            access_token: self.access_token@,
            expires_in: self.expires_in as nat,
            token_type: self.token_type@,
        }
    }
}

} // verus!
