//! The records that travel between this service, the identity provider and
//! the browser.

use vstd::prelude::*;

verus! {

/// What the identity provider answers when an authorization code is exchanged.
pub struct AuthResponse {
    /// The bearer token for calls on behalf of the user.
    pub access_token: String,
    /// The token with which a new access token can be had.
    pub refresh_token: String,
    /// The number of seconds for which the access token is good.
    pub expires_in: u64,
    /// What the access token allows.
    pub scope: Vec<String>,
    /// The kind of the token.
    pub token_type: String,
}

/// What the identity provider answers when asked for the user of a token.
pub struct UserResponse {
    /// The users that the token stands for.
    pub data: Vec<UserData>,
}

/// The profile of one user.
pub struct UserData {
    /// The user's identity with the provider.
    pub id: String,
    /// The user's login name.
    pub login: String,
    /// The user's name as it is displayed.
    pub display_name: String,
}

/// One comment of a channel.
pub struct CommentResponse {
    /// Who wrote the comment.
    pub user: String,
    /// What the comment says.
    pub body: String,
}

} // verus!
