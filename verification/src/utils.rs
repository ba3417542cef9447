//! The two requests to the identity provider, as far as they can be said
//! without sending them: where each goes and what it carries.

use vstd::prelude::*;

verus! {

/// Where an authorization code is exchanged for a token.
pub const TOKEN_ENDPOINT: &'static str = "https://id.twitch.tv/oauth2/token";

/// Where the user of a token is looked up.
pub const USERS_ENDPOINT: &'static str = "https://api.twitch.tv/helix/users";

/// What this service is known by to the identity provider.
pub struct Credentials {
    /// The identity of this service.
    pub client_id: String,
    /// The secret of this service.
    pub client_secret: String,
    /// Where the provider sends the browser back to.
    pub redirect_uri: String,
}

/// One named value of a request: a form field or a header.
pub struct Field {
    /// The name.
    pub name: String,
    /// The value.
    pub value: String,
}

/// The name and the value of each field of `fields`, in order.
pub open spec fn field_texts(fields: Seq<Field>) -> Seq<(Seq<char>, Seq<char>)> {
    fields.map_values(|f: Field| (f.name@, f.value@))
}

/// The form that exchanges `code` for a token.
pub open spec fn token_form(credentials: Credentials, code: Seq<char>) -> Seq<
    (Seq<char>, Seq<char>),
> {
    seq![
        ("client_id"@, credentials.client_id@),
        ("client_secret"@, credentials.client_secret@),
        ("code"@, code),
        ("grant_type"@, "authorization_code"@),
        ("redirect_uri"@, credentials.redirect_uri@),
    ]
}

/// The headers that ask for the user of `access_token`.
pub open spec fn user_headers(credentials: Credentials, access_token: Seq<char>) -> Seq<
    (Seq<char>, Seq<char>),
> {
    seq![
        ("Authorization"@, "Bearer "@ + access_token),
        ("Client-Id"@, credentials.client_id@),
    ]
}

/// The field `name` with the value `value`.
fn field(name: &str, value: &str) -> (f: Field)
    ensures
        f.name@ == name@,
        f.value@ == value@,
{
    Field { name: String::from_str(name), value: String::from_str(value) }
}

/// The form fields to post to `TOKEN_ENDPOINT` in exchange for a token.
pub fn token_request_form(credentials: &Credentials, code: &str) -> (form: Vec<Field>)
    ensures
        field_texts(form@) == token_form(*credentials, code@),
{
    let mut form: Vec<Field> = Vec::new();
    form.push(field("client_id", credentials.client_id.as_str()));
    form.push(field("client_secret", credentials.client_secret.as_str()));
    form.push(field("code", code));
    form.push(field("grant_type", "authorization_code"));
    form.push(field("redirect_uri", credentials.redirect_uri.as_str()));
    form
}

/// The headers to send to `USERS_ENDPOINT` with the request for the user of
/// `access_token`.
pub fn user_info_headers(credentials: &Credentials, access_token: &str) -> (headers: Vec<Field>)
    ensures
        field_texts(headers@) == user_headers(*credentials, access_token@),
{
    let mut headers: Vec<Field> = Vec::new();
    let bearer = String::from_str("Bearer ").concat(access_token);
    headers.push(field("Authorization", bearer.as_str()));
    headers.push(field("Client-Id", credentials.client_id.as_str()));
    headers
}

} // verus!
