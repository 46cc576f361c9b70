use vstd::prelude::*;

use crate::error::ClientError;
use crate::json::{json_object_text, json_str_field, object_text, pair_views, string_field};

verus! {

/// The two ways to log in.
pub enum LoginParams<'a> {
    Password { email: &'a str, password: &'a str },
    RefreshToken { token: &'a str },
}

/// The members of the login body: only those of the chosen way.
pub open spec fn login_fields(p: LoginParams) -> Seq<(Seq<char>, Seq<char>)> {
    match p {
        LoginParams::Password { email, password } => seq![("email"@, email@), ("password"@, password@)],
        LoginParams::RefreshToken { token } => seq![("refreshToken"@, token@)],
    }
}

/// The login body names only the members of the chosen way: `email` and
/// `password` for a password login, `refreshToken` alone for a token
/// refresh.
pub proof fn login_body_keys(p: LoginParams)
    ensures
        login_fields(p).map_values(|f: (Seq<char>, Seq<char>)| f.0) == match p {
            LoginParams::Password { .. } => seq!["email"@, "password"@],
            LoginParams::RefreshToken { .. } => seq!["refreshToken"@],
        },
{
    assert(login_fields(p).map_values(|f: (Seq<char>, Seq<char>)| f.0) =~= match p {
        LoginParams::Password { .. } => seq!["email"@, "password"@],
        LoginParams::RefreshToken { .. } => seq!["refreshToken"@],
    });
}

/// The members of the registration body.
pub open spec fn register_fields(email: Seq<char>, username: Seq<char>, password: Seq<char>) -> Seq<
    (Seq<char>, Seq<char>),
> {
    seq![("email"@, email), ("name"@, username), ("password"@, password)]
}

fn pair(key: &str, value: &str) -> (r: (String, String))
    ensures
        r.0@ == key@,
        r.1@ == value@,
{
    (String::from_str(key), String::from_str(value))
}

impl<'a> LoginParams<'a> {
    /// The key/value members sent for this way of logging in.
    pub fn fields(&self) -> (r: Vec<(String, String)>)
        ensures
            pair_views(r@) == login_fields(*self),
    {
        let mut out: Vec<(String, String)> = Vec::new();
        match self {
            LoginParams::Password { email, password } => {
                proof {
                    reveal_strlit("email");
                    reveal_strlit("password");
                }
                out.push(pair("email", email));
                out.push(pair("password", password));
            },
            LoginParams::RefreshToken { token } => {
                proof {
                    reveal_strlit("refreshToken");
                }
                out.push(pair("refreshToken", token));
            },
        }
        assert(pair_views(out@) =~= login_fields(*self));
        out
    }

    /// The JSON body of the login request.
    pub fn body(&self) -> (r: String)
        ensures
            r@ == json_object_text(login_fields(*self)),
    {
        object_text(&self.fields())
    }
}

/// The JSON body of the registration request.
pub fn register_body(email: &str, username: &str, password: &str) -> (r: String)
    ensures
        r@ == json_object_text(register_fields(email@, username@, password@)),
{
    proof {
        reveal_strlit("email");
        reveal_strlit("name");
        reveal_strlit("password");
    }
    let mut out: Vec<(String, String)> = Vec::new();
    out.push(pair("email", email));
    out.push(pair("name", username));
    out.push(pair("password", password));
    assert(pair_views(out@) =~= register_fields(email@, username@, password@));
    object_text(&out)
}

/// The access token and the refresh token that a login hands out.
pub struct Tokens {
    pub token: String,
    pub refresh_token: String,
}

/// Reads the `token` and `refreshToken` members of a login response.
pub fn parse_tokens(body: &str) -> (r: Result<Tokens, ClientError>)
    ensures
        match (json_str_field(body@, "token"@), json_str_field(body@, "refreshToken"@)) {
            (Some(t), Some(rt)) => r matches Ok(tk) && tk.token@ == t && tk.refresh_token@ == rt,
            _ => r matches Err(ClientError::MalformedResponse),
        },
{
    proof {
        reveal_strlit("token");
        reveal_strlit("refreshToken");
    }
    match (string_field(body, "token"), string_field(body, "refreshToken")) {
        (Some(token), Some(refresh_token)) => Ok(Tokens { token, refresh_token }),
        _ => Err(ClientError::MalformedResponse),
    }
}

} // verus!
