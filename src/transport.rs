use vstd::prelude::*;

use crate::error::ClientError;

verus! {

/// A character that an HTTP header value may carry: a tab, or anything but
/// the ASCII control characters. Characters beyond ASCII are encoded as
/// bytes of 128 and above, which are allowed.
pub open spec fn header_char_ok(c: char) -> bool {
    c == '\t' || (c as u32 >= 32 && c as u32 != 127)
}

/// Every character of `s` may stand in a header value.
pub open spec fn header_text_ok(s: Seq<char>) -> bool {
    forall|i: int| 0 <= i < s.len() ==> header_char_ok(#[trigger] s[i])
}

/// The value of the `Authorization` header for `token`.
pub open spec fn bearer(token: Seq<char>) -> Seq<char> {
    "Bearer "@ + token
}

/// Relies on `http::HeaderValue::from_str` (re-exported by reqwest), which
/// accepts a string exactly when each of its bytes is a tab or is at least
/// 32 and not 127.
#[verifier::external_body]
fn header_value_ok(s: &str) -> (r: bool)
    ensures
        r == header_text_ok(s@),
{
    reqwest::header::HeaderValue::from_str(s).is_ok()
}

/// The headers sent with every request: the locale as `Accept-Language`, and
/// `Authorization: Bearer <token>` when a token is set.
pub struct Headers {
    pub accept_language: String,
    pub authorization: Option<String>,
}

/// The header set that `language` (or `default_language` when unset) and
/// `access_token` call for, or `None` when a value cannot be a header.
pub open spec fn headers_for(
    language: Option<Seq<char>>,
    default_language: Seq<char>,
    access_token: Option<Seq<char>>,
) -> Option<(Seq<char>, Option<Seq<char>>)> {
    let lang = match language {
        Some(l) => l,
        None => default_language,
    };
    let auth = match access_token {
        Some(t) => Some(bearer(t)),
        None => None,
    };
    if header_text_ok(lang) && (match auth {
        Some(a) => header_text_ok(a),
        None => true,
    }) {
        Some((lang, auth))
    } else {
        None
    }
}

/// The plain view of an optional string.
pub open spec fn opt_view(s: Option<&str>) -> Option<Seq<char>> {
    match s {
        Some(t) => Some(t@),
        None => None,
    }
}

impl Headers {
    /// The header values as plain sequences.
    pub open spec fn view(&self) -> (Seq<char>, Option<Seq<char>>) {
        (
            self.accept_language@,
            match self.authorization {
                Some(a) => Some(a@),
                None => None,
            },
        )
    }
}

/// Builds the header set for the locale `language` (falling back to
/// `default_language`) and the optional bearer token.
pub fn build_headers(language: Option<&str>, default_language: &str, access_token: Option<&str>) -> (r:
    Result<Headers, ClientError>)
    ensures
        match headers_for(opt_view(language), default_language@, opt_view(access_token)) {
            Some(h) => r matches Ok(hs) && hs.view() == h,
            None => r matches Err(ClientError::InvalidHeader),
        },
{
    let lang = match language {
        Some(l) => l,
        None => default_language,
    };
    if !header_value_ok(lang) {
        return Err(ClientError::InvalidHeader);
    }
    let authorization = match access_token {
        Some(token) => {
            proof {
                reveal_strlit("Bearer ");
            }
            let value = String::from_str("Bearer ").concat(token);
            if !header_value_ok(value.as_str()) {
                return Err(ClientError::InvalidHeader);
            }
            Some(value)
        },
        None => None,
    };
    Ok(Headers { accept_language: String::from_str(lang), authorization })
}

/// Replaces the active header set by the one built for `access_token`, as a
/// whole; when that cannot be built the active set stays as it was.
pub fn set_access_token_sync(
    active: &mut Headers,
    language: Option<&str>,
    default_language: &str,
    access_token: Option<&str>,
) -> (r: Result<(), ClientError>)
    ensures
        match headers_for(opt_view(language), default_language@, opt_view(access_token)) {
            Some(h) => r is Ok && final(active).view() == h,
            None => r matches Err(ClientError::InvalidHeader) && *final(active) == *old(active),
        },
{
    match build_headers(language, default_language, access_token) {
        Ok(h) => {
            *active = h;
            Ok(())
        },
        Err(e) => Err(e),
    }
}

} // verus!
