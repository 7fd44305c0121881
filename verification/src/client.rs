//! The session: the credential the requests are made under, and the
//! headers every request carries.

use crate::models::{cookie_text, pairs_view, LoginCredential, LoginCredentialView};
use crate::outside::{header_value_ok, is_header_value};
use vstd::prelude::*;

verus! {

/// The view of an optional credential.
pub open spec fn opt_credential_view(o: Option<LoginCredential>) -> Option<LoginCredentialView> {
    match o {
        Some(c) => Some(c@),
        None => None,
    }
}

/// The browser that requests present themselves as.
pub open spec fn user_agent_text() -> Seq<char> {
    "Mozilla/5.0 (Windows NT 10.0; Win64; x64) AppleWebKit/537.36 (KHTML, like Gecko) Chrome/120.0.0.0 Safari/537.36"@
}

/// The headers of a request made under `credential`: the user agent, the
/// referer and, where there is a credential whose cookie text can stand in
/// a header, the cookie.
pub open spec fn request_headers(credential: Option<LoginCredentialView>) -> Seq<
    (Seq<char>, Seq<char>),
> {
    let base = seq![
        ("user-agent"@, user_agent_text()),
        ("referer"@, "https://www.bilibili.com"@),
    ];
    match credential {
        Some(c) => if header_value_ok(cookie_text(c)) {
            base.push(("cookie"@, cookie_text(c)))
        } else {
            base
        },
        None => base,
    }
}

/// The session state of the API client: signed in with a credential, or
/// not.
#[derive(Debug)]
pub struct BiliClient {
    credential: Option<LoginCredential>,
}

impl View for BiliClient {
    type V = Option<LoginCredentialView>;

    closed spec fn view(&self) -> Option<LoginCredentialView> {
        opt_credential_view(self.credential)
    }
}

impl BiliClient {
    /// A client that is not signed in.
    pub fn new() -> (client: Self)
        ensures
            client@ is None,
    {
        BiliClient { credential: None }
    }

    /// Signs in with a credential, or signs out with `None`.
    pub fn set_credential(&mut self, credential: Option<LoginCredential>)
        ensures
            final(self)@ == opt_credential_view(credential),
    {
        self.credential = credential;
    }

    /// A copy of the credential in use.
    pub fn get_credential(&self) -> (credential: Option<LoginCredential>)
        ensures
            opt_credential_view(credential) == self@,
    {
        match &self.credential {
            Some(c) => Some(c.clone()),
            None => None,
        }
    }

    /// Whether a credential is in use.
    pub fn is_logged_in(&self) -> (signed_in: bool)
        ensures
            signed_in == (self@ is Some),
    {
        self.credential.is_some()
    }

    /// The token that write requests have to repeat: the credential's
    /// `bili_jct`.
    pub fn get_csrf(&self) -> (csrf: Option<String>)
        ensures
            match csrf {
                Some(token) => self@ is Some && token@ == self@->0.bili_jct,
                None => self@ is None,
            },
    {
        match &self.credential {
            Some(c) => Some(c.bili_jct.clone()),
            None => None,
        }
    }

    /// The headers of every request, as name and value pairs in the order
    /// in which they are set.
    pub fn build_headers(&self) -> (headers: Vec<(String, String)>)
        ensures
            pairs_view(headers@) == request_headers(self@),
    {
        let mut headers: Vec<(String, String)> = Vec::new();
        headers.push(
            (
                String::from_str("user-agent"),
                String::from_str(
                    "Mozilla/5.0 (Windows NT 10.0; Win64; x64) AppleWebKit/537.36 (KHTML, like Gecko) Chrome/120.0.0.0 Safari/537.36",
                ),
            ),
        );
        headers.push((String::from_str("referer"), String::from_str("https://www.bilibili.com")));
        match &self.credential {
            Some(c) => {
                let cookie = c.to_cookie_string();
                if is_header_value(cookie.as_str()) {
                    headers.push((String::from_str("cookie"), cookie));
                }
            },
            None => {},
        }
        assert(pairs_view(headers@) =~= request_headers(self@));
        headers
    }
}

impl Default for BiliClient {
    fn default() -> (client: Self)
        ensures
            client@ is None,
    {
        BiliClient::new()
    }
}

} // verus!
