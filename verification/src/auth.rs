//! Management secrets and the authentication applied during the WebSocket
//! handshake.

use vstd::prelude::*;

use crate::error::Error;
use crate::text::{contains_char, owned};

verus! {

/// Why a text cannot be used as a management secret, if it cannot.
pub open spec fn secret_violation(value: Seq<char>) -> Option<Seq<char>> {
    if value.len() == 0 {
        Some("management secret must not be empty"@)
    } else if value.contains('\r') || value.contains('\n') {
        Some("management secret must not contain carriage returns or line feeds"@)
    } else {
        None
    }
}

/// A management-server secret that is safe to include in a request header:
/// non-empty and free of carriage returns and line feeds.
#[derive(PartialEq, Eq)]
pub struct Secret(String);

impl Clone for Secret {
    fn clone(&self) -> (r: Secret)
        ensures
            r@ == self@,
    {
        proof {
            use_type_invariant(self);
        }
        Secret(self.0.clone())
    }
}

impl View for Secret {
    type V = Seq<char>;

    closed spec fn view(&self) -> Seq<char> {
        self.0@
    }
}

impl Secret {
    #[verifier::type_invariant]
    spec fn header_safe(self) -> bool {
        secret_violation(self.0@) is None
    }

    /// Creates a secret after validating that it is non-empty and cannot
    /// inject an additional HTTP header.
    pub fn new(value: &str) -> (r: Result<Secret, Error>)
        ensures
            match r {
                Ok(s) => secret_violation(value@) is None && s@ == value@,
                Err(e) => secret_violation(value@) matches Some(m) && e matches Error::Configuration(
                    msg,
                ) && msg@ == m,
            },
    {
        if value.is_empty() {
            return Err(Error::Configuration(owned("management secret must not be empty")));
        }
        if contains_char(value, '\r') || contains_char(value, '\n') {
            return Err(
                Error::Configuration(
                    owned("management secret must not contain carriage returns or line feeds"),
                ),
            );
        }
        Ok(Secret(owned(value)))
    }

    /// A valid secret is non-empty and has no carriage return or line feed.
    pub fn lemma_header_safe(&self)
        ensures
            secret_violation(self@) is None,
    {
        proof {
            use_type_invariant(self);
        }
    }

    /// The secret text.
    pub fn expose(&self) -> (r: &str)
        ensures
            r@ == self@,
    {
        self.0.as_str()
    }

    /// A debug rendering that does not reveal the secret.
    pub fn redacted(&self) -> (r: String)
        ensures
            r@ == "Secret([REDACTED])"@,
    {
        owned("Secret([REDACTED])")
    }
}

/// Authentication to apply during the WebSocket handshake.
#[derive(Clone, PartialEq, Eq)]
pub enum Auth {
    /// Sends the management secret in `Authorization: Bearer <secret>`.
    Bearer(Secret),
    /// Sends `minecraft-v1,<secret>` in `Sec-WebSocket-Protocol`.
    WebSocketSubprotocol(Secret),
    /// Sends no management credentials. This must be selected deliberately.
    Unauthenticated,
}

impl Auth {
    /// Builds bearer-token authentication.
    pub fn bearer(secret: &str) -> (r: Result<Auth, Error>)
        ensures
            match r {
                Ok(a) => secret_violation(secret@) is None && (a matches Auth::Bearer(s) && s@
                    == secret@),
                Err(e) => secret_violation(secret@) matches Some(m) && e matches Error::Configuration(
                    msg,
                ) && msg@ == m,
            },
    {
        match Secret::new(secret) {
            Ok(s) => Ok(Auth::Bearer(s)),
            Err(e) => Err(e),
        }
    }

    /// Builds WebSocket-subprotocol authentication.
    pub fn websocket_subprotocol(secret: &str) -> (r: Result<Auth, Error>)
        ensures
            match r {
                Ok(a) => secret_violation(secret@) is None && (a matches Auth::WebSocketSubprotocol(
                    s,
                ) && s@ == secret@),
                Err(e) => secret_violation(secret@) matches Some(m) && e matches Error::Configuration(
                    msg,
                ) && msg@ == m,
            },
    {
        match Secret::new(secret) {
            Ok(s) => Ok(Auth::WebSocketSubprotocol(s)),
            Err(e) => Err(e),
        }
    }

    /// Selects an unauthenticated handshake explicitly.
    pub fn none() -> (r: Auth)
        ensures
            r == Auth::Unauthenticated,
    {
        Auth::Unauthenticated
    }
}

} // verus!
