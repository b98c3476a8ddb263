//! The API client's request preparation: every outgoing request is sent to
//! the cluster's scheme and authority, keeps its own path and query, and
//! carries the client's bearer credential.

use vstd::prelude::*;
use vstd::string::StringExecFns;
use http::HeaderValue;
use http::header::InvalidHeaderValue;

verus! {

#[verifier::external_type_specification]
#[verifier::external_body]
pub struct ExHeaderValue(HeaderValue);

#[verifier::external_type_specification]
#[verifier::external_body]
pub struct ExInvalidHeaderValue(InvalidHeaderValue);

/// A character that a header value may hold: anything from the space up but
/// DEL, and the tab.
pub open spec fn header_char_valid(c: char) -> bool {
    (c as u32 >= 32 && c as u32 != 127) || c == '\t'
}

/// A string that a header value may hold.
pub open spec fn header_value_valid(s: Seq<char>) -> bool {
    forall|i: int| 0 <= i < s.len() ==> header_char_valid(#[trigger] s[i])
}

/// Relies on http's `HeaderValue::from_str`, which refuses a string exactly
/// when one of its bytes is below 32 and not a tab, or is 127. A character
/// above ASCII is encoded in bytes from 128 up, so the test reads per character.
pub assume_specification[ HeaderValue::from_str ](src: &str) -> (r: Result<HeaderValue, InvalidHeaderValue>)
    ensures
        r is Ok <==> header_value_valid(src@),
;

/// Why a client could not be built from its configuration.
#[derive(Debug, Clone, Copy, PartialEq, Eq, Structural)]
pub enum ClientError {
    /// The base address has no scheme.
    NoScheme,
    /// The base address has no authority.
    NoAuthority,
    /// The bearer credential cannot stand in a header.
    InvalidToken,
}

/// The value of the authorization header for a token.
pub open spec fn bearer_of(token: Seq<char>) -> Seq<char> {
    "Bearer "@ + token
}

/// A request as sent to the cluster.
#[derive(Debug, Clone)]
pub struct PreparedRequest {
    pub scheme: String,
    pub authority: String,
    pub path_and_query: String,
    pub authorization: String,
}

/// A client to the API: where requests go and with which credential.
#[derive(Debug)]
pub struct Client {
    uri_scheme: String,
    uri_authority: String,
    authorization: String,
    auth_header: HeaderValue,
}

impl Client {
    /// The scheme that every request is sent with.
    pub closed spec fn scheme(&self) -> Seq<char> {
        self.uri_scheme@
    }

    /// The authority that every request is sent to.
    pub closed spec fn authority(&self) -> Seq<char> {
        self.uri_authority@
    }

    /// The authorization header that every request carries.
    pub closed spec fn authorization(&self) -> Seq<char> {
        self.authorization@
    }

    /// The header value that the transport attaches.
    pub closed spec fn header(&self) -> HeaderValue {
        self.auth_header
    }

    /// Builds a client from the parts of the cluster's base address and a
    /// bearer token. Fails where the address lacks a scheme or an authority
    /// (in that order), or where the token cannot stand in a header.
    pub fn new(scheme: Option<String>, authority: Option<String>, token: &str) -> (r: Result<Client, ClientError>)
        ensures
            scheme is None ==> r == Err::<Client, ClientError>(ClientError::NoScheme),
            scheme is Some && authority is None ==> r == Err::<Client, ClientError>(ClientError::NoAuthority),
            scheme is Some && authority is Some && !header_value_valid(token@)
                ==> r == Err::<Client, ClientError>(ClientError::InvalidToken),
            scheme is Some && authority is Some && header_value_valid(token@) ==> r is Ok,
            r matches Ok(c) ==> c.scheme() == scheme->0@ && c.authority() == authority->0@
                && c.authorization() == bearer_of(token@),
    {
        let uri_scheme = match scheme {
            Some(s) => s,
            None => return Err(ClientError::NoScheme),
        };
        let uri_authority = match authority {
            Some(a) => a,
            None => return Err(ClientError::NoAuthority),
        };
        let authorization = "Bearer ".to_owned().concat(token);
        proof {
            reveal_strlit("Bearer ");
            assert forall|i: int| 0 <= i < token@.len() implies
                (header_char_valid(token@[i]) <==> header_char_valid(#[trigger] authorization@[i + 7])) by {
                assert(authorization@[i + 7] == token@[i]);
            }
            assert(header_value_valid("Bearer "@));
            if header_value_valid(token@) {
                assert forall|i: int| 0 <= i < authorization@.len() implies
                    header_char_valid(#[trigger] authorization@[i]) by {
                    if i >= 7 {
                        assert(authorization@[i] == token@[i - 7]);
                    }
                }
            } else {
                let j = choose|j: int| 0 <= j < token@.len() && !header_char_valid(#[trigger] token@[j]);
                assert(authorization@[j + 7] == token@[j]);
            }
        }
        let auth_header = match HeaderValue::from_str(authorization.as_str()) {
            Ok(h) => h,
            Err(_) => return Err(ClientError::InvalidToken),
        };
        Ok(Client { uri_scheme, uri_authority, authorization, auth_header })
    }

    /// The validated authorization header, for the transport.
    pub fn auth_header(&self) -> (r: &HeaderValue)
        ensures
            *r == self.header(),
    {
        &self.auth_header
    }

    /// Rewrites a request for the cluster: the client's scheme and authority,
    /// the request's own path and query, and the client's authorization,
    /// whatever the request carried before.
    pub fn prepare_request(&self, path_and_query: &str) -> (r: PreparedRequest)
        ensures
            r.scheme@ == self.scheme(),
            r.authority@ == self.authority(),
            r.path_and_query@ == path_and_query@,
            r.authorization@ == self.authorization(),
    {
        PreparedRequest {
            scheme: self.uri_scheme.clone(),
            authority: self.uri_authority.clone(),
            path_and_query: path_and_query.to_owned(),
            authorization: self.authorization.clone(),
        }
    }
}

} // verus!
