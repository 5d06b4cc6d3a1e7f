//! Bearer-token authentication of agents and API users.

use vstd::prelude::*;
use crate::text::{has_prefix, join_text, same_text, strip_prefix};

verus! {

/// The scheme word and space in front of a bearer token.
pub open spec fn bearer_scheme() -> Seq<char> {
    seq!['B', 'e', 'a', 'r', 'e', 'r', ' ']
}

/// An `Authorization` header value grants access with `token` exactly when it
/// is `Bearer ` followed by `token`.
pub open spec fn bearer_grants(header: Option<Seq<char>>, token: Seq<char>) -> bool {
    match header {
        Some(h) => h == bearer_scheme() + token,
        None => false,
    }
}

/// The header value, if there is one, by its characters.
pub open spec fn header_view(header: Option<&str>) -> Option<Seq<char>> {
    match header {
        Some(h) => Some(h@),
        None => None,
    }
}

/// The `Authorization` header value that carries `token`.
pub fn bearer_header(token: &str) -> (h: String)
    ensures
        h@ == bearer_scheme() + token@,
{
    let scheme = "Bearer ";
    proof {
        reveal_strlit("Bearer ");
    }
    assert(scheme@ == bearer_scheme());
    join_text(scheme, token)
}

/// Whether the `Authorization` header value (absent, or not readable as text,
/// is `None`) carries `Bearer ` followed by exactly `token`.
pub fn bearer_matches(header: Option<&str>, token: &str) -> (ok: bool)
    ensures
        ok == bearer_grants(header_view(header), token@),
{
    match header {
        None => false,
        Some(h) => {
            let scheme = "Bearer ";
            proof {
                reveal_strlit("Bearer ");
            }
            assert(scheme@ == bearer_scheme());
            match strip_prefix(h, scheme) {
                None => {
                    assert(!has_prefix(h@, bearer_scheme()));
                    assert(h@ != bearer_scheme() + token@) by {
                        if h@ == bearer_scheme() + token@ {
                            assert(h@.subrange(0, 7) =~= bearer_scheme());
                        }
                    }
                    false
                },
                Some(rest) => {
                    let r = same_text(rest, token);
                    assert(h@ =~= bearer_scheme() + rest@);
                    proof {
                        if h@ == bearer_scheme() + token@ {
                            assert(rest@ =~= h@.subrange(7, h@.len() as int));
                            assert(token@ =~= (bearer_scheme() + token@).subrange(7, h@.len() as int));
                        }
                    }
                    r
                },
            }
        },
    }
}

/// The tokens the gateway is configured with.
pub struct GatewayConfig {
    /// Token that agents present when they connect.
    pub agent_token: String,
    /// Token that API users present as a bearer token.
    pub api_token: String,
}

/// A refused request: the HTTP status and the text sent back.
#[derive(Debug, Clone, PartialEq, Eq)]
pub struct Rejection {
    pub status: u16,
    pub message: String,
}

/// Proof that a request carried the configured API token.
#[derive(Debug, Clone, Copy, PartialEq, Eq)]
pub struct ApiAuth;

/// The text of the answer to a request without the API token.
pub open spec fn api_rejection_text() -> Seq<char> {
    "Invalid or missing API token"@
}

/// The text of the answer to an agent connection without the agent token.
pub open spec fn agent_rejection_text() -> Seq<char> {
    "Invalid agent token"@
}

impl ApiAuth {
    /// Admits an API request whose `Authorization` header is `Bearer `
    /// followed by the configured API token; any other request is refused
    /// with status 401.
    pub fn from_request_parts(header: Option<&str>, config: &GatewayConfig) -> (r: Result<ApiAuth, Rejection>)
        ensures
            r is Ok <==> bearer_grants(header_view(header), config.api_token@),
            r matches Err(e) ==> e.status == 401 && e.message@ == api_rejection_text(),
    {
        if bearer_matches(header, config.api_token.as_str()) {
            Ok(ApiAuth)
        } else {
            Err(Rejection { status: 401, message: String::from_str("Invalid or missing API token") })
        }
    }
}

/// Admits an agent's WebSocket upgrade whose `Authorization` header is
/// `Bearer ` followed by the configured agent token; any other is refused
/// with status 401.
pub fn ws_handler(header: Option<&str>, config: &GatewayConfig) -> (r: Result<(), Rejection>)
    ensures
        r is Ok <==> bearer_grants(header_view(header), config.agent_token@),
        r matches Err(e) ==> e.status == 401 && e.message@ == agent_rejection_text(),
{
    if bearer_matches(header, config.agent_token.as_str()) {
        Ok(())
    } else {
        Err(Rejection { status: 401, message: String::from_str("Invalid agent token") })
    }
}

/// What the agent sends is what the gateway admits: a header built from a
/// token grants access with that token and with no other.
pub proof fn lemma_bearer_header_grants(token: Seq<char>, other: Seq<char>)
    ensures
        bearer_grants(Some(bearer_scheme() + token), token),
        bearer_grants(Some(bearer_scheme() + token), other) <==> other == token,
{
    if bearer_grants(Some(bearer_scheme() + token), other) {
        let joined = bearer_scheme() + token;
        assert(joined == bearer_scheme() + other);
        assert(other =~= (bearer_scheme() + other).subrange(7, joined.len() as int));
        assert(token =~= joined.subrange(7, joined.len() as int));
    }
}

} // verus!
