use vstd::prelude::*;
use vstd::string::StrSliceExecFns;
use vstd::string::StringExecFns;

use crate::errors::AppError;
use crate::jwt::{decode_token, hs256_claims_of, jwt_of, token_valid_at};
use crate::models::User;
use crate::store::{str_eq, Store};

verus! {

/// The transport data the interceptor reads from one inbound request: the
/// `token` cookie and the `Authorization` header, already extracted by the
/// HTTP layer.  The interceptor does not care which transport carried the
/// token once it is extracted.
pub struct AuthRequest {
    pub cookie_token: Option<String>,
    pub authorization: Option<String>,
}

/// The token carried by a well-formed bearer header: the text after its
/// `Bearer ` prefix.  A header without that prefix carries none.
pub open spec fn spec_bearer_token(h: Seq<char>) -> Option<Seq<char>> {
    if h.len() >= 7 && h.subrange(0, 7) == "Bearer "@ {
        Option::Some(h.skip(7))
    } else {
        Option::None
    }
}

/// The credential token one request carries: an explicit well-formed bearer
/// header takes precedence; otherwise the `token` cookie is used.
pub open spec fn spec_extracted_token(req: AuthRequest) -> Option<Seq<char>> {
    let from_header = match req.authorization {
        Option::Some(h) => spec_bearer_token(h@),
        Option::None => Option::None,
    };
    if from_header is Some {
        from_header
    } else {
        match req.cookie_token {
            Option::Some(c) => Option::Some(c@),
            Option::None => Option::None,
        }
    }
}

fn bearer_token(h: &str) -> (r: Option<String>)
    ensures
        r is Some <==> spec_bearer_token(h@) is Some,
        r matches Some(t) ==> spec_bearer_token(h@) == Option::Some(t@),
{
    let n = h.unicode_len();
    if n < 7 {
        return None;
    }
    let prefix = h.substring_char(0, 7);
    if !str_eq(prefix, "Bearer ") {
        return None;
    }
    let rest = h.substring_char(7, n);
    proof {
        assert(h@.subrange(7, h@.len() as int) =~= h@.skip(7));
    }
    Some(String::from_str(rest))
}

/// Extracts the credential token from a request, with the explicit header
/// winning over the cookie when both are present and well formed.
pub fn extract_token(req: &AuthRequest) -> (r: Option<String>)
    ensures
        r is Some <==> spec_extracted_token(*req) is Some,
        r matches Some(t) ==> spec_extracted_token(*req) == Option::Some(t@),
{
    if let Option::Some(h) = &req.authorization {
        if let Some(t) = bearer_token(h.as_str()) {
            return Some(t);
        }
    }
    match &req.cookie_token {
        Option::Some(c) => Some(c.clone()),
        Option::None => None,
    }
}

/// Route-level marker for the authentication interceptor.  Routes that
/// require authentication opt in by wrapping their handling stage in the
/// service this produces; other routes bypass it entirely.
pub struct AuthMiddleware;

impl AuthMiddleware {
    /// Wraps the next handling stage behind the interceptor.
    pub fn new_transform(&self) -> (r: AuthMiddlewareService) {
        AuthMiddlewareService {  }
    }
}

/// The per-request interception stage.  Each request passes through it at
/// most once, moving from unauthenticated to authenticated or failing.
pub struct AuthMiddlewareService {}

impl AuthMiddlewareService {
    /// Runs the interception chain on one request: extract the token, verify
    /// it at instant `now`, and resolve the subject to a stored identity.
    /// The returned identity is what gets attached to the request-scoped
    /// context, exactly once, before the downstream handler runs; no later
    /// stage re-resolves it.
    ///
    /// A missing, malformed, forged or expired token fails with
    /// `Unauthorized` and the downstream handler is never invoked.  An
    /// identity comes back only for a token whose signature checks out
    /// under the secret, unexpired, with that identity as its subject.  A
    /// valid token whose subject has no backing identity fails with
    /// `InternalError`: that asymmetry is deliberate, since it signals
    /// server-side data inconsistency rather than a client error.
    pub fn call(&self, req: &AuthRequest, store: &Store, now: u64, secret: &[u8]) -> (r: Result<
        User,
        AppError,
    >)
        ensures
            spec_extracted_token(*req) is None ==> r matches Err(AppError::Unauthorized),
            (match spec_extracted_token(*req) {
                Option::Some(t) => hs256_claims_of(t, secret@) is None,
                Option::None => false,
            }) ==> r matches Err(AppError::Unauthorized),
            (match spec_extracted_token(*req) {
                Option::Some(t) => match hs256_claims_of(t, secret@) {
                    Option::Some(c) => c.2 <= now,
                    Option::None => false,
                },
                Option::None => false,
            }) ==> r matches Err(AppError::Unauthorized),
            (match spec_extracted_token(*req) {
                Option::Some(t) => match hs256_claims_of(t, secret@) {
                    Option::Some(c) => now < c.2 && store.spec_user_id_exists(c.0),
                    Option::None => false,
                },
                Option::None => false,
            }) ==> r is Ok,
            r matches Ok(u) ==> (match spec_extracted_token(*req) {
                Option::Some(t) => token_valid_at(t, secret@, u.id@, now),
                Option::None => false,
            }) && exists|k: int|
                0 <= k < store.users@.len() && (#[trigger] store.users@[k]).user.id@ == u.id@ && u
                    == store.users@[k].user,
            r matches Err(AppError::InternalError) ==> (match spec_extracted_token(*req) {
                Option::Some(t) => match hs256_claims_of(t, secret@) {
                    Option::Some(c) => now < c.2 && !store.spec_user_id_exists(c.0),
                    Option::None => false,
                },
                Option::None => false,
            }),
            forall|s: Seq<char>, i: u64, e: u64|
                spec_extracted_token(*req) == Option::Some(#[trigger] jwt_of(s, i, e, secret@))
                    ==> {
                    if e <= now {
                        r matches Err(AppError::Unauthorized)
                    } else if store.spec_user_id_exists(s) {
                        r matches Ok(u) && exists|k: int|
                            0 <= k < store.users@.len() && (#[trigger] store.users@[k]).user.id@
                                == s && u == store.users@[k].user
                    } else {
                        r matches Err(AppError::InternalError)
                    }
                },
            r matches Err(x) ==> x == AppError::Unauthorized || x == AppError::InternalError,
    {
        let token = match extract_token(req) {
            Some(t) => t,
            None => {
                return Err(AppError::Unauthorized);
            },
        };
        let user_id = match decode_token(token.as_str(), now, secret) {
            Ok(u) => u,
            Err(e) => {
                return Err(e);
            },
        };
        match store.get_user_by_id(user_id.as_str()) {
            Some(u) => Ok(u),
            None => Err(AppError::InternalError),
        }
    }
}

} // verus!
