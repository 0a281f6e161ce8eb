//! Verified token claims, permission checks, and the header rules that
//! resolve every request into a subject.

use vstd::prelude::*;
use vstd::string::StrSliceExecFns;
use vstd::string::StringExecFns;

use crate::error::ServerError;
use crate::integration::IntegrationName;
use crate::text::{str_eq, str_starts_with, substr_to_string};
use crate::user::{Permission, SubjectId};

verus! {

/// The preloaded set of identity-provider public keys.
#[derive(Debug, Clone)]
pub struct Jwks {
    pub keys: Vec<Jwk>,
}

/// One RSA public key of the identity provider.
#[derive(Debug, Clone)]
pub struct Jwk {
    pub kid: String,
    pub n: String,
    pub e: String,
    pub kty: String,
    pub alg: String,
    pub use_: String,
}

/// Whether key `i` is the first of the set with the given key-id.
pub open spec fn jwk_first_match(keys: Seq<Jwk>, kid: Seq<char>, i: int) -> bool {
    &&& 0 <= i < keys.len()
    &&& keys[i].kid@ == kid
    &&& forall|j: int| 0 <= j < i ==> (#[trigger] keys[j]).kid@ != kid
}

/// The index of the public key with the given key-id, by first match.
pub fn find_jwk(jwks: &Jwks, kid: &str) -> (r: Option<usize>)
    ensures
        r matches Some(i) ==> jwk_first_match(jwks.keys@, kid@, i as int),
        r is None ==> forall|i: int|
            0 <= i < jwks.keys@.len() ==> (#[trigger] jwks.keys@[i]).kid@ != kid@,
{
    let len = jwks.keys.len();
    let mut i: usize = 0;
    while i < len
        invariant
            i <= len,
            len == jwks.keys@.len(),
            forall|j: int| 0 <= j < i ==> (#[trigger] jwks.keys@[j]).kid@ != kid@,
        decreases len - i,
    {
        if str_eq(jwks.keys[i].kid.as_str(), kid) {
            return Some(i);
        }
        i = i + 1;
    }
    None
}

/// What a token's payload may name for which key signed it.
pub uninterp spec fn kid_of(token: Seq<char>) -> Option<Seq<char>>;

/// Relies on jsonwebtoken's `decode_header`: reads the unverified header
/// of the compact token and hands out its key-id field, which depends on
/// the token text alone. An error or an absent field both yield `None`.
#[verifier::external_body]
pub fn token_kid(token: &str) -> (r: Option<String>)
    ensures
        r is Some <==> kid_of(token@) is Some,
        r matches Some(k) ==> kid_of(token@) matches Some(s) && k@ == s,
{
    match jsonwebtoken::decode_header(token) {
        Ok(header) => header.kid,
        Err(_) => None,
    }
}

/// The verified token contents.
#[derive(Debug, Clone)]
pub struct Claims {
    pub gty: Option<String>,
    pub aud: Vec<String>,
    pub azp: String,
    pub exp: i32,
    pub iat: i32,
    pub iss: String,
    pub scope: String,
    pub sub: String,
    pub permissions: Option<Vec<Permission>>,
}

impl Claims {
    /// Whether the claims carry the permission. An absent permissions
    /// field grants nothing.
    pub open spec fn spec_has_permission(self, p: Permission) -> bool {
        match self.permissions {
            Some(ps) => ps@.contains(p),
            None => false,
        }
    }

    /// Whether the token was issued to a machine client.
    pub open spec fn spec_is_machine(self) -> bool {
        match self.gty {
            Some(g) => g@ == "client-credentials"@,
            None => false,
        }
    }

    /// The sentinel claims attached to guest requests: everything blank,
    /// the subject the literal `guest`, no permissions.
    pub fn empty() -> (r: Self)
        ensures
            r.gty is None,
            r.aud@.len() == 0,
            r.azp@.len() == 0,
            r.exp == 0,
            r.iat == 0,
            r.iss@.len() == 0,
            r.scope@.len() == 0,
            r.sub@ == "guest"@,
            r.permissions is None,
    {
        Self {
            gty: None,
            aud: Vec::new(),
            azp: String::new(),
            exp: 0,
            iat: 0,
            iss: String::new(),
            scope: String::new(),
            sub: String::from_str("guest"),
            permissions: None,
        }
    }

    /// Whether the grant type marks a machine client.
    pub fn is_machine(&self) -> (r: bool)
        ensures
            r == self.spec_is_machine(),
    {
        match &self.gty {
            Some(g) => str_eq(g.as_str(), "client-credentials"),
            None => false,
        }
    }

    /// The identity-provider subject the token was issued for.
    pub fn auth0_id(&self) -> (r: &str)
        ensures
            r@ == self.sub@,
    {
        self.sub.as_str()
    }

    /// Whether the claims carry the permission.
    #[verifier::loop_isolation(false)]
    fn check_permission(&self, p: &Permission) -> (r: bool)
        ensures
            r == self.spec_has_permission(*p),
    {
        match &self.permissions {
            None => false,
            Some(ps) => {
                let len = ps.len();
                let mut i: usize = 0;
                while i < len
                    invariant
                        i <= len,
                        len == ps@.len(),
                        forall|j: int| 0 <= j < i ==> ps@[j] != *p,
                    decreases len - i,
                {
                    if ps[i] == *p {
                        proof {
                            assert(ps@.contains(ps@[i as int]));
                        }
                        return true;
                    }
                    i = i + 1;
                }
                false
            },
        }
    }

    /// The subset of `required` the claims do not carry, or `None` when
    /// every required permission is held. The result lists each missing
    /// permission once.
    #[verifier::loop_isolation(false)]
    pub fn missing_permission(&self, required: &Vec<Permission>) -> (r: Option<Vec<Permission>>)
        ensures
            r is None <==> (forall|i: int|
                0 <= i < required@.len() ==> self.spec_has_permission(#[trigger] required@[i])),
            r matches Some(missing) ==> {
                &&& missing@.len() > 0
                &&& missing@.no_duplicates()
                &&& forall|p: Permission| #![trigger missing@.contains(p)]
                    missing@.contains(p) <==> (required@.contains(p)
                        && !self.spec_has_permission(p))
            },
    {
        let len = required.len();
        let mut missing: Vec<Permission> = Vec::new();
        let mut i: usize = 0;
        while i < len
            invariant
                i <= len,
                len == required@.len(),
                missing@.no_duplicates(),
                forall|p: Permission| #![trigger missing@.contains(p)]
                    missing@.contains(p) <==> (required@.take(i as int).contains(p)
                        && !self.spec_has_permission(p)),
            decreases len - i,
        {
            let p = required[i];
            let ghost t1 = required@.take(i as int + 1);
            let ghost t0 = required@.take(i as int);
            proof {
                assert(t1[i as int] == p);
                assert(t1.contains(p));
                assert forall|q: Permission| #![auto] t1.contains(q) == (t0.contains(q) || q
                    == p) by {
                    if t1.contains(q) {
                        let a = choose|a: int| 0 <= a < t1.len() && #[trigger] t1[a] == q;
                        if a < i as int {
                            assert(t0[a] == q);
                            assert(t0.contains(q));
                        } else {
                            assert(q == p);
                        }
                    }
                    if t0.contains(q) {
                        let a = choose|a: int| 0 <= a < t0.len() && #[trigger] t0[a] == q;
                        assert(t1[a] == q);
                        assert(t1.contains(q));
                    }
                }
            }
            if !self.check_permission(&p) && !vec_contains_permission(&missing, &p) {
                let ghost before = missing@;
                missing.push(p);
                proof {
                    assert(missing@[before.len() as int] == p);
                    assert(missing@.contains(p));
                    assert forall|q: Permission| #![trigger missing@.contains(q)]
                        missing@.contains(q) == (before.contains(q) || q == p) by {
                        assert(missing@[before.len() as int] == p);
                        if missing@.contains(q) {
                            let a = choose|a: int|
                                0 <= a < missing@.len() && #[trigger] missing@[a] == q;
                            if a < before.len() {
                                assert(before[a] == q);
                                assert(before.contains(q));
                            } else {
                                assert(q == p);
                            }
                        }
                        if before.contains(q) {
                            let a = choose|a: int|
                                0 <= a < before.len() && #[trigger] before[a] == q;
                            assert(missing@[a] == q);
                            assert(missing@.contains(q));
                        }
                    }
                }
            }
            i = i + 1;
        }
        proof {
            assert(required@.take(len as int) =~= required@);
        }
        if missing.len() == 0 {
            proof {
                assert forall|j: int|
                    0 <= j < required@.len() implies self.spec_has_permission(
                    #[trigger] required@[j],
                ) by {
                    assert(required@.contains(required@[j]));
                    if !self.spec_has_permission(required@[j]) {
                        assert(missing@.contains(required@[j]));
                    }
                }
            }
            None
        } else {
            proof {
                let q = missing@[0];
                assert(missing@.contains(q));
                assert(required@.contains(q) && !self.spec_has_permission(q));
                let a = choose|a: int| 0 <= a < required@.len() && #[trigger] required@[a] == q;
                assert(!self.spec_has_permission(required@[a]));
            }
            Some(missing)
        }
    }
}

/// Whether the vector holds the permission.
#[verifier::loop_isolation(false)]
fn vec_contains_permission(v: &Vec<Permission>, p: &Permission) -> (r: bool)
    ensures
        r == v@.contains(*p),
{
    let len = v.len();
    let mut i: usize = 0;
    while i < len
        invariant
            i <= len,
            len == v@.len(),
            forall|j: int| 0 <= j < i ==> v@[j] != *p,
        decreases len - i,
    {
        if v[i] == *p {
            proof {
                assert(v@.contains(v@[i as int]));
            }
            return true;
        }
        i = i + 1;
    }
    false
}

/// How a request's two authentication headers resolve, before any token
/// is verified.
#[derive(Debug)]
pub enum AuthDecision {
    /// The guest header is present: the request is a guest with this
    /// raw identifier, and any bearer token is ignored.
    Guest(String),
    /// Only the bearer header is present and carries the literal
    /// `Bearer ` prefix: this is the token after it.
    Token(String),
    /// Only the bearer header is present, without the prefix.
    MalformedBearer,
    /// Neither header is present.
    Denied,
}

/// Resolves the two authentication headers by precedence: the guest
/// header wins outright; otherwise the bearer header must carry the
/// `Bearer ` prefix; with neither header the request is denied.
pub fn resolve_headers(guest: Option<String>, bearer: Option<String>) -> (r: AuthDecision)
    ensures
        guest matches Some(g) ==> r == AuthDecision::Guest(g),
        guest is None && bearer is None ==> r == AuthDecision::Denied,
        guest is None ==> (bearer matches Some(b) ==> ({
            if b@.len() >= 7 && b@.subrange(0, 7) == "Bearer "@ {
                r matches AuthDecision::Token(t) && t@ == b@.subrange(7, b@.len() as int)
            } else {
                r == AuthDecision::MalformedBearer
            }
        })),
{
    proof {
        reveal_strlit("Bearer ");
    }
    match guest {
        Some(g) => AuthDecision::Guest(g),
        None => match bearer {
            None => AuthDecision::Denied,
            Some(b) => {
                if str_starts_with(b.as_str(), "Bearer ") {
                    let len = b.as_str().unicode_len();
                    let token = substr_to_string(b.as_str(), 7, len);
                    AuthDecision::Token(token)
                } else {
                    AuthDecision::MalformedBearer
                }
            },
        },
    }
}

/// Resolves the webhook path: the shared-secret header must be present
/// and equal to the configured key, character for character; then the
/// caller is the identity-provider integration. A missing or wrong key
/// is refused with the status for an unauthenticated request.
pub fn webhook_subject(header: Option<String>, expected_key: &str) -> (r: Result<
    SubjectId,
    ServerError,
>)
    ensures
        header is None ==> (r matches Err(e) && e matches ServerError::Api(code, msg) && code
            == 401 && msg@ == "Webhook key not present"@),
        header matches Some(h) ==> (h@ != expected_key@ ==> (r matches Err(e) && e
            matches ServerError::Api(code, msg) && code == 401 && msg@
            == "Invalid webhook key"@)),
        header matches Some(h) ==> (h@ == expected_key@ ==> r == Ok::<SubjectId, ServerError>(
            SubjectId::Integration(IntegrationName::Auth0),
        )),
{
    match header {
        None => Err(ServerError::Api(401, String::from_str("Webhook key not present"))),
        Some(h) => {
            if str_eq(h.as_str(), expected_key) {
                Ok(SubjectId::Integration(IntegrationName::Auth0))
            } else {
                Err(ServerError::Api(401, String::from_str("Invalid webhook key")))
            }
        },
    }
}

} // verus!
