//! Bearer-token authentication: the verified claims of a token, the
//! two-tier check (claim cache first, full signature verification only on
//! a miss), and the path rules that bypass the check. The surrounding
//! HTTP layer extracts header text and hands plain values in.

use vstd::prelude::*;
use vstd::string::StrSliceExecFns;
use vstd::string::StringExecFns;
use crate::strutil::spec_starts_with;
use crate::strutil::spec_contains;
use crate::strutil::str_starts_with;
use crate::strutil::str_contains;
use crate::strutil::str_eq;
use crate::cache_repository::CacheRepository;
use crate::cache_repository::Token;
use crate::cache_repository::spec_auth_tokens;
use crate::error::AppError;

verus! {

/// The decoded, verified payload of an authentication token.
pub struct Claims {
    pub sub: String,
    pub aud: String,
    pub exp: usize,
}

/// The mathematical value of a claim set.
pub struct ClaimsView {
    pub sub: Seq<char>,
    pub aud: Seq<char>,
    pub exp: usize,
}

impl View for Claims {
    type V = ClaimsView;

    open spec fn view(&self) -> ClaimsView {
        ClaimsView { sub: self.sub@, aud: self.aud@, exp: self.exp }
    }
}

impl DeepView for Claims {
    type V = ClaimsView;

    open spec fn deep_view(&self) -> ClaimsView {
        self.view()
    }
}

impl Clone for Claims {
    fn clone(&self) -> (r: Self)
        ensures
            r@ == self@,
    {
        Claims { sub: self.sub.clone(), aud: self.aud.clone(), exp: self.exp }
    }
}

/// A view-preserving copy of an optional claim set.
pub fn clone_opt_claims(o: &Option<Claims>) -> (r: Option<Claims>)
    ensures
        r.deep_view() == o.deep_view(),
{
    match o {
        Some(c) => Some(c.clone()),
        None => None,
    }
}

/// Relies on jsonwebtoken::decode with the HS256 algorithm and the given
/// audience required: the subject, audience and expiry claims of a token
/// whose signature and registered claims verified, or nothing. Expiry is
/// checked against the real clock inside the call, so nothing more is
/// promised of the outcome than that an accepted token carried the wanted
/// audience.
#[verifier::external_body]
fn jwt_decode_hs256(token: &str, secret: &str, audience: &str) -> (r: Option<(String, String, u64)>)
    ensures
        r matches Some(c) ==> c.1@ == audience@,
{
    let mut validation = jsonwebtoken::Validation::new(jsonwebtoken::Algorithm::HS256);
    validation.set_audience(&[audience]);
    let key = jsonwebtoken::DecodingKey::from_secret(secret.as_bytes());
    let data = jsonwebtoken::decode::<serde_json::Value>(token, &key, &validation).ok()?;
    let sub = data.claims.get("sub")?.as_str()?.to_owned();
    let aud = data.claims.get("aud")?.as_str()?.to_owned();
    let exp = data.claims.get("exp")?.as_u64()?;
    Some((sub, aud, exp))
}

/// Whether a request path skips authentication: promotion reads scoped to
/// one store, and every store read.
pub open spec fn spec_auth_bypass(path: Seq<char>, query: Option<Seq<char>>) -> bool {
    ||| (path == "/get-promo"@ && (match query {
        Some(q) => spec_contains(q, "store_id="@),
        None => false,
    }))
    ||| path == "/get-store"@
    ||| spec_starts_with(path, "/get-store/"@)
}

pub fn auth_bypass(path: &str, query: Option<&str>) -> (r: bool)
    ensures
        r == spec_auth_bypass(path@, match query {
            Some(q) => Some(q@),
            None => None::<Seq<char>>,
        }),
{
    if str_eq(path, "/get-promo") {
        match query {
            Some(q) => {
                if str_contains(q, "store_id=") {
                    return true;
                }
            },
            None => {},
        }
    }
    if str_eq(path, "/get-store") {
        return true;
    }
    str_starts_with(path, "/get-store/")
}

/// The bearer token carried by an authorization header value, if any.
pub open spec fn spec_bearer_token(header: Seq<char>) -> Option<Seq<char>> {
    if spec_starts_with(header, "Bearer "@) {
        Some(header.subrange("Bearer "@.len() as int, header.len() as int))
    } else {
        None
    }
}

pub fn extract_bearer(header: &str) -> (r: Option<String>)
    ensures
        r.deep_view() == spec_bearer_token(header@),
{
    if str_starts_with(header, "Bearer ") {
        let n: usize = "Bearer ".unicode_len();
        let tail = header.substring_char(n, header.unicode_len());
        Some(tail.to_owned())
    } else {
        None
    }
}

/// The claim-cache instant a stored expiry claim denotes: the claim as
/// seconds, held at the machine bound.
pub open spec fn spec_expiry_of_claim(exp: usize) -> i64 {
    if exp > i64::MAX as usize {
        i64::MAX
    } else {
        exp as i64
    }
}

/// Records claims that passed full verification: the one cache write of
/// the miss path. The entry is keyed by the token and carries exactly the
/// returned claims, with the expiry instant derived from the token's own
/// expiry claim; every other key is left untouched.
fn store_verified_claims(
    cache: &mut CacheRepository,
    token: &str,
    sub: String,
    aud: String,
    exp: u64,
) -> (r: Claims)
    requires
        old(cache).wf(),
    ensures
        final(cache).wf(),
        r@ == (ClaimsView { sub: sub@, aud: aud@, exp: exp as usize }),
        ({
            let m = spec_auth_tokens(*old(cache));
            let m2 = spec_auth_tokens(*final(cache));
            &&& m2.contains_key(token@)
            &&& m2[token@].token@ == token@
            &&& m2[token@].expiry == spec_expiry_of_claim(r@.exp)
            &&& m2[token@].claims.deep_view() == Some(r@)
            &&& exists|t: Token| m2 == #[trigger] m.insert(token@, t)
        }),
        final(cache).promo_cache_all == old(cache).promo_cache_all,
        final(cache).store_cache_all == old(cache).store_cache_all,
        final(cache).promo_store_cache_all == old(cache).promo_store_cache_all,
        final(cache).promo_tenor_cache_all == old(cache).promo_tenor_cache_all,
        final(cache).store_cache_by_route == old(cache).store_cache_by_route,
        final(cache).promo_store_cache_by_key == old(cache).promo_store_cache_by_key,
{
    let exp_claim: usize = exp as usize;
    let expiry: i64 = if exp_claim > i64::MAX as usize {
        i64::MAX
    } else {
        exp_claim as i64
    };
    let claims = Claims { sub, aud, exp: exp_claim };
    cache.save_token_claims(token.to_owned(), Some(claims.clone()), expiry);
    claims
}

/// The two-tier authentication check. A cache hit whose expiry has not
/// passed short-circuits signature verification and returns the cached
/// claims with the state unchanged; otherwise the token goes through full
/// verification, and only a success writes the cache, keyed by the token
/// with the expiry instant of the token's own expiry claim. A failure —
/// a missing signing secret included — reads as the same unauthorized
/// error, hiding the cause from the client, and leaves the claim cache
/// unpopulated: the read's lazy eviction of this token's expired entry is
/// the only change a failure may make.
pub fn authenticate(
    cache: &mut CacheRepository,
    token: &str,
    secret: Option<&str>,
    audience: &str,
    now: i64,
) -> (r: Result<Claims, AppError>)
    requires
        old(cache).wf(),
    ensures
        final(cache).wf(),
        final(cache).promo_cache_all == old(cache).promo_cache_all,
        final(cache).store_cache_all == old(cache).store_cache_all,
        final(cache).promo_store_cache_all == old(cache).promo_store_cache_all,
        final(cache).promo_tenor_cache_all == old(cache).promo_tenor_cache_all,
        final(cache).store_cache_by_route == old(cache).store_cache_by_route,
        final(cache).promo_store_cache_by_key == old(cache).promo_store_cache_by_key,
        ({
            let m = spec_auth_tokens(*old(cache));
            let m2 = spec_auth_tokens(*final(cache));
            &&& (m.contains_key(token@) && now < m[token@].expiry && m[token@].claims is Some)
                ==> (r matches Ok(c) && c.deep_view() == m[token@].claims.deep_view()->0
                    && *final(cache) == *old(cache))
            &&& (r matches Ok(c) ==> {
                &&& c@.aud == audience@ || (m.contains_key(token@) && now < m[token@].expiry)
                &&& m2.contains_key(token@)
                &&& (*final(cache) == *old(cache) || {
                    &&& secret is Some
                    &&& m2[token@].expiry == spec_expiry_of_claim(c@.exp)
                    &&& m2[token@].claims.deep_view() == Some(c@)
                    &&& forall|k: Seq<char>|
                        k != token@ ==> (m2.contains_key(k) <==> m.contains_key(k)) && (
                        m.contains_key(k) ==> m2[k] == m[k])
                })
            })
            &&& (r is Err ==> {
                &&& (r matches Err(e) && e is Unauthorized)
                &&& (m2 == m || m2 == m.remove(token@))
            })
            &&& ((secret is None && !(m.contains_key(token@) && now < m[token@].expiry
                && m[token@].claims is Some)) ==> r is Err)
        }),
{
    let ghost m = spec_auth_tokens(*cache);
    let cached = cache.get_cached_claims(token, now);
    match cached {
        Some(claims) => {
            return Ok(claims);
        },
        None => {},
    }
    let signing_secret = match secret {
        Some(s) => s,
        None => {
            return Err(AppError::Unauthorized);
        },
    };
    match jwt_decode_hs256(token, signing_secret, audience) {
        Some(parts) => {
            let (sub, aud, exp) = parts;
            let ghost m_mid = spec_auth_tokens(*cache);
            let claims = store_verified_claims(cache, token, sub, aud, exp);
            proof {
                let m2 = spec_auth_tokens(*cache);
                let t = choose|t: Token| m2 == #[trigger] m_mid.insert(token@, t);
                assert(m2 == m_mid.insert(token@, t));
                assert forall|k: Seq<char>| k != token@ implies (m2.contains_key(k)
                    <==> m.contains_key(k)) && (m.contains_key(k) ==> m2[k] == m[k]) by {
                    assert(m2.contains_key(k) <==> m_mid.contains_key(k));
                    assert(m_mid.contains_key(k) <==> m.contains_key(k));
                    if m.contains_key(k) {
                        assert(m_mid[k] == m[k]);
                        assert(m2[k] == m_mid[k]);
                    }
                }
            }
            Ok(claims)
        },
        None => Err(AppError::Unauthorized),
    }
}

} // verus!
