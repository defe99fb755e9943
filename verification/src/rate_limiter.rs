//! The sliding-window rate limiter. A request is keyed by a hashed,
//! non-reversible fingerprint of client address, user agent and accept
//! language; each fingerprint owns a self-pruning list of recent request
//! instants. Public paths and a global disable flag bypass the check.
//! The clock is handed in: state is one value here, and the surrounding
//! layer holds it behind its lock.

use vstd::prelude::*;
use vstd::string::StringExecFns;
use vstd::utf8::encode_utf8;
use sha2::Digest;
use crate::strutil::spec_hex_bytes;
use crate::strutil::spec_starts_with;
use crate::strutil::bytes_to_hex;
use crate::strutil::str_starts_with;
use crate::assoc::assoc_map;
use crate::assoc::assoc_unique;
use crate::assoc::assoc_get;
use crate::assoc::assoc_set;

verus! {

/// What sha2's Sha256 returns for given bytes: a function of the bytes
/// alone.
pub uninterp spec fn sha256_of(data: Seq<u8>) -> Seq<u8>;

/// Relies on sha2::Sha256::digest: the 32-byte digest of the input,
/// depending on the input alone.
#[verifier::external_body]
fn sha256(data: &[u8]) -> (r: Vec<u8>)
    ensures
        r@ == sha256_of(data@),
        r@.len() == 32,
{
    sha2::Sha256::digest(data).to_vec()
}

/// The fingerprint of one client: the lowercase hexadecimal digest of
/// `ip-user_agent-accept_language`. The same triple always yields the
/// same fingerprint.
pub open spec fn spec_fingerprint(ip: Seq<char>, ua: Seq<char>, lang: Seq<char>) -> Seq<char> {
    spec_hex_bytes(sha256_of(encode_utf8(ip + "-"@ + ua + "-"@ + lang)))
}

pub fn generate_fingerprint(ip: &str, user_agent: &str, accept_language: &str) -> (r: String)
    ensures
        r@ == spec_fingerprint(ip@, user_agent@, accept_language@),
{
    let mut data = ip.to_owned();
    data.append("-");
    data.append(user_agent);
    data.append("-");
    data.append(accept_language);
    proof {
        assert(data@ =~= ip@ + "-"@ + user_agent@ + "-"@ + accept_language@);
    }
    let digest = sha256(data.as_str().as_bytes());
    bytes_to_hex(&digest)
}

/// An instant still inside the window that ends at `now`.
pub open spec fn spec_in_window(t: u64, now: u64, window: u64) -> bool {
    now <= t || now - t < window
}

/// The paths exempt from both authentication and rate limiting.
pub open spec fn spec_is_public_path(path: Seq<char>) -> bool {
    ||| spec_starts_with(path, "/health"@)
    ||| spec_starts_with(path, "/ready"@)
    ||| spec_starts_with(path, "/metrics"@)
    ||| spec_starts_with(path, "/get-store"@)
    ||| spec_starts_with(path, "/get-promo"@)
    ||| spec_starts_with(path, "/get-promo-tenor"@)
    ||| spec_starts_with(path, "/get-promo-tenor-by-store"@)
}

pub fn is_public_path(path: &str) -> (r: bool)
    ensures
        r == spec_is_public_path(path@),
{
    str_starts_with(path, "/health") || str_starts_with(path, "/ready") || str_starts_with(
        path,
        "/metrics",
    ) || str_starts_with(path, "/get-store") || str_starts_with(path, "/get-promo")
        || str_starts_with(path, "/get-promo-tenor") || str_starts_with(
        path,
        "/get-promo-tenor-by-store",
    )
}

/// What one request is told.
pub enum RateDecision {
    Admitted,
    Limited,
    Bypassed,
}

pub struct RateLimiter {
    pub requests: Vec<(String, Vec<u64>)>,
    pub max_requests: usize,
    pub window_millis: u64,
    pub enabled: bool,
}

impl RateLimiter {
    pub open spec fn wf(&self) -> bool {
        assoc_unique(self.requests@)
    }

    /// The recorded instants of one fingerprint; no record reads as
    /// empty.
    pub open spec fn spec_window_of(&self, fp: Seq<char>) -> Seq<u64> {
        let m = assoc_map(self.requests@);
        if m.contains_key(fp) {
            m[fp]@
        } else {
            Seq::empty()
        }
    }

    pub fn new(max_requests: usize, window_millis: u64, enabled: bool) -> (r: Self)
        ensures
            r.wf(),
            r.max_requests == max_requests,
            r.window_millis == window_millis,
            r.enabled == enabled,
            r.requests@ =~= Seq::<(String, Vec<u64>)>::empty(),
    {
        RateLimiter { requests: Vec::new(), max_requests, window_millis, enabled }
    }

    /// One request under one fingerprint at one instant: instants that
    /// left the window are pruned; the request is admitted exactly when
    /// the pruned count is still under the cap, and only then is its
    /// instant recorded.
    pub fn check_at(&mut self, fingerprint: &str, now: u64) -> (admitted: bool)
        requires
            old(self).wf(),
        ensures
            final(self).wf(),
            final(self).max_requests == old(self).max_requests,
            final(self).window_millis == old(self).window_millis,
            final(self).enabled == old(self).enabled,
            ({
                let prior = old(self).spec_window_of(fingerprint@);
                let kept = prior.filter(
                    |t: u64| spec_in_window(t, now, old(self).window_millis),
                );
                &&& admitted == (kept.len() < old(self).max_requests)
                &&& final(self).spec_window_of(fingerprint@) == (if admitted {
                    kept.push(now)
                } else {
                    kept
                })
                &&& forall|k: Seq<char>|
                    k != fingerprint@ ==> final(self).spec_window_of(k) == old(
                        self,
                    ).spec_window_of(k)
            }),
    {
        let ghost w = self.window_millis;
        let ghost pred = |t: u64| spec_in_window(t, now, w);
        let prior: Vec<u64> = match assoc_get(&self.requests, fingerprint) {
            Some(v) => copy_times(v),
            None => Vec::new(),
        };
        proof {
            assert(prior@ == old(self).spec_window_of(fingerprint@));
        }
        let mut kept: Vec<u64> = Vec::new();
        let mut i: usize = 0;
        proof {
            reveal(Seq::filter);
            assert(prior@.subrange(0, 0).filter(pred) =~= Seq::<u64>::empty());
        }
        while i < prior.len()
            invariant
                0 <= i <= prior@.len(),
                w == self.window_millis,
                pred == (|t: u64| spec_in_window(t, now, w)),
                kept@ == prior@.subrange(0, i as int).filter(pred),
            decreases prior@.len() - i,
        {
            let t = prior[i];
            if now <= t || now - t < self.window_millis {
                kept.push(t);
            }
            i += 1;
            proof {
                reveal(Seq::filter);
                let post = prior@.subrange(0, i as int);
                assert(post.drop_last() =~= prior@.subrange(0, i - 1));
                assert(post.last() == prior@[i - 1]);
                assert(kept@ =~= post.filter(pred));
            }
        }
        proof {
            assert(prior@.subrange(0, prior@.len() as int) =~= prior@);
        }
        let admitted = kept.len() < self.max_requests;
        if admitted {
            kept.push(now);
        }
        assoc_set(&mut self.requests, fingerprint.to_owned(), kept);
        admitted
    }

    /// The whole middleware decision for one request: a disabled limiter
    /// or a public path bypasses the check and changes nothing; any other
    /// request is fingerprinted and put through the window.
    pub fn handle_request(
        &mut self,
        path: &str,
        ip: &str,
        user_agent: &str,
        accept_language: &str,
        now: u64,
    ) -> (r: RateDecision)
        requires
            old(self).wf(),
        ensures
            final(self).wf(),
            final(self).max_requests == old(self).max_requests,
            final(self).window_millis == old(self).window_millis,
            final(self).enabled == old(self).enabled,
            !old(self).enabled ==> r is Bypassed && *final(self) == *old(self),
            old(self).enabled && spec_is_public_path(path@) ==> r is Bypassed && *final(self)
                == *old(self),
            old(self).enabled && !spec_is_public_path(path@) ==> ({
                let fp = spec_fingerprint(ip@, user_agent@, accept_language@);
                let prior = old(self).spec_window_of(fp);
                let kept = prior.filter(
                    |t: u64| spec_in_window(t, now, old(self).window_millis),
                );
                &&& r is Admitted <==> kept.len() < old(self).max_requests
                &&& r is Limited <==> kept.len() >= old(self).max_requests
                &&& final(self).spec_window_of(fp) == (if kept.len() < old(self).max_requests {
                    kept.push(now)
                } else {
                    kept
                })
                &&& forall|k: Seq<char>|
                    k != fp ==> final(self).spec_window_of(k) == old(self).spec_window_of(k)
            }),
    {
        if !self.enabled {
            return RateDecision::Bypassed;
        }
        if is_public_path(path) {
            return RateDecision::Bypassed;
        }
        let fingerprint = generate_fingerprint(ip, user_agent, accept_language);
        if self.check_at(fingerprint.as_str(), now) {
            RateDecision::Admitted
        } else {
            RateDecision::Limited
        }
    }
}

/// A plain copy of a window's instants.
fn copy_times(v: &Vec<u64>) -> (r: Vec<u64>)
    ensures
        r@ == v@,
{
    let mut out: Vec<u64> = Vec::new();
    let mut i: usize = 0;
    while i < v.len()
        invariant
            0 <= i <= v@.len(),
            out@ == v@.subrange(0, i as int),
        decreases v@.len() - i,
    {
        out.push(v[i]);
        i += 1;
        proof {
            assert(out@ =~= v@.subrange(0, i as int));
        }
    }
    proof {
        assert(v@.subrange(0, v@.len() as int) =~= v@);
    }
    out
}

} // verus!
