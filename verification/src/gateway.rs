use vstd::prelude::*;

use crate::catalog::{catalog_has, Catalog};
use crate::cookie::{cookie_json, token_view, CredentialCookie};
use crate::errors::GatewayError;
use crate::token::{claims_accepted, decoded_of, issue, verify, Claims, TOKEN_LIFETIME};

verus! {

/// `pat` occurs in `s` starting at position `i`.
pub open spec fn match_at(s: Seq<char>, pat: Seq<char>, i: int) -> bool {
    0 <= i && i + pat.len() <= s.len() && s.subrange(i, i + pat.len()) == pat
}

/// `pat` occurs somewhere in `s`.
pub open spec fn contains_seq(s: Seq<char>, pat: Seq<char>) -> bool {
    exists|i: int| match_at(s, pat, i)
}

/// Does `pat` occur in `s` at position `i`?
fn match_here(s: &str, pat: &str, i: usize) -> (r: bool)
    requires
        i + pat@.len() <= s@.len(),
        s@.len() <= usize::MAX,
    ensures
        r == match_at(s@, pat@, i as int),
{
    let m = pat.unicode_len();
    let mut k: usize = 0;
    while k < m
        invariant
            m == pat@.len(),
            i + m <= s@.len(),
            s@.len() <= usize::MAX,
            k <= m,
            forall|j: int| 0 <= j < k ==> s@[i + j] == pat@[j],
        decreases m - k,
    {
        if s.get_char(i + k) != pat.get_char(k) {
            proof {
                if match_at(s@, pat@, i as int) {
                    assert(s@.subrange(i as int, i + m as int)[k as int] == pat@[k as int]);
                }
            }
            return false;
        }
        k = k + 1;
    }
    proof {
        assert(s@.subrange(i as int, i + m as int) =~= pat@);
    }
    true
}

/// Substring search; exact: true just when `pat` occurs in `s`.
fn str_contains(s: &str, pat: &str) -> (r: bool)
    ensures
        r == contains_seq(s@, pat@),
{
    let n = s.unicode_len();
    let m = pat.unicode_len();
    if m > n {
        proof {
            if contains_seq(s@, pat@) {
                let i = choose|i: int| match_at(s@, pat@, i);
            }
        }
        return false;
    }
    if m == 0 {
        proof {
            assert(s@.subrange(0, 0) =~= pat@);
            assert(match_at(s@, pat@, 0));
        }
        return true;
    }
    let mut i: usize = 0;
    while i <= n - m
        invariant
            n == s@.len(),
            m == pat@.len(),
            0 < m <= n,
            i <= n - m + 1,
            forall|j: int| 0 <= j < i ==> !match_at(s@, pat@, j),
        decreases n - i,
    {
        if match_here(s, pat, i) {
            return true;
        }
        i = i + 1;
    }
    proof {
        if contains_seq(s@, pat@) {
            let j = choose|j: int| match_at(s@, pat@, j);
            assert(j + m <= n);
            assert(j < i);
        }
    }
    false
}

/// The view of the optional query string.
pub open spec fn query_view(q: Option<&String>) -> Option<Seq<char>> {
    match q {
        Option::Some(s) => Option::Some(s@),
        Option::None => Option::None,
    }
}

/// Rotation is an explicit opt-in: the inbound query string carries the
/// marker `token=true`.
pub open spec fn rotation_requested_spec(query: Option<Seq<char>>) -> bool {
    match query {
        Option::Some(q) => contains_seq(q, "token=true"@),
        Option::None => false,
    }
}

/// Inspect the original inbound query string for the rotation marker.
pub fn rotation_requested(query: Option<&String>) -> (r: bool)
    ensures
        r == rotation_requested_spec(query_view(query)),
{
    match query {
        Option::Some(q) => str_contains(q.as_str(), "token=true"),
        Option::None => false,
    }
}

/// Path rewrite: strip `prefix` if the path starts with it; otherwise
/// (defensively) leave the path unmodified.
pub open spec fn strip_prefix_spec(path: Seq<char>, prefix: Seq<char>) -> Seq<char> {
    if prefix.len() <= path.len() && path.subrange(0, prefix.len() as int) == prefix {
        path.skip(prefix.len() as int)
    } else {
        path
    }
}

/// Strip the `/resource/{name}` prefix from the inbound path.
pub fn strip_resource_prefix(path: &String, resource: &String) -> (r: String)
    ensures
        r@ == strip_prefix_spec(path@, "/resource/"@ + resource@),
{
    let mut prefix = String::from_str("/resource/");
    prefix.append(resource.as_str());
    let plen = prefix.as_str().unicode_len();
    let n = path.as_str().unicode_len();
    if plen <= n {
        if match_here(path.as_str(), prefix.as_str(), 0) {
            let rest = path.as_str().substring_char(plen, n);
            proof {
                assert(path@.skip(plen as int) =~= path@.subrange(plen as int, n as int));
            }
            return rest.to_owned();
        }
    }
    path.clone()
}

/// The backend origin joined with the rewritten path by exactly one
/// slash: the path replaces whatever the origin's own path was, as the
/// original's URL rewriting set it, so a base with or without its
/// trailing slash yields the same target.
pub open spec fn join_url(base: Seq<char>, path: Seq<char>) -> Seq<char> {
    let b = if base.len() > 0 && base.last() == '/' {
        base.drop_last()
    } else {
        base
    };
    let p = if path.len() > 0 && path.first() == '/' {
        path
    } else {
        seq!['/'] + path
    };
    b + p
}

/// The rewritten request target: the backend origin and the rewritten
/// path joined by one slash, then the original query string verbatim.
pub open spec fn target_spec(base: Seq<char>, path: Seq<char>, query: Option<Seq<char>>) -> Seq<
    char,
> {
    match query {
        Option::Some(q) => join_url(base, path) + "?"@ + q,
        Option::None => join_url(base, path),
    }
}

/// Rewrite an inbound request's target onto a resolved backend origin.
pub fn build_target(base: String, path: &String, query: Option<&String>) -> (r: String)
    ensures
        r@ == target_spec(base@, path@, query_view(query)),
{
    let ghost b: Seq<char> = base@;
    proof {
        reveal_strlit("/");
    }
    let bn = base.as_str().unicode_len();
    let strip_slash = bn > 0 && base.as_str().get_char(bn - 1) == '/';
    let mut r = if strip_slash {
        let trimmed = base.as_str().substring_char(0, bn - 1);
        proof {
            assert(trimmed@ =~= b.drop_last());
        }
        trimmed.to_owned()
    } else {
        base
    };
    let pn = path.as_str().unicode_len();
    if !(pn > 0 && path.as_str().get_char(0) == '/') {
        r.append("/");
    }
    r.append(path.as_str());
    proof {
        assert(r@ =~= join_url(b, path@));
    }
    match query {
        Option::Some(q) => {
            r.append("?");
            r.append(q.as_str());
            assert(r@ =~= target_spec(b, path@, query_view(query)));
        },
        Option::None => {
            assert(r@ =~= target_spec(b, path@, query_view(query)));
        },
    }
    r
}

/// The scope a rotation derives: the first group's first subscription,
/// or the empty scope if the subject has no group or no subscription.
pub fn derive_scope(groups: &Vec<Vec<String>>) -> (r: String)
    ensures
        groups@.len() > 0 && groups@[0]@.len() > 0 ==> r@ == groups@[0]@[0]@,
        !(groups@.len() > 0 && groups@[0]@.len() > 0) ==> r@ == Seq::<char>::empty(),
{
    if groups.len() > 0 {
        let first = &groups[0];
        if first.len() > 0 {
            return first[0].clone();
        }
    }
    String::new()
}

/// Everything the forwarding engine needs in order to relay one
/// request, decided before any backend call is made.
#[derive(Debug)]
pub struct ForwardPlan {
    /// The rewritten request target on the resolved backend.
    pub target_url: String,
    /// The rotated session envelope, when rotation was requested.
    pub new_cookie: Option<CredentialCookie>,
    /// Its serialized form, for the Set-Cookie response header.
    pub cookie_value: Option<String>,
    /// The claims of the freshly issued token, when rotation was requested.
    pub new_claims: Option<Claims>,
}

/// The session gate, run before the forwarding engine: an absent or
/// malformed envelope is rejected outright; an envelope without a token
/// is accepted as authenticated-but-unscoped; an envelope with a token
/// is accepted exactly when the token's signature check yields claims
/// that pass for this audience at this instant and name the envelope's
/// own subject — an invalid token is never downgraded to unscoped.
pub fn gate_session(
    key: &jsonwebtoken::DecodingKey,
    cookie: Option<CredentialCookie>,
    audience: &String,
    now: u64,
) -> (r: Result<(CredentialCookie, Option<Claims>), GatewayError>)
    ensures
        cookie is None ==> r is Err,
        (match cookie {
            Option::Some(c) => c.token is None,
            Option::None => false,
        }) ==> r is Ok,
        r matches Ok(p) ==> cookie == Option::Some(p.0),
        r matches Ok(p) ==> (p.1 is None <==> p.0.token is None),
        r matches Ok(p) ==> (match p.1 {
            Option::Some(cl) => claims_accepted(cl, audience@, now) && cl.subject@
                == p.0.subject@,
            Option::None => true,
        }),
        (match cookie {
            Option::Some(c) => (match c.token {
                Option::Some(t) => (r is Ok <==> (match decoded_of(*key, t@) {
                    Option::Some(cl) => claims_accepted(cl, audience@, now) && cl.subject@
                        == c.subject@,
                    Option::None => false,
                })),
                Option::None => true,
            }),
            Option::None => true,
        }),
        (match cookie {
            Option::Some(c) => (match c.token {
                Option::Some(t) => (match r {
                    Ok(p) => p.1 == decoded_of(*key, t@),
                    Err(_) => true,
                }),
                Option::None => true,
            }),
            Option::None => true,
        }),
        r is Err ==> r == Err::<(CredentialCookie, Option<Claims>), GatewayError>(
            GatewayError::Unauthorized,
        ),
{
    match cookie {
        Option::None => Err(GatewayError::Unauthorized),
        Option::Some(c) => {
            let verdict = match &c.token {
                Option::None => Option::None,
                Option::Some(t) => Option::Some(verify(key, t, audience, now)),
            };
            match verdict {
                Option::None => Ok((c, Option::None)),
                Option::Some(Ok(cl)) => {
                    if cl.subject == c.subject {
                        Ok((c, Option::Some(cl)))
                    } else {
                        Err(GatewayError::Unauthorized)
                    }
                },
                Option::Some(Err(_)) => Err(GatewayError::Unauthorized),
            }
        },
    }
}

/// Handle one proxied request after the session gate: resolve the
/// catalog first — a miss is terminal, reported as `ResourceNotFound`
/// before any rotation work, so no backend call and no store query can
/// follow from it — then decide rotation from the original query
/// string, derive the new scope and re-issue the token if rotation was
/// asked for, and rewrite the target.
pub fn handle_resource(
    key: &jsonwebtoken::EncodingKey,
    catalog: &Catalog,
    cookie: &CredentialCookie,
    resource: &String,
    path: &String,
    query: Option<&String>,
    audience: &String,
    groups: &Vec<Vec<String>>,
    now: u64,
) -> (r: Result<ForwardPlan, GatewayError>)
    requires
        now + TOKEN_LIFETIME <= u64::MAX,
    ensures
        r matches Ok(p) ==> catalog_has(catalog.entries@, resource@) && exists|i: int|
            0 <= i < catalog.entries@.len() && catalog.entries@[i].0@ == resource@
                && p.target_url@ == target_spec(
                catalog.entries@[i].1@,
                strip_prefix_spec(path@, "/resource/"@ + resource@),
                query_view(query),
            ),
        r == Err::<ForwardPlan, GatewayError>(GatewayError::ResourceNotFound) <==> !catalog_has(
            catalog.entries@,
            resource@,
        ),
        !rotation_requested_spec(query_view(query)) ==> (r is Err <==> !catalog_has(
            catalog.entries@,
            resource@,
        )),
        r is Err ==> r == Err::<ForwardPlan, GatewayError>(GatewayError::ResourceNotFound) || r
            == Err::<ForwardPlan, GatewayError>(GatewayError::General),
        r == Err::<ForwardPlan, GatewayError>(GatewayError::General) ==> rotation_requested_spec(
            query_view(query),
        ),
        rotation_requested_spec(query_view(query)) ==> (match r {
            Ok(p) => match (p.new_cookie, p.new_claims, p.cookie_value) {
                (Option::Some(nc), Option::Some(c), Option::Some(cv)) => nc.subject@
                    == cookie.subject@ && nc.token is Some && c.subject@ == cookie.subject@
                    && c.audience@ == audience@ && (groups@.len() > 0 && groups@[0]@.len() > 0
                    ==> c.scope@ == groups@[0]@[0]@) && (!(groups@.len() > 0 && groups@[0]@.len()
                    > 0) ==> c.scope@ == Seq::<char>::empty()) && c.issued_at == now
                    && c.expires_at == now + TOKEN_LIFETIME && cv@ == cookie_json(
                    cookie.subject@,
                    token_view(nc.token),
                ),
                _ => false,
            },
            Err(_) => true,
        }),
        !rotation_requested_spec(query_view(query)) ==> (r matches Ok(p) ==> p.new_cookie is None
            && p.cookie_value is None && p.new_claims is None),
{
    let base = match catalog.get_resource(resource) {
        Ok(b) => b,
        Err(e) => {
            return Err(e);
        },
    };
    let rotate = rotation_requested(query);
    let mut new_cookie: Option<CredentialCookie> = Option::None;
    let mut cookie_value: Option<String> = Option::None;
    let mut new_claims: Option<Claims> = Option::None;
    if rotate {
        let scope = derive_scope(groups);
        match issue(key, &cookie.subject, audience, scope, now, TOKEN_LIFETIME) {
            Ok((tok, claims)) => {
                let nc = cookie.rotated(tok);
                cookie_value = Option::Some(nc.encode());
                new_cookie = Option::Some(nc);
                new_claims = Option::Some(claims);
            },
            Err(_) => {
                return Err(GatewayError::General);
            },
        }
    }
    let rest = strip_resource_prefix(path, resource);
    let target = build_target(base, &rest, query);
    Ok(ForwardPlan { target_url: target, new_cookie, cookie_value, new_claims })
}

} // verus!
