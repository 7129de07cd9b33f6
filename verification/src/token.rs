//! Signed-token issuance and verification.
//!
//! A token carries three text claims: `createAt` (issue time, seconds),
//! `exp` (expiry time, seconds) and `payload` (caller-supplied text, usually
//! JSON). Assembling and checking the claims is the library's own logic and
//! is verified; the HMAC signing and signature verification are supplied by
//! outside crates behind trusted wrappers, whose common result is the named
//! token text `signed_token_of`.

use vstd::prelude::*;
use vstd::string::StringExecFns;

use crate::decimal::{is_signed_decimal, signed_decimal_digits, signed_decimal_value};
use crate::error::ClamberError;

verus! {

/// Token configuration: the signing secret and the expiry in days.
#[derive(Debug, Clone)]
pub struct JwtConfig {
    /// Signing secret.
    pub secret: String,
    /// How many days after issue a token expires.
    pub expire_days: i64,
}

impl Default for JwtConfig {
    /// The default configuration: a placeholder secret and a week of
    /// validity.
    fn default() -> (r: Self)
        ensures
            r.secret@ == "default_jwt_secret"@,
            r.expire_days == 7,
    {
        JwtConfig { secret: String::from_str("default_jwt_secret"), expire_days: 7 }
    }
}

impl JwtConfig {
    /// Builds a configuration from a secret and an expiry in days.
    pub fn new(secret: &str, expire_days: i64) -> (r: Self)
        ensures
            r.secret@ == secret@,
            r.expire_days == expire_days,
    {
        JwtConfig { secret: String::from_str(secret), expire_days }
    }
}

/// The claims of a token as (name, value) text pairs.
pub open spec fn claims_view(claims: Seq<(String, String)>) -> Seq<(Seq<char>, Seq<char>)> {
    claims.map_values(|c: (String, String)| (c.0@, c.1@))
}

/// The value of the first claim named `key`, if any.
pub open spec fn claim_lookup(claims: Seq<(Seq<char>, Seq<char>)>, key: Seq<char>) -> Option<
    Seq<char>,
>
    decreases claims.len(),
{
    if claims.len() == 0 {
        None
    } else if claims[0].0 == key {
        Some(claims[0].1)
    } else {
        claim_lookup(claims.skip(1), key)
    }
}

/// The claims as a map from name to value; a later claim wins over an
/// earlier one of the same name, as it does when the claims are collected
/// into an ordered map before signing.
pub open spec fn claims_map(claims: Seq<(Seq<char>, Seq<char>)>) -> Map<Seq<char>, Seq<char>>
    decreases claims.len(),
{
    if claims.len() == 0 {
        Map::empty()
    } else {
        claims_map(claims.drop_last()).insert(claims.last().0, claims.last().1)
    }
}

/// No two claims of the list share a name.
pub open spec fn distinct_claim_names(s: Seq<(Seq<char>, Seq<char>)>) -> bool {
    forall|i: int, j: int| 0 <= i < j < s.len() ==> (#[trigger] s[i]).0 != (#[trigger] s[j]).0
}

proof fn lemma_lookup_drop_last_no_match(s: Seq<(Seq<char>, Seq<char>)>, key: Seq<char>)
    requires
        s.len() > 0,
        s.last().0 != key,
    ensures
        claim_lookup(s, key) == claim_lookup(s.drop_last(), key),
    decreases s.len(),
{
    if s.len() == 1 {
        assert(s.skip(1) =~= Seq::<(Seq<char>, Seq<char>)>::empty());
        assert(s.drop_last() =~= Seq::<(Seq<char>, Seq<char>)>::empty());
        assert(s[0] == s.last());
    } else {
        assert(s.drop_last()[0] == s[0]);
        if s[0].0 != key {
            assert(s.skip(1).last() == s.last());
            lemma_lookup_drop_last_no_match(s.skip(1), key);
            assert(s.skip(1).drop_last() =~= s.drop_last().skip(1));
        }
    }
}

proof fn lemma_lookup_last_match(s: Seq<(Seq<char>, Seq<char>)>, key: Seq<char>)
    requires
        s.len() > 0,
        s.last().0 == key,
        forall|i: int| 0 <= i < s.len() - 1 ==> (#[trigger] s[i]).0 != key,
    ensures
        claim_lookup(s, key) == Some(s.last().1),
    decreases s.len(),
{
    if s.len() == 1 {
        assert(s[0] == s.last());
    } else {
        assert(s[0].0 != key);
        assert(s.skip(1).last() == s.last());
        assert(forall|i: int|
            0 <= i < s.skip(1).len() - 1 ==> (#[trigger] s.skip(1)[i]).0 != key);
        lemma_lookup_last_match(s.skip(1), key);
    }
}

proof fn lemma_lookup_is_map_lookup(s: Seq<(Seq<char>, Seq<char>)>, key: Seq<char>)
    requires
        distinct_claim_names(s),
    ensures
        claim_lookup(s, key) == (if claims_map(s).dom().contains(key) {
            Some(claims_map(s)[key])
        } else {
            None::<Seq<char>>
        }),
    decreases s.len(),
{
    if s.len() > 0 {
        let t = s.drop_last();
        assert forall|i: int, j: int| 0 <= i < j < t.len() implies (t[i]).0 != (t[j]).0 by {
            assert(t[i] == s[i]);
            assert(t[j] == s[j]);
        }
        lemma_lookup_is_map_lookup(t, key);
        if s.last().0 == key {
            assert forall|i: int| 0 <= i < s.len() - 1 implies (s[i]).0 != key by {
                assert(s[i].0 != s[s.len() - 1].0);
            }
            lemma_lookup_last_match(s, key);
        } else {
            lemma_lookup_drop_last_no_match(s, key);
        }
    }
}

/// Claims lists with distinct names and equal name-to-value maps answer
/// every lookup alike.
pub proof fn lemma_lookup_from_map(
    c1: Seq<(Seq<char>, Seq<char>)>,
    c2: Seq<(Seq<char>, Seq<char>)>,
    key: Seq<char>,
)
    requires
        distinct_claim_names(c1),
        distinct_claim_names(c2),
        claims_map(c1) == claims_map(c2),
    ensures
        claim_lookup(c1, key) == claim_lookup(c2, key),
{
    lemma_lookup_is_map_lookup(c1, key);
    lemma_lookup_is_map_lookup(c2, key);
}

/// What signing a claims list with a secret returns: the compact token
/// text. The result depends on the secret and the claims alone.
pub uninterp spec fn signed_token_of(secret: Seq<char>, claims: Seq<(Seq<char>, Seq<char>)>) -> Seq<
    char,
>;

/// Relies on hmac::Mac::new_from_slice for Hmac<Sha256> and on
/// jwt::SignWithKey::sign_with_key for an ordered claims map. Signing
/// always succeeds for these argument types — an HMAC key accepts a secret
/// of any length, and serialising a map of strings cannot fail — and is
/// deterministic in the secret and the claims, so the result is the named
/// text `signed_token_of`. The error arms below convert the outside errors
/// all the same, but the sources show neither is reachable.
#[verifier::external_body]
fn sign_claims(secret: &str, claims: &Vec<(String, String)>) -> (r: Result<String, ClamberError>)
    ensures
        r is Ok,
        r matches Ok(t) ==> t@ == signed_token_of(secret@, claims_view(claims@)),
{
    let key: hmac::Hmac<sha2::Sha256> = match hmac::Mac::new_from_slice(secret.as_bytes()) {
        Ok(k) => k,
        Err(e) => return Err(ClamberError::JwtKeyError { details: e.to_string() }),
    };
    let map: std::collections::BTreeMap<String, String> = claims.iter().cloned().collect();
    match jwt::SignWithKey::sign_with_key(map, &key) {
        Ok(t) => Ok(t),
        Err(e) => Err(ClamberError::JwtSignError { details: e.to_string() }),
    }
}

/// Relies on hmac::Mac::new_from_slice for Hmac<Sha256> and on
/// jwt::VerifyWithKey::verify_with_key for an ordered claims map: a token
/// that is the signing of some claims under this secret verifies, and the
/// claims come back with the same name-to-value map and distinct names;
/// any other token yields a verify-error value, never a panic. Building
/// the key cannot fail (an HMAC key accepts a secret of any length), so
/// every error comes from verification.
#[verifier::external_body]
fn verify_claims(secret: &str, token: &str) -> (r: Result<Vec<(String, String)>, ClamberError>)
    ensures
        r matches Ok(c) ==> (forall|i: int, j: int|
            0 <= i < j < c@.len() ==> (#[trigger] c@[i]).0@ != (#[trigger] c@[j]).0@),
        r matches Err(e) ==> e matches ClamberError::JwtVerifyError { .. },
        r matches Ok(c) ==> (forall|cl: Seq<(Seq<char>, Seq<char>)>|
            token@ == #[trigger] signed_token_of(secret@, cl) ==> claims_map(claims_view(c@))
                == claims_map(cl)),
        r is Err ==> (forall|cl: Seq<(Seq<char>, Seq<char>)>|
            token@ != #[trigger] signed_token_of(secret@, cl)),
{
    let key: hmac::Hmac<sha2::Sha256> = match hmac::Mac::new_from_slice(secret.as_bytes()) {
        Ok(k) => k,
        Err(e) => return Err(ClamberError::JwtVerifyError { details: e.to_string() }),
    };
    let map: std::collections::BTreeMap<String, String> =
        match jwt::VerifyWithKey::verify_with_key(token, &key) {
            Ok(m) => m,
            Err(e) => return Err(ClamberError::JwtVerifyError { details: e.to_string() }),
        };
    Ok(map.into_iter().collect())
}

/// The value of the first claim named `key`, as executable search.
fn find_claim(claims: &Vec<(String, String)>, key: &str) -> (r: Option<String>)
    ensures
        match r {
            Some(v) => claim_lookup(claims_view(claims@), key@) == Some(v@),
            None => claim_lookup(claims_view(claims@), key@) is None,
        },
{
    let ghost cv = claims_view(claims@);
    let len = claims.len();
    let mut i: usize = 0;
    proof {
        assert(cv.skip(0) =~= cv);
    }
    while i < len
        invariant
            i <= len,
            len == claims@.len(),
            cv == claims_view(claims@),
            cv.len() == len,
            claim_lookup(cv, key@) == claim_lookup(cv.skip(i as int), key@),
        decreases len - i,
    {
        proof {
            assert(cv.skip(i as int)[0] == cv[i as int]);
            assert(cv.skip(i as int).skip(1) =~= cv.skip(i + 1));
        }
        if crate::config::str_eq(claims[i].0.as_str(), key) {
            return Some(claims[i].1.clone());
        }
        i = i + 1;
    }
    proof {
        assert(cv.skip(len as int) =~= Seq::<(Seq<char>, Seq<char>)>::empty());
    }
    None
}

/// The claims carry an `exp` value that parses as a signed decimal and lies
/// after the given instant.
pub open spec fn claims_unexpired_at(claims: Seq<(Seq<char>, Seq<char>)>, now_secs: i64) -> bool {
    claim_lookup(claims, "exp"@) matches Some(e) && is_signed_decimal(e) && i64::MIN
        <= signed_decimal_value(e) <= i64::MAX && signed_decimal_value(e) > now_secs
}

/// Checks the expiry claim against the given instant.
pub fn claims_unexpired(claims: &Vec<(String, String)>, now_secs: i64) -> (r: bool)
    ensures
        r == claims_unexpired_at(claims_view(claims@), now_secs),
{
    match find_claim(claims, "exp") {
        None => false,
        Some(exp_text) => {
            match crate::decimal::parse_i64(exp_text.as_str()) {
                None => false,
                Some(exp) => exp > now_secs,
            }
        },
    }
}

/// Extracts the payload from verified claims at the given instant: the
/// `exp` claim must be present, parse as a signed decimal and lie after
/// `now_secs`, and the `payload` claim must be present; each failure names
/// its own error.
pub fn check_claims(claims: &Vec<(String, String)>, now_secs: i64) -> (r: Result<
    String,
    ClamberError,
>)
    ensures
        ({
            let cv = claims_view(claims@);
            match claim_lookup(cv, "exp"@) {
                None => r matches Err(e) && (e matches ClamberError::JwtMissingFieldError { field }
                    && field@ == "exp"@),
                Some(exp_text) => {
                    if !(is_signed_decimal(exp_text) && i64::MIN <= signed_decimal_value(exp_text)
                        <= i64::MAX) {
                        r matches Err(e) && e matches ClamberError::JwtError { .. }
                    } else if signed_decimal_value(exp_text) <= now_secs {
                        r == Err::<String, ClamberError>(ClamberError::JwtExpiredError)
                    } else {
                        match claim_lookup(cv, "payload"@) {
                            None => r matches Err(e) && (e matches
                                ClamberError::JwtMissingFieldError { field } && field@
                                == "payload"@),
                            Some(p) => r matches Ok(s) && s@ == p,
                        }
                    }
                },
            }
        }),
{
    let exp_text = match find_claim(claims, "exp") {
        None => {
            return Err(ClamberError::JwtMissingFieldError { field: String::from_str("exp") });
        },
        Some(t) => t,
    };
    let exp = match crate::decimal::parse_i64(exp_text.as_str()) {
        None => {
            return Err(ClamberError::JwtError {
                message: String::from_str("the expiry claim is not a signed decimal"),
            });
        },
        Some(v) => v,
    };
    if exp <= now_secs {
        return Err(ClamberError::JwtExpiredError);
    }
    match find_claim(claims, "payload") {
        None => Err(ClamberError::JwtMissingFieldError { field: String::from_str("payload") }),
        Some(p) => Ok(p),
    }
}

/// The expiry computation leaves the range of 64-bit seconds.
pub open spec fn expiry_overflows(now_secs: i64, expire_days: i64) -> bool {
    expire_days * 86400 > i64::MAX || expire_days * 86400 < i64::MIN || now_secs + expire_days
        * 86400 > i64::MAX || now_secs + expire_days * 86400 < i64::MIN
}

/// The claims issued for a payload at an instant with an expiry instant.
pub open spec fn issued_claims(payload: Seq<char>, created_secs: int, exp_secs: int) -> Seq<
    (Seq<char>, Seq<char>),
> {
    seq![
        ("createAt"@, signed_decimal_digits(created_secs)),
        ("exp"@, signed_decimal_digits(exp_secs)),
        ("payload"@, payload),
    ]
}

/// The issued claims carry distinct names, and looking up the expiry and
/// the payload yields what they were issued with.
pub proof fn lemma_issued_claims_lookup(payload: Seq<char>, created_secs: int, exp_secs: int)
    ensures
        distinct_claim_names(issued_claims(payload, created_secs, exp_secs)),
        claim_lookup(issued_claims(payload, created_secs, exp_secs), "exp"@) == Some(
            signed_decimal_digits(exp_secs),
        ),
        claim_lookup(issued_claims(payload, created_secs, exp_secs), "payload"@) == Some(payload),
{
    reveal_strlit("createAt");
    reveal_strlit("exp");
    reveal_strlit("payload");
    let s = issued_claims(payload, created_secs, exp_secs);
    assert("createAt"@.len() == 8);
    assert("exp"@.len() == 3);
    assert("payload"@.len() == 7);
    let t1 = s.skip(1);
    let t2 = t1.skip(1);
    assert(t1 =~= seq![("exp"@, signed_decimal_digits(exp_secs)), ("payload"@, payload)]);
    assert(t2 =~= seq![("payload"@, payload)]);
    assert(s[0].0 == "createAt"@);
    assert(t1[0].0 == "exp"@);
    assert(t2[0].0 == "payload"@);
    assert(claim_lookup(s, "exp"@) == claim_lookup(t1, "exp"@));
    assert(claim_lookup(t1, "exp"@) == Some(signed_decimal_digits(exp_secs)));
    assert(claim_lookup(s, "payload"@) == claim_lookup(t1, "payload"@));
    assert(claim_lookup(t1, "payload"@) == claim_lookup(t2, "payload"@));
    assert(claim_lookup(t2, "payload"@) == Some(payload));
}

/// Relies on std::time::SystemTime::now, read out as seconds since the
/// Unix epoch; a host clock standing before that epoch is reported as 0
/// rather than panicking. Nothing is assumed of the observation.
#[verifier::external_body]
fn current_secs() -> i64 {
    match std::time::SystemTime::now().duration_since(std::time::UNIX_EPOCH) {
        Ok(elapsed) => elapsed.as_secs() as i64,
        Err(_) => 0,
    }
}

/// Issues and verifies tokens under one configuration.
#[derive(Debug)]
pub struct JwtManager {
    config: JwtConfig,
}

impl JwtManager {
    /// The configuration in use.
    pub closed spec fn spec_config(&self) -> JwtConfig {
        self.config
    }

    /// Builds a manager from a configuration.
    pub fn new(config: JwtConfig) -> (r: Self)
        ensures
            r.spec_config() == config,
    {
        JwtManager { config }
    }

    /// Builds a manager with the default configuration.
    pub fn default() -> (r: Self)
        ensures
            r.spec_config().secret@ == "default_jwt_secret"@,
            r.spec_config().expire_days == 7,
    {
        JwtManager { config: JwtConfig::default() }
    }

    /// Signs `payload_json` into a token against an injected clock reading:
    /// the claims are `createAt` at the reading, `exp` at the reading plus
    /// the configured expiry, and `payload` as given. Fails exactly when
    /// the expiry computation leaves the range of 64-bit seconds.
    pub fn build_token_at(&self, payload_json: &str, now_secs: i64) -> (r: Result<
        String,
        ClamberError,
    >)
        ensures
            ({
                let days = self.spec_config().expire_days;
                if expiry_overflows(now_secs, days) {
                    r matches Err(e) && e matches ClamberError::JwtError { .. }
                } else {
                    r matches Ok(t) && t@ == signed_token_of(
                        self.spec_config().secret@,
                        issued_claims(payload_json@, now_secs as int, now_secs + days * 86400),
                    )
                }
            }),
    {
        let days = self.config.expire_days;
        let delta = match days.checked_mul(86400) {
            Some(d) => d,
            None => {
                return Err(ClamberError::JwtError {
                    message: String::from_str("the token expiry leaves the range of seconds"),
                });
            },
        };
        let exp = match now_secs.checked_add(delta) {
            Some(e) => e,
            None => {
                return Err(ClamberError::JwtError {
                    message: String::from_str("the token expiry leaves the range of seconds"),
                });
            },
        };
        let mut claims: Vec<(String, String)> = Vec::new();
        claims.push((String::from_str("createAt"), crate::decimal::i64_to_string(now_secs)));
        claims.push((String::from_str("exp"), crate::decimal::i64_to_string(exp)));
        claims.push((String::from_str("payload"), String::from_str(payload_json)));
        proof {
            assert(claims_view(claims@) =~= issued_claims(
                payload_json@,
                now_secs as int,
                now_secs + self.spec_config().expire_days * 86400,
            ));
        }
        sign_claims(self.config.secret.as_str(), &claims)
    }

    /// Signs `payload_json` into a token, observing the process clock.
    /// Fails only when the expiry computation leaves the range of 64-bit
    /// seconds at the observed instant.
    pub fn generate_token(&self, payload_json: &str) -> (r: Result<String, ClamberError>)
        ensures
            r matches Err(e) ==> e matches ClamberError::JwtError { .. },
            r matches Ok(t) ==> (exists|now_secs: i64|
                !expiry_overflows(now_secs, self.spec_config().expire_days) && t@
                    == #[trigger] signed_token_of(
                    self.spec_config().secret@,
                    issued_claims(
                        payload_json@,
                        now_secs as int,
                        now_secs + self.spec_config().expire_days * 86400,
                    ),
                )),
    {
        let now = current_secs();
        self.build_token_at(payload_json, now)
    }

    /// Verifies a token against an injected clock reading and returns its
    /// payload: the signature must verify under the configured secret, the
    /// `exp` claim must be present, parse, and lie after the reading, and
    /// the `payload` claim must be present.
    ///
    /// The second clause is the round trip: a token issued for a payload
    /// under this secret verifies back to exactly that payload at every
    /// reading before its expiry.
    pub fn verify_token_at(&self, token: &str, now_secs: i64) -> (r: Result<String, ClamberError>)
        ensures
            r matches Ok(p) ==> (exists|cv: Seq<(Seq<char>, Seq<char>)>|
                #[trigger] claim_lookup(cv, "payload"@) == Some(p@) && claims_unexpired_at(
                    cv,
                    now_secs,
                )),
            r matches Err(e) ==> (e matches ClamberError::JwtVerifyError { .. } || e
                == ClamberError::JwtExpiredError || e matches ClamberError::JwtMissingFieldError {
                ..
            } || e matches ClamberError::JwtError { .. }),
            forall|payload: Seq<char>, created_secs: int, exp_secs: int|
                (token@ == #[trigger] signed_token_of(
                    self.spec_config().secret@,
                    issued_claims(payload, created_secs, exp_secs),
                ) && i64::MIN <= exp_secs <= i64::MAX && exp_secs > now_secs) ==> (r matches Ok(p)
                    && p@ == payload),
    {
        let claims = match verify_claims(self.config.secret.as_str(), token) {
            Ok(c) => c,
            Err(e) => {
                return Err(e);
            },
        };
        let r = check_claims(&claims, now_secs);
        proof {
            let cv = claims_view(claims@);
            assert forall|payload: Seq<char>, created_secs: int, exp_secs: int|
                (token@ == #[trigger] signed_token_of(
                    self.spec_config().secret@,
                    issued_claims(payload, created_secs, exp_secs),
                ) && i64::MIN <= exp_secs <= i64::MAX && exp_secs > now_secs) implies (r matches Ok(
                p,
            ) && p@ == payload) by {
                let issued = issued_claims(payload, created_secs, exp_secs);
                lemma_issued_claims_lookup(payload, created_secs, exp_secs);
                crate::decimal::lemma_signed_decimal_round_trip(exp_secs);
                assert forall|i: int, j: int| 0 <= i < j < cv.len() implies (cv[i]).0 != (
                cv[j]).0 by {
                    assert(cv[i] == (claims@[i].0@, claims@[i].1@));
                    assert(cv[j] == (claims@[j].0@, claims@[j].1@));
                }
                assert(claims_map(cv) == claims_map(issued));
                lemma_lookup_from_map(cv, issued, "exp"@);
                lemma_lookup_from_map(cv, issued, "payload"@);
            }
        }
        r
    }

    /// Verifies a token against the process clock and returns its payload.
    /// An invalid signature yields the verify error; expiry, an unreadable
    /// expiry and a missing claim each yield their own kind.
    pub fn verify_token(&self, token: &str) -> (r: Result<String, ClamberError>)
        ensures
            r matches Ok(p) ==> (exists|cv: Seq<(Seq<char>, Seq<char>)>, now_secs: i64|
                claim_lookup(cv, "payload"@) == Some(p@) && #[trigger] claims_unexpired_at(
                    cv,
                    now_secs,
                )),
            r matches Err(e) ==> (e matches ClamberError::JwtVerifyError { .. } || e
                == ClamberError::JwtExpiredError || e matches ClamberError::JwtMissingFieldError {
                ..
            } || e matches ClamberError::JwtError { .. }),
    {
        let now = current_secs();
        self.verify_token_at(token, now)
    }

    /// Whether a token verifies under the configured secret and is not yet
    /// expired by the process clock; the payload is not inspected. A true
    /// result for a token that is the signing of some claims means those
    /// claims carry an expiry after the observed instant.
    pub fn is_valid_token(&self, token: &str) -> (r: bool)
        ensures
            r ==> (forall|cl: Seq<(Seq<char>, Seq<char>)>|
                (token@ == #[trigger] signed_token_of(self.spec_config().secret@, cl)
                    && distinct_claim_names(cl)) ==> (exists|at_secs: i64|
                    #[trigger] claims_unexpired_at(cl, at_secs))),
    {
        let claims = match verify_claims(self.config.secret.as_str(), token) {
            Ok(c) => c,
            Err(_) => {
                return false;
            },
        };
        let now = current_secs();
        let valid = claims_unexpired(&claims, now);
        proof {
            if valid {
                let cv = claims_view(claims@);
                assert forall|cl: Seq<(Seq<char>, Seq<char>)>|
                    (token@ == signed_token_of(self.spec_config().secret@, cl)
                        && distinct_claim_names(cl)) implies (exists|at_secs: i64|
                    #[trigger] claims_unexpired_at(cl, at_secs)) by {
                    assert forall|i: int, j: int| 0 <= i < j < cv.len() implies (cv[i]).0 != (
                    cv[j]).0 by {
                        assert(cv[i] == (claims@[i].0@, claims@[i].1@));
                        assert(cv[j] == (claims@[j].0@, claims@[j].1@));
                    }
                    lemma_lookup_from_map(cv, cl, "exp"@);
                    assert(claims_unexpired_at(cl, now));
                }
            }
        }
        valid
    }
}

/// Whether a token verifies under the default configuration and is not yet
/// expired. A true result for a token that is the signing of some claims
/// under the default secret means those claims carry an expiry after the
/// observed instant.
pub fn is_valid_token(token: &str) -> (r: bool)
    ensures
        r ==> (forall|cl: Seq<(Seq<char>, Seq<char>)>|
            (token@ == #[trigger] signed_token_of("default_jwt_secret"@, cl)
                && distinct_claim_names(cl)) ==> (exists|at_secs: i64|
                #[trigger] claims_unexpired_at(cl, at_secs))),
{
    JwtManager::default().is_valid_token(token)
}

} // verus!
