//! Cloudflare Access JWT authentication.
//!
//! Behind Cloudflare Access a request carries a signed token once the user
//! has authenticated. This module takes the token apart, judges its claims
//! and has its signature verified, to identify the user.
use crate::clock::seconds_now;
use crate::json::{
    all_texts, get_optional_i64, get_optional_text, get_present, json_as_array, json_as_str,
    json_is_object, json_model, optional_i64_member, optional_text_member, present_member,
    text_view, text_views, texts_from_array, JsonModel,
};
use crate::text::{
    contains, find, first_match_from, get_range, holds, occurs_in, range_of, remove_white_space,
    str_eq, trim, trimmed, without_white_space,
};
use base64::Engine;
use vstd::utf8::encode_utf8;
use vstd::prelude::*;

verus! {

/// The audience of a token: one tag, or several.
#[derive(Debug, Clone)]
pub enum CloudflareAudience {
    Single(String),
    Multiple(Vec<String>),
}

/// What an audience says.
pub enum AudienceModel {
    Single(Seq<char>),
    Multiple(Seq<Seq<char>>),
}

impl View for CloudflareAudience {
    type V = AudienceModel;

    open spec fn view(&self) -> AudienceModel {
        match *self {
            CloudflareAudience::Single(aud) => AudienceModel::Single(aud@),
            CloudflareAudience::Multiple(audiences) => AudienceModel::Multiple(
                text_views(audiences@),
            ),
        }
    }
}

/// Whether an audience names a tag.
pub open spec fn audience_names(audience: AudienceModel, tag: Seq<char>) -> bool {
    match audience {
        AudienceModel::Single(aud) => aud == tag,
        AudienceModel::Multiple(audiences) => audiences.contains(tag),
    }
}

impl CloudflareAudience {
    /// Tells whether the audience names a tag.
    pub fn names(&self, tag: &str) -> (r: bool)
        ensures
            r == audience_names(self@, tag@),
    {
        match self {
            CloudflareAudience::Single(aud) => str_eq(aud.as_str(), tag),
            CloudflareAudience::Multiple(audiences) => {
                let found = holds(audiences, tag);
                proof {
                    let views = text_views(audiences@);
                    if found {
                        let i = choose|i: int|
                            0 <= i < audiences@.len() && (#[trigger] audiences@[i])@ == tag@;
                        assert(views[i] == tag@);
                    }
                    if views.contains(tag@) {
                        let i = choose|i: int| 0 <= i < views.len() && views[i] == tag@;
                        assert(audiences@[i]@ == tag@);
                    }
                }
                found
            },
        }
    }
}

/// Claims extracted from Cloudflare Access JWT.
#[derive(Debug, Clone)]
pub struct CloudflareClaims {
    /// User's email address.
    pub email: Option<String>,
    /// User's unique identifier.
    pub sub: Option<String>,
    /// Issuer - should be https://<team>.cloudflareaccess.com
    pub iss: Option<String>,
    /// Audience - should match the Application AUD tag
    pub aud: Option<CloudflareAudience>,
    /// Expiration timestamp
    pub exp: Option<i64>,
    /// Issued at timestamp
    pub iat: Option<i64>,
    /// Groups the user belongs to (if configured).
    pub groups: Vec<String>,
    /// The whole payload of the token, custom claims included.
    pub extra: serde_json::Value,
}

/// What the claims of a token say.
pub struct ClaimsModel {
    pub email: Option<Seq<char>>,
    pub sub: Option<Seq<char>>,
    pub iss: Option<Seq<char>>,
    pub aud: Option<AudienceModel>,
    pub exp: Option<i64>,
    pub iat: Option<i64>,
    pub groups: Seq<Seq<char>>,
    pub extra: JsonModel,
}

impl View for CloudflareClaims {
    type V = ClaimsModel;

    open spec fn view(&self) -> ClaimsModel {
        ClaimsModel {
            email: text_view(self.email),
            sub: text_view(self.sub),
            iss: text_view(self.iss),
            aud: match self.aud {
                Some(a) => Some(a@),
                None => None,
            },
            exp: self.exp,
            iat: self.iat,
            groups: text_views(self.groups@),
            extra: json_model(self.extra),
        }
    }
}

/// The audience that a payload names: a string, or an array of strings.
/// `Ok(None)` where it names none, `Err` where it names anything else.
pub open spec fn audience_claim(m: JsonModel) -> Result<Option<AudienceModel>, ()> {
    match present_member(m, "aud"@) {
        None => Ok(None),
        Some(JsonModel::Text(aud)) => Ok(Some(AudienceModel::Single(aud))),
        Some(JsonModel::Array(items)) => match all_texts(items) {
            Some(audiences) => Ok(Some(AudienceModel::Multiple(audiences))),
            None => Err(()),
        },
        Some(_) => Err(()),
    }
}

/// The groups that a payload names: an array of strings, or none where the
/// payload has no `groups`. `Err` where `groups` is anything else.
pub open spec fn groups_claim(m: JsonModel) -> Result<Seq<Seq<char>>, ()> {
    match crate::json::member(m, "groups"@) {
        None => Ok(Seq::empty()),
        Some(JsonModel::Array(items)) => match all_texts(items) {
            Some(groups) => Ok(groups),
            None => Err(()),
        },
        Some(_) => Err(()),
    }
}

/// The claims that a payload holds; `None` where the payload is no object
/// or a claim is of the wrong kind.
pub open spec fn claims_of(m: JsonModel) -> Option<ClaimsModel> {
    if !(m is Object) {
        None
    } else {
        match (
            optional_text_member(m, "email"@),
            optional_text_member(m, "sub"@),
            optional_text_member(m, "iss"@),
            audience_claim(m),
            optional_i64_member(m, "exp"@),
            optional_i64_member(m, "iat"@),
            groups_claim(m),
        ) {
            (Ok(email), Ok(sub), Ok(iss), Ok(aud), Ok(exp), Ok(iat), Ok(groups)) => Some(
                ClaimsModel { email, sub, iss, aud, exp, iat, groups, extra: m },
            ),
            _ => None,
        }
    }
}

impl CloudflareClaims {
    /// Reads the claims out of the payload of a token.
    pub fn from_json(v: &serde_json::Value) -> (r: Option<Self>)
        ensures
            match r {
                Some(claims) => claims_of(json_model(*v)) == Some(claims@),
                None => claims_of(json_model(*v)) is None,
            },
    {
        if !json_is_object(v) {
            return None;
        }
        let email = match get_optional_text(v, "email") {
            Ok(s) => s,
            Err(_) => {
                return None;
            },
        };
        let sub = match get_optional_text(v, "sub") {
            Ok(s) => s,
            Err(_) => {
                return None;
            },
        };
        let iss = match get_optional_text(v, "iss") {
            Ok(s) => s,
            Err(_) => {
                return None;
            },
        };
        let aud = match get_present(v, "aud") {
            None => None,
            Some(a) => match json_as_str(a) {
                Some(single) => Some(CloudflareAudience::Single(single.to_owned())),
                None => match json_as_array(a) {
                    Some(items) => match texts_from_array(items) {
                        Some(audiences) => Some(CloudflareAudience::Multiple(audiences)),
                        None => {
                            return None;
                        },
                    },
                    None => {
                        return None;
                    },
                },
            },
        };
        let exp = match get_optional_i64(v, "exp") {
            Ok(n) => n,
            Err(_) => {
                return None;
            },
        };
        let iat = match get_optional_i64(v, "iat") {
            Ok(n) => n,
            Err(_) => {
                return None;
            },
        };
        let groups = match crate::json::json_get(v, "groups") {
            None => Vec::new(),
            Some(g) => match json_as_array(g) {
                Some(items) => match texts_from_array(items) {
                    Some(groups) => groups,
                    None => {
                        return None;
                    },
                },
                None => {
                    return None;
                },
            },
        };
        let claims = Self { email, sub, iss, aud, exp, iat, groups, extra: v.clone() };
        assert(claims@.groups =~= groups_claim(json_model(*v))->Ok_0);
        Some(claims)
    }
}

/// What `URL_SAFE_NO_PAD.decode` of the `base64` crate yields for an input:
/// the bytes it stands for, `None` where the crate reports an error.
pub uninterp spec fn base64url_decoded(input: Seq<u8>) -> Option<Seq<u8>>;

/// What `STANDARD.decode` of the `base64` crate yields for an input.
pub uninterp spec fn base64_decoded(input: Seq<u8>) -> Option<Seq<u8>>;

/// Whether `ring` takes a signature as the RSA PKCS#1 v1.5 SHA-256
/// signature of a message under a public key of 2048 to 8192 bits.
pub uninterp spec fn signature_verifies(key: Seq<u8>, message: Seq<u8>, signature: Seq<u8>) -> bool;

/// `Engine::decode` of `base64::engine::general_purpose::URL_SAFE_NO_PAD`.
/// The error is the text of what the crate reports.
#[verifier::external_body]
fn decode_base64_url(input: &[u8]) -> (r: Result<Vec<u8>, String>)
    ensures
        match r {
            Ok(bytes) => base64url_decoded(input@) == Some(bytes@),
            Err(_) => base64url_decoded(input@) is None,
        },
{
    base64::engine::general_purpose::URL_SAFE_NO_PAD.decode(input).map_err(
        |e| format!("Base64 decode error: {}", e),
    )
}

/// `Engine::decode` of `base64::engine::general_purpose::STANDARD`.
#[verifier::external_body]
fn decode_base64_standard(input: &[u8]) -> (r: Option<Vec<u8>>)
    ensures
        match r {
            Some(bytes) => base64_decoded(input@) == Some(bytes@),
            None => base64_decoded(input@) is None,
        },
{
    base64::engine::general_purpose::STANDARD.decode(input).ok()
}

/// `ring::signature::UnparsedPublicKey::verify` with
/// `RSA_PKCS1_2048_8192_SHA256`. The error is the text of what the crate
/// reports.
#[verifier::external_body]
fn verify_with_key(key: &[u8], message: &[u8], signature: &[u8]) -> (r: Result<(), String>)
    ensures
        r is Ok <==> signature_verifies(key@, message@, signature@),
{
    ring::signature::UnparsedPublicKey::new(
        &ring::signature::RSA_PKCS1_2048_8192_SHA256,
        key,
    ).verify(message, signature).map_err(|e| format!("Signature verify error: {}", e))
}

/// The line that opens a public key in PEM.
pub open spec fn pem_header() -> Seq<char> {
    "-----BEGIN PUBLIC KEY-----"@
}

/// The line that closes a public key in PEM.
pub open spec fn pem_footer() -> Seq<char> {
    "-----END PUBLIC KEY-----"@
}

/// The bytes that a base64 text stands for, in the standard alphabet or
/// else in the URL-safe one.
pub open spec fn base64_either(text: Seq<char>) -> Option<Seq<u8>> {
    match base64_decoded(encode_utf8(text)) {
        Some(bytes) => Some(bytes),
        None => base64url_decoded(encode_utf8(text)),
    }
}

/// The key that a configured text stands for.
///
/// A certificate is refused. A text without the PEM header is taken as
/// base64 where it is that, and as the key itself otherwise. In a text with
/// the header, what lies between header and footer is base64 once its white
/// space is removed; `Err` where it is not, or where the footer stands
/// before the header.
pub open spec fn key_material(public_key: Seq<char>) -> Result<Seq<u8>, ()> {
    let pem = trimmed(public_key);
    let bytes = encode_utf8(pem);
    if occurs_in("-----BEGIN CERTIFICATE-----"@, pem) {
        Err(())
    } else if !occurs_in(pem_header(), pem) {
        match base64_either(pem) {
            Some(key) => Ok(key),
            None => Ok(bytes),
        }
    } else {
        let start = match first_match_from(bytes, encode_utf8(pem_header()), 0) {
            Some(i) => i + encode_utf8(pem_header()).len(),
            None => 0,
        };
        let end = match first_match_from(bytes, encode_utf8(pem_footer()), 0) {
            Some(i) => i,
            None => bytes.len() as int,
        };
        match range_of(pem, start, end) {
            Some(body) => match base64_either(without_white_space(trimmed(body))) {
                Some(key) => Ok(key),
                None => Err(()),
            },
            None => Err(()),
        }
    }
}

fn decode_either(text: &str) -> (r: Result<Vec<u8>, String>)
    ensures
        match r {
            Ok(bytes) => base64_either(text@) == Some(bytes@),
            Err(_) => base64_either(text@) is None,
        },
{
    match decode_base64_standard(text.as_bytes()) {
        Some(bytes) => Ok(bytes),
        None => decode_base64_url(text.as_bytes()),
    }
}

/// Reads the key out of the text with which it is configured.
pub fn parse_rsa_public_key(pem: &str) -> (r: Result<Vec<u8>, String>)
    ensures
        match r {
            Ok(key) => key_material(pem@) == Ok::<Seq<u8>, ()>(key@),
            Err(_) => key_material(pem@) is Err,
        },
{
    let pem = trim(pem);
    if contains(pem, "-----BEGIN CERTIFICATE-----") {
        return Err(
            "cf_access_public_key contains a CERTIFICATE PEM; expected a PUBLIC KEY PEM".to_owned(),
        );
    }
    if !contains(pem, "-----BEGIN PUBLIC KEY-----") {
        return match decode_either(pem) {
            Ok(key) => Ok(key),
            Err(_) => Ok(vstd::slice::slice_to_vec(pem.as_bytes())),
        };
    }
    let header = "-----BEGIN PUBLIC KEY-----";
    let length = pem.as_bytes().len();
    let header_length = header.as_bytes().len();
    let start = match find(pem, header) {
        Some(i) => {
            proof {
                lemma_first_match_bound(encode_utf8(pem@), encode_utf8(header@), 0);
            }
            i + header_length
        },
        None => 0,
    };
    let end = match find(pem, "-----END PUBLIC KEY-----") {
        Some(i) => i,
        None => length,
    };
    let body = match get_range(pem, start, end) {
        Some(body) => body,
        None => {
            return Err("cf_access_public_key holds a malformed PUBLIC KEY PEM".to_owned());
        },
    };
    let compact = remove_white_space(trim(body));
    decode_either(compact.as_str())
}

/// A match lies within the bytes it is found in.
pub proof fn lemma_first_match_bound(bytes: Seq<u8>, pattern: Seq<u8>, from: int)
    requires
        0 <= from,
    ensures
        first_match_from(bytes, pattern, from) matches Some(i) ==> from <= i && i + pattern.len()
            <= bytes.len(),
    decreases bytes.len() - from,
{
    if from + pattern.len() <= bytes.len() && bytes.subrange(from, from + pattern.len())
        != pattern && from < bytes.len() {
        lemma_first_match_bound(bytes, pattern, from + 1);
    }
}

/// Verifies a signature under the key that a configured text stands for.
pub fn verify_rsa_sha256(public_key_pem: &str, message: &[u8], signature: &[u8]) -> (r: Result<
    (),
    String,
>)
    ensures
        r is Ok <==> (key_material(public_key_pem@) matches Ok(key) && signature_verifies(
            key,
            message@,
            signature@,
        )),
{
    match parse_rsa_public_key(public_key_pem) {
        Ok(key) => verify_with_key(key.as_slice(), message, signature),
        Err(e) => Err(e),
    }
}

/// The first position at or after `from` where the bytes hold a dot.
pub open spec fn dot_from(bytes: Seq<u8>, from: int) -> Option<int>
    decreases bytes.len() - from,
{
    if from < 0 || from >= bytes.len() {
        None
    } else if bytes[from] == 46u8 {
        Some(from)
    } else {
        dot_from(bytes, from + 1)
    }
}

/// The positions of the two dots of a token; `None` where the token does
/// not hold exactly two.
pub open spec fn token_dots(bytes: Seq<u8>) -> Option<(int, int)> {
    match dot_from(bytes, 0) {
        Some(first) => match dot_from(bytes, first + 1) {
            Some(second) => if dot_from(bytes, second + 1) is None {
                Some((first, second))
            } else {
                None
            },
            None => None,
        },
        None => None,
    }
}

/// A dot that is found lies within the bytes, at or after the start.
pub proof fn lemma_dot_from(bytes: Seq<u8>, from: int)
    requires
        0 <= from,
    ensures
        dot_from(bytes, from) matches Some(i) ==> from <= i < bytes.len() && bytes[i] == 46u8,
    decreases bytes.len() - from,
{
    if from < bytes.len() && bytes[from] != 46u8 {
        lemma_dot_from(bytes, from + 1);
    }
}

fn find_dot(bytes: &[u8], from: usize) -> (r: Option<usize>)
    requires
        from <= bytes@.len(),
    ensures
        match r {
            Some(i) => dot_from(bytes@, from as int) == Some(i as int) && from <= i < bytes@.len(),
            None => dot_from(bytes@, from as int) is None,
        },
{
    let mut i: usize = from;
    while i < bytes.len()
        invariant
            from <= i <= bytes@.len(),
            dot_from(bytes@, from as int) == dot_from(bytes@, i as int),
        decreases bytes@.len() - i,
    {
        if bytes[i] == 46 {
            return Some(i);
        }
        i += 1;
    }
    None
}

/// Why a token is turned down.
#[derive(Debug, Clone, Copy, PartialEq, Eq, Structural)]
pub enum FaultKind {
    Format,
    HeaderEncoding,
    HeaderJson,
    Algorithm,
    PayloadEncoding,
    ClaimsJson,
    Expired,
    MissingAudience,
    Audience,
    Issuer,
    SignatureEncoding,
    Signature,
}

/// Why a token is turned down, in kind and in words.
#[derive(Debug, Clone)]
pub struct TokenFault {
    pub kind: FaultKind,
    pub message: String,
}

/// What a token earns its bearer.
pub enum Verdict {
    NotPresent,
    Invalid(FaultKind),
    Authenticated(ClaimsModel),
}

/// The algorithm that the header of a token names; RS256 where it names
/// none.
pub open spec fn algorithm_of(header: JsonModel) -> Seq<char> {
    match crate::json::text_member(header, "alg"@) {
        Some(alg) => alg,
        None => "RS256"@,
    }
}

/// What is wrong with the claims of a token at a time, if anything: it has
/// expired, it does not name the audience that is asked for, or it is not
/// issued by Cloudflare Access.
pub open spec fn claims_fault(claims: ClaimsModel, aud_tag: Option<Seq<char>>, now: i64) -> Option<
    FaultKind,
> {
    if claims.exp is Some && claims.exp->0 < now {
        Some(FaultKind::Expired)
    } else if aud_tag is Some && claims.aud is None {
        Some(FaultKind::MissingAudience)
    } else if aud_tag is Some && !audience_names(claims.aud->0, aud_tag->0) {
        Some(FaultKind::Audience)
    } else if claims.iss is Some && !occurs_in(".cloudflareaccess.com"@, claims.iss->0) {
        Some(FaultKind::Issuer)
    } else {
        None
    }
}

/// What a token earns its bearer at a time, under a configured key and an
/// audience that may be asked for.
///
/// An empty token is no token. A token is three parts between two dots:
/// header, payload and signature, each in URL-safe base64. Header and
/// payload are JSON; the header must not name an algorithm other than RS256;
/// the claims of the payload must be in order; and the signature must be
/// that of header, dot and payload under the key.
pub open spec fn token_verdict(
    jwt: Seq<u8>,
    public_key: Seq<char>,
    aud_tag: Option<Seq<char>>,
    now: i64,
) -> Verdict {
    if jwt.len() == 0 {
        Verdict::NotPresent
    } else {
        match token_dots(jwt) {
            None => Verdict::Invalid(FaultKind::Format),
            Some((first, second)) => match base64url_decoded(jwt.subrange(0, first)) {
                None => Verdict::Invalid(FaultKind::HeaderEncoding),
                Some(header) => match crate::json::json_parsed_bytes(header) {
                    None => Verdict::Invalid(FaultKind::HeaderJson),
                    Some(header_document) => if algorithm_of(header_document) != "RS256"@ {
                        Verdict::Invalid(FaultKind::Algorithm)
                    } else {
                        match base64url_decoded(jwt.subrange(first + 1, second)) {
                            None => Verdict::Invalid(FaultKind::PayloadEncoding),
                            Some(payload) => payload_verdict(
                                jwt,
                                second,
                                payload,
                                public_key,
                                aud_tag,
                                now,
                            ),
                        }
                    },
                },
            },
        }
    }
}

/// What a token earns once its header is accepted and its payload decoded.
pub open spec fn payload_verdict(
    jwt: Seq<u8>,
    second: int,
    payload: Seq<u8>,
    public_key: Seq<char>,
    aud_tag: Option<Seq<char>>,
    now: i64,
) -> Verdict {
    match crate::json::json_parsed_bytes(payload) {
        None => Verdict::Invalid(FaultKind::ClaimsJson),
        Some(document) => match claims_of(document) {
            None => Verdict::Invalid(FaultKind::ClaimsJson),
            Some(claims) => match claims_fault(claims, aud_tag, now) {
                Some(kind) => Verdict::Invalid(kind),
                None => match base64url_decoded(jwt.subrange(second + 1, jwt.len() as int)) {
                    None => Verdict::Invalid(FaultKind::SignatureEncoding),
                    Some(signature) => match key_material(public_key) {
                        Ok(key) => if signature_verifies(key, jwt.subrange(0, second), signature) {
                            Verdict::Authenticated(claims)
                        } else {
                            Verdict::Invalid(FaultKind::Signature)
                        },
                        Err(_) => Verdict::Invalid(FaultKind::Signature),
                    },
                },
            },
        },
    }
}

/// What the outcome of a check says.
pub open spec fn verdict_of(outcome: Result<CloudflareClaims, Option<TokenFault>>) -> Verdict {
    match outcome {
        Ok(claims) => Verdict::Authenticated(claims@),
        Err(Some(fault)) => Verdict::Invalid(fault.kind),
        Err(None) => Verdict::NotPresent,
    }
}

fn fault(kind: FaultKind, prefix: &str, detail: &str) -> (r: Option<TokenFault>)
    ensures
        r matches Some(f) && f.kind == kind && f.message@ == prefix@ + detail@,
{
    Some(TokenFault { kind, message: crate::text::join(prefix, detail) })
}

/// Judges the claims of a token at a time.
pub fn judge_claims(claims: &CloudflareClaims, aud_tag: Option<&str>, now: i64) -> (r: Option<
    TokenFault,
>)
    ensures
        match r {
            Some(f) => claims_fault(claims@, optional_view(aud_tag), now) == Some(f.kind),
            None => claims_fault(claims@, optional_view(aud_tag), now) is None,
        },
        r matches Some(f) ==> (f.kind == FaultKind::Expired ==> f.message@ == "Token expired"@),
        r matches Some(f) ==> (f.kind == FaultKind::MissingAudience ==> f.message@
            == "Missing audience claim"@),
        r matches Some(f) ==> (f.kind == FaultKind::Issuer ==> f.message@ == "Invalid issuer: "@
            + claims@.iss->0),
{
    match claims.exp {
        Some(exp) => if exp < now {
            return Some(
                TokenFault { kind: FaultKind::Expired, message: "Token expired".to_owned() },
            );
        },
        None => {},
    }
    match aud_tag {
        Some(expected) => match &claims.aud {
            Some(aud) => if !aud.names(expected) {
                let got = match aud {
                    CloudflareAudience::Single(aud) => aud.clone(),
                    CloudflareAudience::Multiple(audiences) => crate::text::join_all(
                        audiences,
                        ",",
                    ),
                };
                let mut message = crate::text::join("Invalid audience: expected ", expected);
                message.append(", got ");
                message.append(got.as_str());
                return Some(TokenFault { kind: FaultKind::Audience, message });
            },
            None => {
                return Some(
                    TokenFault {
                        kind: FaultKind::MissingAudience,
                        message: "Missing audience claim".to_owned(),
                    },
                );
            },
        },
        None => {},
    }
    match &claims.iss {
        Some(iss) => if !contains(iss.as_str(), ".cloudflareaccess.com") {
            return fault(FaultKind::Issuer, "Invalid issuer: ", iss.as_str());
        },
        None => {},
    }
    None
}

/// The characters of an optional text.
pub open spec fn optional_view(s: Option<&str>) -> Option<Seq<char>> {
    match s {
        Some(s) => Some(s@),
        None => None,
    }
}

/// Result of JWT validation.
#[derive(Debug)]
pub enum CloudflareAuthResult {
    /// User is authenticated via Cloudflare Access.
    Authenticated(CloudflareClaims),
    /// Cloudflare Access headers not present (normal for non-CF requests).
    NotPresent,
    /// JWT validation failed.
    Invalid(String),
}

/// Checks a token at a time: takes it apart, judges its claims and has its
/// signature verified under the configured key. `Err(None)` where there is
/// no token.
pub fn check_cloudflare_token(jwt: &str, public_key: &str, aud_tag: Option<&str>, now: i64) -> (r:
    Result<CloudflareClaims, Option<TokenFault>>)
    ensures
        verdict_of(r) == token_verdict(encode_utf8(jwt@), public_key@, optional_view(aud_tag), now),
        r matches Err(Some(f)) ==> (f.kind == FaultKind::Format ==> f.message@
            == "Invalid JWT format"@),
        r matches Err(Some(f)) ==> (f.kind == FaultKind::Expired ==> f.message@
            == "Token expired"@),
        r matches Err(Some(f)) ==> (f.kind == FaultKind::MissingAudience ==> f.message@
            == "Missing audience claim"@),
{
    let bytes = jwt.as_bytes();
    if bytes.len() == 0 {
        return Err(None);
    }
    let malformed = Err(
        Some(TokenFault { kind: FaultKind::Format, message: "Invalid JWT format".to_owned() }),
    );
    let first = match find_dot(bytes, 0) {
        Some(i) => i,
        None => {
            return malformed;
        },
    };
    let second = match find_dot(bytes, first + 1) {
        Some(i) => i,
        None => {
            return malformed;
        },
    };
    if find_dot(bytes, second + 1).is_some() {
        return malformed;
    }
    let header = match decode_base64_url(vstd::slice::slice_subrange(bytes, 0, first)) {
        Ok(h) => h,
        Err(e) => {
            return Err(fault(FaultKind::HeaderEncoding, "Failed to decode header: ", e.as_str()));
        },
    };
    let header_document = match crate::json::json_parse_bytes(header.as_slice()) {
        Some(v) => v,
        None => {
            return Err(fault(FaultKind::HeaderJson, "Invalid header JSON", ""));
        },
    };
    let supported = match crate::json::get_text(&header_document, "alg") {
        Some(alg) => if str_eq(alg.as_str(), "RS256") {
            None
        } else {
            Some(alg)
        },
        None => None,
    };
    match supported {
        Some(alg) => {
            return Err(fault(FaultKind::Algorithm, "Unsupported algorithm: ", alg.as_str()));
        },
        None => {},
    }
    let payload = match decode_base64_url(vstd::slice::slice_subrange(bytes, first + 1, second)) {
        Ok(p) => p,
        Err(e) => {
            return Err(
                fault(FaultKind::PayloadEncoding, "Failed to decode payload: ", e.as_str()),
            );
        },
    };
    let claims = match crate::json::json_parse_bytes(payload.as_slice()) {
        Some(document) => match CloudflareClaims::from_json(&document) {
            Some(claims) => claims,
            None => {
                return Err(fault(FaultKind::ClaimsJson, "Invalid claims JSON", ""));
            },
        },
        None => {
            return Err(fault(FaultKind::ClaimsJson, "Invalid claims JSON", ""));
        },
    };
    match judge_claims(&claims, aud_tag, now) {
        Some(f) => {
            return Err(Some(f));
        },
        None => {},
    }
    let signature = match decode_base64_url(
        vstd::slice::slice_subrange(bytes, second + 1, bytes.len()),
    ) {
        Ok(s) => s,
        Err(e) => {
            return Err(
                fault(FaultKind::SignatureEncoding, "Failed to decode signature: ", e.as_str()),
            );
        },
    };
    let signed = vstd::slice::slice_subrange(bytes, 0, second);
    match verify_rsa_sha256(public_key, signed, signature.as_slice()) {
        Ok(_) => Ok(claims),
        Err(e) => Err(fault(FaultKind::Signature, "Signature verification failed: ", e.as_str())),
    }
}

/// Whether a result says what a verdict says.
pub open spec fn says(r: CloudflareAuthResult, verdict: Verdict) -> bool {
    match verdict {
        Verdict::NotPresent => r is NotPresent,
        Verdict::Invalid(_) => r is Invalid,
        Verdict::Authenticated(claims) => r matches CloudflareAuthResult::Authenticated(c) && c@
            == claims,
    }
}

/// Extract and validate Cloudflare Access JWT.
///
/// The token is validated against the configured public key at the time
/// of the call.
pub fn validate_cloudflare_token(jwt: &str, public_key: &str, aud_tag: Option<&str>) -> (r:
    CloudflareAuthResult)
    ensures
        exists|now: i64|
            says(
                r,
                #[trigger] token_verdict(
                    encode_utf8(jwt@),
                    public_key@,
                    optional_view(aud_tag),
                    now,
                ),
            ),
{
    validate_cloudflare_token_at(jwt, public_key, aud_tag, seconds_now())
}

/// Validates a token against the configured public key at the time `now`,
/// in seconds since the epoch.
pub fn validate_cloudflare_token_at(
    jwt: &str,
    public_key: &str,
    aud_tag: Option<&str>,
    now: i64,
) -> (r: CloudflareAuthResult)
    ensures
        says(r, token_verdict(encode_utf8(jwt@), public_key@, optional_view(aud_tag), now)),
{
    match check_cloudflare_token(jwt, public_key, aud_tag, now) {
        Ok(claims) => CloudflareAuthResult::Authenticated(claims),
        Err(Some(f)) => CloudflareAuthResult::Invalid(f.message),
        Err(None) => CloudflareAuthResult::NotPresent,
    }
}

/// One header of a request: its name and its value.
pub struct Header {
    pub name: String,
    pub value: String,
}

/// `str::eq_ignore_ascii_case`: whether two texts are the same but for the
/// case of their ASCII letters.
#[verifier::external_body]
fn eq_ignore_ascii_case(a: &str, b: &str) -> (r: bool)
    ensures
        r == same_but_case(a@, b@),
{
    a.eq_ignore_ascii_case(b)
}

/// A character with an ASCII capital turned into its small letter.
pub open spec fn small(c: char) -> char {
    if 'A' <= c <= 'Z' {
        ((c as u8) + 32u8) as char
    } else {
        c
    }
}

/// Whether two texts are the same but for the case of their ASCII letters.
pub open spec fn same_but_case(a: Seq<char>, b: Seq<char>) -> bool {
    a.len() == b.len() && forall|i: int| 0 <= i < a.len() ==> small(#[trigger] a[i]) == small(b[i])
}

/// The position of the first header of a name, whatever its case.
pub open spec fn header_from(headers: Seq<Header>, name: Seq<char>, from: int) -> Option<int>
    decreases headers.len() - from,
{
    if from < 0 || from >= headers.len() {
        None
    } else if same_but_case(headers[from].name@, name) {
        Some(from)
    } else {
        header_from(headers, name, from + 1)
    }
}

fn find_header(headers: &Vec<Header>, name: &str) -> (r: Option<usize>)
    ensures
        match r {
            Some(i) => header_from(headers@, name@, 0) == Some(i as int) && i < headers@.len(),
            None => header_from(headers@, name@, 0) is None,
        },
{
    let mut i: usize = 0;
    while i < headers.len()
        invariant
            i <= headers.len(),
            header_from(headers@, name@, 0) == header_from(headers@, name@, i as int),
        decreases headers.len() - i,
    {
        if eq_ignore_ascii_case(headers[i].name.as_str(), name) {
            return Some(i);
        }
        i += 1;
    }
    None
}

/// Whether a request shows a sign of Cloudflare Access: one of its two
/// headers, or its cookie.
pub open spec fn shows_cloudflare_access(headers: Seq<Header>) -> bool {
    ||| header_from(headers, "cf-access-jwt-assertion"@, 0) is Some
    ||| header_from(headers, "cf-access-client-token"@, 0) is Some
    ||| (header_from(headers, "cookie"@, 0) matches Some(i) && occurs_in(
        "CF_Authorization"@,
        headers[i].value@,
    ))
}

/// Check if Cloudflare Access headers are present in the request.
pub fn has_cloudflare_access_headers(headers: &Vec<Header>) -> (r: bool)
    ensures
        r == shows_cloudflare_access(headers@),
{
    if find_header(headers, "cf-access-jwt-assertion").is_some() {
        return true;
    }
    if find_header(headers, "cf-access-client-token").is_some() {
        return true;
    }
    match find_header(headers, "cookie") {
        Some(i) => contains(headers[i].value.as_str(), "CF_Authorization"),
        None => false,
    }
}

/// The position of the next semicolon at or after `from`, or the length of
/// the text where there is none.
pub open spec fn semicolon_from(s: Seq<char>, from: int) -> int
    decreases s.len() - from,
{
    if from < 0 || from >= s.len() {
        s.len() as int
    } else if s[from] == ';' {
        from
    } else {
        semicolon_from(s, from + 1)
    }
}

/// The token that one part of a cookie header holds: what follows
/// `CF_Access_JWT=` or `CF_Authorization=` at its start.
pub open spec fn cookie_part_token(part: Seq<char>) -> Option<Seq<char>> {
    if "CF_Access_JWT="@.is_prefix_of(part) {
        Some(part.skip("CF_Access_JWT="@.len() as int))
    } else if "CF_Authorization="@.is_prefix_of(part) {
        Some(part.skip("CF_Authorization="@.len() as int))
    } else {
        None
    }
}

/// The token that a cookie header holds from `from` on: that of the first
/// of its parts, between semicolons and trimmed, that holds one.
pub open spec fn cookie_token_from(cookie: Seq<char>, from: int) -> Option<Seq<char>>
    decreases cookie.len() - from,
{
    if from < 0 || from > cookie.len() {
        None
    } else {
        let end = semicolon_from(cookie, from);
        if end < from || end > cookie.len() {
            None
        } else {
            match cookie_part_token(trimmed(cookie.subrange(from, end))) {
                Some(token) => Some(token),
                None => if end >= cookie.len() {
                    None
                } else {
                    cookie_token_from(cookie, end + 1)
                },
            }
        }
    }
}

/// The end of a part lies between its start and the end of the text.
pub proof fn lemma_semicolon_from(s: Seq<char>, from: int)
    requires
        0 <= from <= s.len(),
    ensures
        from <= semicolon_from(s, from) <= s.len(),
    decreases s.len() - from,
{
    if from < s.len() && s[from] != ';' {
        lemma_semicolon_from(s, from + 1);
    }
}

fn part_token(part: &str) -> (r: Option<String>)
    ensures
        crate::json::text_view(r) == cookie_part_token(part@),
{
    match crate::text::strip_prefix(part, "CF_Access_JWT=") {
        Some(token) => {
            assert(token@ =~= part@.skip("CF_Access_JWT="@.len() as int));
            assert("CF_Access_JWT="@.is_prefix_of(part@));
            Some(token.to_owned())
        },
        None => match crate::text::strip_prefix(part, "CF_Authorization=") {
            Some(token) => {
                assert(token@ =~= part@.skip("CF_Authorization="@.len() as int));
                assert("CF_Authorization="@.is_prefix_of(part@));
                Some(token.to_owned())
            },
            None => None,
        },
    }
}

fn cookie_token(cookie: &str) -> (r: Option<String>)
    ensures
        crate::json::text_view(r) == cookie_token_from(cookie@, 0),
{
    let n = cookie.unicode_len();
    let mut from: usize = 0;
    loop
        invariant
            from <= n,
            n == cookie@.len(),
            cookie_token_from(cookie@, 0) == cookie_token_from(cookie@, from as int),
        decreases n - from,
    {
        let mut end: usize = from;
        while end < n && cookie.get_char(end) != ';'
            invariant
                from <= end <= n,
                n == cookie@.len(),
                semicolon_from(cookie@, from as int) == semicolon_from(cookie@, end as int),
            decreases n - end,
        {
            end += 1;
        }
        proof {
            lemma_semicolon_from(cookie@, from as int);
        }
        let part = trim(cookie.substring_char(from, end));
        match part_token(part) {
            Some(token) => {
                return Some(token);
            },
            None => {},
        }
        if end >= n {
            return None;
        }
        from = end + 1;
    }
}

/// The token that a request carries: that of the `Cf-Access-Jwt-Assertion`
/// header where there is one; else that of the cookie; else that of the
/// `CF-Access-Client-Token` header.
pub open spec fn carried_token(headers: Seq<Header>) -> Option<Seq<char>> {
    match header_from(headers, "cf-access-jwt-assertion"@, 0) {
        Some(i) => Some(headers[i].value@),
        None => match cookie_of(headers) {
            Some(token) => Some(token),
            None => match header_from(headers, "cf-access-client-token"@, 0) {
                Some(i) => Some(headers[i].value@),
                None => None,
            },
        },
    }
}

/// The token that the cookie header of a request holds.
pub open spec fn cookie_of(headers: Seq<Header>) -> Option<Seq<char>> {
    match header_from(headers, "cookie"@, 0) {
        Some(i) => cookie_token_from(headers[i].value@, 0),
        None => None,
    }
}

/// Extract Cloudflare Access JWT from request.
///
/// Checks headers in order:
/// 1. `Cf-Access-Jwt-Assertion` header (primary)
/// 2. `CF_Access_JWT` or `CF_Authorization` cookie (browser)
/// 3. `CF-Access-Client-Token` header (service tokens)
pub fn extract_cloudflare_jwt(headers: &Vec<Header>) -> (r: Option<String>)
    ensures
        crate::json::text_view(r) == carried_token(headers@),
{
    match find_header(headers, "cf-access-jwt-assertion") {
        Some(i) => {
            return Some(headers[i].value.clone());
        },
        None => {},
    }
    match find_header(headers, "cookie") {
        Some(i) => match cookie_token(headers[i].value.as_str()) {
            Some(token) => {
                return Some(token);
            },
            None => {},
        },
        None => {},
    }
    match find_header(headers, "cf-access-client-token") {
        Some(i) => Some(headers[i].value.clone()),
        None => None,
    }
}

} // verus!
